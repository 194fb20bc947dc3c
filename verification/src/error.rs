use vstd::prelude::*;

verus! {

/// The single failure kind of this contract: every rejected call — invalid
/// setup parameters, a replayed or mismatched creation callback, a spoofed
/// payment notifier, a wrong payment amount — surfaces as an authorization
/// failure.
#[derive(Clone, Copy, Debug, PartialEq, Eq, Structural)]
pub enum ContractError {
    Unauthorized,
}

} // verus!
