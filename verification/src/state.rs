use vstd::prelude::*;

verus! {

/// The contract's one persisted record, created at setup and mutated exactly
/// once: the creation callback fills `cw721_address`, and no handler changes
/// any other field afterwards.
///
/// Addresses are held as plain strings; the host is the authority on what an
/// address means. `cw721_address` is `None` until the collection sub-contract
/// has reported its address back.
#[derive(Clone, Debug)]
pub struct Config {
    /// The deploying account: the sender of the setup transaction.
    pub owner: String,
    /// The fungible payment-token contract; only notifications from this
    /// identity are accepted as payments.
    pub cw20_address: String,
    /// The spawned collection contract, absent until the creation callback
    /// arrives.
    pub cw721_address: Option<String>,
    /// The configured cap on the number of tokens; positive once set.
    pub max_tokens: u32,
    /// The fixed price of one token; positive once set.
    pub unit_price: u128,
    /// Display name of the collection, copied into the creation request.
    pub name: String,
    /// Display symbol of the collection, copied into the creation request.
    pub symbol: String,
    /// The shared token URI, copied verbatim onto every minted token.
    pub token_uri: String,
    /// The shared metadata extension, copied verbatim onto every minted token.
    pub extension: Option<String>,
}

impl Config {
    /// The setup handler validates its numeric parameters before writing the
    /// record, so a stored configuration always has a positive price and a
    /// positive token cap.
    pub open spec fn well_formed(self) -> bool {
        self.unit_price > 0 && self.max_tokens > 0
    }

    /// Whether the creation callback has already recorded the collection
    /// contract's address: only then are purchases possible.
    pub open spec fn is_ready(self) -> bool {
        self.cw721_address is Some
    }
}

/// The configuration as it stands after a successful creation callback: the
/// collection address is filled in and every other field is kept.
pub open spec fn with_collection(config: Config, collection: String) -> Config {
    Config { cw721_address: Some(collection), ..config }
}

} // verus!
