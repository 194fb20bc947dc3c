use vstd::prelude::*;

use crate::error::ContractError;
use crate::msg::{CreateCollectionRequest, ExecuteMsg, InstantiateMsg, MintRequest};
use crate::state::{with_collection, Config};

verus! {

/// The correlation identifier attached to the one collection-creation
/// request; the creation callback must carry it back.
pub const INSTANTIATE_TOKEN_REPLY_ID: u64 = 1;

/// The identifier written on every minted token. Token-id bookkeeping is
/// deliberately out of scope: every mint reuses this one constant, so
/// repeated purchases do not receive distinct identifiers.
pub open spec fn spec_mint_token_id() -> Seq<char> {
    "1"@
}

/// Whether a setup message passes validation: both numeric parameters must
/// be positive.
pub open spec fn setup_accepted(msg: InstantiateMsg) -> bool {
    msg.unit_price > 0 && msg.max_tokens > 0
}

/// The configuration record a successful setup persists: the sender of the
/// setup transaction becomes the owner, the collection address starts unset,
/// and the remaining fields are copied from the message.
pub open spec fn initial_config(sender: String, msg: InstantiateMsg) -> Config {
    Config {
        owner: sender,
        cw20_address: msg.cw20_address,
        cw721_address: None,
        max_tokens: msg.max_tokens,
        unit_price: msg.unit_price,
        name: msg.name,
        symbol: msg.symbol,
        token_uri: msg.token_uri,
        extension: msg.extension,
    }
}

/// The creation request a successful setup queues: the collection's display
/// name and symbol from the message, this contract's own address as the
/// minting authority, and the fixed correlation identifier as the tag.
pub open spec fn creation_request(contract_address: String, msg: InstantiateMsg) -> CreateCollectionRequest {
    CreateCollectionRequest {
        code_id: msg.token_code_id,
        name: msg.name,
        symbol: msg.symbol,
        minter: contract_address,
        correlation_id: INSTANTIATE_TOKEN_REPLY_ID,
    }
}

/// Whether a creation callback is accepted: the collection address must not
/// have been recorded yet (a duplicate or replayed callback is rejected) and
/// the callback's correlation identifier must match the one the creation
/// request was tagged with.
pub open spec fn callback_accepted(config: Config, correlation_id: u64) -> bool {
    config.cw721_address is None && correlation_id == INSTANTIATE_TOKEN_REPLY_ID
}

/// Whether a payment notification is accepted: it must come from the
/// configured payment-token contract, carry exactly the configured unit
/// price, and the collection contract must already exist to mint on.
pub open spec fn payment_accepted(config: Config, notifier: Seq<char>, amount: u128) -> bool {
    &&& notifier == config.cw20_address@
    &&& amount == config.unit_price
    &&& config.is_ready()
}

/// The mint request a successful purchase queues: addressed to the recorded
/// collection contract, owned by the purchaser named in the notification,
/// carrying the constant token identifier and the configured URI and
/// extension.
pub open spec fn mint_request_matches(req: MintRequest, config: Config, buyer: String) -> bool {
    &&& req.collection == config.cw721_address.unwrap()
    &&& req.token_id@ == spec_mint_token_id()
    &&& req.owner == buyer
    &&& req.token_uri == config.token_uri
    &&& req.extension == config.extension
}

/// Handles the one-time setup message.
///
/// `contract_address` is this contract's own address (it becomes the minting
/// authority on the new collection) and `sender` is the account that sent
/// the setup transaction (it becomes the owner). Succeeds exactly when both
/// the unit price and the token cap are positive; then it returns the
/// configuration record to persist, with the collection address unset, and
/// the one collection-creation request to queue.
pub fn instantiate(contract_address: String, sender: String, msg: InstantiateMsg) -> (r: Result<
    (Config, CreateCollectionRequest),
    ContractError,
>)
    ensures
        r is Ok <==> setup_accepted(msg),
        r is Err ==> r->Err_0 == ContractError::Unauthorized,
        r is Ok ==> r->Ok_0.0 == initial_config(sender, msg),
        r is Ok ==> r->Ok_0.1 == creation_request(contract_address, msg),
{
    if msg.unit_price == 0 {
        return Err(ContractError::Unauthorized);
    }
    if msg.max_tokens == 0 {
        return Err(ContractError::Unauthorized);
    }
    let config = Config {
        owner: sender,
        cw20_address: msg.cw20_address.clone(),
        cw721_address: None,
        max_tokens: msg.max_tokens,
        unit_price: msg.unit_price,
        name: msg.name.clone(),
        symbol: msg.symbol.clone(),
        token_uri: msg.token_uri,
        extension: msg.extension,
    };
    let request = CreateCollectionRequest {
        code_id: msg.token_code_id,
        name: msg.name,
        symbol: msg.symbol,
        minter: contract_address,
        correlation_id: INSTANTIATE_TOKEN_REPLY_ID,
    };
    Ok((config, request))
}

/// Handles the host's asynchronous acknowledgment of the collection
/// creation.
///
/// `correlation_id` is the tag the host carries back and
/// `collection_address` is the new contract's address extracted from the
/// callback payload. Succeeds exactly when the collection address is still
/// unset and the tag matches the creation request's; then it records the
/// address and changes nothing else. On failure the configuration is left
/// unchanged. No outbound message is produced in either case.
pub fn reply(config: &mut Config, correlation_id: u64, collection_address: String) -> (r: Result<
    (),
    ContractError,
>)
    ensures
        r is Ok <==> callback_accepted(*old(config), correlation_id),
        r is Ok ==> *final(config) == with_collection(*old(config), collection_address),
        r is Err ==> *final(config) == *old(config),
        r is Err ==> r->Err_0 == ContractError::Unauthorized,
{
    if config.cw721_address.is_some() {
        return Err(ContractError::Unauthorized);
    }
    if correlation_id != INSTANTIATE_TOKEN_REPLY_ID {
        return Err(ContractError::Unauthorized);
    }
    config.cw721_address = Some(collection_address);
    Ok(())
}

/// Dispatches an inbound execute message. The only message is the payment
/// notification, which is handed to [`execute_receive`] unchanged.
pub fn execute(config: &Config, info_sender: String, msg: ExecuteMsg) -> (r: Result<
    MintRequest,
    ContractError,
>)
    ensures
        msg matches ExecuteMsg::Cw20ReceiveMsg { sender, amount } ==> {
            &&& r is Ok <==> payment_accepted(*config, info_sender@, amount)
            &&& r is Ok ==> mint_request_matches(r->Ok_0, *config, sender)
            &&& r is Err ==> r->Err_0 == ContractError::Unauthorized
        },
{
    match msg {
        ExecuteMsg::Cw20ReceiveMsg { sender, amount } => execute_receive(
            config,
            info_sender,
            sender,
            amount,
        ),
    }
}

/// Handles a payment notification: `info_sender` is the contract that sent
/// the notification, `sender` the account the transfer was made on behalf
/// of, `amount` the transferred amount.
///
/// Succeeds exactly when the notifier is the configured payment-token
/// contract, the amount equals the configured unit price, and the collection
/// address has been recorded; then it returns the one mint request to queue,
/// addressed to the collection contract, owned by `sender`, with the
/// constant token identifier and the configured URI and extension. A
/// notification from any other identity fails whatever the amount; a
/// purchase attempted before the creation callback has resolved fails as
/// well.
pub fn execute_receive(config: &Config, info_sender: String, sender: String, amount: u128) -> (r:
    Result<MintRequest, ContractError>)
    ensures
        r is Ok <==> payment_accepted(*config, info_sender@, amount),
        r is Ok ==> mint_request_matches(r->Ok_0, *config, sender),
        r is Err ==> r->Err_0 == ContractError::Unauthorized,
{
    if info_sender != config.cw20_address {
        return Err(ContractError::Unauthorized);
    }
    if amount != config.unit_price {
        return Err(ContractError::Unauthorized);
    }
    match &config.cw721_address {
        Some(collection) => {
            Ok(MintRequest {
                collection: collection.clone(),
                token_id: mint_token_id(),
                owner: sender,
                token_uri: config.token_uri.clone(),
                extension: config.extension.clone(),
            })
        },
        None => Err(ContractError::Unauthorized),
    }
}

/// The collection address transitions from unset to set exactly once: after
/// a creation callback has been accepted, every further callback is
/// rejected, whatever correlation identifier it carries.
pub proof fn lemma_callback_fires_once(config: Config, collection: String, correlation_id: u64)
    ensures
        !callback_accepted(with_collection(config, collection), correlation_id),
{
}

/// A successful setup leaves the contract awaiting the creation callback: a
/// callback carrying the correlation identifier of the queued creation
/// request is accepted on the stored configuration.
pub proof fn lemma_setup_awaits_callback(
    contract_address: String,
    sender: String,
    msg: InstantiateMsg,
)
    requires
        setup_accepted(msg),
    ensures
        initial_config(sender, msg).well_formed(),
        !initial_config(sender, msg).is_ready(),
        callback_accepted(
            initial_config(sender, msg),
            creation_request(contract_address, msg).correlation_id,
        ),
{
}

/// The callback records exactly the reported address and keeps the rest of
/// the configuration: afterwards the contract is ready, still well formed,
/// and a payment of exactly the unit price from the configured payment-token
/// contract is accepted.
pub proof fn lemma_callback_makes_ready(config: Config, collection: String)
    requires
        config.well_formed(),
    ensures
        with_collection(config, collection).well_formed(),
        with_collection(config, collection).is_ready(),
        with_collection(config, collection).cw721_address == Some(collection),
        payment_accepted(
            with_collection(config, collection),
            config.cw20_address@,
            config.unit_price,
        ),
{
}

/// Token identifiers are not distinct across purchases: any two mint
/// requests a configuration gives out carry the same constant identifier,
/// whoever the buyers are. Distinct identifiers per purchase would need an
/// identifier-allocation scheme, which this contract does not keep.
pub proof fn lemma_repeat_purchase_reuses_token_id(
    config: Config,
    first_buyer: String,
    first: MintRequest,
    second_buyer: String,
    second: MintRequest,
)
    requires
        mint_request_matches(first, config, first_buyer),
        mint_request_matches(second, config, second_buyer),
    ensures
        first.token_id@ == second.token_id@,
        first.token_id@ == spec_mint_token_id(),
{
}

/// The constant token identifier written on every mint request.
pub fn mint_token_id() -> (r: String)
    ensures
        r@ == spec_mint_token_id(),
{
    String::from_str("1")
}

} // verus!
