use vstd::prelude::*;

verus! {

/// The one-time setup message consumed at instantiation.
#[derive(Clone, Debug)]
pub struct InstantiateMsg {
    /// Nominal owner field carried by the message; the stored owner is the
    /// sender of the setup transaction, not this field.
    pub owner: String,
    /// Cap on the number of tokens; must be positive.
    pub max_tokens: u32,
    /// Price of one token in the payment token; must be positive.
    pub unit_price: u128,
    /// Display name for the collection to be created.
    pub name: String,
    /// Display symbol for the collection to be created.
    pub symbol: String,
    /// Code template identifier for the collection contract.
    pub token_code_id: u64,
    /// Identity of the fungible payment-token contract.
    pub cw20_address: String,
    /// Shared token URI, copied verbatim onto every minted token.
    pub token_uri: String,
    /// Shared metadata extension, copied verbatim onto every minted token.
    pub extension: Option<String>,
}

/// Inbound execute messages. The only variant is the payment notification the
/// fungible-token contract sends after a transfer made on a purchaser's
/// behalf.
#[derive(Clone, Debug)]
pub enum ExecuteMsg {
    Cw20ReceiveMsg { sender: String, amount: u128 },
}

/// Inbound query messages. No query is answerable: no handler accepts this
/// type, and the lone data-free variant stands only because a datatype must
/// be inhabited.
#[derive(Clone, Copy, Debug)]
pub enum QueryMsg {
    Unsupported,
}

/// The outbound "create the collection sub-contract" request that setup
/// queues, tagged with the correlation identifier so the eventual callback
/// can be matched to it.
#[derive(Clone, Debug)]
pub struct CreateCollectionRequest {
    /// Code template the host instantiates the collection from.
    pub code_id: u64,
    /// Display name handed to the new collection.
    pub name: String,
    /// Display symbol handed to the new collection.
    pub symbol: String,
    /// The minting authority on the new collection: this contract's own
    /// address.
    pub minter: String,
    /// Tag echoed back by the host in the creation callback.
    pub correlation_id: u64,
}

/// The outbound "mint one token" request that a successful purchase queues,
/// addressed to the collection contract.
#[derive(Clone, Debug)]
pub struct MintRequest {
    /// The collection contract the request is addressed to.
    pub collection: String,
    /// Identifier of the minted token.
    pub token_id: String,
    /// The new token's owner: the purchaser named in the payment
    /// notification.
    pub owner: String,
    /// Token URI, copied from configuration.
    pub token_uri: String,
    /// Metadata extension, copied from configuration.
    pub extension: Option<String>,
}

} // verus!
