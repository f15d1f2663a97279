//! The requests that the platform takes.

use crate::state::{Cw404Info, MintGroup};
use crate::structs::EvmQuery;
use vstd::prelude::*;

verus! {

/// The settings the platform starts with.
#[derive(Debug, Clone, PartialEq, Eq)]
pub struct InstantiateMsg {
    pub fee: u128,
    pub registeration_open: bool,
}

/// New settings for the platform.
#[derive(Debug, Clone, PartialEq, Eq)]
pub struct UpdateConfig {
    pub fee: u128,
    pub registeration_open: bool,
}

/// A collection to launch. The chain tag is `v1` or `v2`, the standard tag
/// `721` or `404`.
#[derive(Debug, Clone, PartialEq, Eq)]
pub struct RegisterCollection {
    pub cw721_code: Option<u64>,
    pub cw404_code: Option<u64>,
    pub erc721_address: Option<String>,
    pub chain: String,
    pub collection_type: String,
    pub name: String,
    pub symbol: String,
    pub supply: u128,
    pub token_uri: String,
    pub royalty_percent: Option<u64>,
    pub royalty_wallet: Option<String>,
    pub mint_groups: Vec<MintGroup>,
    pub is_immutable: bool,
    pub fixed_uri: bool,
    pub start_order: Option<u128>,
    pub uri_suffix: Option<String>,
    pub frozen: bool,
    pub unfreeze_time: Option<u64>,
    pub frozen_whitelist: Option<Vec<String>>,
    pub hidden_metadata: bool,
    pub placeholder_token_uri: Option<String>,
    pub partner: Option<String>,
    pub cw404_info: Option<Cw404Info>,
}

/// New terms for a launched collection.
#[derive(Debug, Clone, PartialEq, Eq)]
pub struct UpdateCollection {
    pub collection: String,
    pub supply: u128,
    pub token_uri: String,
    pub royalty_percent: Option<u64>,
    pub royalty_wallet: Option<String>,
    pub mint_groups: Vec<MintGroup>,
    pub fixed_uri: bool,
    pub uri_suffix: Option<String>,
    pub start_order: Option<u128>,
    pub placeholder_token_uri: Option<String>,
    pub max_edition: Option<u64>,
    pub frozen_whitelist: Option<Vec<String>>,
}

/// A request to mint `amount` units from one group of a collection. The
/// address type `hex` selects the bridged-chain form of the wallet for the
/// allowlist proof; anything else selects the native form.
#[derive(Debug, Clone, PartialEq, Eq)]
pub struct Mint {
    pub collection: String,
    pub group: String,
    pub amount: u128,
    pub merkle_proof: Option<Vec<Vec<u8>>>,
    pub merkle_proof_address_type: Option<String>,
    pub payment_args: Option<Vec<MintArg>>,
    pub gate_args: Option<Vec<MintArg>>,
}

/// Extra arguments for the payment or gate at `index`.
#[derive(Debug, Clone, PartialEq, Eq)]
pub struct MintArg {
    pub index: usize,
    pub args: Vec<String>,
}

/// A request to lift the freeze of a collection's tokens.
#[derive(Debug, Clone, PartialEq, Eq)]
pub struct UnfreezeCollection {
    pub collection: String,
}

/// A request to reveal a collection's metadata.
#[derive(Debug, Clone, PartialEq, Eq)]
pub struct RevealCollectionMetadata {
    pub collection: String,
}

/// A request to hand a collection to a new admin.
#[derive(Debug, Clone, PartialEq, Eq)]
pub struct UpdateAdmin {
    pub collection: String,
    pub admin: String,
}

/// A partner to register, with the percentage of the flat fee it takes.
#[derive(Debug, Clone, PartialEq, Eq)]
pub struct AddPartner {
    pub address: String,
    pub percent: u128,
}

/// A request to hand a collection's contract on the native chain to a new
/// owner.
#[derive(Debug, Clone, PartialEq, Eq)]
pub struct UpdateNftContractCwOwnableOwner {
    pub collection: String,
    pub new_admin: String,
}

/// A request to name a new admin of a collection's contract.
#[derive(Debug, Clone, PartialEq, Eq)]
pub struct UpdateNftContractAdmin {
    pub collection: String,
    pub new_admin: String,
}

/// Every request that changes the platform.
#[derive(Debug, Clone, PartialEq, Eq)]
pub enum ExecuteMsg {
    UpdateConfig(UpdateConfig),
    RegisterCollection(RegisterCollection),
    UpdateCollection(UpdateCollection),
    Mint(Mint),
    UnfreezeCollection(UnfreezeCollection),
    RevealCollectionMetadata(RevealCollectionMetadata),
    UpdateAdmin(UpdateAdmin),
    AddPartner(AddPartner),
    UpdateNftContractCwOwnableOwner(UpdateNftContractCwOwnableOwner),
    UpdateNftContractAdmin(UpdateNftContractAdmin),
}

/// Every question about the platform.
#[derive(Debug, Clone, PartialEq, Eq)]
pub enum QueryMsg {
    GetConfig,
    GetCollection { collection: String },
    MintsOf { address: String, collection: String },
    GetMinterOf { collection: String, token_id: String },
    GetGlobalMintInfo { collection: String, group_name: String },
    GetEvmAddressOfBech32Address { address: String },
    GetBech32AddressOfEvmAddress { address: String },
}

/// Where a question to the host is routed.
#[derive(Debug, Clone, Copy, PartialEq, Eq)]
pub enum Route {
    Evm,
}

/// A question to the bridged chain with its route.
#[derive(Debug, Clone, PartialEq, Eq)]
pub struct EvmQueryWrapper {
    pub route: Route,
    pub query_data: EvmQuery,
}

} // verus!
