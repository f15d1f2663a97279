//! The questions about the platform's state.

use crate::error::{ContractError, StdError};
use crate::helpers::{
    create_global_mint_info_key, create_group_key, create_mint_log_key, global_mint_info_key,
    group_key, mint_log_key,
};
use crate::msg::{EvmQueryWrapper, QueryMsg};
use crate::querier::{bech32_address_query, evm_address_query};
use crate::state::{Collection, Config, MintGroupView, MintInfo};
use crate::store::{Lighthouse, LighthouseView};
use crate::structs::EvmQueryView;
use vstd::prelude::*;

verus! {

/// The answer to a question: a record of the state, or the question that
/// has to be put to the bridged chain in turn.
#[derive(Debug, PartialEq, Eq)]
pub enum QueryResponse {
    Config(Config),
    Collection(Collection),
    Mints(MintInfo),
    Minter(String),
    GlobalMintInfo(u128),
    AskBridge(EvmQueryWrapper),
}

/// The units that a wallet has minted in the groups `groups` of a
/// collection, group by group in their order.
pub open spec fn mints_in_groups(
    s: LighthouseView,
    address: Seq<char>,
    collection: Seq<char>,
    groups: Seq<MintGroupView>,
) -> Seq<u128>
    decreases groups.len(),
{
    if groups.len() == 0 {
        Seq::empty()
    } else {
        mints_in_groups(s, address, collection, groups.drop_last()) + s.minted(
            group_key(address, collection, groups.last().name),
        )
    }
}

impl Lighthouse {
    /// The platform's settings.
    pub fn query_get_config(&self) -> (outcome: Result<Config, ContractError>)
        ensures
            match outcome {
                Ok(config) => self@.config == Some(config@),
                Err(e) => self@.config is None && e == ContractError::Std(StdError::NotFound),
            },
    {
        match self.config() {
            Some(c) => Ok(c.clone()),
            None => Err(ContractError::Std(StdError::NotFound)),
        }
    }

    /// The collection registered under an address.
    pub fn get_collection(&self, collection: &String) -> (outcome: Result<
        Collection,
        ContractError,
    >)
        ensures
            match outcome {
                Ok(c) => self@.collections.contains_key(collection@) && self@.collections[collection@]
                    == c@,
                Err(e) => !self@.collections.contains_key(collection@) && e == ContractError::Std(
                    StdError::NotFound,
                ),
            },
    {
        match self.collection(collection.as_str()) {
            Some(c) => Ok(c.clone()),
            None => Err(ContractError::Std(StdError::NotFound)),
        }
    }

    /// Every unit that a wallet has minted in a collection, group by group.
    pub fn mints_of(&self, address: &String, collection: &String) -> (outcome: Result<
        MintInfo,
        ContractError,
    >)
        ensures
            match outcome {
                Ok(mints) => {
                    &&& self@.collections.contains_key(collection@)
                    &&& mints@ == mints_in_groups(
                        self@,
                        address@,
                        collection@,
                        self@.collections[collection@].mint_groups,
                    )
                },
                Err(e) => !self@.collections.contains_key(collection@) && e == ContractError::Std(
                    StdError::NotFound,
                ),
            },
    {
        let found = match self.collection(collection.as_str()) {
            Some(c) => c,
            None => {
                return Err(ContractError::Std(StdError::NotFound));
            },
        };
        let ghost groups = found@.mint_groups;
        let mut mints: Vec<u128> = Vec::new();
        let mut i: usize = 0;
        assert(groups.take(0) =~= Seq::<MintGroupView>::empty());
        while i < found.mint_groups.len()
            invariant
                i <= found.mint_groups@.len(),
                groups == found.mint_groups.deep_view(),
                mints@ == mints_in_groups(self@, address@, collection@, groups.take(i as int)),
            decreases found.mint_groups@.len() - i,
        {
            let key = create_group_key(
                address.as_str(),
                collection.as_str(),
                found.mint_groups[i].name.as_str(),
            );
            proof {
                assert(groups.take(i + 1).drop_last() =~= groups.take(i as int));
                assert(groups.take(i + 1).last() == found.mint_groups@[i as int]@);
            }
            match self.wallet_mints(key.as_str()) {
                Some(info) => {
                    let ghost before = mints@;
                    mints.extend_from_slice(info.mints.as_slice());
                    assert(mints@ =~= before + info@);
                },
                None => {
                    assert(mints@ =~= mints@ + Seq::<u128>::empty());
                },
            }
            i = i + 1;
        }
        assert(groups.take(found.mint_groups@.len() as int) =~= groups);
        Ok(MintInfo { mints })
    }

    /// Who minted a token of a collection.
    pub fn get_minter_of(&self, collection: &String, token_id: &String) -> (outcome: Result<
        String,
        ContractError,
    >)
        ensures
            match outcome {
                Ok(minter) => {
                    &&& self@.mint_logs.contains_key(mint_log_key(collection@, token_id@))
                    &&& self@.mint_logs[mint_log_key(collection@, token_id@)] == minter@
                },
                Err(e) => {
                    &&& !self@.mint_logs.contains_key(mint_log_key(collection@, token_id@))
                    &&& e == ContractError::Std(StdError::NotFound)
                },
            },
    {
        let key = create_mint_log_key(collection.as_str(), token_id.as_str());
        match self.minter(key.as_str()) {
            Some(m) => Ok(m.clone()),
            None => Err(ContractError::Std(StdError::NotFound)),
        }
    }

    /// How many units a group of a collection has issued; 0 where none are
    /// recorded.
    pub fn get_global_mint_info(&self, collection: &String, group_name: &String) -> (total: u128)
        ensures
            total == self@.issued(global_mint_info_key(collection@, group_name@)),
    {
        let key = create_global_mint_info_key(collection.as_str(), group_name.as_str());
        match self.group_total(key.as_str()) {
            Some(t) => t,
            None => 0,
        }
    }

    /// The question for the bridged-chain address of a native identity. The
    /// answer is the bridged chain's to give.
    pub fn get_evm_address_of_bech32_address(&self, address: &String) -> (question:
        EvmQueryWrapper)
        ensures
            question.query_data@ == (EvmQueryView::GetEvmAddress { sei_address: address@ }),
    {
        evm_address_query(address)
    }

    /// The question for the native identity behind a bridged-chain address.
    /// The answer is the bridged chain's to give.
    pub fn get_bech32_address_of_evm_address(&self, address: &String) -> (question:
        EvmQueryWrapper)
        ensures
            question.query_data@ == (EvmQueryView::GetSeiAddress { evm_address: address@ }),
    {
        bech32_address_query(address)
    }

    /// Answers a question about the state, or names the question to put to
    /// the bridged chain.
    pub fn query(&self, msg: &QueryMsg) -> (outcome: Result<QueryResponse, ContractError>)
        ensures
            match msg {
                QueryMsg::GetConfig => match outcome {
                    Ok(QueryResponse::Config(config)) => self@.config == Some(config@),
                    Ok(_) => false,
                    Err(e) => self@.config is None && e == ContractError::Std(
                        StdError::NotFound,
                    ),
                },
                QueryMsg::GetCollection { collection } => match outcome {
                    Ok(QueryResponse::Collection(c)) => self@.collections.contains_key(
                        collection@,
                    ) && self@.collections[collection@] == c@,
                    Ok(_) => false,
                    Err(e) => !self@.collections.contains_key(collection@) && e
                        == ContractError::Std(StdError::NotFound),
                },
                QueryMsg::MintsOf { address, collection } => match outcome {
                    Ok(QueryResponse::Mints(mints)) => self@.collections.contains_key(
                        collection@,
                    ) && mints@ == mints_in_groups(
                        self@,
                        address@,
                        collection@,
                        self@.collections[collection@].mint_groups,
                    ),
                    Ok(_) => false,
                    Err(e) => !self@.collections.contains_key(collection@) && e
                        == ContractError::Std(StdError::NotFound),
                },
                QueryMsg::GetMinterOf { collection, token_id } => match outcome {
                    Ok(QueryResponse::Minter(minter)) => self@.mint_logs.contains_key(
                        mint_log_key(collection@, token_id@),
                    ) && self@.mint_logs[mint_log_key(collection@, token_id@)] == minter@,
                    Ok(_) => false,
                    Err(e) => !self@.mint_logs.contains_key(mint_log_key(collection@, token_id@))
                        && e == ContractError::Std(StdError::NotFound),
                },
                QueryMsg::GetGlobalMintInfo { collection, group_name } => outcome matches Ok(
                    QueryResponse::GlobalMintInfo(total),
                ) && total == self@.issued(global_mint_info_key(collection@, group_name@)),
                QueryMsg::GetEvmAddressOfBech32Address { address } => outcome matches Ok(
                    QueryResponse::AskBridge(question),
                ) && question.query_data@ == (EvmQueryView::GetEvmAddress {
                    sei_address: address@,
                }),
                QueryMsg::GetBech32AddressOfEvmAddress { address } => outcome matches Ok(
                    QueryResponse::AskBridge(question),
                ) && question.query_data@ == (EvmQueryView::GetSeiAddress {
                    evm_address: address@,
                }),
            },
    {
        match msg {
            QueryMsg::GetConfig => match self.query_get_config() {
                Ok(config) => Ok(QueryResponse::Config(config)),
                Err(e) => Err(e),
            },
            QueryMsg::GetCollection { collection } => match self.get_collection(collection) {
                Ok(c) => Ok(QueryResponse::Collection(c)),
                Err(e) => Err(e),
            },
            QueryMsg::MintsOf { address, collection } => match self.mints_of(address, collection) {
                Ok(mints) => Ok(QueryResponse::Mints(mints)),
                Err(e) => Err(e),
            },
            QueryMsg::GetMinterOf { collection, token_id } => match self.get_minter_of(
                collection,
                token_id,
            ) {
                Ok(minter) => Ok(QueryResponse::Minter(minter)),
                Err(e) => Err(e),
            },
            QueryMsg::GetGlobalMintInfo { collection, group_name } => Ok(
                QueryResponse::GlobalMintInfo(self.get_global_mint_info(collection, group_name)),
            ),
            QueryMsg::GetEvmAddressOfBech32Address { address } => Ok(
                QueryResponse::AskBridge(self.get_evm_address_of_bech32_address(address)),
            ),
            QueryMsg::GetBech32AddressOfEvmAddress { address } => Ok(
                QueryResponse::AskBridge(self.get_bech32_address_of_evm_address(address)),
            ),
        }
    }
}

} // verus!
