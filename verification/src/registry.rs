//! The collection registry: registering a collection, and in time updating
//! it.

use crate::error::{ContractError, StdError};
use crate::msg::{RegisterCollection, UpdateCollection};
use crate::response::{
    note, plain, CosmosMsg, CosmosMsgView, Env, ExecutePayload, ExecutePayloadView,
    InstantiatePayload, InstantiatePayloadView, MessageInfo, Reply, ReplyOn, Response,
    ResponseView, SubMsg, SubMsgView,
};
use crate::state::{
    clone_groups, clone_opt_text, clone_texts, select_strategy, strategy_of, Collection,
    CollectionView, ConfigView, Cw404Info, Strategy,
};
use crate::store::{Lighthouse, LighthouseView};
use crate::structs::{
    Cw2981InstantiateMsg, Cw2981InstantiateMsgView, Cw2981LHExecuteExtension,
    Cw2981LHExecuteExtensionView, Cw2981LHExecuteMsg, Cw2981LHExecuteMsgView, Cw404ExecuteMsg,
    Cw404ExecuteMsgView, Cw404InstantiateMsg, Cw404InstantiateMsgView, FrozenData,
    FrozenDataView, GetEvmAddressResponse, InstantiateMarketingInfo,
    InstantiateMarketingInfoView, Logo, LogoView, MinterResponse, MinterResponseView,
};
use crate::text::owned;
use crate::validation::{
    groups_valid, lemma_valid_groups_are_wf, payments_valid, validate_groups, validate_payments,
};
use vstd::prelude::*;

verus! {

/// What the bridged chain says of the one who registers a collection that
/// is already deployed there: the caller's address on that chain, whether
/// it holds the admin role on the collection's contract, and whether the
/// platform holds the minter role on it.
#[derive(Debug, Clone, PartialEq, Eq)]
pub struct BridgeAnswers {
    pub association: GetEvmAddressResponse,
    pub has_admin_role: bool,
    pub has_minter_role: bool,
}

/// Whether a request carries the fields that its pair of tags needs: a code
/// reference for a collection created on the native chain, the address of a
/// collection deployed on the bridged chain, and for fungible batches the
/// extension block and no first token number.
pub open spec fn required_fields_present(msg: RegisterCollection) -> bool {
    match strategy_of(msg.chain@, msg.collection_type@) {
        Some(Strategy::Native721) => msg.cw721_code is Some,
        Some(Strategy::Bridged721) => msg.erc721_address is Some,
        Some(Strategy::Native404) => msg.cw404_code is Some && msg.start_order is None
            && msg.cw404_info is Some,
        None => false,
    }
}

/// The number that the first unit of a collection carries.
pub open spec fn first_number(start_order: Option<u128>) -> u128 {
    match start_order {
        Some(first) => first,
        None => 0,
    }
}

/// The record of a collection as it is registered: owned by the sender,
/// with its cursor on the first unit. A collection on the bridged chain
/// knows its contract from the start.
pub open spec fn new_collection(info: MessageInfo, msg: RegisterCollection) -> CollectionView {
    CollectionView {
        admin: info.sender@,
        chain: msg.chain@,
        collection_type: msg.collection_type@,
        collection_address: if strategy_of(msg.chain@, msg.collection_type@) == Some(
            Strategy::Bridged721,
        ) {
            msg.erc721_address.deep_view()
        } else {
            None
        },
        name: msg.name@,
        symbol: msg.symbol@,
        supply: msg.supply,
        next_token: first_number(msg.start_order),
        mint_groups: msg.mint_groups.deep_view(),
        start_order: msg.start_order,
        frozen: msg.frozen,
        unfreeze_time: msg.unfreeze_time,
        hidden_metadata: msg.hidden_metadata,
        placeholder_token_uri: msg.placeholder_token_uri.deep_view(),
        partner: msg.partner.deep_view(),
        cw404_info: msg.cw404_info.deep_view(),
    }
}

/// Why a registration is turned down, if it is.
pub open spec fn register_fault(
    s: LighthouseView,
    answers: BridgeAnswers,
    msg: RegisterCollection,
) -> Option<ContractError> {
    if s.config is None {
        Some(ContractError::Std(StdError::NotFound))
    } else if !s.config->0.registeration_open {
        Some(ContractError::RegistrationClosed)
    } else if !required_fields_present(msg) {
        Some(ContractError::InvalidChainConfig)
    } else if !payments_valid(msg.mint_groups.deep_view()) {
        Some(ContractError::InvalidShares)
    } else if !groups_valid(msg.collection_type@, msg.mint_groups.deep_view()) {
        Some(ContractError::InvalidChainConfig)
    } else if msg.partner is Some && !s.partners.contains_key(msg.partner->0@) {
        Some(ContractError::PartnerNotFound)
    } else if strategy_of(msg.chain@, msg.collection_type@) == Some(Strategy::Bridged721) {
        if s.collections.contains_key(msg.erc721_address->0@) {
            Some(ContractError::CollectionExists)
        } else if !answers.association.associated {
            Some(ContractError::NotAssociatedAddress)
        } else if !answers.has_admin_role {
            Some(ContractError::Unauthorized)
        } else if !answers.has_minter_role {
            Some(ContractError::NotMinter)
        } else {
            None
        }
    } else if s.config->0.next_reply_id == u64::MAX {
        Some(ContractError::Std(StdError::Overflow))
    } else {
        None
    }
}

/// The state after a registration that goes through. A collection on the
/// bridged chain enters the registry under its contract's address. A
/// collection on the native chain waits under a fresh correlation id, and
/// the counter of ids moves on.
pub open spec fn register_state(
    s: LighthouseView,
    info: MessageInfo,
    msg: RegisterCollection,
) -> LighthouseView {
    if strategy_of(msg.chain@, msg.collection_type@) == Some(Strategy::Bridged721) {
        LighthouseView {
            collections: s.collections.insert(msg.erc721_address->0@, new_collection(info, msg)),
            ..s
        }
    } else {
        let config = s.config->0;
        LighthouseView {
            instantiates: s.instantiates.insert(config.next_reply_id, new_collection(info, msg)),
            config: Some(
                ConfigView { next_reply_id: (config.next_reply_id + 1) as u64, ..config },
            ),
            ..s
        }
    }
}

/// The correlation id that the next registration on the native chain is
/// given is fresh: nothing waits under it.
pub proof fn lemma_next_reply_id_is_fresh(s: LighthouseView)
    requires
        s.wf(),
        s.config is Some,
    ensures
        !s.instantiates.contains_key(s.config->0.next_reply_id),
{
}

/// A registration on the native chain that goes through leaves every
/// collection that waited before waiting as it was, and adds one.
pub proof fn lemma_registration_keeps_waiting_collections(
    s: LighthouseView,
    answers: BridgeAnswers,
    info: MessageInfo,
    msg: RegisterCollection,
    id: u64,
)
    requires
        s.wf(),
        register_fault(s, answers, msg) is None,
        s.instantiates.contains_key(id),
    ensures
        register_state(s, info, msg).instantiates.contains_key(id),
        register_state(s, info, msg).instantiates[id] == s.instantiates[id],
{
}

/// What a new unique-token contract is created with.
pub open spec fn cw2981_instantiate(env: Env, msg: RegisterCollection) -> Cw2981InstantiateMsgView {
    Cw2981InstantiateMsgView {
        name: msg.name@,
        symbol: msg.symbol@,
        minter: env.contract_address@,
        is_immutable: msg.is_immutable,
        frozen: Some(msg.frozen),
        unfreeze_time: msg.unfreeze_time,
        hidden_metadata: Some(msg.hidden_metadata),
        placeholder_token_uri: msg.placeholder_token_uri.deep_view(),
        base_uri: Some(msg.token_uri@),
        fixed_uri: msg.fixed_uri,
        base_uri_suffix: msg.uri_suffix.deep_view(),
        royalty_percentage: msg.royalty_percent,
        royalty_payment_address: msg.royalty_wallet.deep_view(),
    }
}

/// How a new fungible-batch contract presents itself: as its collection
/// does, with the sender as the one who may change it.
pub open spec fn marketing_of(info: MessageInfo, extension: Cw404Info) -> Option<
    InstantiateMarketingInfoView,
> {
    match extension.marketing {
        Some(m) => Some(
            InstantiateMarketingInfoView {
                project: m.project.deep_view(),
                description: m.description.deep_view(),
                marketing: Some(info.sender@),
                logo: match m.logo {
                    Some(url) => Some(LogoView::Url(url@)),
                    None => None,
                },
            },
        ),
        None => None,
    }
}

/// The addresses that may move a frozen collection's tokens.
pub open spec fn whitelist_of(msg: RegisterCollection) -> Seq<Seq<char>> {
    match msg.frozen_whitelist {
        Some(list) => list.deep_view(),
        None => Seq::empty(),
    }
}

/// What a new fungible-batch contract is created with.
pub open spec fn cw404_instantiate(
    env: Env,
    info: MessageInfo,
    msg: RegisterCollection,
    extension: Cw404Info,
) -> Cw404InstantiateMsgView {
    Cw404InstantiateMsgView {
        name: msg.name@,
        symbol: msg.symbol@,
        decimals: extension.decimals,
        is_immutable: msg.is_immutable,
        base_uri: msg.token_uri@,
        base_uri_suffix: msg.uri_suffix.deep_view(),
        max_edition: extension.max_edition,
        tokens_per_nft: extension.tokens_per_nft,
        mint: Some(
            MinterResponseView { minter: env.contract_address@, cap: Some(extension.max_supply) },
        ),
        frozen_data: Some(
            FrozenDataView {
                frozen: msg.frozen,
                unfreeze_time: msg.unfreeze_time,
                whitelisted: whitelist_of(msg),
            },
        ),
        admin: Some(info.sender@),
        royalty_percentage: msg.royalty_percent,
        royalty_payment_address: msg.royalty_wallet.deep_view(),
        marketing: marketing_of(info, extension),
    }
}

/// The request to create a collection's contract, tagged with the
/// correlation id under which its completion is reported.
pub open spec fn instantiation(
    id: u64,
    code_id: u64,
    payload: InstantiatePayloadView,
    admin: Seq<char>,
    label: Seq<char>,
) -> SubMsgView {
    SubMsgView {
        id,
        msg: CosmosMsgView::WasmInstantiate { code_id, msg: payload, admin, label },
        reply_on: ReplyOn::Success,
    }
}

/// The answer to a registration that goes through: for a collection on the
/// native chain the request to create its contract; for a collection on the
/// bridged chain notes on what was registered.
pub open spec fn register_response(
    s: LighthouseView,
    env: Env,
    info: MessageInfo,
    msg: RegisterCollection,
) -> ResponseView {
    match strategy_of(msg.chain@, msg.collection_type@) {
        Some(Strategy::Bridged721) => ResponseView {
            messages: Seq::empty(),
            attributes: seq![
                note("register_collection"@, "success"@),
                note("collection"@, msg.erc721_address->0@),
                note("type"@, msg.collection_type@),
                note("chain"@, msg.chain@),
            ],
        },
        Some(Strategy::Native404) => ResponseView {
            messages: seq![
                instantiation(
                    s.config->0.next_reply_id,
                    msg.cw404_code->0,
                    InstantiatePayloadView::Cw404(
                        cw404_instantiate(env, info, msg, msg.cw404_info->0),
                    ),
                    info.sender@,
                    "Instantiate CW404"@,
                ),
            ],
            attributes: Seq::empty(),
        },
        _ => ResponseView {
            messages: seq![
                instantiation(
                    s.config->0.next_reply_id,
                    msg.cw721_code->0,
                    InstantiatePayloadView::Cw2981(cw2981_instantiate(env, msg)),
                    info.sender@,
                    "Instantiate CW721"@,
                ),
            ],
            attributes: Seq::empty(),
        },
    }
}

/// Builds the record of a collection as it is registered.
pub fn build_collection(info: &MessageInfo, msg: &RegisterCollection) -> (collection: Collection)
    ensures
        collection@ == new_collection(*info, *msg),
{
    let bridged = match select_strategy(&msg.chain, &msg.collection_type) {
        Some(Strategy::Bridged721) => true,
        _ => false,
    };
    let cw404_info = match &msg.cw404_info {
        Some(extension) => Some(extension.clone()),
        None => None,
    };
    Collection {
        admin: info.sender.clone(),
        chain: msg.chain.clone(),
        collection_type: msg.collection_type.clone(),
        collection_address: if bridged {
            clone_opt_text(&msg.erc721_address)
        } else {
            None
        },
        name: msg.name.clone(),
        symbol: msg.symbol.clone(),
        supply: msg.supply,
        next_token: match msg.start_order {
            Some(first) => first,
            None => 0,
        },
        mint_groups: clone_groups(&msg.mint_groups),
        start_order: msg.start_order,
        frozen: msg.frozen,
        unfreeze_time: msg.unfreeze_time,
        hidden_metadata: msg.hidden_metadata,
        placeholder_token_uri: clone_opt_text(&msg.placeholder_token_uri),
        partner: clone_opt_text(&msg.partner),
        cw404_info,
    }
}

/// Builds what a new unique-token contract is created with.
pub fn build_cw2981_instantiate(env: &Env, msg: &RegisterCollection) -> (payload:
    Cw2981InstantiateMsg)
    ensures
        payload@ == cw2981_instantiate(*env, *msg),
{
    Cw2981InstantiateMsg {
        name: msg.name.clone(),
        symbol: msg.symbol.clone(),
        minter: env.contract_address.clone(),
        is_immutable: msg.is_immutable,
        frozen: Some(msg.frozen),
        unfreeze_time: msg.unfreeze_time,
        hidden_metadata: Some(msg.hidden_metadata),
        placeholder_token_uri: clone_opt_text(&msg.placeholder_token_uri),
        base_uri: Some(msg.token_uri.clone()),
        fixed_uri: msg.fixed_uri,
        base_uri_suffix: clone_opt_text(&msg.uri_suffix),
        royalty_percentage: msg.royalty_percent,
        royalty_payment_address: clone_opt_text(&msg.royalty_wallet),
    }
}

/// Builds what a new fungible-batch contract is created with.
pub fn build_cw404_instantiate(
    env: &Env,
    info: &MessageInfo,
    msg: &RegisterCollection,
    extension: &Cw404Info,
) -> (payload: Cw404InstantiateMsg)
    ensures
        payload@ == cw404_instantiate(*env, *info, *msg, *extension),
{
    let marketing = match &extension.marketing {
        Some(m) => Some(
            InstantiateMarketingInfo {
                project: clone_opt_text(&m.project),
                description: clone_opt_text(&m.description),
                marketing: Some(info.sender.clone()),
                logo: match &m.logo {
                    Some(url) => Some(Logo::Url(url.clone())),
                    None => None,
                },
            },
        ),
        None => None,
    };
    let whitelisted = match &msg.frozen_whitelist {
        Some(list) => clone_texts(list),
        None => {
            let none: Vec<String> = Vec::new();
            assert(none.deep_view() =~= Seq::<Seq<char>>::empty());
            none
        },
    };
    Cw404InstantiateMsg {
        name: msg.name.clone(),
        symbol: msg.symbol.clone(),
        decimals: extension.decimals,
        is_immutable: msg.is_immutable,
        base_uri: msg.token_uri.clone(),
        base_uri_suffix: clone_opt_text(&msg.uri_suffix),
        max_edition: extension.max_edition,
        tokens_per_nft: extension.tokens_per_nft,
        mint: Some(
            MinterResponse {
                minter: env.contract_address.clone(),
                cap: Some(extension.max_supply),
            },
        ),
        frozen_data: Some(
            FrozenData { frozen: msg.frozen, unfreeze_time: msg.unfreeze_time, whitelisted },
        ),
        admin: Some(info.sender.clone()),
        royalty_percentage: msg.royalty_percent,
        royalty_payment_address: clone_opt_text(&msg.royalty_wallet),
        marketing,
    }
}

/// Whether a request carries the fields that its pair of tags needs.
pub fn has_required_fields(msg: &RegisterCollection) -> (present: bool)
    ensures
        present == required_fields_present(*msg),
{
    match select_strategy(&msg.chain, &msg.collection_type) {
        Some(Strategy::Native721) => msg.cw721_code.is_some(),
        Some(Strategy::Bridged721) => msg.erc721_address.is_some(),
        Some(Strategy::Native404) => msg.cw404_code.is_some() && msg.start_order.is_none()
            && msg.cw404_info.is_some(),
        None => false,
    }
}

impl Lighthouse {
    /// Registers a collection for the sender.
    ///
    /// `answers` is what the bridged chain says of the sender; it is read
    /// for a collection on the bridged chain only. The registration goes
    /// through exactly when `register_fault` finds no fault; the state then
    /// changes as `register_state` says and the answer is
    /// `register_response`. Otherwise the fault is returned and the state
    /// stays as it was.
    pub fn register_collection(
        &mut self,
        env: &Env,
        info: &MessageInfo,
        answers: &BridgeAnswers,
        msg: &RegisterCollection,
    ) -> (outcome: Result<Response, ContractError>)
        requires
            old(self).wf(),
        ensures
            final(self).wf(),
            match outcome {
                Ok(response) => {
                    &&& register_fault(old(self)@, *answers, *msg) is None
                    &&& final(self)@ == register_state(old(self)@, *info, *msg)
                    &&& response@ == register_response(old(self)@, *env, *info, *msg)
                },
                Err(e) => {
                    &&& register_fault(old(self)@, *answers, *msg) == Some(e)
                    &&& final(self)@ == old(self)@
                },
            },
    {
        let ghost s = self@;
        let mut config = match self.config() {
            Some(c) => c.clone(),
            None => {
                return Err(ContractError::Std(StdError::NotFound));
            },
        };
        if !config.registeration_open {
            return Err(ContractError::RegistrationClosed);
        }
        if !has_required_fields(msg) {
            return Err(ContractError::InvalidChainConfig);
        }
        match validate_payments(&msg.mint_groups) {
            Err(e) => {
                return Err(e);
            },
            Ok(_) => {},
        }
        match validate_groups(&msg.collection_type, &msg.mint_groups) {
            Err(e) => {
                return Err(e);
            },
            Ok(_) => {},
        }
        match &msg.partner {
            Some(partner) => {
                if self.partner(partner.as_str()).is_none() {
                    return Err(ContractError::PartnerNotFound);
                }
            },
            None => {},
        }
        let collection = build_collection(info, msg);
        proof {
            lemma_valid_groups_are_wf(msg.chain@, msg.collection_type@, msg.mint_groups.deep_view());
            assert(collection@.wf());
        }
        let mut response = Response::new();
        match select_strategy(&msg.chain, &msg.collection_type) {
            Some(Strategy::Bridged721) => {
                let address = match &msg.erc721_address {
                    Some(a) => a,
                    None => {
                        return Err(ContractError::InvalidChainConfig);
                    },
                };
                if self.collection(address.as_str()).is_some() {
                    return Err(ContractError::CollectionExists);
                }
                if !answers.association.associated {
                    return Err(ContractError::NotAssociatedAddress);
                }
                if !answers.has_admin_role {
                    return Err(ContractError::Unauthorized);
                }
                if !answers.has_minter_role {
                    return Err(ContractError::NotMinter);
                }
                self.set_collection(address.clone(), collection);
                response.add_attribute("register_collection", owned("success"));
                response.add_attribute("collection", address.clone());
                response.add_attribute("type", msg.collection_type.clone());
                response.add_attribute("chain", msg.chain.clone());
                proof {
                    assert(response@.attributes =~= register_response(
                        s,
                        *env,
                        *info,
                        *msg,
                    ).attributes);
                }
                Ok(response)
            },
            Some(Strategy::Native404) => {
                if config.next_reply_id == u64::MAX {
                    return Err(ContractError::Std(StdError::Overflow));
                }
                let id: u64 = config.next_reply_id;
                let code_id: u64 = match msg.cw404_code {
                    Some(code) => code,
                    None => 0,
                };
                let extension = match &msg.cw404_info {
                    Some(extension) => extension,
                    None => {
                        return Err(ContractError::InvalidChainConfig);
                    },
                };
                let payload = InstantiatePayload::Cw404(
                    build_cw404_instantiate(env, info, msg, extension),
                );
                response.add_submessage(
                    SubMsg {
                        id,
                        msg: CosmosMsg::WasmInstantiate {
                            code_id,
                            msg: payload,
                            admin: info.sender.clone(),
                            label: owned("Instantiate CW404"),
                        },
                        reply_on: ReplyOn::Success,
                    },
                );
                config.next_reply_id = id + 1;
                self.set_pending(id, collection);
                self.set_config(config);
                proof {
                    assert(response@.messages =~= register_response(s, *env, *info, *msg).messages);
                }
                Ok(response)
            },
            _ => {
                if config.next_reply_id == u64::MAX {
                    return Err(ContractError::Std(StdError::Overflow));
                }
                let id: u64 = config.next_reply_id;
                let code_id: u64 = match msg.cw721_code {
                    Some(code) => code,
                    None => 0,
                };
                let payload = InstantiatePayload::Cw2981(build_cw2981_instantiate(env, msg));
                response.add_submessage(
                    SubMsg {
                        id,
                        msg: CosmosMsg::WasmInstantiate {
                            code_id,
                            msg: payload,
                            admin: info.sender.clone(),
                            label: owned("Instantiate CW721"),
                        },
                        reply_on: ReplyOn::Success,
                    },
                );
                config.next_reply_id = id + 1;
                self.set_pending(id, collection);
                self.set_config(config);
                proof {
                    assert(response@.messages =~= register_response(s, *env, *info, *msg).messages);
                }
                Ok(response)
            },
        }
    }
}

/// Why an update of a collection is turned down, if it is.
pub open spec fn update_fault(
    s: LighthouseView,
    info: MessageInfo,
    msg: UpdateCollection,
) -> Option<ContractError> {
    if !s.collections.contains_key(msg.collection@) {
        Some(ContractError::Std(StdError::NotFound))
    } else {
        let c = s.collections[msg.collection@];
        if c.admin != info.sender@ {
            Some(ContractError::Unauthorized)
        } else if msg.supply < c.issued() {
            Some(ContractError::SupplyLowerThanMinted)
        } else if !payments_valid(msg.mint_groups.deep_view()) {
            Some(ContractError::InvalidShares)
        } else if !groups_valid(c.collection_type, msg.mint_groups.deep_view()) {
            Some(ContractError::InvalidChainConfig)
        } else if c.batched() && msg.max_edition is None {
            Some(ContractError::InvalidChainConfig)
        } else {
            None
        }
    }
}

/// A collection with new terms: the new supply and groups, and the new
/// first token number where no unit was issued from the cursor on, that is
/// where it names the cursor itself.
pub open spec fn updated_collection(c: CollectionView, msg: UpdateCollection) -> CollectionView {
    CollectionView {
        supply: msg.supply,
        mint_groups: msg.mint_groups.deep_view(),
        start_order: if msg.start_order == Some(c.next_token) {
            msg.start_order
        } else {
            c.start_order
        },
        ..c
    }
}

/// The state after an update that goes through.
pub open spec fn update_state(s: LighthouseView, msg: UpdateCollection) -> LighthouseView {
    LighthouseView {
        collections: s.collections.insert(
            msg.collection@,
            updated_collection(s.collections[msg.collection@], msg),
        ),
        ..s
    }
}

/// The new address data and royalty for a unique-token contract.
pub open spec fn cw2981_update(msg: UpdateCollection) -> ExecutePayloadView {
    ExecutePayloadView::Cw2981(
        Cw2981LHExecuteMsgView::Extension {
            msg: Cw2981LHExecuteExtensionView::UpdateLighthouseData {
                placeholder_token_uri: msg.placeholder_token_uri.deep_view(),
                base_uri: Some(msg.token_uri@),
                fixed_uri: msg.fixed_uri,
                base_uri_suffix: msg.uri_suffix.deep_view(),
                default_royalty_percentage: msg.royalty_percent,
                default_royalty_payment_address: msg.royalty_wallet.deep_view(),
            },
        },
    )
}

/// The new address data and royalty for a fungible-batch contract.
pub open spec fn cw404_update(msg: UpdateCollection) -> ExecutePayloadView {
    ExecutePayloadView::Cw404(
        Cw404ExecuteMsgView::Update404Data {
            base_uri: msg.token_uri@,
            base_uri_suffix: msg.uri_suffix.deep_view(),
            max_edition: msg.max_edition->0,
            royalty_percentage: msg.royalty_percent,
            royalty_payment_address: msg.royalty_wallet.deep_view(),
            frozen_whitelist: msg.frozen_whitelist.deep_view(),
        },
    )
}

/// The answer to an update that goes through: the new address data and
/// royalty sent on to a contract on the native chain, and nothing for a
/// collection on the bridged chain.
pub open spec fn update_response(s: LighthouseView, msg: UpdateCollection) -> ResponseView {
    let c = s.collections[msg.collection@];
    ResponseView {
        messages: match c.strategy() {
            Some(Strategy::Native721) => seq![
                plain(
                    CosmosMsgView::WasmExecute {
                        contract_addr: msg.collection@,
                        msg: cw2981_update(msg),
                    },
                ),
            ],
            Some(Strategy::Native404) => seq![
                plain(
                    CosmosMsgView::WasmExecute {
                        contract_addr: msg.collection@,
                        msg: cw404_update(msg),
                    },
                ),
            ],
            _ => Seq::empty(),
        },
        attributes: Seq::empty(),
    }
}

/// Why a report on a created contract is turned down, if it is: nothing
/// waits under its correlation id, or its address is already registered.
pub open spec fn reply_fault(s: LighthouseView, msg: Reply) -> Option<ContractError> {
    if !s.instantiates.contains_key(msg.id) {
        Some(ContractError::InvalidReplyId)
    } else if s.collections.contains_key(msg.contract_address@) {
        Some(ContractError::CollectionExists)
    } else {
        None
    }
}

/// The state after a report that goes through: the collection that waited
/// under the id is registered under the address, and waits no more.
pub open spec fn reply_state(s: LighthouseView, msg: Reply) -> LighthouseView {
    LighthouseView {
        collections: s.collections.insert(
            msg.contract_address@,
            CollectionView {
                collection_address: Some(msg.contract_address@),
                ..s.instantiates[msg.id]
            },
        ),
        instantiates: s.instantiates.remove(msg.id),
        ..s
    }
}

/// The answer to a report that goes through: notes on what was registered.
pub open spec fn reply_response(s: LighthouseView, msg: Reply) -> ResponseView {
    ResponseView {
        messages: Seq::empty(),
        attributes: seq![
            note("register_collection"@, "success"@),
            note("collection"@, msg.contract_address@),
            note("type"@, s.instantiates[msg.id].collection_type),
            note("chain"@, s.instantiates[msg.id].chain),
        ],
    }
}

/// A report on a created contract is taken once: after it went through, a
/// report under the same correlation id is turned down as unknown,
/// whatever address it names.
pub proof fn lemma_reply_is_taken_once(s: LighthouseView, first: Reply, second: Reply)
    requires
        reply_fault(s, first) is None,
        second.id == first.id,
    ensures
        reply_fault(reply_state(s, first), second) == Some(ContractError::InvalidReplyId),
{
}

/// The state after a report: changed as `reply_state` says where the report
/// goes through, and as it was where it is turned down.
pub open spec fn reply_step(s: LighthouseView, msg: Reply) -> LighthouseView {
    if reply_fault(s, msg) is None {
        reply_state(s, msg)
    } else {
        s
    }
}

/// The same report handed in twice goes through at most once: the second
/// time it is turned down as unknown and changes nothing.
pub proof fn lemma_reply_twice(s: LighthouseView, msg: Reply)
    requires
        reply_fault(s, msg) is None,
    ensures
        reply_fault(reply_step(s, msg), msg) == Some(ContractError::InvalidReplyId),
        reply_step(reply_step(s, msg), msg) == reply_step(s, msg),
{
    lemma_reply_is_taken_once(s, msg, msg);
}

impl Lighthouse {
    /// Gives a collection new terms on behalf of its admin.
    ///
    /// The update goes through exactly when `update_fault` finds no fault;
    /// the state then changes as `update_state` says and the answer is
    /// `update_response`. Otherwise the fault is returned and the state
    /// stays as it was.
    pub fn update_collection(&mut self, info: &MessageInfo, msg: &UpdateCollection) -> (outcome:
        Result<Response, ContractError>)
        requires
            old(self).wf(),
        ensures
            final(self).wf(),
            match outcome {
                Ok(response) => {
                    &&& update_fault(old(self)@, *info, *msg) is None
                    &&& final(self)@ == update_state(old(self)@, *msg)
                    &&& response@ == update_response(old(self)@, *msg)
                },
                Err(e) => {
                    &&& update_fault(old(self)@, *info, *msg) == Some(e)
                    &&& final(self)@ == old(self)@
                },
            },
    {
        let ghost s = self@;
        let mut collection = match self.collection(msg.collection.as_str()) {
            Some(c) => c.clone(),
            None => {
                return Err(ContractError::Std(StdError::NotFound));
            },
        };
        let ghost c = collection@;
        assert(c.wf() && c.collection_address == Some(msg.collection@));
        if !(collection.admin == info.sender) {
            return Err(ContractError::Unauthorized);
        }
        let first: u128 = match collection.start_order {
            Some(f) => f,
            None => 0,
        };
        if msg.supply < collection.next_token - first {
            return Err(ContractError::SupplyLowerThanMinted);
        }
        match validate_payments(&msg.mint_groups) {
            Err(e) => {
                return Err(e);
            },
            Ok(_) => {},
        }
        match validate_groups(&collection.collection_type, &msg.mint_groups) {
            Err(e) => {
                return Err(e);
            },
            Ok(_) => {},
        }
        let strategy = collection.strategy();
        let mut response = Response::new();
        match strategy {
            Some(Strategy::Native721) => {
                response.add_message(
                    CosmosMsg::WasmExecute {
                        contract_addr: msg.collection.clone(),
                        msg: ExecutePayload::Cw2981(
                            Cw2981LHExecuteMsg::Extension {
                                msg: Cw2981LHExecuteExtension::UpdateLighthouseData {
                                    placeholder_token_uri: clone_opt_text(
                                        &msg.placeholder_token_uri,
                                    ),
                                    base_uri: Some(msg.token_uri.clone()),
                                    fixed_uri: msg.fixed_uri,
                                    base_uri_suffix: clone_opt_text(&msg.uri_suffix),
                                    default_royalty_percentage: msg.royalty_percent,
                                    default_royalty_payment_address: clone_opt_text(
                                        &msg.royalty_wallet,
                                    ),
                                },
                            },
                        ),
                    },
                );
            },
            Some(Strategy::Native404) => {
                let max_edition: u64 = match msg.max_edition {
                    Some(m) => m,
                    None => {
                        return Err(ContractError::InvalidChainConfig);
                    },
                };
                let frozen_whitelist = match &msg.frozen_whitelist {
                    Some(list) => Some(clone_texts(list)),
                    None => None,
                };
                response.add_message(
                    CosmosMsg::WasmExecute {
                        contract_addr: msg.collection.clone(),
                        msg: ExecutePayload::Cw404(
                            Cw404ExecuteMsg::Update404Data {
                                base_uri: msg.token_uri.clone(),
                                base_uri_suffix: clone_opt_text(&msg.uri_suffix),
                                max_edition,
                                royalty_percentage: msg.royalty_percent,
                                royalty_payment_address: clone_opt_text(&msg.royalty_wallet),
                                frozen_whitelist,
                            },
                        ),
                    },
                );
            },
            _ => {},
        }
        assert(response@.messages =~= update_response(s, *msg).messages);
        match msg.start_order {
            Some(start) => {
                if start == collection.next_token {
                    collection.start_order = msg.start_order;
                }
            },
            None => {},
        }
        collection.supply = msg.supply;
        collection.mint_groups = clone_groups(&msg.mint_groups);
        proof {
            lemma_valid_groups_are_wf(c.chain, c.collection_type, msg.mint_groups.deep_view());
            assert(collection@ == updated_collection(c, *msg));
            assert(collection@.strategy() == c.strategy());
            assert(collection@.wf());
        }
        self.set_collection(msg.collection.clone(), collection);
        Ok(response)
    }

    /// Takes the host's report that a collection's contract was created.
    ///
    /// The report goes through exactly when `reply_fault` finds no fault;
    /// the state then changes as `reply_state` says and the answer is
    /// `reply_response`. Otherwise the fault is returned and the state stays
    /// as it was.
    pub fn reply(&mut self, msg: &Reply) -> (outcome: Result<Response, ContractError>)
        requires
            old(self).wf(),
        ensures
            final(self).wf(),
            match outcome {
                Ok(response) => {
                    &&& reply_fault(old(self)@, *msg) is None
                    &&& final(self)@ == reply_state(old(self)@, *msg)
                    &&& response@ == reply_response(old(self)@, *msg)
                },
                Err(e) => {
                    &&& reply_fault(old(self)@, *msg) == Some(e)
                    &&& final(self)@ == old(self)@
                },
            },
    {
        let ghost s = self@;
        if self.pending(msg.id).is_none() {
            return Err(ContractError::InvalidReplyId);
        }
        if self.collection(msg.contract_address.as_str()).is_some() {
            return Err(ContractError::CollectionExists);
        }
        let mut collection = match self.take_pending(msg.id) {
            Some(c) => c,
            None => {
                return Err(ContractError::InvalidReplyId);
            },
        };
        assert(collection@.wf());
        collection.collection_address = Some(msg.contract_address.clone());
        let mut response = Response::new();
        response.add_attribute("register_collection", owned("success"));
        response.add_attribute("collection", msg.contract_address.clone());
        response.add_attribute("type", collection.collection_type.clone());
        response.add_attribute("chain", collection.chain.clone());
        assert(response@.attributes =~= reply_response(s, *msg).attributes);
        self.set_collection(msg.contract_address.clone(), collection);
        Ok(response)
    }
}

} // verus!
