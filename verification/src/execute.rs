//! The requests of the platform's admin and of collection admins, and the
//! entry point that hands every request to its handler.

use crate::admission::mint_call;
use crate::codec::starts_with;
use crate::dispatch::{evm_call, evm_call_message, function_selector, selector};
use crate::error::{ContractError, StdError};
use crate::helpers::{pad_address_to_bytes32, padded_address};
use crate::mint::{mint_fault, mint_response, mint_state};
use crate::msg::{
    AddPartner, ExecuteMsg, InstantiateMsg, RevealCollectionMetadata, UnfreezeCollection,
    UpdateAdmin, UpdateConfig, UpdateNftContractAdmin, UpdateNftContractCwOwnableOwner,
};
use crate::registry::{
    register_fault, register_response, register_state, update_fault, update_response,
    update_state, BridgeAnswers,
};
use crate::response::{
    note, plain, AttributeView, CosmosMsg, CosmosMsgView, Env, ExecutePayload,
    ExecutePayloadView, MessageInfo, Response, ResponseView, SubMsgView,
};
use crate::state::{Collection, CollectionView, Config, ConfigView, Partner, PartnerView, Strategy};
use crate::store::{Lighthouse, LighthouseView};
use crate::structs::{
    Cw2981LHExecuteExtension, Cw2981LHExecuteExtensionView, Cw2981LHExecuteMsg,
    Cw2981LHExecuteMsgView, Cw404ExecuteMsg, Cw404ExecuteMsgView, GetEvmAddressResponse,
};
use crate::text::{decimal, decimal_string, owned, text_is};
use vstd::prelude::*;

verus! {

/// The settings that the platform starts with: the sender as its admin,
/// the first correlation id, and `usei` as the denomination.
pub open spec fn first_config(info: MessageInfo, msg: InstantiateMsg) -> ConfigView {
    ConfigView {
        admin: info.sender@,
        fee: msg.fee,
        registeration_open: msg.registeration_open,
        next_reply_id: 0,
        denom: "usei"@,
    }
}

/// A request's answer that carries notes only.
pub open spec fn notes_only(attributes: Seq<AttributeView>) -> ResponseView {
    ResponseView { messages: Seq::empty(), attributes }
}

/// Why a change of the settings is turned down, if it is.
pub open spec fn config_fault(s: LighthouseView, info: MessageInfo) -> Option<ContractError> {
    if s.config is None {
        Some(ContractError::Std(StdError::NotFound))
    } else if s.config->0.admin != info.sender@ {
        Some(ContractError::Unauthorized)
    } else {
        None
    }
}

/// Why a request of a collection's admin is turned down, if it is: the
/// collection is not registered, or the sender is not its admin.
pub open spec fn admin_fault(s: LighthouseView, collection: Seq<char>, info: MessageInfo) -> Option<
    ContractError,
> {
    if !s.collections.contains_key(collection) {
        Some(ContractError::Std(StdError::NotFound))
    } else if s.collections[collection].admin != info.sender@ {
        Some(ContractError::Unauthorized)
    } else {
        None
    }
}

/// Why a new partner is turned down, if it is.
pub open spec fn partner_fault(s: LighthouseView, info: MessageInfo, msg: AddPartner) -> Option<
    ContractError,
> {
    if config_fault(s, info) is Some {
        config_fault(s, info)
    } else if msg.percent > 99 {
        Some(ContractError::InvalidFeePercent)
    } else {
        None
    }
}

/// The instruction that lifts the freeze of a collection's tokens.
pub open spec fn unfreeze_message(c: CollectionView, collection: Seq<char>) -> SubMsgView {
    match c.strategy() {
        Some(Strategy::Native721) => plain(
            CosmosMsgView::WasmExecute {
                contract_addr: collection,
                msg: ExecutePayloadView::Cw2981(
                    Cw2981LHExecuteMsgView::Extension {
                        msg: Cw2981LHExecuteExtensionView::Unfreeze,
                    },
                ),
            },
        ),
        Some(Strategy::Native404) => plain(
            CosmosMsgView::WasmExecute {
                contract_addr: collection,
                msg: ExecutePayloadView::Cw404(Cw404ExecuteMsgView::Unfreeze),
            },
        ),
        _ => evm_call(collection, selector("unfreeze()"@)),
    }
}

/// The instruction that reveals a collection's metadata.
pub open spec fn reveal_message(c: CollectionView, collection: Seq<char>) -> SubMsgView {
    if c.chain == "v1"@ {
        plain(
            CosmosMsgView::WasmExecute {
                contract_addr: collection,
                msg: ExecutePayloadView::Cw2981(
                    Cw2981LHExecuteMsgView::Extension { msg: Cw2981LHExecuteExtensionView::Reveal },
                ),
            },
        )
    } else {
        evm_call(collection, selector("reveal()"@))
    }
}

/// Whether the new admin of a bridged collection is named by a native
/// address, which must be translated first.
pub open spec fn names_native_address(msg: UpdateNftContractAdmin) -> bool {
    "sei"@.is_prefix_of(msg.new_admin@)
}

/// The bridged-chain address of the new admin of a bridged collection.
pub open spec fn new_minter(association: GetEvmAddressResponse, msg: UpdateNftContractAdmin) -> Seq<
    char,
> {
    if names_native_address(msg) {
        association.evm_address@
    } else {
        msg.new_admin@
    }
}

/// Why a change of a collection contract's admin is turned down, if it is.
pub open spec fn contract_admin_fault(
    s: LighthouseView,
    info: MessageInfo,
    association: GetEvmAddressResponse,
    msg: UpdateNftContractAdmin,
) -> Option<ContractError> {
    if admin_fault(s, msg.collection@, info) is Some {
        admin_fault(s, msg.collection@, info)
    } else if s.collections[msg.collection@].chain == "v1"@ {
        None
    } else if names_native_address(msg) && !association.associated {
        Some(ContractError::NotAssociatedAddress)
    } else {
        match padded_address(new_minter(association, msg)) {
            Err(e) => Some(ContractError::Std(e)),
            Ok(_) => None,
        }
    }
}

/// The answer to a change of a collection contract's admin.
pub open spec fn contract_admin_response(
    s: LighthouseView,
    association: GetEvmAddressResponse,
    msg: UpdateNftContractAdmin,
) -> ResponseView {
    if s.collections[msg.collection@].chain == "v1"@ {
        ResponseView {
            messages: seq![
                plain(
                    CosmosMsgView::WasmUpdateAdmin {
                        contract_addr: msg.collection@,
                        admin: msg.new_admin@,
                    },
                ),
            ],
            attributes: seq![
                note("action"@, "update_nft_contract_admin"@),
                note("collection"@, msg.collection@),
                note("new_admin"@, msg.new_admin@),
            ],
        }
    } else {
        ResponseView {
            messages: seq![
                evm_call(
                    msg.collection@,
                    selector("updateMinter(address)"@) + padded_address(
                        new_minter(association, msg),
                    )->Ok_0,
                ),
            ],
            attributes: seq![
                note("action"@, "update_nft_contract_admin"@),
                note("collection"@, msg.collection@),
                note("new_minter"@, new_minter(association, msg)),
            ],
        }
    }
}

/// Why a change of a collection contract's owner is turned down, if it is.
pub open spec fn contract_owner_fault(
    s: LighthouseView,
    info: MessageInfo,
    msg: UpdateNftContractCwOwnableOwner,
) -> Option<ContractError> {
    if admin_fault(s, msg.collection@, info) is Some {
        admin_fault(s, msg.collection@, info)
    } else if s.collections[msg.collection@].chain == "v2"@ {
        Some(ContractError::NotAvailableForEVM)
    } else {
        None
    }
}

/// The instruction that hands a collection contract to a new owner.
pub open spec fn contract_owner_message(
    c: CollectionView,
    msg: UpdateNftContractCwOwnableOwner,
) -> SubMsgView {
    if c.collection_type == "721"@ {
        plain(
            CosmosMsgView::WasmExecute {
                contract_addr: msg.collection@,
                msg: ExecutePayloadView::Cw721TransferOwnership { new_owner: msg.new_admin@ },
            },
        )
    } else {
        plain(
            CosmosMsgView::WasmExecute {
                contract_addr: msg.collection@,
                msg: ExecutePayloadView::Cw404(
                    Cw404ExecuteMsgView::TransferOwnership { new_admin: msg.new_admin@ },
                ),
            },
        )
    }
}

/// The state after a change of the settings: the new fee and the new
/// answer to whether collections are taken.
pub open spec fn config_update_state(s: LighthouseView, msg: UpdateConfig) -> LighthouseView {
    LighthouseView {
        config: Some(
            ConfigView {
                fee: msg.fee,
                registeration_open: msg.registeration_open,
                ..s.config->0
            },
        ),
        ..s
    }
}

/// The answer to a change of the settings.
pub open spec fn config_update_response() -> ResponseView {
    notes_only(seq![note("action"@, "update_config"@)])
}

/// The state after a collection's freeze was lifted.
pub open spec fn unfreeze_state(s: LighthouseView, msg: UnfreezeCollection) -> LighthouseView {
    LighthouseView {
        collections: s.collections.insert(
            msg.collection@,
            CollectionView { frozen: false, ..s.collections[msg.collection@] },
        ),
        ..s
    }
}

/// The answer to the lifting of a collection's freeze.
pub open spec fn unfreeze_response(s: LighthouseView, msg: UnfreezeCollection) -> ResponseView {
    ResponseView {
        messages: seq![unfreeze_message(s.collections[msg.collection@], msg.collection@)],
        attributes: seq![note("action"@, "unfreeze"@), note("collection"@, msg.collection@)],
    }
}

/// The answer to the reveal of a collection's metadata.
pub open spec fn reveal_response(s: LighthouseView, msg: RevealCollectionMetadata) -> ResponseView {
    ResponseView {
        messages: seq![reveal_message(s.collections[msg.collection@], msg.collection@)],
        attributes: seq![note("action"@, "reveal"@), note("collection"@, msg.collection@)],
    }
}

/// The state after a collection was handed to a new admin.
pub open spec fn admin_update_state(s: LighthouseView, msg: UpdateAdmin) -> LighthouseView {
    LighthouseView {
        collections: s.collections.insert(
            msg.collection@,
            CollectionView { admin: msg.admin@, ..s.collections[msg.collection@] },
        ),
        ..s
    }
}

/// The answer to the handing of a collection to a new admin.
pub open spec fn admin_update_response(msg: UpdateAdmin) -> ResponseView {
    notes_only(
        seq![
            note("action"@, "update_admin"@),
            note("collection"@, msg.collection@),
            note("new_admin"@, msg.admin@),
        ],
    )
}

/// The state after a partner was registered.
pub open spec fn partner_state(s: LighthouseView, msg: AddPartner) -> LighthouseView {
    LighthouseView {
        partners: s.partners.insert(
            msg.address@,
            PartnerView { partner: msg.address@, fee_percent: msg.percent },
        ),
        ..s
    }
}

/// The answer to the registration of a partner.
pub open spec fn partner_response(msg: AddPartner) -> ResponseView {
    notes_only(
        seq![
            note("action"@, "add_partner"@),
            note("address"@, msg.address@),
            note("percent"@, decimal(msg.percent as nat)),
        ],
    )
}

/// The answer to the handing of a collection contract to a new owner.
pub open spec fn contract_owner_response(
    s: LighthouseView,
    msg: UpdateNftContractCwOwnableOwner,
) -> ResponseView {
    ResponseView {
        messages: seq![contract_owner_message(s.collections[msg.collection@], msg)],
        attributes: seq![
            note("action"@, "update_nft_contract_cw_ownable_owner"@),
            note("collection"@, msg.collection@),
            note("new_admin"@, msg.new_admin@),
        ],
    }
}

impl Lighthouse {
    /// Sets the platform up with the sender as its admin. The platform is
    /// set up once.
    pub fn instantiate(&mut self, info: &MessageInfo, msg: &InstantiateMsg) -> (outcome: Result<
        Response,
        ContractError,
    >)
        requires
            old(self).wf(),
            old(self)@.config is None,
        ensures
            final(self).wf(),
            outcome matches Ok(response) && response@ == notes_only(
                seq![note("action"@, "instantiate"@)],
            ),
            final(self)@ == (LighthouseView {
                config: Some(first_config(*info, *msg)),
                ..old(self)@
            }),
    {
        self.set_config(
            Config {
                admin: info.sender.clone(),
                fee: msg.fee,
                registeration_open: msg.registeration_open,
                next_reply_id: 0,
                denom: owned("usei"),
            },
        );
        let mut response = Response::new();
        response.add_attribute("action", owned("instantiate"));
        assert(response@.attributes =~= seq![note("action"@, "instantiate"@)]);
        Ok(response)
    }

    /// Changes the fee and whether collections are taken, on behalf of the
    /// platform's admin.
    pub fn update_config(&mut self, info: &MessageInfo, msg: &UpdateConfig) -> (outcome: Result<
        Response,
        ContractError,
    >)
        requires
            old(self).wf(),
        ensures
            final(self).wf(),
            match outcome {
                Ok(response) => {
                    &&& config_fault(old(self)@, *info) is None
                    &&& final(self)@ == config_update_state(old(self)@, *msg)
                    &&& response@ == config_update_response()
                },
                Err(e) => config_fault(old(self)@, *info) == Some(e) && final(self)@ == old(self)@,
            },
    {
        let mut config = match self.config() {
            Some(c) => c.clone(),
            None => {
                return Err(ContractError::Std(StdError::NotFound));
            },
        };
        if !(config.admin == info.sender) {
            return Err(ContractError::Unauthorized);
        }
        config.fee = msg.fee;
        config.registeration_open = msg.registeration_open;
        self.set_config(config);
        let mut response = Response::new();
        response.add_attribute("action", owned("update_config"));
        assert(response@.attributes =~= seq![note("action"@, "update_config"@)]);
        Ok(response)
    }

    /// Loads a collection on behalf of the sender, who must be its admin.
    pub fn collection_of_admin(&self, collection: &String, info: &MessageInfo) -> (outcome: Result<
        Collection,
        ContractError,
    >)
        requires
            self.wf(),
        ensures
            match outcome {
                Ok(c) => {
                    &&& admin_fault(self@, collection@, *info) is None
                    &&& c@ == self@.collections[collection@]
                    &&& c@.wf()
                    &&& c@.collection_address == Some(collection@)
                },
                Err(e) => admin_fault(self@, collection@, *info) == Some(e),
            },
    {
        let found = match self.collection(collection.as_str()) {
            Some(c) => c.clone(),
            None => {
                return Err(ContractError::Std(StdError::NotFound));
            },
        };
        if !(found.admin == info.sender) {
            return Err(ContractError::Unauthorized);
        }
        Ok(found)
    }

    /// Lifts the freeze of a collection's tokens on behalf of its admin.
    pub fn unfreeze_collection(&mut self, info: &MessageInfo, msg: &UnfreezeCollection) -> (outcome:
        Result<Response, ContractError>)
        requires
            old(self).wf(),
        ensures
            final(self).wf(),
            match outcome {
                Ok(response) => {
                    &&& admin_fault(old(self)@, msg.collection@, *info) is None
                    &&& final(self)@ == unfreeze_state(old(self)@, *msg)
                    &&& response@ == unfreeze_response(old(self)@, *msg)
                },
                Err(e) => admin_fault(old(self)@, msg.collection@, *info) == Some(e) && final(self)@ == old(self)@,
            },
    {
        let mut collection = match self.collection_of_admin(&msg.collection, info) {
            Ok(c) => c,
            Err(e) => {
                return Err(e);
            },
        };
        let ghost c = collection@;
        let mut response = Response::new();
        match collection.strategy() {
            Some(Strategy::Native721) => {
                response.add_message(
                    CosmosMsg::WasmExecute {
                        contract_addr: msg.collection.clone(),
                        msg: ExecutePayload::Cw2981(
                            Cw2981LHExecuteMsg::Extension {
                                msg: Cw2981LHExecuteExtension::Unfreeze,
                            },
                        ),
                    },
                );
            },
            Some(Strategy::Native404) => {
                response.add_message(
                    CosmosMsg::WasmExecute {
                        contract_addr: msg.collection.clone(),
                        msg: ExecutePayload::Cw404(Cw404ExecuteMsg::Unfreeze),
                    },
                );
            },
            _ => {
                let data = function_selector("unfreeze()");
                response.add_submessage(evm_call_message(&msg.collection, &data));
            },
        }
        assert(response@.messages =~= seq![unfreeze_message(c, msg.collection@)]);
        response.add_attribute("action", owned("unfreeze"));
        response.add_attribute("collection", msg.collection.clone());
        assert(response@.attributes =~= seq![
            note("action"@, "unfreeze"@),
            note("collection"@, msg.collection@),
        ]);
        collection.frozen = false;
        assert(collection@.strategy() == c.strategy());
        self.set_collection(msg.collection.clone(), collection);
        Ok(response)
    }

    /// Reveals a collection's metadata on behalf of its admin. The state
    /// stays as it is.
    pub fn reveal_collection_metadata(
        &self,
        info: &MessageInfo,
        msg: &RevealCollectionMetadata,
    ) -> (outcome: Result<Response, ContractError>)
        requires
            self.wf(),
        ensures
            match outcome {
                Ok(response) => {
                    &&& admin_fault(self@, msg.collection@, *info) is None
                    &&& response@ == reveal_response(self@, *msg)
                },
                Err(e) => admin_fault(self@, msg.collection@, *info) == Some(e),
            },
    {
        let collection = match self.collection_of_admin(&msg.collection, info) {
            Ok(c) => c,
            Err(e) => {
                return Err(e);
            },
        };
        let mut response = Response::new();
        if text_is(&collection.chain, "v1") {
            response.add_message(
                CosmosMsg::WasmExecute {
                    contract_addr: msg.collection.clone(),
                    msg: ExecutePayload::Cw2981(
                        Cw2981LHExecuteMsg::Extension { msg: Cw2981LHExecuteExtension::Reveal },
                    ),
                },
            );
        } else {
            let data = function_selector("reveal()");
            response.add_submessage(evm_call_message(&msg.collection, &data));
        }
        assert(response@.messages =~= seq![reveal_message(collection@, msg.collection@)]);
        response.add_attribute("action", owned("reveal"));
        response.add_attribute("collection", msg.collection.clone());
        assert(response@.attributes =~= seq![
            note("action"@, "reveal"@),
            note("collection"@, msg.collection@),
        ]);
        Ok(response)
    }

    /// Hands a collection to a new admin on behalf of its admin.
    pub fn update_admin(&mut self, info: &MessageInfo, msg: &UpdateAdmin) -> (outcome: Result<
        Response,
        ContractError,
    >)
        requires
            old(self).wf(),
        ensures
            final(self).wf(),
            match outcome {
                Ok(response) => {
                    &&& admin_fault(old(self)@, msg.collection@, *info) is None
                    &&& final(self)@ == admin_update_state(old(self)@, *msg)
                    &&& response@ == admin_update_response(*msg)
                },
                Err(e) => admin_fault(old(self)@, msg.collection@, *info) == Some(e) && final(self)@ == old(self)@,
            },
    {
        let mut collection = match self.collection_of_admin(&msg.collection, info) {
            Ok(c) => c,
            Err(e) => {
                return Err(e);
            },
        };
        let ghost c = collection@;
        collection.admin = msg.admin.clone();
        assert(collection@.strategy() == c.strategy());
        self.set_collection(msg.collection.clone(), collection);
        let mut response = Response::new();
        response.add_attribute("action", owned("update_admin"));
        response.add_attribute("collection", msg.collection.clone());
        response.add_attribute("new_admin", msg.admin.clone());
        assert(response@.attributes =~= seq![
            note("action"@, "update_admin"@),
            note("collection"@, msg.collection@),
            note("new_admin"@, msg.admin@),
        ]);
        Ok(response)
    }

    /// Registers a partner, or changes its percentage, on behalf of the
    /// platform's admin. A partner takes at most 99 percent.
    pub fn add_partner(&mut self, info: &MessageInfo, msg: &AddPartner) -> (outcome: Result<
        Response,
        ContractError,
    >)
        requires
            old(self).wf(),
        ensures
            final(self).wf(),
            match outcome {
                Ok(response) => {
                    &&& partner_fault(old(self)@, *info, *msg) is None
                    &&& final(self)@ == partner_state(old(self)@, *msg)
                    &&& response@ == partner_response(*msg)
                },
                Err(e) => partner_fault(old(self)@, *info, *msg) == Some(e) && final(self)@
                    == old(self)@,
            },
    {
        match self.config() {
            Some(config) => {
                if !(config.admin == info.sender) {
                    return Err(ContractError::Unauthorized);
                }
            },
            None => {
                return Err(ContractError::Std(StdError::NotFound));
            },
        }
        if msg.percent > 99 {
            return Err(ContractError::InvalidFeePercent);
        }
        self.set_partner(
            msg.address.clone(),
            Partner { partner: msg.address.clone(), fee_percent: msg.percent },
        );
        let mut response = Response::new();
        response.add_attribute("action", owned("add_partner"));
        response.add_attribute("address", msg.address.clone());
        response.add_attribute("percent", decimal_string(msg.percent));
        assert(response@.attributes =~= seq![
            note("action"@, "add_partner"@),
            note("address"@, msg.address@),
            note("percent"@, decimal(msg.percent as nat)),
        ]);
        Ok(response)
    }

    /// Names a new admin of a collection's contract on behalf of the
    /// collection's admin. On the bridged chain the new admin becomes the
    /// minter; `association` is what the address oracle says of a new admin
    /// named by a native address. The state stays as it is.
    pub fn update_nft_contract_admin(
        &self,
        info: &MessageInfo,
        association: &GetEvmAddressResponse,
        msg: &UpdateNftContractAdmin,
    ) -> (outcome: Result<Response, ContractError>)
        requires
            self.wf(),
        ensures
            match outcome {
                Ok(response) => {
                    &&& contract_admin_fault(self@, *info, *association, *msg) is None
                    &&& response@ == contract_admin_response(self@, *association, *msg)
                },
                Err(e) => contract_admin_fault(self@, *info, *association, *msg) == Some(e),
            },
    {
        let collection = match self.collection_of_admin(&msg.collection, info) {
            Ok(c) => c,
            Err(e) => {
                return Err(e);
            },
        };
        let mut response = Response::new();
        if text_is(&collection.chain, "v1") {
            response.add_message(
                CosmosMsg::WasmUpdateAdmin {
                    contract_addr: msg.collection.clone(),
                    admin: msg.new_admin.clone(),
                },
            );
            response.add_attribute("action", owned("update_nft_contract_admin"));
            response.add_attribute("collection", msg.collection.clone());
            response.add_attribute("new_admin", msg.new_admin.clone());
            proof {
                let expected = contract_admin_response(self@, *association, *msg);
                assert(response@.messages =~= expected.messages);
                assert(response@.attributes =~= expected.attributes);
            }
            Ok(response)
        } else {
            let native = starts_with(msg.new_admin.as_str(), "sei");
            if native && !association.associated {
                return Err(ContractError::NotAssociatedAddress);
            }
            let minter = if native {
                association.evm_address.clone()
            } else {
                msg.new_admin.clone()
            };
            assert(minter@ == new_minter(*association, *msg));
            let padded = match pad_address_to_bytes32(minter.as_str()) {
                Ok(word) => word,
                Err(e) => {
                    return Err(ContractError::Std(e));
                },
            };
            assert(padded@.len() == 32);
            let mut data = function_selector("updateMinter(address)");
            data.extend_from_slice(padded.as_slice());
            assert(data@ =~= selector("updateMinter(address)"@) + padded@);
            response.add_submessage(evm_call_message(&msg.collection, &data));
            response.add_attribute("action", owned("update_nft_contract_admin"));
            response.add_attribute("collection", msg.collection.clone());
            response.add_attribute("new_minter", minter);
            proof {
                let expected = contract_admin_response(self@, *association, *msg);
                assert(response@.messages =~= expected.messages);
                assert(response@.attributes =~= expected.attributes);
            }
            Ok(response)
        }
    }

    /// Hands a collection's contract on the native chain to a new owner on
    /// behalf of the collection's admin. The state stays as it is.
    pub fn update_nft_contract_cw_ownable_owner(
        &self,
        info: &MessageInfo,
        msg: &UpdateNftContractCwOwnableOwner,
    ) -> (outcome: Result<Response, ContractError>)
        requires
            self.wf(),
        ensures
            match outcome {
                Ok(response) => {
                    &&& contract_owner_fault(self@, *info, *msg) is None
                    &&& response@ == contract_owner_response(self@, *msg)
                },
                Err(e) => contract_owner_fault(self@, *info, *msg) == Some(e),
            },
    {
        let collection = match self.collection_of_admin(&msg.collection, info) {
            Ok(c) => c,
            Err(e) => {
                return Err(e);
            },
        };
        if text_is(&collection.chain, "v2") {
            return Err(ContractError::NotAvailableForEVM);
        }
        let mut response = Response::new();
        if text_is(&collection.collection_type, "721") {
            response.add_message(
                CosmosMsg::WasmExecute {
                    contract_addr: msg.collection.clone(),
                    msg: ExecutePayload::Cw721TransferOwnership {
                        new_owner: msg.new_admin.clone(),
                    },
                },
            );
        } else {
            response.add_message(
                CosmosMsg::WasmExecute {
                    contract_addr: msg.collection.clone(),
                    msg: ExecutePayload::Cw404(
                        Cw404ExecuteMsg::TransferOwnership { new_admin: msg.new_admin.clone() },
                    ),
                },
            );
        }
        assert(response@.messages =~= seq![contract_owner_message(collection@, *msg)]);
        response.add_attribute("action", owned("update_nft_contract_cw_ownable_owner"));
        response.add_attribute("collection", msg.collection.clone());
        response.add_attribute("new_admin", msg.new_admin.clone());
        assert(response@.attributes =~= seq![
            note("action"@, "update_nft_contract_cw_ownable_owner"@),
            note("collection"@, msg.collection@),
            note("new_admin"@, msg.new_admin@),
        ]);
        Ok(response)
    }
}

/// What the host's oracles say for one request: of the sender, and of the
/// new admin that a change of a contract's admin names.
#[derive(Debug, Clone, PartialEq, Eq)]
pub struct HostAnswers {
    /// The sender's address on the bridged chain and its roles there.
    pub sender: BridgeAnswers,
    /// The address on the bridged chain of a new admin.
    pub new_admin: GetEvmAddressResponse,
}

/// Why a request is turned down, if it is: as its handler says.
pub open spec fn execute_fault(
    s: LighthouseView,
    env: Env,
    info: MessageInfo,
    answers: HostAnswers,
    msg: ExecuteMsg,
) -> Option<ContractError> {
    match msg {
        ExecuteMsg::UpdateConfig(m) => config_fault(s, info),
        ExecuteMsg::RegisterCollection(m) => register_fault(s, answers.sender, m),
        ExecuteMsg::UpdateCollection(m) => update_fault(s, info, m),
        ExecuteMsg::Mint(m) => mint_fault(s, mint_call(env, info, answers.sender.association, m)),
        ExecuteMsg::UnfreezeCollection(m) => admin_fault(s, m.collection@, info),
        ExecuteMsg::RevealCollectionMetadata(m) => admin_fault(s, m.collection@, info),
        ExecuteMsg::UpdateAdmin(m) => admin_fault(s, m.collection@, info),
        ExecuteMsg::AddPartner(m) => partner_fault(s, info, m),
        ExecuteMsg::UpdateNftContractCwOwnableOwner(m) => contract_owner_fault(s, info, m),
        ExecuteMsg::UpdateNftContractAdmin(m) => contract_admin_fault(
            s,
            info,
            answers.new_admin,
            m,
        ),
    }
}

/// The state after a request that goes through: as its handler says.
pub open spec fn execute_state(
    s: LighthouseView,
    env: Env,
    info: MessageInfo,
    answers: HostAnswers,
    msg: ExecuteMsg,
) -> LighthouseView {
    match msg {
        ExecuteMsg::UpdateConfig(m) => config_update_state(s, m),
        ExecuteMsg::RegisterCollection(m) => register_state(s, info, m),
        ExecuteMsg::UpdateCollection(m) => update_state(s, m),
        ExecuteMsg::Mint(m) => mint_state(s, mint_call(env, info, answers.sender.association, m)),
        ExecuteMsg::UnfreezeCollection(m) => unfreeze_state(s, m),
        ExecuteMsg::UpdateAdmin(m) => admin_update_state(s, m),
        ExecuteMsg::AddPartner(m) => partner_state(s, m),
        _ => s,
    }
}

/// The answer to a request that goes through: as its handler says.
pub open spec fn execute_response(
    s: LighthouseView,
    env: Env,
    info: MessageInfo,
    answers: HostAnswers,
    msg: ExecuteMsg,
) -> ResponseView {
    match msg {
        ExecuteMsg::UpdateConfig(m) => config_update_response(),
        ExecuteMsg::RegisterCollection(m) => register_response(s, env, info, m),
        ExecuteMsg::UpdateCollection(m) => update_response(s, m),
        ExecuteMsg::Mint(m) => mint_response(
            s,
            mint_call(env, info, answers.sender.association, m),
        ),
        ExecuteMsg::UnfreezeCollection(m) => unfreeze_response(s, m),
        ExecuteMsg::RevealCollectionMetadata(m) => reveal_response(s, m),
        ExecuteMsg::UpdateAdmin(m) => admin_update_response(m),
        ExecuteMsg::AddPartner(m) => partner_response(m),
        ExecuteMsg::UpdateNftContractCwOwnableOwner(m) => contract_owner_response(s, m),
        ExecuteMsg::UpdateNftContractAdmin(m) => contract_admin_response(s, answers.new_admin, m),
    }
}

impl Lighthouse {
    /// Hands a request to its handler. A request that is turned down leaves
    /// the state as it was.
    pub fn execute(
        &mut self,
        env: &Env,
        info: &MessageInfo,
        answers: &HostAnswers,
        msg: &ExecuteMsg,
    ) -> (outcome: Result<Response, ContractError>)
        requires
            old(self).wf(),
        ensures
            final(self).wf(),
            match outcome {
                Ok(response) => {
                    &&& execute_fault(old(self)@, *env, *info, *answers, *msg) is None
                    &&& final(self)@ == execute_state(old(self)@, *env, *info, *answers, *msg)
                    &&& response@ == execute_response(old(self)@, *env, *info, *answers, *msg)
                },
                Err(e) => {
                    &&& execute_fault(old(self)@, *env, *info, *answers, *msg) == Some(e)
                    &&& final(self)@ == old(self)@
                },
            },
    {
        match msg {
            ExecuteMsg::UpdateConfig(m) => self.update_config(info, m),
            ExecuteMsg::RegisterCollection(m) => self.register_collection(
                env,
                info,
                &answers.sender,
                m,
            ),
            ExecuteMsg::UpdateCollection(m) => self.update_collection(info, m),
            ExecuteMsg::Mint(m) => self.mint(env, info, &answers.sender.association, m),
            ExecuteMsg::UnfreezeCollection(m) => self.unfreeze_collection(info, m),
            ExecuteMsg::RevealCollectionMetadata(m) => self.reveal_collection_metadata(info, m),
            ExecuteMsg::UpdateAdmin(m) => self.update_admin(info, m),
            ExecuteMsg::AddPartner(m) => self.add_partner(info, m),
            ExecuteMsg::UpdateNftContractCwOwnableOwner(m) => {
                self.update_nft_contract_cw_ownable_owner(info, m)
            },
            ExecuteMsg::UpdateNftContractAdmin(m) => self.update_nft_contract_admin(
                info,
                &answers.new_admin,
                m,
            ),
        }
    }
}

} // verus!
