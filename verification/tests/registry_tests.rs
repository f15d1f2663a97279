use lighthouse::error::{ContractError, StdError};
use lighthouse::execute::HostAnswers;
use lighthouse::msg::{
    AddPartner, ExecuteMsg, InstantiateMsg, Mint, QueryMsg, RegisterCollection,
    RevealCollectionMetadata, UnfreezeCollection, UpdateAdmin, UpdateCollection, UpdateConfig,
    UpdateNftContractAdmin, UpdateNftContractCwOwnableOwner,
};
use lighthouse::querier::{
    bech32_address_query, default_admin_role, evm_address_query, has_role_query, minter_role_id,
    role_granted,
};
use lighthouse::query::QueryResponse;
use lighthouse::registry::BridgeAnswers;
use lighthouse::response::{
    CosmosMsg, Env, ExecutePayload, InstantiatePayload, MessageInfo, Reply, ReplyOn,
};
use lighthouse::state::{
    Collection, Config, Cw404Info, Gate, GateType, Marketing, MintGroup, MintInfo, Partner,
    Payment, PaymentType, Strategy,
};
use lighthouse::state::select_strategy;
use lighthouse::store::Lighthouse;
use lighthouse::structs::{
    Cw2981LHExecuteExtension, Cw2981LHExecuteMsg, Cw404ExecuteMsg, EvmMsg, EvmQuery,
    GetEvmAddressResponse, Logo,
};
use lighthouse::validation::{
    is_collection_wf, is_group_wf, is_valid_payment, leg_addresses, validate_groups,
    validate_payments,
};
use sha3::{Digest, Keccak256};

const ADMIN: &str = "sei1admin";
const CREATOR: &str = "sei1creator";
const COLLECTION: &str = "sei1collection";
const EVM: &str = "0x00112233445566778899aabbccddeeff00112233";

fn env() -> Env {
    Env { block_time: 0, contract_address: "sei1lighthouse".to_string() }
}

fn from(sender: &str) -> MessageInfo {
    MessageInfo { sender: sender.to_string(), funds: vec![] }
}

fn bridge(associated: bool, admin: bool, minter: bool) -> BridgeAnswers {
    BridgeAnswers {
        association: GetEvmAddressResponse { evm_address: EVM.to_string(), associated },
        has_admin_role: admin,
        has_minter_role: minter,
    }
}

fn answers() -> HostAnswers {
    HostAnswers {
        sender: bridge(true, true, true),
        new_admin: GetEvmAddressResponse { evm_address: EVM.to_string(), associated: true },
    }
}

fn group(name: &str) -> MintGroup {
    MintGroup {
        name: name.to_string(),
        merkle_root: None,
        max_mints_per_wallet: 0,
        reserved_supply: 0,
        start_time: 0,
        end_time: 0,
        payments: vec![],
        batch_size: None,
        gates: vec![],
        gates_optional: None,
    }
}

fn leg(kind: PaymentType, amount: Option<u128>, args: &[&str]) -> Payment {
    Payment { payment_type: kind, amount, args: args.iter().map(|a| a.to_string()).collect() }
}

fn registration(chain: &str, standard: &str) -> RegisterCollection {
    RegisterCollection {
        cw721_code: Some(11),
        cw404_code: Some(44),
        erc721_address: Some(COLLECTION.to_string()),
        chain: chain.to_string(),
        collection_type: standard.to_string(),
        name: "Lanterns".to_string(),
        symbol: "LNT".to_string(),
        supply: 100,
        token_uri: "ipfs://lanterns".to_string(),
        royalty_percent: Some(5),
        royalty_wallet: Some(CREATOR.to_string()),
        mint_groups: vec![group("public")],
        is_immutable: true,
        fixed_uri: false,
        start_order: None,
        uri_suffix: Some(".json".to_string()),
        frozen: true,
        unfreeze_time: Some(99),
        frozen_whitelist: Some(vec!["sei1market".to_string()]),
        hidden_metadata: true,
        placeholder_token_uri: Some("ipfs://hidden".to_string()),
        partner: None,
        cw404_info: None,
    }
}

fn extension() -> Cw404Info {
    Cw404Info {
        decimals: 6,
        max_supply: 1_000,
        max_edition: 100,
        tokens_per_nft: 10,
        marketing: Some(Marketing {
            project: Some("Lanterns".to_string()),
            description: None,
            logo: Some("https://lanterns/logo.png".to_string()),
        }),
    }
}

fn platform(open: bool) -> Lighthouse {
    let mut state = Lighthouse::new();
    state.instantiate(&from(ADMIN), &InstantiateMsg { fee: 5, registeration_open: open }).unwrap();
    state
}

fn launched(chain: &str, standard: &str) -> Lighthouse {
    let mut state = platform(true);
    let mut msg = registration(chain, standard);
    if standard == "404" {
        msg.cw404_info = Some(extension());
        msg.mint_groups[0].batch_size = Some(1);
    }
    state.register_collection(&env(), &from(CREATOR), &bridge(true, true, true), &msg).unwrap();
    if chain == "v1" {
        state.reply(&Reply { id: 0, contract_address: COLLECTION.to_string() }).unwrap();
    }
    state
}

#[test]
fn new_state_is_empty() {
    let state = Lighthouse::new();
    assert_eq!(state.query_get_config(), Err(ContractError::Std(StdError::NotFound)));
    assert!(state.config().is_none());
    assert!(state.collection(COLLECTION).is_none());
    assert!(state.pending(0).is_none());
    assert_eq!(state.get_global_mint_info(&COLLECTION.to_string(), &"public".to_string()), 0);
    let other = Lighthouse::default();
    assert!(other.config().is_none());
}

#[test]
fn instantiate_sets_the_sender_as_admin() {
    let state = platform(true);
    assert_eq!(
        state.query_get_config(),
        Ok(Config {
            admin: ADMIN.to_string(),
            fee: 5,
            registeration_open: true,
            next_reply_id: 0,
            denom: "usei".to_string(),
        })
    );
}

#[test]
fn only_the_admin_updates_the_config() {
    let mut state = platform(true);
    let change = UpdateConfig { fee: 9, registeration_open: false };
    assert_eq!(state.update_config(&from(CREATOR), &change), Err(ContractError::Unauthorized));
    assert_eq!(state.query_get_config().unwrap().fee, 5);
    let response = state.update_config(&from(ADMIN), &change).unwrap();
    assert_eq!(response.attributes.len(), 1);
    assert_eq!(response.attributes[0].key, "action");
    assert_eq!(response.attributes[0].value, "update_config");
    let config = state.query_get_config().unwrap();
    assert_eq!((config.fee, config.registeration_open, config.next_reply_id), (9, false, 0));
    let mut fresh = Lighthouse::new();
    assert_eq!(fresh.update_config(&from(ADMIN), &change), Err(ContractError::Std(StdError::NotFound)));
}

#[test]
fn strategy_is_selected_by_both_tags() {
    let s = |a: &str, b: &str| select_strategy(&a.to_string(), &b.to_string());
    assert_eq!(s("v1", "721"), Some(Strategy::Native721));
    assert_eq!(s("v2", "721"), Some(Strategy::Bridged721));
    assert_eq!(s("v1", "404"), Some(Strategy::Native404));
    assert_eq!(s("v2", "404"), None);
    assert_eq!(s("v3", "721"), None);
    assert_eq!(s("", ""), None);
    assert_eq!(s("721", "v1"), None);
}

#[test]
fn registration_is_closed_when_the_platform_says_so() {
    let mut state = platform(false);
    assert_eq!(
        state.register_collection(&env(), &from(CREATOR), &bridge(true, true, true), &registration("v1", "721")),
        Err(ContractError::RegistrationClosed)
    );
    let mut fresh = Lighthouse::new();
    assert_eq!(
        fresh.register_collection(&env(), &from(CREATOR), &bridge(true, true, true), &registration("v1", "721")),
        Err(ContractError::Std(StdError::NotFound))
    );
}

#[test]
fn registration_needs_the_fields_of_its_tags() {
    let mut state = platform(true);
    let all = bridge(true, true, true);
    let mut msg = registration("v1", "721");
    msg.cw721_code = None;
    assert_eq!(state.register_collection(&env(), &from(CREATOR), &all, &msg), Err(ContractError::InvalidChainConfig));
    let mut msg = registration("v2", "721");
    msg.erc721_address = None;
    assert_eq!(state.register_collection(&env(), &from(CREATOR), &all, &msg), Err(ContractError::InvalidChainConfig));
    let mut msg = registration("v1", "404");
    msg.cw404_info = Some(extension());
    msg.mint_groups[0].batch_size = Some(2);
    msg.cw404_code = None;
    assert_eq!(state.register_collection(&env(), &from(CREATOR), &all, &msg), Err(ContractError::InvalidChainConfig));
    msg.cw404_code = Some(44);
    msg.start_order = Some(1);
    assert_eq!(state.register_collection(&env(), &from(CREATOR), &all, &msg), Err(ContractError::InvalidChainConfig));
    msg.start_order = None;
    msg.cw404_info = None;
    assert_eq!(state.register_collection(&env(), &from(CREATOR), &all, &msg), Err(ContractError::InvalidChainConfig));
    msg.cw404_info = Some(extension());
    msg.mint_groups[0].batch_size = Some(0);
    assert_eq!(state.register_collection(&env(), &from(CREATOR), &all, &msg), Err(ContractError::InvalidChainConfig));
    msg.mint_groups[0].batch_size = None;
    assert_eq!(state.register_collection(&env(), &from(CREATOR), &all, &msg), Err(ContractError::InvalidChainConfig));
    msg.mint_groups[0].batch_size = Some(2);
    assert!(state.register_collection(&env(), &from(CREATOR), &all, &msg).is_ok());
    for (chain, standard) in [("v2", "404"), ("v3", "721"), ("v1", "1155"), ("", "")] {
        assert_eq!(
            state.register_collection(&env(), &from(CREATOR), &all, &registration(chain, standard)),
            Err(ContractError::InvalidChainConfig)
        );
    }
}

#[test]
fn payments_are_validated_leg_by_leg() {
    let good = [
        leg(PaymentType::Native, Some(1), &["sei1a"]),
        leg(PaymentType::Cw20, Some(1), &["sei1a", "sei1token"]),
        leg(PaymentType::Cw20Burn, Some(1), &["sei1token"]),
        leg(PaymentType::Native, Some(u128::MAX), &["sei1a", "extra"]),
    ];
    for payment in &good {
        assert!(is_valid_payment(payment));
    }
    let bad = [
        leg(PaymentType::Native, None, &["sei1a"]),
        leg(PaymentType::Native, Some(0), &["sei1a"]),
        leg(PaymentType::Native, Some(1), &[]),
        leg(PaymentType::Native, Some(1), &[""]),
        leg(PaymentType::Cw20, Some(0), &["sei1a", "sei1token"]),
        leg(PaymentType::Cw20, Some(1), &["sei1a"]),
        leg(PaymentType::Cw20, Some(1), &["sei1a", ""]),
        leg(PaymentType::Cw20, Some(1), &["", "sei1token"]),
        leg(PaymentType::Cw20Burn, None, &["sei1token"]),
        leg(PaymentType::Cw20Burn, Some(1), &[]),
        leg(PaymentType::Cw721, Some(1), &["sei1a"]),
        leg(PaymentType::Cw721Burn, Some(1), &["sei1a"]),
        leg(PaymentType::Other("barter".to_string()), Some(1), &["sei1a"]),
    ];
    for payment in &bad {
        assert!(!is_valid_payment(payment));
        let mut with_bad = group("g");
        with_bad.payments = vec![good[0].clone(), payment.clone()];
        assert_eq!(
            validate_payments(&vec![group("free"), with_bad]),
            Err(ContractError::InvalidShares)
        );
    }
    let mut fine = group("g");
    fine.payments = good.to_vec();
    assert_eq!(validate_payments(&vec![fine, group("free")]), Ok(()));
    assert_eq!(validate_payments(&vec![]), Ok(()));
}

#[test]
fn batch_size_is_needed_for_fungible_batches_only() {
    let mut with = group("a");
    with.batch_size = Some(3);
    let without = group("b");
    let mut zero = group("c");
    zero.batch_size = Some(0);
    let batched = "404".to_string();
    let unique = "721".to_string();
    assert_eq!(validate_groups(&batched, &vec![with.clone()]), Ok(()));
    assert_eq!(validate_groups(&batched, &vec![]), Ok(()));
    assert_eq!(validate_groups(&batched, &vec![with.clone(), without.clone()]), Err(ContractError::InvalidChainConfig));
    assert_eq!(validate_groups(&batched, &vec![zero.clone()]), Err(ContractError::InvalidChainConfig));
    assert_eq!(validate_groups(&unique, &vec![with, without, zero]), Ok(()));
}

#[test]
fn registration_turns_down_invalid_payments_and_unknown_partners() {
    let mut state = platform(true);
    let mut msg = registration("v1", "721");
    msg.mint_groups[0].payments = vec![leg(PaymentType::Native, Some(0), &["sei1a"])];
    assert_eq!(
        state.register_collection(&env(), &from(CREATOR), &bridge(true, true, true), &msg),
        Err(ContractError::InvalidShares)
    );
    let mut msg = registration("v1", "721");
    msg.partner = Some("sei1partner".to_string());
    assert_eq!(
        state.register_collection(&env(), &from(CREATOR), &bridge(true, true, true), &msg),
        Err(ContractError::PartnerNotFound)
    );
    assert!(state.pending(0).is_none());
    state.add_partner(&from(ADMIN), &AddPartner { address: "sei1partner".to_string(), percent: 10 }).unwrap();
    assert!(state.register_collection(&env(), &from(CREATOR), &bridge(true, true, true), &msg).is_ok());
}

#[test]
fn native_registration_waits_for_its_contract() {
    let mut state = platform(true);
    let msg = registration("v1", "721");
    let response = state.register_collection(&env(), &from(CREATOR), &bridge(false, false, false), &msg).unwrap();
    assert!(response.attributes.is_empty());
    assert_eq!(response.messages.len(), 1);
    let sub = &response.messages[0];
    assert_eq!((sub.id, sub.reply_on), (0, ReplyOn::Success));
    match &sub.msg {
        CosmosMsg::WasmInstantiate { code_id, msg: InstantiatePayload::Cw2981(payload), admin, label } => {
            assert_eq!(*code_id, 11);
            assert_eq!(admin, CREATOR);
            assert_eq!(label, "Instantiate CW721");
            assert_eq!(payload.name, "Lanterns");
            assert_eq!(payload.symbol, "LNT");
            assert_eq!(payload.minter, "sei1lighthouse");
            assert!(payload.is_immutable);
            assert_eq!(payload.frozen, Some(true));
            assert_eq!(payload.unfreeze_time, Some(99));
            assert_eq!(payload.hidden_metadata, Some(true));
            assert_eq!(payload.placeholder_token_uri, Some("ipfs://hidden".to_string()));
            assert_eq!(payload.base_uri, Some("ipfs://lanterns".to_string()));
            assert!(!payload.fixed_uri);
            assert_eq!(payload.base_uri_suffix, Some(".json".to_string()));
            assert_eq!(payload.royalty_percentage, Some(5));
            assert_eq!(payload.royalty_payment_address, Some(CREATOR.to_string()));
        }
        other => panic!("unexpected instruction {:?}", other),
    }
    assert!(state.collection(COLLECTION).is_none());
    let waiting = state.pending(0).unwrap();
    assert_eq!(waiting.admin, CREATOR);
    assert_eq!(waiting.collection_address, None);
    assert_eq!(waiting.next_token, 0);
    assert_eq!(state.query_get_config().unwrap().next_reply_id, 1);
    state.register_collection(&env(), &from(CREATOR), &bridge(false, false, false), &msg).unwrap();
    assert!(state.pending(1).is_some());
    assert_eq!(state.query_get_config().unwrap().next_reply_id, 2);
}

#[test]
fn fungible_registration_carries_the_extension() {
    let mut state = platform(true);
    let mut msg = registration("v1", "404");
    msg.cw404_info = Some(extension());
    msg.mint_groups[0].batch_size = Some(5);
    let response = state.register_collection(&env(), &from(CREATOR), &bridge(false, false, false), &msg).unwrap();
    match &response.messages[0].msg {
        CosmosMsg::WasmInstantiate { code_id, msg: InstantiatePayload::Cw404(payload), admin, label } => {
            assert_eq!(*code_id, 44);
            assert_eq!(admin, CREATOR);
            assert_eq!(label, "Instantiate CW404");
            assert_eq!(payload.decimals, 6);
            assert_eq!(payload.max_edition, 100);
            assert_eq!(payload.tokens_per_nft, 10);
            assert_eq!(payload.base_uri, "ipfs://lanterns");
            let mint = payload.mint.as_ref().unwrap();
            assert_eq!((mint.minter.as_str(), mint.cap), ("sei1lighthouse", Some(1_000)));
            let frozen = payload.frozen_data.as_ref().unwrap();
            assert!(frozen.frozen);
            assert_eq!(frozen.unfreeze_time, Some(99));
            assert_eq!(frozen.whitelisted, vec!["sei1market".to_string()]);
            assert_eq!(payload.admin, Some(CREATOR.to_string()));
            let marketing = payload.marketing.as_ref().unwrap();
            assert_eq!(marketing.project, Some("Lanterns".to_string()));
            assert_eq!(marketing.description, None);
            assert_eq!(marketing.marketing, Some(CREATOR.to_string()));
            assert_eq!(marketing.logo, Some(Logo::Url("https://lanterns/logo.png".to_string())));
        }
        other => panic!("unexpected instruction {:?}", other),
    }
}

#[test]
fn bridged_registration_needs_both_roles() {
    let mut state = platform(true);
    let msg = registration("v2", "721");
    assert_eq!(
        state.register_collection(&env(), &from(CREATOR), &bridge(false, true, true), &msg),
        Err(ContractError::NotAssociatedAddress)
    );
    assert_eq!(
        state.register_collection(&env(), &from(CREATOR), &bridge(true, false, true), &msg),
        Err(ContractError::Unauthorized)
    );
    assert_eq!(
        state.register_collection(&env(), &from(CREATOR), &bridge(true, true, false), &msg),
        Err(ContractError::NotMinter)
    );
    assert!(state.collection(COLLECTION).is_none());
    let response = state.register_collection(&env(), &from(CREATOR), &bridge(true, true, true), &msg).unwrap();
    assert!(response.messages.is_empty());
    let notes: Vec<(&str, &str)> =
        response.attributes.iter().map(|a| (a.key.as_str(), a.value.as_str())).collect();
    assert_eq!(
        notes,
        vec![
            ("register_collection", "success"),
            ("collection", COLLECTION),
            ("type", "721"),
            ("chain", "v2"),
        ]
    );
    let registered = state.get_collection(&COLLECTION.to_string()).unwrap();
    assert_eq!(registered.collection_address, Some(COLLECTION.to_string()));
    assert_eq!(state.query_get_config().unwrap().next_reply_id, 0);
    assert_eq!(
        state.register_collection(&env(), &from(CREATOR), &bridge(true, true, true), &msg),
        Err(ContractError::CollectionExists)
    );
}

#[test]
fn reply_registers_the_waiting_collection_once() {
    let mut state = platform(true);
    state.register_collection(&env(), &from(CREATOR), &bridge(false, false, false), &registration("v1", "721")).unwrap();
    let report = Reply { id: 0, contract_address: COLLECTION.to_string() };
    assert_eq!(
        state.reply(&Reply { id: 7, contract_address: COLLECTION.to_string() }),
        Err(ContractError::InvalidReplyId)
    );
    let response = state.reply(&report).unwrap();
    let notes: Vec<(&str, &str)> =
        response.attributes.iter().map(|a| (a.key.as_str(), a.value.as_str())).collect();
    assert_eq!(
        notes,
        vec![
            ("register_collection", "success"),
            ("collection", COLLECTION),
            ("type", "721"),
            ("chain", "v1"),
        ]
    );
    assert!(state.pending(0).is_none());
    let registered = state.get_collection(&COLLECTION.to_string()).unwrap();
    assert_eq!(registered.collection_address, Some(COLLECTION.to_string()));
    assert_eq!(state.reply(&report), Err(ContractError::InvalidReplyId));
    assert_eq!(
        state.reply(&Reply { id: 0, contract_address: "sei1elsewhere".to_string() }),
        Err(ContractError::InvalidReplyId)
    );
    assert_eq!(state.get_collection(&COLLECTION.to_string()).unwrap(), registered);
}

#[test]
fn reply_for_a_registered_address_keeps_the_collection_waiting() {
    let mut state = platform(true);
    let msg = registration("v1", "721");
    state.register_collection(&env(), &from(CREATOR), &bridge(false, false, false), &msg).unwrap();
    state.register_collection(&env(), &from(CREATOR), &bridge(false, false, false), &msg).unwrap();
    state.reply(&Reply { id: 0, contract_address: COLLECTION.to_string() }).unwrap();
    assert_eq!(
        state.reply(&Reply { id: 1, contract_address: COLLECTION.to_string() }),
        Err(ContractError::CollectionExists)
    );
    assert!(state.pending(1).is_some());
    assert!(state.reply(&Reply { id: 1, contract_address: "sei1second".to_string() }).is_ok());
}

#[test]
fn update_moves_the_first_token_only_onto_the_cursor() {
    let mut state = launched("v1", "721");
    let mut update = UpdateCollection {
        collection: COLLECTION.to_string(),
        supply: 50,
        token_uri: "ipfs://next".to_string(),
        royalty_percent: Some(3),
        royalty_wallet: None,
        mint_groups: vec![group("second")],
        fixed_uri: true,
        uri_suffix: None,
        start_order: Some(4),
        placeholder_token_uri: None,
        max_edition: None,
        frozen_whitelist: None,
    };
    let response = state.update_collection(&from(CREATOR), &update).unwrap();
    assert_eq!(
        response.messages[0].msg,
        CosmosMsg::WasmExecute {
            contract_addr: COLLECTION.to_string(),
            msg: ExecutePayload::Cw2981(Cw2981LHExecuteMsg::Extension {
                msg: Cw2981LHExecuteExtension::UpdateLighthouseData {
                    placeholder_token_uri: None,
                    base_uri: Some("ipfs://next".to_string()),
                    fixed_uri: true,
                    base_uri_suffix: None,
                    default_royalty_percentage: Some(3),
                    default_royalty_payment_address: None,
                },
            }),
        }
    );
    let c = state.get_collection(&COLLECTION.to_string()).unwrap();
    assert_eq!((c.supply, c.start_order, c.next_token), (50, None, 0));
    assert_eq!(c.mint_groups.len(), 1);
    assert_eq!(c.mint_groups[0].name, "second");
    update.start_order = Some(0);
    state.update_collection(&from(CREATOR), &update).unwrap();
    let c = state.get_collection(&COLLECTION.to_string()).unwrap();
    assert_eq!((c.start_order, c.next_token), (Some(0), 0));
    update.mint_groups[0].payments = vec![leg(PaymentType::Cw721, Some(1), &["x"])];
    assert_eq!(state.update_collection(&from(CREATOR), &update), Err(ContractError::InvalidShares));
    update.collection = "sei1nowhere".to_string();
    assert_eq!(state.update_collection(&from(CREATOR), &update), Err(ContractError::Std(StdError::NotFound)));
}

#[test]
fn update_of_fungible_batches_needs_the_edition_limit() {
    let mut state = launched("v1", "404");
    let mut batches = group("batches");
    batches.batch_size = Some(2);
    let mut update = UpdateCollection {
        collection: COLLECTION.to_string(),
        supply: 50,
        token_uri: "ipfs://next".to_string(),
        royalty_percent: None,
        royalty_wallet: Some(CREATOR.to_string()),
        mint_groups: vec![batches],
        fixed_uri: false,
        uri_suffix: Some(".json".to_string()),
        start_order: None,
        placeholder_token_uri: None,
        max_edition: None,
        frozen_whitelist: Some(vec!["sei1market".to_string()]),
    };
    assert_eq!(state.update_collection(&from(CREATOR), &update), Err(ContractError::InvalidChainConfig));
    update.max_edition = Some(77);
    let response = state.update_collection(&from(CREATOR), &update).unwrap();
    assert_eq!(
        response.messages[0].msg,
        CosmosMsg::WasmExecute {
            contract_addr: COLLECTION.to_string(),
            msg: ExecutePayload::Cw404(Cw404ExecuteMsg::Update404Data {
                base_uri: "ipfs://next".to_string(),
                base_uri_suffix: Some(".json".to_string()),
                max_edition: 77,
                royalty_percentage: None,
                royalty_payment_address: Some(CREATOR.to_string()),
                frozen_whitelist: Some(vec!["sei1market".to_string()]),
            }),
        }
    );
    update.mint_groups[0].batch_size = None;
    assert_eq!(state.update_collection(&from(CREATOR), &update), Err(ContractError::InvalidChainConfig));
}

#[test]
fn update_of_a_bridged_collection_sends_nothing() {
    let mut state = launched("v2", "721");
    let update = UpdateCollection {
        collection: COLLECTION.to_string(),
        supply: 50,
        token_uri: "ipfs://next".to_string(),
        royalty_percent: None,
        royalty_wallet: None,
        mint_groups: vec![group("public")],
        fixed_uri: false,
        uri_suffix: None,
        start_order: None,
        placeholder_token_uri: None,
        max_edition: None,
        frozen_whitelist: None,
    };
    let response = state.update_collection(&from(CREATOR), &update).unwrap();
    assert!(response.messages.is_empty());
    assert!(response.attributes.is_empty());
    assert_eq!(state.get_collection(&COLLECTION.to_string()).unwrap().supply, 50);
}

#[test]
fn unfreeze_goes_to_the_contract_of_the_collection() {
    let request = UnfreezeCollection { collection: COLLECTION.to_string() };
    let mut state = launched("v1", "721");
    assert!(state.get_collection(&COLLECTION.to_string()).unwrap().frozen);
    assert_eq!(state.unfreeze_collection(&from(ADMIN), &request), Err(ContractError::Unauthorized));
    assert!(state.get_collection(&COLLECTION.to_string()).unwrap().frozen);
    let response = state.unfreeze_collection(&from(CREATOR), &request).unwrap();
    assert!(!state.get_collection(&COLLECTION.to_string()).unwrap().frozen);
    assert_eq!(
        response.messages[0].msg,
        CosmosMsg::WasmExecute {
            contract_addr: COLLECTION.to_string(),
            msg: ExecutePayload::Cw2981(Cw2981LHExecuteMsg::Extension { msg: Cw2981LHExecuteExtension::Unfreeze }),
        }
    );
    let mut state = launched("v1", "404");
    let response = state.unfreeze_collection(&from(CREATOR), &request).unwrap();
    assert_eq!(
        response.messages[0].msg,
        CosmosMsg::WasmExecute {
            contract_addr: COLLECTION.to_string(),
            msg: ExecutePayload::Cw404(Cw404ExecuteMsg::Unfreeze),
        }
    );
    let mut state = launched("v2", "721");
    let response = state.unfreeze_collection(&from(CREATOR), &request).unwrap();
    let selector = &Keccak256::digest(b"unfreeze()")[0..4];
    assert_eq!(
        response.messages[0].msg,
        CosmosMsg::Custom(EvmMsg::CallEvm {
            to: COLLECTION.to_string(),
            value: 0,
            data: data_encoding::BASE64.encode(selector),
        })
    );
    let notes: Vec<(&str, &str)> =
        response.attributes.iter().map(|a| (a.key.as_str(), a.value.as_str())).collect();
    assert_eq!(notes, vec![("action", "unfreeze"), ("collection", COLLECTION)]);
}

#[test]
fn reveal_goes_by_chain() {
    let request = RevealCollectionMetadata { collection: COLLECTION.to_string() };
    let state = launched("v1", "404");
    assert_eq!(state.reveal_collection_metadata(&from(ADMIN), &request), Err(ContractError::Unauthorized));
    let response = state.reveal_collection_metadata(&from(CREATOR), &request).unwrap();
    assert_eq!(
        response.messages[0].msg,
        CosmosMsg::WasmExecute {
            contract_addr: COLLECTION.to_string(),
            msg: ExecutePayload::Cw2981(Cw2981LHExecuteMsg::Extension { msg: Cw2981LHExecuteExtension::Reveal }),
        }
    );
    let state = launched("v2", "721");
    let response = state.reveal_collection_metadata(&from(CREATOR), &request).unwrap();
    let selector = &Keccak256::digest(b"reveal()")[0..4];
    assert_eq!(
        response.messages[0].msg,
        CosmosMsg::Custom(EvmMsg::CallEvm {
            to: COLLECTION.to_string(),
            value: 0,
            data: data_encoding::BASE64.encode(selector),
        })
    );
}

#[test]
fn admin_hands_the_collection_on() {
    let mut state = launched("v1", "721");
    let request = UpdateAdmin { collection: COLLECTION.to_string(), admin: "sei1heir".to_string() };
    assert_eq!(state.update_admin(&from("sei1heir"), &request), Err(ContractError::Unauthorized));
    let response = state.update_admin(&from(CREATOR), &request).unwrap();
    let notes: Vec<(&str, &str)> =
        response.attributes.iter().map(|a| (a.key.as_str(), a.value.as_str())).collect();
    assert_eq!(
        notes,
        vec![("action", "update_admin"), ("collection", COLLECTION), ("new_admin", "sei1heir")]
    );
    assert_eq!(state.get_collection(&COLLECTION.to_string()).unwrap().admin, "sei1heir");
    assert_eq!(state.update_admin(&from(CREATOR), &request), Err(ContractError::Unauthorized));
}

#[test]
fn partner_takes_at_most_ninety_nine_percent() {
    let mut state = platform(true);
    let partner = |percent: u128| AddPartner { address: "sei1partner".to_string(), percent };
    assert_eq!(state.add_partner(&from(CREATOR), &partner(10)), Err(ContractError::Unauthorized));
    assert_eq!(state.add_partner(&from(ADMIN), &partner(100)), Err(ContractError::InvalidFeePercent));
    assert!(state.partner("sei1partner").is_none());
    let response = state.add_partner(&from(ADMIN), &partner(99)).unwrap();
    assert_eq!(response.attributes[2].value, "99");
    assert_eq!(
        state.partner("sei1partner"),
        Some(&Partner { partner: "sei1partner".to_string(), fee_percent: 99 })
    );
    state.add_partner(&from(ADMIN), &partner(0)).unwrap();
    assert_eq!(state.partner("sei1partner").unwrap().fee_percent, 0);
}

#[test]
fn contract_admin_changes_by_chain() {
    let state = launched("v1", "721");
    let none = GetEvmAddressResponse { evm_address: String::new(), associated: false };
    let some = GetEvmAddressResponse { evm_address: EVM.to_string(), associated: true };
    let native = UpdateNftContractAdmin { collection: COLLECTION.to_string(), new_admin: "sei1heir".to_string() };
    assert_eq!(state.update_nft_contract_admin(&from(ADMIN), &none, &native), Err(ContractError::Unauthorized));
    let response = state.update_nft_contract_admin(&from(CREATOR), &none, &native).unwrap();
    assert_eq!(
        response.messages[0].msg,
        CosmosMsg::WasmUpdateAdmin { contract_addr: COLLECTION.to_string(), admin: "sei1heir".to_string() }
    );
    let state = launched("v2", "721");
    assert_eq!(
        state.update_nft_contract_admin(&from(CREATOR), &none, &native),
        Err(ContractError::NotAssociatedAddress)
    );
    let response = state.update_nft_contract_admin(&from(CREATOR), &some, &native).unwrap();
    let mut data = Keccak256::digest(b"updateMinter(address)")[0..4].to_vec();
    data.extend_from_slice(&[0u8; 12]);
    data.extend_from_slice(&[
        0x00, 0x11, 0x22, 0x33, 0x44, 0x55, 0x66, 0x77, 0x88, 0x99, 0xaa, 0xbb, 0xcc, 0xdd, 0xee,
        0xff, 0x00, 0x11, 0x22, 0x33,
    ]);
    let call = CosmosMsg::Custom(EvmMsg::CallEvm {
        to: COLLECTION.to_string(),
        value: 0,
        data: data_encoding::BASE64.encode(&data),
    });
    assert_eq!(response.messages[0].msg, call);
    assert_eq!(response.attributes[2].key, "new_minter");
    assert_eq!(response.attributes[2].value, EVM);
    let direct = UpdateNftContractAdmin { collection: COLLECTION.to_string(), new_admin: EVM.to_string() };
    let response = state.update_nft_contract_admin(&from(CREATOR), &none, &direct).unwrap();
    assert_eq!(response.messages[0].msg, call);
    let broken = UpdateNftContractAdmin { collection: COLLECTION.to_string(), new_admin: "0x12".to_string() };
    assert_eq!(
        state.update_nft_contract_admin(&from(CREATOR), &none, &broken),
        Err(ContractError::Std(StdError::InvalidAddressLength))
    );
    let garbled = UpdateNftContractAdmin { collection: COLLECTION.to_string(), new_admin: "heir".to_string() };
    assert_eq!(
        state.update_nft_contract_admin(&from(CREATOR), &none, &garbled),
        Err(ContractError::Std(StdError::InvalidHex))
    );
}

#[test]
fn contract_owner_changes_on_the_native_chain_only() {
    let request = UpdateNftContractCwOwnableOwner {
        collection: COLLECTION.to_string(),
        new_admin: "sei1heir".to_string(),
    };
    let state = launched("v2", "721");
    assert_eq!(
        state.update_nft_contract_cw_ownable_owner(&from(CREATOR), &request),
        Err(ContractError::NotAvailableForEVM)
    );
    assert_eq!(
        state.update_nft_contract_cw_ownable_owner(&from(ADMIN), &request),
        Err(ContractError::Unauthorized)
    );
    let state = launched("v1", "721");
    let response = state.update_nft_contract_cw_ownable_owner(&from(CREATOR), &request).unwrap();
    assert_eq!(
        response.messages[0].msg,
        CosmosMsg::WasmExecute {
            contract_addr: COLLECTION.to_string(),
            msg: ExecutePayload::Cw721TransferOwnership { new_owner: "sei1heir".to_string() },
        }
    );
    let state = launched("v1", "404");
    let response = state.update_nft_contract_cw_ownable_owner(&from(CREATOR), &request).unwrap();
    assert_eq!(
        response.messages[0].msg,
        CosmosMsg::WasmExecute {
            contract_addr: COLLECTION.to_string(),
            msg: ExecutePayload::Cw404(Cw404ExecuteMsg::TransferOwnership { new_admin: "sei1heir".to_string() }),
        }
    );
}

#[test]
fn execute_hands_each_request_to_its_handler() {
    let mut state = platform(true);
    let run = |state: &mut Lighthouse, sender: &str, msg: ExecuteMsg| {
        state.execute(&env(), &from(sender), &answers(), &msg)
    };
    assert!(run(&mut state, ADMIN, ExecuteMsg::UpdateConfig(UpdateConfig { fee: 0, registeration_open: true })).is_ok());
    assert!(run(&mut state, ADMIN, ExecuteMsg::AddPartner(AddPartner { address: "sei1p".to_string(), percent: 1 })).is_ok());
    assert!(run(&mut state, CREATOR, ExecuteMsg::RegisterCollection(registration("v2", "721"))).is_ok());
    let mint = Mint {
        collection: COLLECTION.to_string(),
        group: "public".to_string(),
        amount: 2,
        merkle_proof: None,
        merkle_proof_address_type: None,
        payment_args: None,
        gate_args: None,
    };
    let response = run(&mut state, "sei1wallet", ExecuteMsg::Mint(mint)).unwrap();
    assert_eq!(response.messages.len(), 2);
    assert_eq!(state.get_collection(&COLLECTION.to_string()).unwrap().next_token, 2);
    let update = UpdateCollection {
        collection: COLLECTION.to_string(),
        supply: 1,
        token_uri: String::new(),
        royalty_percent: None,
        royalty_wallet: None,
        mint_groups: vec![],
        fixed_uri: false,
        uri_suffix: None,
        start_order: None,
        placeholder_token_uri: None,
        max_edition: None,
        frozen_whitelist: None,
    };
    assert_eq!(
        run(&mut state, CREATOR, ExecuteMsg::UpdateCollection(update)),
        Err(ContractError::SupplyLowerThanMinted)
    );
    let name = || COLLECTION.to_string();
    assert!(run(&mut state, CREATOR, ExecuteMsg::UnfreezeCollection(UnfreezeCollection { collection: name() })).is_ok());
    assert!(run(&mut state, CREATOR, ExecuteMsg::RevealCollectionMetadata(RevealCollectionMetadata { collection: name() })).is_ok());
    assert_eq!(
        run(
            &mut state,
            CREATOR,
            ExecuteMsg::UpdateNftContractCwOwnableOwner(UpdateNftContractCwOwnableOwner {
                collection: name(),
                new_admin: "sei1heir".to_string(),
            })
        ),
        Err(ContractError::NotAvailableForEVM)
    );
    assert!(run(
        &mut state,
        CREATOR,
        ExecuteMsg::UpdateNftContractAdmin(UpdateNftContractAdmin { collection: name(), new_admin: "sei1heir".to_string() })
    )
    .is_ok());
    assert!(run(&mut state, CREATOR, ExecuteMsg::UpdateAdmin(UpdateAdmin { collection: name(), admin: "sei1heir".to_string() })).is_ok());
    assert_eq!(
        run(&mut state, CREATOR, ExecuteMsg::UnfreezeCollection(UnfreezeCollection { collection: name() })),
        Err(ContractError::Unauthorized)
    );
}

#[test]
fn queries_answer_from_the_state() {
    let mut state = launched("v1", "721");
    let mint = Mint {
        collection: COLLECTION.to_string(),
        group: "public".to_string(),
        amount: 2,
        merkle_proof: None,
        merkle_proof_address_type: None,
        payment_args: None,
        gate_args: None,
    };
    let unassociated = GetEvmAddressResponse { evm_address: String::new(), associated: false };
    state.mint(&env(), &from("sei1wallet"), &unassociated, &mint).unwrap();
    let name = || COLLECTION.to_string();
    match state.query(&QueryMsg::GetConfig).unwrap() {
        QueryResponse::Config(config) => assert_eq!(config.admin, ADMIN),
        other => panic!("unexpected answer {:?}", other),
    }
    match state.query(&QueryMsg::GetCollection { collection: name() }).unwrap() {
        QueryResponse::Collection(c) => assert_eq!(c.next_token, 2),
        other => panic!("unexpected answer {:?}", other),
    }
    assert_eq!(
        state.query(&QueryMsg::MintsOf { address: "sei1wallet".to_string(), collection: name() }),
        Ok(QueryResponse::Mints(MintInfo { mints: vec![0, 1] }))
    );
    assert_eq!(
        state.query(&QueryMsg::MintsOf { address: "sei1nobody".to_string(), collection: name() }),
        Ok(QueryResponse::Mints(MintInfo { mints: vec![] }))
    );
    assert_eq!(
        state.query(&QueryMsg::GetMinterOf { collection: name(), token_id: "1".to_string() }),
        Ok(QueryResponse::Minter("sei1wallet".to_string()))
    );
    assert_eq!(
        state.query(&QueryMsg::GetMinterOf { collection: name(), token_id: "2".to_string() }),
        Err(ContractError::Std(StdError::NotFound))
    );
    assert_eq!(
        state.query(&QueryMsg::GetGlobalMintInfo { collection: name(), group_name: "public".to_string() }),
        Ok(QueryResponse::GlobalMintInfo(2))
    );
    assert_eq!(
        state.query(&QueryMsg::GetCollection { collection: "sei1nowhere".to_string() }),
        Err(ContractError::Std(StdError::NotFound))
    );
    match state.query(&QueryMsg::GetEvmAddressOfBech32Address { address: "sei1wallet".to_string() }).unwrap() {
        QueryResponse::AskBridge(q) => {
            assert_eq!(q.query_data, EvmQuery::GetEvmAddress { sei_address: "sei1wallet".to_string() })
        }
        other => panic!("unexpected answer {:?}", other),
    }
    match state.query(&QueryMsg::GetBech32AddressOfEvmAddress { address: EVM.to_string() }).unwrap() {
        QueryResponse::AskBridge(q) => {
            assert_eq!(q.query_data, EvmQuery::GetSeiAddress { evm_address: EVM.to_string() })
        }
        other => panic!("unexpected answer {:?}", other),
    }
}

#[test]
fn mints_of_runs_through_the_groups_in_order() {
    let mut state = platform(true);
    let mut msg = registration("v1", "721");
    msg.mint_groups = vec![group("first"), group("second")];
    state.register_collection(&env(), &from(CREATOR), &bridge(false, false, false), &msg).unwrap();
    state.reply(&Reply { id: 0, contract_address: COLLECTION.to_string() }).unwrap();
    let unassociated = GetEvmAddressResponse { evm_address: String::new(), associated: false };
    for (name, amount) in [("second", 2u128), ("first", 1), ("second", 1)] {
        let mint = Mint {
            collection: COLLECTION.to_string(),
            group: name.to_string(),
            amount,
            merkle_proof: None,
            merkle_proof_address_type: None,
            payment_args: None,
            gate_args: None,
        };
        state.mint(&env(), &from("sei1wallet"), &unassociated, &mint).unwrap();
    }
    assert_eq!(
        state.mints_of(&"sei1wallet".to_string(), &COLLECTION.to_string()).unwrap().mints,
        vec![2, 0, 1, 3]
    );
}

#[test]
fn role_questions_encode_selector_role_and_address() {
    let question = has_role_query(
        &"sei1lighthouse".to_string(),
        &EVM.to_string(),
        &"0xtarget".to_string(),
        &default_admin_role(),
    )
    .unwrap();
    let mut data = Keccak256::digest(b"hasRole(bytes32,address)")[0..4].to_vec();
    data.extend_from_slice(&[0u8; 32]);
    data.extend_from_slice(&[0u8; 12]);
    data.extend_from_slice(&[
        0x00, 0x11, 0x22, 0x33, 0x44, 0x55, 0x66, 0x77, 0x88, 0x99, 0xaa, 0xbb, 0xcc, 0xdd, 0xee,
        0xff, 0x00, 0x11, 0x22, 0x33,
    ]);
    assert_eq!(
        question.query_data,
        EvmQuery::StaticCall {
            from: "sei1lighthouse".to_string(),
            to: "0xtarget".to_string(),
            data: data_encoding::BASE64.encode(&data),
        }
    );
    assert_eq!(minter_role_id(), Keccak256::digest(b"MINTER_ROLE").to_vec());
    assert_eq!(default_admin_role(), vec![0u8; 32]);
    assert!(has_role_query(&String::new(), &"sei1wallet".to_string(), &String::new(), &minter_role_id()).is_err());
}

#[test]
fn role_is_granted_unless_the_answer_is_all_zero() {
    assert!(!role_granted(&vec![0u8; 32]));
    let mut yes = vec![0u8; 32];
    yes[31] = 1;
    assert!(role_granted(&yes));
    assert!(role_granted(&vec![0u8; 31]));
    assert!(role_granted(&vec![]));
    assert_eq!(
        evm_address_query(&"sei1w".to_string()).query_data,
        EvmQuery::GetEvmAddress { sei_address: "sei1w".to_string() }
    );
    assert_eq!(
        bech32_address_query(&EVM.to_string()).query_data,
        EvmQuery::GetSeiAddress { evm_address: EVM.to_string() }
    );
}

#[test]
fn restore_keeps_the_invariant() {
    let mut state = Lighthouse::new();
    let config = Config {
        admin: ADMIN.to_string(),
        fee: 1,
        registeration_open: true,
        next_reply_id: 3,
        denom: "usei".to_string(),
    };
    let collection = |address: Option<&str>, next: u128, supply: u128| Collection {
        admin: CREATOR.to_string(),
        chain: "v1".to_string(),
        collection_type: "721".to_string(),
        collection_address: address.map(|a| a.to_string()),
        name: "Lanterns".to_string(),
        symbol: "LNT".to_string(),
        supply,
        next_token: next,
        mint_groups: vec![group("public")],
        start_order: Some(1),
        frozen: false,
        unfreeze_time: None,
        hidden_metadata: false,
        placeholder_token_uri: None,
        partner: None,
        cw404_info: None,
    };
    assert!(is_collection_wf(&collection(None, 1, 0)));
    assert!(is_collection_wf(&collection(None, 4, 3)));
    assert!(!is_collection_wf(&collection(None, 5, 3)));
    assert!(!is_collection_wf(&collection(None, 0, 3)));
    let mut odd = collection(None, 1, 3);
    odd.chain = "v9".to_string();
    assert!(!is_collection_wf(&odd));
    let mut gated = collection(None, 1, 3);
    gated.mint_groups[0].gates = vec![Gate::default(), Gate { gate_type: GateType::Other("x".to_string()), amount: None, args: vec![] }];
    gated.mint_groups[0].payments = vec![leg(PaymentType::Cw721, None, &[])];
    assert!(is_collection_wf(&gated));
    gated.mint_groups[0].payments = vec![Payment::default()];
    assert!(!is_collection_wf(&gated));

    assert!(!state.restore_pending(0, collection(None, 1, 3)));
    assert!(state.restore_config(config.clone()));
    assert!(state.restore_pending(2, collection(None, 1, 3)));
    assert!(!state.restore_pending(3, collection(None, 1, 3)));
    assert!(!state.restore_config(config));
    assert!(!state.restore_collection(COLLECTION.to_string(), collection(None, 1, 3)));
    assert!(!state.restore_collection(COLLECTION.to_string(), collection(Some("sei1other"), 1, 3)));
    assert!(!state.restore_collection(COLLECTION.to_string(), collection(Some(COLLECTION), 9, 3)));
    assert!(state.restore_collection(COLLECTION.to_string(), collection(Some(COLLECTION), 2, 3)));
    assert!(!state.restore_partner("sei1p".to_string(), Partner { partner: "sei1p".to_string(), fee_percent: 100 }));
    assert!(state.restore_partner("sei1p".to_string(), Partner { partner: "sei1p".to_string(), fee_percent: 99 }));
    state.restore_wallet_mints("sei1wallet_sei1collection_public".to_string(), MintInfo { mints: vec![1] });
    state.restore_group_total("sei1collection_public".to_string(), 1);
    state.restore_minter("sei1collection_1".to_string(), "sei1wallet".to_string());
    assert_eq!(state.mints_of(&"sei1wallet".to_string(), &COLLECTION.to_string()).unwrap().mints, vec![1]);
    assert_eq!(state.get_global_mint_info(&COLLECTION.to_string(), &"public".to_string()), 1);
    assert_eq!(state.get_minter_of(&COLLECTION.to_string(), &"1".to_string()).unwrap(), "sei1wallet");
    assert_eq!(state.reply(&Reply { id: 2, contract_address: "sei1second".to_string() }).map(|_| ()), Ok(()));
}

#[test]
fn legs_name_the_addresses_their_kind_reads() {
    assert_eq!(leg_addresses(&leg(PaymentType::Native, Some(1), &["a", "b"])), vec!["a"]);
    assert_eq!(leg_addresses(&leg(PaymentType::Cw20, Some(1), &["a", "b", "c"])), vec!["a", "b"]);
    assert_eq!(leg_addresses(&leg(PaymentType::Cw20, None, &["a"])), vec!["a"]);
    assert_eq!(leg_addresses(&leg(PaymentType::Cw20Burn, Some(1), &["t"])), vec!["t"]);
    assert!(leg_addresses(&leg(PaymentType::Native, Some(1), &[])).is_empty());
    assert!(leg_addresses(&leg(PaymentType::Cw721, Some(1), &["a"])).is_empty());
    assert!(leg_addresses(&leg(PaymentType::Other("x".to_string()), Some(1), &["a"])).is_empty());
}

#[test]
fn group_is_well_formed_when_its_supported_legs_are_complete() {
    let mut g = group("g");
    assert!(is_group_wf(&g, false));
    assert!(!is_group_wf(&g, true));
    g.batch_size = Some(0);
    assert!(!is_group_wf(&g, true));
    g.batch_size = Some(4);
    assert!(is_group_wf(&g, true));
    g.payments = vec![leg(PaymentType::Cw721Burn, None, &[]), leg(PaymentType::Native, Some(2), &["a"])];
    assert!(is_group_wf(&g, true));
    g.payments.push(leg(PaymentType::Cw20, Some(2), &["a"]));
    assert!(!is_group_wf(&g, true));
    assert!(!is_group_wf(&g, false));
}
