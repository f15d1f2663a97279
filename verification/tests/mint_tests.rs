use lighthouse::error::{ContractError, StdError};
use lighthouse::mint::unit_log_keys;
use lighthouse::msg::{
    AddPartner, InstantiateMsg, Mint, RegisterCollection, UpdateCollection,
};
use lighthouse::registry::BridgeAnswers;
use lighthouse::response::{
    Coin, CosmosMsg, Env, ExecutePayload, MessageInfo, Reply, ReplyOn, Response,
};
use lighthouse::state::{Collection, Config, MintGroup, Payment, PaymentType};
use lighthouse::store::Lighthouse;
use lighthouse::structs::{Cw20ExecuteMsg, Cw404ExecuteMsg, EvmMsg, GetEvmAddressResponse};
use sha3::{Digest, Keccak256};

const ADMIN: &str = "sei1admin";
const CREATOR: &str = "sei1creator";
const WALLET: &str = "sei1wallet";
const COLLECTION: &str = "sei1collection";
const EVM_WALLET: &str = "0xABCDEFabcdef0123456789ABCDEFabcdef012345";

fn keccak(data: &[u8]) -> Vec<u8> {
    Keccak256::digest(data).to_vec()
}

fn env(now: u64) -> Env {
    Env { block_time: now, contract_address: "sei1lighthouse".to_string() }
}

fn info(sender: &str, funds: Vec<Coin>) -> MessageInfo {
    MessageInfo { sender: sender.to_string(), funds }
}

fn usei(amount: u128) -> Vec<Coin> {
    vec![Coin { denom: "usei".to_string(), amount }]
}

fn associated() -> GetEvmAddressResponse {
    GetEvmAddressResponse { evm_address: EVM_WALLET.to_string(), associated: true }
}

fn unassociated() -> GetEvmAddressResponse {
    GetEvmAddressResponse { evm_address: String::new(), associated: false }
}

fn no_answers() -> BridgeAnswers {
    BridgeAnswers { association: unassociated(), has_admin_role: false, has_minter_role: false }
}

fn group(name: &str) -> MintGroup {
    MintGroup {
        name: name.to_string(),
        merkle_root: None,
        max_mints_per_wallet: 0,
        reserved_supply: 0,
        start_time: 0,
        end_time: 0,
        payments: vec![],
        batch_size: None,
        gates: vec![],
        gates_optional: None,
    }
}

fn native(amount: u128, to: &str) -> Payment {
    Payment { payment_type: PaymentType::Native, amount: Some(amount), args: vec![to.to_string()] }
}

fn registration(chain: &str, standard: &str, supply: u128, groups: Vec<MintGroup>) -> RegisterCollection {
    RegisterCollection {
        cw721_code: Some(11),
        cw404_code: Some(44),
        erc721_address: None,
        chain: chain.to_string(),
        collection_type: standard.to_string(),
        name: "Lanterns".to_string(),
        symbol: "LNT".to_string(),
        supply,
        token_uri: "ipfs://lanterns".to_string(),
        royalty_percent: Some(5),
        royalty_wallet: Some(CREATOR.to_string()),
        mint_groups: groups,
        is_immutable: false,
        fixed_uri: false,
        start_order: None,
        uri_suffix: Some(".json".to_string()),
        frozen: false,
        unfreeze_time: None,
        frozen_whitelist: None,
        hidden_metadata: false,
        placeholder_token_uri: None,
        partner: None,
        cw404_info: None,
    }
}

fn platform(fee: u128) -> Lighthouse {
    let mut state = Lighthouse::new();
    state
        .instantiate(&info(ADMIN, vec![]), &InstantiateMsg { fee, registeration_open: true })
        .unwrap();
    state
}

fn launch(state: &mut Lighthouse, msg: &RegisterCollection) {
    let id = state.query_get_config().unwrap().next_reply_id;
    state.register_collection(&env(0), &info(CREATOR, vec![]), &no_answers(), msg).unwrap();
    state.reply(&Reply { id, contract_address: COLLECTION.to_string() }).unwrap();
}

fn mint_request(group: &str, amount: u128) -> Mint {
    Mint {
        collection: COLLECTION.to_string(),
        group: group.to_string(),
        amount,
        merkle_proof: None,
        merkle_proof_address_type: None,
        payment_args: None,
        gate_args: None,
    }
}

fn next_token(state: &Lighthouse) -> u128 {
    state.get_collection(&COLLECTION.to_string()).unwrap().next_token
}

fn bank_sends(response: &Response) -> Vec<(String, u128)> {
    response
        .messages
        .iter()
        .filter_map(|m| match &m.msg {
            CosmosMsg::BankSend { to_address, amount } => Some((to_address.clone(), amount.amount)),
            _ => None,
        })
        .collect()
}

#[test]
fn supply_of_three_takes_two_then_sells_out() {
    let mut state = platform(0);
    let mut public = group("public");
    public.max_mints_per_wallet = 2;
    let mut msg = registration("v1", "721", 3, vec![public]);
    msg.start_order = Some(0);
    launch(&mut state, &msg);
    let first = state.mint(&env(10), &info(WALLET, vec![]), &unassociated(), &mint_request("public", 2));
    assert!(first.is_ok());
    assert_eq!(next_token(&state), 2);
    let second = state.mint(&env(10), &info(WALLET, vec![]), &unassociated(), &mint_request("public", 2));
    assert_eq!(second, Err(ContractError::SoldOut));
    assert_eq!(next_token(&state), 2);
}

#[test]
fn group_opens_at_its_start_time() {
    let now = 1_000;
    let mut state = platform(0);
    let mut later = group("later");
    later.start_time = now + 100;
    launch(&mut state, &registration("v1", "721", 10, vec![later]));
    let request = mint_request("later", 1);
    let early = state.mint(&env(now), &info(WALLET, vec![]), &unassociated(), &request);
    assert_eq!(early, Err(ContractError::GroupNotOpenToMint));
    let just_before = state.mint(&env(now + 99), &info(WALLET, vec![]), &unassociated(), &request);
    assert_eq!(just_before, Err(ContractError::GroupNotOpenToMint));
    let on_time = state.mint(&env(now + 101), &info(WALLET, vec![]), &unassociated(), &request);
    assert!(on_time.is_ok());
}

#[test]
fn group_window_is_half_open() {
    let mut state = platform(0);
    let mut timed = group("timed");
    timed.start_time = 100;
    timed.end_time = 200;
    launch(&mut state, &registration("v1", "721", 10, vec![timed]));
    let request = mint_request("timed", 1);
    assert!(state.mint(&env(100), &info(WALLET, vec![]), &unassociated(), &request).is_ok());
    assert!(state.mint(&env(199), &info(WALLET, vec![]), &unassociated(), &request).is_ok());
    assert_eq!(
        state.mint(&env(200), &info(WALLET, vec![]), &unassociated(), &request),
        Err(ContractError::GroupNotOpenToMint)
    );
    assert_eq!(
        state.mint(&env(201), &info(WALLET, vec![]), &unassociated(), &request),
        Err(ContractError::GroupNotOpenToMint)
    );
}

#[test]
fn wallet_quota_leaves_exactly_the_rest() {
    let quota = 5u128;
    let minted = 2u128;
    let mut state = platform(0);
    let mut capped = group("capped");
    capped.max_mints_per_wallet = quota;
    launch(&mut state, &registration("v1", "721", 100, vec![capped]));
    state.mint(&env(0), &info(WALLET, vec![]), &unassociated(), &mint_request("capped", minted)).unwrap();
    let too_many = mint_request("capped", quota - minted + 1);
    assert_eq!(
        state.mint(&env(0), &info(WALLET, vec![]), &unassociated(), &too_many),
        Err(ContractError::MaxTokensMinted)
    );
    let the_rest = mint_request("capped", quota - minted);
    assert!(state.mint(&env(0), &info(WALLET, vec![]), &unassociated(), &the_rest).is_ok());
    assert_eq!(
        state.mints_of(&WALLET.to_string(), &COLLECTION.to_string()).unwrap().mints,
        vec![0, 1, 2, 3, 4]
    );
    assert_eq!(
        state.mint(&env(0), &info(WALLET, vec![]), &unassociated(), &mint_request("capped", 1)),
        Err(ContractError::MaxTokensMinted)
    );
    assert!(state.mint(&env(0), &info("sei1other", vec![]), &unassociated(), &mint_request("capped", 1)).is_ok());
}

#[test]
fn reserved_supply_is_shared_by_all_wallets() {
    let mut state = platform(0);
    let mut reserved = group("reserved");
    reserved.reserved_supply = 3;
    launch(&mut state, &registration("v1", "721", 100, vec![reserved, group("public")]));
    state.mint(&env(0), &info(WALLET, vec![]), &unassociated(), &mint_request("reserved", 2)).unwrap();
    assert_eq!(
        state.mint(&env(0), &info("sei1other", vec![]), &unassociated(), &mint_request("reserved", 2)),
        Err(ContractError::ReservedSupplyRanOut)
    );
    assert!(state.mint(&env(0), &info("sei1other", vec![]), &unassociated(), &mint_request("reserved", 1)).is_ok());
    assert_eq!(state.get_global_mint_info(&COLLECTION.to_string(), &"reserved".to_string()), 3);
    assert!(state.mint(&env(0), &info(WALLET, vec![]), &unassociated(), &mint_request("public", 5)).is_ok());
    assert_eq!(state.get_global_mint_info(&COLLECTION.to_string(), &"public".to_string()), 5);
}

#[test]
fn unknown_group_and_unknown_collection_are_turned_down() {
    let mut state = platform(0);
    launch(&mut state, &registration("v1", "721", 10, vec![group("public")]));
    assert_eq!(
        state.mint(&env(0), &info(WALLET, vec![]), &unassociated(), &mint_request("vip", 1)),
        Err(ContractError::InvalidMintGroup)
    );
    let mut elsewhere = mint_request("public", 1);
    elsewhere.collection = "sei1nowhere".to_string();
    assert_eq!(
        state.mint(&env(0), &info(WALLET, vec![]), &unassociated(), &elsewhere),
        Err(ContractError::Std(StdError::NotFound))
    );
}

#[test]
fn cursor_never_passes_supply() {
    let mut state = platform(0);
    let mut msg = registration("v1", "721", 7, vec![group("public")]);
    msg.start_order = Some(100);
    launch(&mut state, &msg);
    assert_eq!(next_token(&state), 100);
    for amount in [3u128, 5, 2, 4, 1, 1, 1, 9] {
        let _ = state.mint(&env(0), &info(WALLET, vec![]), &unassociated(), &mint_request("public", amount));
        let c = state.get_collection(&COLLECTION.to_string()).unwrap();
        assert!(c.next_token - c.start_order.unwrap() <= c.supply);
    }
    assert_eq!(next_token(&state), 107);
    assert_eq!(
        state.mint(&env(0), &info(WALLET, vec![]), &unassociated(), &mint_request("public", 1)),
        Err(ContractError::SoldOut)
    );
}

#[test]
fn unique_mint_emits_one_instruction_per_token() {
    let mut state = platform(0);
    let mut msg = registration("v1", "721", 10, vec![group("public")]);
    msg.start_order = Some(5);
    launch(&mut state, &msg);
    let response = state
        .mint(&env(0), &info(WALLET, vec![]), &unassociated(), &mint_request("public", 3))
        .unwrap();
    assert_eq!(response.messages.len(), 3);
    for (i, sub) in response.messages.iter().enumerate() {
        assert_eq!(sub.id, 0);
        assert_eq!(sub.reply_on, ReplyOn::Never);
        assert_eq!(
            sub.msg,
            CosmosMsg::WasmExecute {
                contract_addr: COLLECTION.to_string(),
                msg: ExecutePayload::Cw721Mint {
                    token_id: (5 + i).to_string(),
                    owner: WALLET.to_string(),
                },
            }
        );
    }
    let notes: Vec<(String, String)> =
        response.attributes.iter().map(|a| (a.key.clone(), a.value.clone())).collect();
    assert_eq!(
        notes,
        vec![
            ("action".to_string(), "mint_lighthouse".to_string()),
            ("chain".to_string(), "v1".to_string()),
            ("collection".to_string(), COLLECTION.to_string()),
            ("group".to_string(), "public".to_string()),
            ("recipient".to_string(), WALLET.to_string()),
            ("mint_amount".to_string(), "3".to_string()),
            ("token_ids".to_string(), "5, 6, 7".to_string()),
        ]
    );
    assert_eq!(state.get_minter_of(&COLLECTION.to_string(), &"6".to_string()).unwrap(), WALLET);
    assert!(state.get_minter_of(&COLLECTION.to_string(), &"8".to_string()).is_err());
    assert_eq!(next_token(&state), 8);
}

#[test]
fn native_payment_needs_exact_funds() {
    let mut state = platform(10);
    let mut paid = group("paid");
    paid.payments = vec![native(100, CREATOR), native(25, "sei1artist")];
    launch(&mut state, &registration("v1", "721", 10, vec![paid]));
    let request = mint_request("paid", 2);
    let expected = (100 + 25 + 10) * 2;
    for funds in [
        vec![],
        usei(expected - 1),
        usei(expected + 1),
        usei(135),
        vec![Coin { denom: "uatom".to_string(), amount: expected }],
        vec![
            Coin { denom: "usei".to_string(), amount: expected },
            Coin { denom: "uatom".to_string(), amount: 1 },
        ],
    ] {
        assert_eq!(
            state.mint(&env(0), &info(WALLET, funds), &unassociated(), &request),
            Err(ContractError::InvalidFunds)
        );
    }
    assert_eq!(next_token(&state), 0);
    let response = state.mint(&env(0), &info(WALLET, usei(expected)), &unassociated(), &request).unwrap();
    assert_eq!(
        bank_sends(&response),
        vec![
            (CREATOR.to_string(), 200),
            ("sei1artist".to_string(), 50),
            (ADMIN.to_string(), 20),
        ]
    );
    let total: u128 = bank_sends(&response).iter().map(|(_, a)| a).sum();
    assert_eq!(total, expected);
}

#[test]
fn partner_takes_its_share_of_the_flat_fee() {
    let fee = 1_001u128;
    let mut state = platform(fee);
    state
        .add_partner(&info(ADMIN, vec![]), &AddPartner { address: "sei1partner".to_string(), percent: 33 })
        .unwrap();
    let mut paid = group("paid");
    paid.payments = vec![native(500, CREATOR)];
    let mut msg = registration("v1", "721", 10, vec![paid]);
    msg.partner = Some("sei1partner".to_string());
    launch(&mut state, &msg);
    let amount = 3u128;
    let response = state
        .mint(&env(0), &info(WALLET, usei((500 + fee) * amount)), &unassociated(), &mint_request("paid", amount))
        .unwrap();
    let partner_share = fee * 33 / 100;
    assert_eq!(partner_share, 330);
    let admin_share = fee * amount - partner_share;
    assert_eq!(
        bank_sends(&response),
        vec![
            (CREATOR.to_string(), 1_500),
            ("sei1partner".to_string(), partner_share),
            (ADMIN.to_string(), admin_share),
        ]
    );
    assert_eq!(partner_share + admin_share, fee * amount);
}

#[test]
fn partner_with_zero_percent_gets_no_transfer() {
    let mut state = platform(40);
    state
        .add_partner(&info(ADMIN, vec![]), &AddPartner { address: "sei1partner".to_string(), percent: 0 })
        .unwrap();
    let mut paid = group("paid");
    paid.payments = vec![native(60, CREATOR)];
    let mut msg = registration("v1", "721", 10, vec![paid]);
    msg.partner = Some("sei1partner".to_string());
    launch(&mut state, &msg);
    let response = state
        .mint(&env(0), &info(WALLET, usei(100)), &unassociated(), &mint_request("paid", 1))
        .unwrap();
    assert_eq!(bank_sends(&response), vec![(CREATOR.to_string(), 60), (ADMIN.to_string(), 40)]);
}

#[test]
fn free_group_charges_no_fee() {
    let mut state = platform(40);
    launch(&mut state, &registration("v1", "721", 10, vec![group("free")]));
    let response = state
        .mint(&env(0), &info(WALLET, vec![]), &unassociated(), &mint_request("free", 2))
        .unwrap();
    assert!(bank_sends(&response).is_empty());
    assert_eq!(response.messages.len(), 2);
}

#[test]
fn token_legs_transfer_and_burn_from_the_payer() {
    let mut state = platform(7);
    let mut paid = group("tokens");
    paid.payments = vec![
        Payment {
            payment_type: PaymentType::Cw20,
            amount: Some(30),
            args: vec![CREATOR.to_string(), "sei1token".to_string()],
        },
        Payment {
            payment_type: PaymentType::Cw20Burn,
            amount: Some(4),
            args: vec!["sei1ash".to_string()],
        },
    ];
    launch(&mut state, &registration("v1", "721", 10, vec![paid]));
    let response = state
        .mint(&env(0), &info(WALLET, vec![]), &unassociated(), &mint_request("tokens", 2))
        .unwrap();
    assert_eq!(
        response.messages[0].msg,
        CosmosMsg::WasmExecute {
            contract_addr: "sei1token".to_string(),
            msg: ExecutePayload::Cw20(Cw20ExecuteMsg::TransferFrom {
                owner: WALLET.to_string(),
                recipient: CREATOR.to_string(),
                amount: 60,
            }),
        }
    );
    assert_eq!(
        response.messages[1].msg,
        CosmosMsg::WasmExecute {
            contract_addr: "sei1ash".to_string(),
            msg: ExecutePayload::Cw20(Cw20ExecuteMsg::BurnFrom { owner: WALLET.to_string(), amount: 8 }),
        }
    );
    assert_eq!(bank_sends(&response), vec![(ADMIN.to_string(), 14)]);
    let notes: Vec<(String, String)> =
        response.attributes.iter().map(|a| (a.key.clone(), a.value.clone())).collect();
    assert!(notes.contains(&("paid_sei1token".to_string(), "60".to_string())));
    assert!(notes.contains(&("burned_sei1ash".to_string(), "8".to_string())));
}

#[test]
fn allowlist_needs_a_valid_proof() {
    let leaf = keccak(WALLET.as_bytes());
    let sibling = keccak(b"sei1someone");
    let mut pair = Vec::new();
    if leaf < sibling {
        pair.extend_from_slice(&leaf);
        pair.extend_from_slice(&sibling);
    } else {
        pair.extend_from_slice(&sibling);
        pair.extend_from_slice(&leaf);
    }
    let root = keccak(&pair);
    let mut state = platform(0);
    let mut listed = group("listed");
    listed.merkle_root = Some(root);
    launch(&mut state, &registration("v1", "721", 10, vec![listed]));
    let mut request = mint_request("listed", 1);
    assert_eq!(
        state.mint(&env(0), &info(WALLET, vec![]), &unassociated(), &request),
        Err(ContractError::InvalidMerkleProof)
    );
    request.merkle_proof = Some(vec![sibling.clone()]);
    assert_eq!(
        state.mint(&env(0), &info("sei1stranger", vec![]), &unassociated(), &request),
        Err(ContractError::InvalidMerkleProof)
    );
    let mut broken = request.clone();
    broken.merkle_proof = Some(vec![keccak(b"sei1nobody")]);
    assert_eq!(
        state.mint(&env(0), &info(WALLET, vec![]), &unassociated(), &broken),
        Err(ContractError::InvalidMerkleProof)
    );
    assert!(state.mint(&env(0), &info(WALLET, vec![]), &unassociated(), &request).is_ok());
}

#[test]
fn allowlist_for_the_bridged_form_uses_the_lowercase_address() {
    let leaf = keccak(EVM_WALLET.to_lowercase().as_bytes());
    let mut state = platform(0);
    let mut listed = group("listed");
    listed.merkle_root = Some(leaf);
    launch(&mut state, &registration("v1", "721", 10, vec![listed]));
    let mut request = mint_request("listed", 1);
    request.merkle_proof = Some(vec![]);
    assert_eq!(
        state.mint(&env(0), &info(WALLET, vec![]), &associated(), &request),
        Err(ContractError::InvalidMerkleProof)
    );
    request.merkle_proof_address_type = Some("hex".to_string());
    assert_eq!(
        state.mint(&env(0), &info(WALLET, vec![]), &unassociated(), &request),
        Err(ContractError::NotAssociatedAddress)
    );
    assert!(state.mint(&env(0), &info(WALLET, vec![]), &associated(), &request).is_ok());
}

#[test]
fn fungible_batches_count_against_supply_by_batch_size() {
    let mut state = platform(0);
    let mut batches = group("batches");
    batches.batch_size = Some(10);
    let mut msg = registration("v1", "404", 35, vec![batches]);
    msg.cw404_info = Some(lighthouse::state::Cw404Info {
        decimals: 6,
        max_supply: 35,
        max_edition: 35,
        tokens_per_nft: 1,
        marketing: None,
    });
    launch(&mut state, &msg);
    let response = state
        .mint(&env(0), &info(WALLET, vec![]), &unassociated(), &mint_request("batches", 2))
        .unwrap();
    assert_eq!(response.messages.len(), 2);
    assert_eq!(
        response.messages[0].msg,
        CosmosMsg::WasmExecute {
            contract_addr: COLLECTION.to_string(),
            msg: ExecutePayload::Cw404(Cw404ExecuteMsg::Mint { recipient: WALLET.to_string(), amount: 10 }),
        }
    );
    assert_eq!(next_token(&state), 20);
    assert_eq!(state.mints_of(&WALLET.to_string(), &COLLECTION.to_string()).unwrap().mints, vec![10, 10]);
    assert_eq!(
        response.attributes.last().map(|a| (a.key.clone(), a.value.clone())),
        Some(("amount".to_string(), "20".to_string()))
    );
    assert_eq!(
        state.mint(&env(0), &info(WALLET, vec![]), &unassociated(), &mint_request("batches", 2)),
        Err(ContractError::SoldOut)
    );
    assert!(state.mint(&env(0), &info(WALLET, vec![]), &unassociated(), &mint_request("batches", 1)).is_ok());
    assert_eq!(next_token(&state), 30);
}

#[test]
fn bridged_mint_encodes_selector_recipient_and_token() {
    let mut state = platform(0);
    let mut msg = registration("v2", "721", 10, vec![group("public")]);
    msg.erc721_address = Some(COLLECTION.to_string());
    msg.start_order = Some(1);
    let answers = BridgeAnswers { association: associated(), has_admin_role: true, has_minter_role: true };
    state.register_collection(&env(0), &info(CREATOR, vec![]), &answers, &msg).unwrap();
    assert_eq!(
        state.mint(&env(0), &info(WALLET, vec![]), &unassociated(), &mint_request("public", 1)),
        Err(ContractError::NotAssociatedAddress)
    );
    let response = state
        .mint(&env(0), &info(WALLET, vec![]), &associated(), &mint_request("public", 2))
        .unwrap();
    assert_eq!(response.messages.len(), 2);
    for (i, sub) in response.messages.iter().enumerate() {
        let mut data = vec![0x40, 0xc1, 0x0f, 0x19];
        data.extend_from_slice(&[0u8; 12]);
        data.extend_from_slice(&[
            0xab, 0xcd, 0xef, 0xab, 0xcd, 0xef, 0x01, 0x23, 0x45, 0x67, 0x89, 0xab, 0xcd, 0xef,
            0xab, 0xcd, 0xef, 0x01, 0x23, 0x45,
        ]);
        data.extend_from_slice(&[0u8; 31]);
        data.push(1 + i as u8);
        assert_eq!(
            sub.msg,
            CosmosMsg::Custom(EvmMsg::CallEvm {
                to: COLLECTION.to_string(),
                value: 0,
                data: data_encoding::BASE64.encode(&data),
            })
        );
    }
    assert_eq!(next_token(&state), 3);
}

#[test]
fn turned_down_mint_changes_nothing() {
    let mut state = platform(10);
    let mut paid = group("paid");
    paid.payments = vec![native(100, CREATOR)];
    paid.max_mints_per_wallet = 2;
    launch(&mut state, &registration("v1", "721", 5, vec![paid]));
    state.mint(&env(0), &info(WALLET, usei(110)), &unassociated(), &mint_request("paid", 1)).unwrap();
    let before = state.get_collection(&COLLECTION.to_string()).unwrap();
    for (funds, amount) in [(usei(1), 1u128), (usei(220), 2), (usei(660), 6)] {
        assert!(state.mint(&env(0), &info(WALLET, funds), &unassociated(), &mint_request("paid", amount)).is_err());
    }
    assert_eq!(state.get_collection(&COLLECTION.to_string()).unwrap(), before);
    assert_eq!(state.mints_of(&WALLET.to_string(), &COLLECTION.to_string()).unwrap().mints, vec![0]);
    assert_eq!(state.get_global_mint_info(&COLLECTION.to_string(), &"paid".to_string()), 1);
    assert!(state.get_minter_of(&COLLECTION.to_string(), &"1".to_string()).is_err());
}

#[test]
fn supply_can_be_raised_but_not_lowered_below_issued() {
    let mut state = platform(0);
    launch(&mut state, &registration("v1", "721", 5, vec![group("public")]));
    state.mint(&env(0), &info(WALLET, vec![]), &unassociated(), &mint_request("public", 3)).unwrap();
    let mut update = UpdateCollection {
        collection: COLLECTION.to_string(),
        supply: 2,
        token_uri: "ipfs://lanterns2".to_string(),
        royalty_percent: None,
        royalty_wallet: None,
        mint_groups: vec![group("public")],
        fixed_uri: false,
        uri_suffix: None,
        start_order: None,
        placeholder_token_uri: None,
        max_edition: None,
        frozen_whitelist: None,
    };
    assert_eq!(
        state.update_collection(&info(CREATOR, vec![]), &update),
        Err(ContractError::SupplyLowerThanMinted)
    );
    assert_eq!(
        state.update_collection(&info(WALLET, vec![]), &update),
        Err(ContractError::Unauthorized)
    );
    update.supply = 3;
    assert!(state.update_collection(&info(CREATOR, vec![]), &update).is_ok());
    assert_eq!(
        state.mint(&env(0), &info(WALLET, vec![]), &unassociated(), &mint_request("public", 1)),
        Err(ContractError::SoldOut)
    );
    update.supply = 8;
    assert!(state.update_collection(&info(CREATOR, vec![]), &update).is_ok());
    assert!(state.mint(&env(0), &info(WALLET, vec![]), &unassociated(), &mint_request("public", 5)).is_ok());
}

#[test]
fn token_numbers_that_do_not_fit_are_turned_down() {
    let mut state = platform(0);
    let mut msg = registration("v1", "721", 5, vec![group("public")]);
    msg.start_order = Some(u128::MAX - 1);
    launch(&mut state, &msg);
    assert!(state.mint(&env(0), &info(WALLET, vec![]), &unassociated(), &mint_request("public", 1)).is_ok());
    assert_eq!(next_token(&state), u128::MAX);
    assert_eq!(
        state.mint(&env(0), &info(WALLET, vec![]), &unassociated(), &mint_request("public", 1)),
        Err(ContractError::Std(StdError::Overflow))
    );
    assert_eq!(next_token(&state), u128::MAX);
}

#[test]
fn token_totals_that_do_not_fit_are_turned_down() {
    let mut state = platform(1);
    let mut paid = group("tokens");
    paid.payments = vec![Payment {
        payment_type: PaymentType::Cw20,
        amount: Some(u128::MAX),
        args: vec![CREATOR.to_string(), "sei1token".to_string()],
    }];
    launch(&mut state, &registration("v1", "721", 5, vec![paid]));
    assert!(state.mint(&env(0), &info(WALLET, vec![]), &unassociated(), &mint_request("tokens", 1)).is_ok());
    assert_eq!(
        state.mint(&env(0), &info(WALLET, vec![]), &unassociated(), &mint_request("tokens", 2)),
        Err(ContractError::Std(StdError::Overflow))
    );
    assert_eq!(next_token(&state), 1);
}

#[test]
fn unsupported_leg_fails_the_whole_mint() {
    let mut state = Lighthouse::new();
    assert!(state.restore_config(Config {
        admin: ADMIN.to_string(),
        fee: 0,
        registeration_open: true,
        next_reply_id: 0,
        denom: "usei".to_string(),
    }));
    let mut barter = group("barter");
    barter.payments = vec![
        Payment {
            payment_type: PaymentType::Cw20Burn,
            amount: Some(1),
            args: vec!["sei1ash".to_string()],
        },
        Payment { payment_type: PaymentType::Cw721, amount: Some(1), args: vec![] },
    ];
    let collection = Collection {
        admin: CREATOR.to_string(),
        chain: "v1".to_string(),
        collection_type: "721".to_string(),
        collection_address: Some(COLLECTION.to_string()),
        name: "Lanterns".to_string(),
        symbol: "LNT".to_string(),
        supply: 10,
        next_token: 0,
        mint_groups: vec![barter],
        start_order: None,
        frozen: false,
        unfreeze_time: None,
        hidden_metadata: false,
        placeholder_token_uri: None,
        partner: None,
        cw404_info: None,
    };
    assert!(state.restore_collection(COLLECTION.to_string(), collection));
    assert_eq!(
        state.mint(&env(0), &info(WALLET, vec![]), &unassociated(), &mint_request("barter", 1)),
        Err(ContractError::NotImplemented)
    );
    assert_eq!(next_token(&state), 0);
    assert_eq!(state.get_global_mint_info(&COLLECTION.to_string(), &"barter".to_string()), 0);
}

#[test]
fn mint_of_nothing_changes_no_count() {
    let mut state = platform(3);
    launch(&mut state, &registration("v1", "721", 5, vec![group("public")]));
    let response = state
        .mint(&env(0), &info(WALLET, vec![]), &unassociated(), &mint_request("public", 0))
        .unwrap();
    assert!(response.messages.is_empty());
    assert_eq!(next_token(&state), 0);
    assert_eq!(state.get_global_mint_info(&COLLECTION.to_string(), &"public".to_string()), 0);
    assert!(state.mints_of(&WALLET.to_string(), &COLLECTION.to_string()).unwrap().mints.is_empty());
}

#[test]
fn log_keys_count_tokens_or_batches() {
    let collection = |standard: &str, next: u128| Collection {
        admin: CREATOR.to_string(),
        chain: "v1".to_string(),
        collection_type: standard.to_string(),
        collection_address: Some(COLLECTION.to_string()),
        name: "Lanterns".to_string(),
        symbol: "LNT".to_string(),
        supply: u128::MAX,
        next_token: next,
        mint_groups: vec![],
        start_order: None,
        frozen: false,
        unfreeze_time: None,
        hidden_metadata: false,
        placeholder_token_uri: None,
        partner: None,
        cw404_info: None,
    };
    let address = COLLECTION.to_string();
    let group = "public".to_string();
    assert_eq!(
        unit_log_keys(&collection("721", 9), &address, &group, 40, 3),
        Some(vec![
            "sei1collection_9".to_string(),
            "sei1collection_10".to_string(),
            "sei1collection_11".to_string(),
        ])
    );
    assert_eq!(
        unit_log_keys(&collection("404", 9), &address, &group, 40, 2),
        Some(vec![
            "sei1collection_public_40".to_string(),
            "sei1collection_public_41".to_string(),
        ])
    );
    assert_eq!(unit_log_keys(&collection("721", 9), &address, &group, 40, 0), Some(vec![]));
    assert_eq!(unit_log_keys(&collection("721", u128::MAX), &address, &group, 0, 1), None);
    assert_eq!(unit_log_keys(&collection("404", 0), &address, &group, u128::MAX, 1), None);
    assert!(unit_log_keys(&collection("404", u128::MAX), &address, &group, 0, 1).is_some());
}
