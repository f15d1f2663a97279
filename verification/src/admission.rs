//! The admission controller: whether a wallet may mint from a group now.
//!
//! The checks run in a fixed order and the first that fails decides the
//! answer: capacity, window, per-wallet quota, reserved supply, allowlist
//! proof, attached funds.

use crate::codec::{keccak256, keccak256_digest, lowercase_text, to_lowercase};
use crate::error::ContractError;
use crate::helpers::{merkle_proof_holds, merkle_root_of};
use crate::msg::Mint;
use crate::response::{Coin, CoinView, Env, MessageInfo};
use crate::state::{
    Collection, CollectionView, Config, ConfigView, MintGroup, MintGroupView, Payment,
    PaymentType, PaymentView, Strategy,
};
use crate::structs::{GetEvmAddressResponse, GetEvmAddressResponseView};
use crate::text::text_is;
use vstd::prelude::*;
use vstd::utf8::encode_utf8;

verus! {

/// What a mint request brings with it.
pub struct MintCall {
    /// The address of the collection to mint from.
    pub collection: Seq<char>,
    /// The name of the group to mint from.
    pub group: Seq<char>,
    /// The time of the request in seconds.
    pub now: u64,
    /// The wallet that asks, in its native form.
    pub sender: Seq<char>,
    /// The funds attached.
    pub funds: Seq<CoinView>,
    /// What the address oracle says of the wallet.
    pub association: GetEvmAddressResponseView,
    /// How many units are asked for.
    pub amount: u128,
    /// The allowlist proof, if one was supplied.
    pub merkle_proof: Option<Seq<Seq<u8>>>,
    /// The form of the wallet's address that the proof was made for.
    pub address_type: Option<Seq<char>>,
}

/// Whether `i` is the first group of `groups` that is called `name`.
pub open spec fn is_first_named(groups: Seq<MintGroupView>, name: Seq<char>, i: int) -> bool {
    &&& 0 <= i < groups.len()
    &&& groups[i].name == name
    &&& forall|j: int| 0 <= j < i ==> (#[trigger] groups[j]).name != name
}

/// The position of the first group called `name`, if there is one.
pub open spec fn group_index(groups: Seq<MintGroupView>, name: Seq<char>) -> Option<int> {
    if exists|i: int| is_first_named(groups, name, i) {
        Some(choose|i: int| is_first_named(groups, name, i))
    } else {
        None
    }
}

/// The first match is the only one that `group_index` can name.
pub proof fn lemma_group_index(groups: Seq<MintGroupView>, name: Seq<char>, i: int)
    requires
        is_first_named(groups, name, i),
    ensures
        group_index(groups, name) == Some(i),
{
    let j = choose|j: int| is_first_named(groups, name, j);
    assert(is_first_named(groups, name, j));
    if j < i {
        assert(groups[j].name != name);
    }
    if i < j {
        assert(groups[i].name != name);
    }
}

/// Finds the first group called `name`.
pub fn find_group(groups: &Vec<MintGroup>, name: &String) -> (found: Option<usize>)
    ensures
        found matches Some(i) ==> {
            &&& group_index(groups.deep_view(), name@) == Some(i as int)
            &&& i < groups@.len()
            &&& groups.deep_view()[i as int].name == name@
        },
        found is None ==> group_index(groups.deep_view(), name@) is None,
{
    let mut i: usize = 0;
    while i < groups.len()
        invariant
            i <= groups@.len(),
            forall|j: int| 0 <= j < i ==> (#[trigger] groups.deep_view()[j]).name != name@,
        decreases groups@.len() - i,
    {
        if groups[i].name == *name {
            proof {
                assert(groups.deep_view()[i as int].name == name@);
                lemma_group_index(groups.deep_view(), name@, i as int);
            }
            return Some(i);
        }
        assert(groups.deep_view()[i as int].name != name@);
        i = i + 1;
    }
    proof {
        assert forall|k: int| !is_first_named(groups.deep_view(), name@, k) by {
            if 0 <= k < groups@.len() {
                assert(groups.deep_view()[k].name != name@);
            }
        }
    }
    None
}

/// Whether the request asks for more than the collection has left. A
/// collection of unique tokens counts units from its first token; a
/// collection of fungible batches counts `amount` batches from its cursor.
pub open spec fn sold_out(c: CollectionView, g: MintGroupView, amount: u128) -> bool {
    if c.batched() {
        c.next_token + amount * g.batch_size->0 > c.supply
    } else {
        c.issued() + amount > c.supply
    }
}

/// Whether the group's window `[start_time, end_time)` holds `now`; an
/// `end_time` of 0 leaves the window open for ever.
pub open spec fn window_open(g: MintGroupView, now: u64) -> bool {
    g.start_time <= now && (g.end_time == 0 || now < g.end_time)
}

/// Whether the request would take the wallet past the group's per-wallet
/// quota; a quota of 0 is no quota.
pub open spec fn over_wallet_quota(g: MintGroupView, minted: nat, amount: u128) -> bool {
    g.max_mints_per_wallet != 0 && minted + amount > g.max_mints_per_wallet
}

/// Whether the request would take the group past its reserved supply; a
/// reserved supply of 0 is no limit.
pub open spec fn over_reserved_supply(g: MintGroupView, issued: u128, amount: u128) -> bool {
    g.reserved_supply != 0 && issued + amount > g.reserved_supply
}

/// Whether the proof was made for the bridged-chain form of the wallet.
pub open spec fn proves_bridged_form(call: MintCall) -> bool {
    call.address_type == Some("hex"@)
}

/// The address text whose hash is the wallet's leaf.
pub open spec fn leaf_text(call: MintCall) -> Seq<char> {
    if proves_bridged_form(call) {
        lowercase_text(call.association.evm_address)
    } else {
        call.sender
    }
}

/// The wallet's leaf.
pub open spec fn leaf_of(call: MintCall) -> Seq<u8> {
    keccak256_digest(encode_utf8(leaf_text(call)))
}

/// The allowlist check. A group without a root is open to all. With a root,
/// a request without a proof fails; a proof for the bridged form of a wallet
/// that has none fails as not associated; any other proof must lead from the
/// wallet's leaf to the root.
pub open spec fn allowlist_outcome(g: MintGroupView, call: MintCall) -> Result<(), ContractError> {
    match g.merkle_root {
        None => Ok(()),
        Some(root) => match call.merkle_proof {
            None => Err(ContractError::InvalidMerkleProof),
            Some(proof) => if proves_bridged_form(call) && !call.association.associated {
                Err(ContractError::NotAssociatedAddress)
            } else if merkle_root_of(leaf_of(call), proof) == root {
                Ok(())
            } else {
                Err(ContractError::InvalidMerkleProof)
            },
        },
    }
}

/// What a leg adds to the native price of one unit.
pub open spec fn native_part(leg: PaymentView) -> int {
    if leg.payment_type is Native && leg.amount is Some {
        leg.amount->0 as int
    } else {
        0
    }
}

/// The native price of one unit: the sum of the native legs.
pub open spec fn native_sum(legs: Seq<PaymentView>) -> int
    decreases legs.len(),
{
    if legs.len() == 0 {
        0
    } else {
        native_sum(legs.drop_last()) + native_part(legs.last())
    }
}

/// Whether any leg is paid in native currency.
pub open spec fn has_native_leg(legs: Seq<PaymentView>) -> bool {
    exists|i: int| 0 <= i < legs.len() && (#[trigger] legs[i]).payment_type is Native
}

/// What must be attached to a mint of `amount` units: the native price and
/// the flat fee, for each unit.
pub open spec fn expected_funds(legs: Seq<PaymentView>, fee: u128, amount: u128) -> int {
    (native_sum(legs) + fee) * amount
}

/// Whether the attached funds are exactly one coin of the platform's
/// denomination in the expected amount. Groups without native legs take any
/// funds.
pub open spec fn funds_exact(
    legs: Seq<PaymentView>,
    config: ConfigView,
    funds: Seq<CoinView>,
    amount: u128,
) -> bool {
    has_native_leg(legs) ==> {
        &&& funds.len() == 1
        &&& funds[0].denom == config.denom
        &&& funds[0].amount == expected_funds(legs, config.fee, amount)
    }
}

/// The admission decision for a request to mint from group `g` of
/// collection `c`, where the wallet has already minted `minted` units in the
/// group and the group has issued `issued` units in all.
pub open spec fn admission(
    config: ConfigView,
    c: CollectionView,
    g: MintGroupView,
    minted: nat,
    issued: u128,
    call: MintCall,
) -> Result<(), ContractError> {
    if sold_out(c, g, call.amount) {
        Err(ContractError::SoldOut)
    } else if !window_open(g, call.now) {
        Err(ContractError::GroupNotOpenToMint)
    } else if over_wallet_quota(g, minted, call.amount) {
        Err(ContractError::MaxTokensMinted)
    } else if over_reserved_supply(g, issued, call.amount) {
        Err(ContractError::ReservedSupplyRanOut)
    } else if allowlist_outcome(g, call) is Err {
        allowlist_outcome(g, call)
    } else if !funds_exact(g.payments, config, call.funds, call.amount) {
        Err(ContractError::InvalidFunds)
    } else {
        Ok(())
    }
}

/// What a mint request brings with it, read off its parts.
pub open spec fn mint_call(
    env: Env,
    info: MessageInfo,
    association: GetEvmAddressResponse,
    msg: Mint,
) -> MintCall {
    MintCall {
        collection: msg.collection@,
        group: msg.group@,
        now: env.block_time,
        sender: info.sender@,
        funds: info.funds.deep_view(),
        association: association@,
        amount: msg.amount,
        merkle_proof: msg.merkle_proof.deep_view(),
        address_type: msg.merkle_proof_address_type.deep_view(),
    }
}

/// Whether a request for `amount` units asks for more than is left.
pub fn is_sold_out(collection: &Collection, group: &MintGroup, amount: u128) -> (out: bool)
    requires
        collection@.wf(),
        group@.wf(collection@.batched()),
    ensures
        out == sold_out(collection@, group@, amount),
{
    match collection.strategy() {
        Some(Strategy::Native404) => {
            let batch: u128 = match group.batch_size {
                Some(b) => b,
                None => 0,
            };
            match amount.checked_mul(batch) {
                None => true,
                Some(units) => match collection.next_token.checked_add(units) {
                    None => true,
                    Some(end) => end > collection.supply,
                },
            }
        },
        _ => {
            let first: u128 = match collection.start_order {
                Some(f) => f,
                None => 0,
            };
            let issued: u128 = collection.next_token - first;
            amount > collection.supply - issued
        },
    }
}

/// Whether the group's window holds `now`.
pub fn is_window_open(group: &MintGroup, now: u64) -> (open: bool)
    ensures
        open == window_open(group@, now),
{
    group.start_time <= now && (group.end_time == 0 || now < group.end_time)
}

/// Whether `amount` more units take a wallet that has minted `minted` past
/// the group's per-wallet quota.
pub fn is_over_wallet_quota(group: &MintGroup, minted: usize, amount: u128) -> (over: bool)
    ensures
        over == over_wallet_quota(group@, minted as nat, amount),
{
    if group.max_mints_per_wallet == 0 {
        false
    } else {
        match amount.checked_add(minted as u128) {
            None => true,
            Some(total) => total > group.max_mints_per_wallet,
        }
    }
}

/// Whether `amount` more units take a group that has issued `issued` past its
/// reserved supply.
pub fn is_over_reserved_supply(group: &MintGroup, issued: u128, amount: u128) -> (over: bool)
    ensures
        over == over_reserved_supply(group@, issued, amount),
{
    if group.reserved_supply == 0 {
        false
    } else {
        match amount.checked_add(issued) {
            None => true,
            Some(total) => total > group.reserved_supply,
        }
    }
}

/// Checks the allowlist proof of a request against the group's root.
pub fn check_allowlist(
    group: &MintGroup,
    env: &Env,
    info: &MessageInfo,
    association: &GetEvmAddressResponse,
    msg: &Mint,
) -> (outcome: Result<(), ContractError>)
    ensures
        outcome == allowlist_outcome(group@, mint_call(*env, *info, *association, *msg)),
{
    let ghost call = mint_call(*env, *info, *association, *msg);
    match &group.merkle_root {
        None => Ok(()),
        Some(root) => match &msg.merkle_proof {
            None => Err(ContractError::InvalidMerkleProof),
            Some(proof) => {
                let bridged = match &msg.merkle_proof_address_type {
                    Some(form) => text_is(form, "hex"),
                    None => false,
                };
                assert(bridged == proves_bridged_form(call));
                if bridged && !association.associated {
                    return Err(ContractError::NotAssociatedAddress);
                }
                let leaf = if bridged {
                    let lowered = to_lowercase(association.evm_address.as_str());
                    keccak256(lowered.as_str().as_bytes())
                } else {
                    keccak256(info.sender.as_str().as_bytes())
                };
                assert(leaf@ == leaf_of(call));
                assert(root.deep_view() =~= root@);
                if merkle_proof_holds(proof, root, leaf) {
                    Ok(())
                } else {
                    Err(ContractError::InvalidMerkleProof)
                }
            },
        },
    }
}

/// No leg takes away from the native price.
pub proof fn lemma_native_sum_nonneg(legs: Seq<PaymentView>)
    ensures
        0 <= native_sum(legs),
    decreases legs.len(),
{
    if legs.len() > 0 {
        lemma_native_sum_nonneg(legs.drop_last());
    }
}

/// Whether the funds attached to a request for `amount` units are exact.
pub fn check_funds(payments: &Vec<Payment>, config: &Config, funds: &Vec<Coin>, amount: u128) -> (exact:
    bool)
    ensures
        exact == funds_exact(payments.deep_view(), config@, funds.deep_view(), amount),
{
    let ghost legs = payments.deep_view();
    let mut sum: Option<u128> = Some(0);
    let mut native: bool = false;
    let mut i: usize = 0;
    assert(legs.take(0) =~= Seq::<PaymentView>::empty());
    while i < payments.len()
        invariant
            i <= payments@.len(),
            legs == payments.deep_view(),
            native == has_native_leg(legs.take(i as int)),
            sum matches Some(s) ==> s == native_sum(legs.take(i as int)),
            sum is None ==> native_sum(legs.take(i as int)) > u128::MAX,
        decreases payments@.len() - i,
    {
        let ghost before = legs.take(i as int);
        let ghost after = legs.take(i + 1);
        proof {
            assert(after.drop_last() =~= before);
            assert(after.last() == legs[i as int]);
            assert(legs[i as int] == payments@[i as int]@);
            lemma_native_sum_nonneg(before);
        }
        let leg = &payments[i];
        let is_native = match leg.payment_type {
            PaymentType::Native => true,
            _ => false,
        };
        if is_native {
            native = true;
            assert(has_native_leg(after)) by {
                assert(after[i as int].payment_type is Native);
            }
            match leg.amount {
                Some(a) => {
                    sum = match sum {
                        Some(s) => s.checked_add(a),
                        None => None,
                    };
                },
                None => {},
            }
        } else {
            assert(has_native_leg(after) == has_native_leg(before)) by {
                if has_native_leg(after) {
                    let k = choose|k: int|
                        0 <= k < after.len() && (#[trigger] after[k]).payment_type is Native;
                    assert(before[k].payment_type is Native);
                }
                if has_native_leg(before) {
                    let k = choose|k: int|
                        0 <= k < before.len() && (#[trigger] before[k]).payment_type is Native;
                    assert(after[k].payment_type is Native);
                }
            }
        }
        i = i + 1;
    }
    assert(legs.take(payments@.len() as int) =~= legs);
    if !native {
        return true;
    }
    if funds.len() != 1 {
        return false;
    }
    assert(funds.deep_view()[0] == funds@[0]@);
    if !(funds[0].denom == config.denom) {
        return false;
    }
    if amount == 0 {
        assert(expected_funds(legs, config.fee, amount) == 0) by (nonlinear_arith)
            requires
                amount == 0,
        ;
        return funds[0].amount == 0;
    }
    proof {
        lemma_native_sum_nonneg(legs);
        let unit = native_sum(legs) + config.fee;
        assert(unit * amount >= unit) by (nonlinear_arith)
            requires
                unit >= 0,
                amount >= 1,
        ;
    }
    let unit: Option<u128> = match sum {
        Some(s) => s.checked_add(config.fee),
        None => None,
    };
    match unit {
        None => false,
        Some(u) => match u.checked_mul(amount) {
            None => false,
            Some(expected) => funds[0].amount == expected,
        },
    }
}

/// Decides whether a request may mint from `group` of `collection`, where
/// the wallet has already minted `minted` units in the group and the group
/// has issued `issued` units in all.
pub fn check_admission(
    config: &Config,
    collection: &Collection,
    group: &MintGroup,
    minted: usize,
    issued: u128,
    env: &Env,
    info: &MessageInfo,
    association: &GetEvmAddressResponse,
    msg: &Mint,
) -> (outcome: Result<(), ContractError>)
    requires
        collection@.wf(),
        group@.wf(collection@.batched()),
    ensures
        outcome == admission(
            config@,
            collection@,
            group@,
            minted as nat,
            issued,
            mint_call(*env, *info, *association, *msg),
        ),
{
    if is_sold_out(collection, group, msg.amount) {
        return Err(ContractError::SoldOut);
    }
    if !is_window_open(group, env.block_time) {
        return Err(ContractError::GroupNotOpenToMint);
    }
    if is_over_wallet_quota(group, minted, msg.amount) {
        return Err(ContractError::MaxTokensMinted);
    }
    if is_over_reserved_supply(group, issued, msg.amount) {
        return Err(ContractError::ReservedSupplyRanOut);
    }
    match check_allowlist(group, env, info, association, msg) {
        Err(e) => {
            return Err(e);
        },
        Ok(_) => {},
    }
    if !check_funds(&group.payments, config, &info.funds, msg.amount) {
        return Err(ContractError::InvalidFunds);
    }
    Ok(())
}

/// A wallet that has minted `minted` units under a quota is turned down
/// when it asks for one unit more than the quota leaves, provided the
/// collection has the units and the window is open.
pub proof fn lemma_quota_turns_down_one_too_many(
    config: ConfigView,
    c: CollectionView,
    g: MintGroupView,
    minted: nat,
    issued: u128,
    call: MintCall,
)
    requires
        g.max_mints_per_wallet != 0,
        minted <= g.max_mints_per_wallet,
        call.amount == g.max_mints_per_wallet - minted + 1,
        !sold_out(c, g, call.amount),
        window_open(g, call.now),
    ensures
        admission(config, c, g, minted, issued, call) == Err::<(), ContractError>(
            ContractError::MaxTokensMinted,
        ),
{
}

/// A wallet that has minted `minted` units under a quota passes the quota
/// check when it asks for exactly what the quota leaves, and is admitted
/// where the other checks pass as well.
pub proof fn lemma_quota_lets_the_rest_through(
    config: ConfigView,
    c: CollectionView,
    g: MintGroupView,
    minted: nat,
    issued: u128,
    call: MintCall,
)
    requires
        g.max_mints_per_wallet != 0,
        minted <= g.max_mints_per_wallet,
        call.amount == g.max_mints_per_wallet - minted,
    ensures
        !over_wallet_quota(g, minted, call.amount),
        admission(config, c, g, minted, issued, call) != Err::<(), ContractError>(
            ContractError::MaxTokensMinted,
        ),
        !sold_out(c, g, call.amount) && window_open(g, call.now) && !over_reserved_supply(
            g,
            issued,
            call.amount,
        ) && allowlist_outcome(g, call) is Ok && funds_exact(
            g.payments,
            config,
            call.funds,
            call.amount,
        ) ==> admission(config, c, g, minted, issued, call) is Ok,
{
}

/// A group whose window has not begun turns every request down, whatever it
/// asks for, provided the collection has the units; once the time has
/// reached the start of an unbounded window the same request passes the
/// window check.
pub proof fn lemma_window_gates_admission(
    config: ConfigView,
    c: CollectionView,
    g: MintGroupView,
    minted: nat,
    issued: u128,
    early: MintCall,
    later: MintCall,
)
    requires
        early.now < g.start_time,
        g.start_time <= later.now,
        g.end_time == 0 || later.now < g.end_time,
        !sold_out(c, g, early.amount),
    ensures
        admission(config, c, g, minted, issued, early) == Err::<(), ContractError>(
            ContractError::GroupNotOpenToMint,
        ),
        admission(config, c, g, minted, issued, later) != Err::<(), ContractError>(
            ContractError::GroupNotOpenToMint,
        ),
{
}

} // verus!
