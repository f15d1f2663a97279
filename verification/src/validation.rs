//! The rules that a collection's groups must keep to be registered.

use crate::error::ContractError;
use crate::state::{
    groups_wf, strategy_of, Collection, MintGroup, MintGroupView, Payment, PaymentType, Strategy,
};
use vstd::prelude::*;
use vstd::string::*;

verus! {

/// Whether every leg of every group can be registered: its kind is
/// supported, its amount is strictly positive and its addresses are there.
pub open spec fn payments_valid(groups: Seq<MintGroupView>) -> bool {
    forall|i: int| 0 <= i < groups.len() ==> (#[trigger] groups[i]).payments_valid()
}

/// Whether every group declares a batch size above zero.
pub open spec fn batches_declared(groups: Seq<MintGroupView>) -> bool {
    forall|i: int| 0 <= i < groups.len() ==> (#[trigger] groups[i]).has_batch()
}

/// Whether the groups suit a collection with the standard tag `standard`:
/// a fungible-batch collection needs a batch size in every group.
pub open spec fn groups_valid(standard: Seq<char>, groups: Seq<MintGroupView>) -> bool {
    standard == "404"@ ==> batches_declared(groups)
}

/// Whether one leg can be registered.
pub fn is_valid_payment(payment: &Payment) -> (valid: bool)
    ensures
        valid == payment@.valid(),
{
    let needed: usize = match payment.payment_type {
        PaymentType::Native => 1,
        PaymentType::Cw20 => 2,
        PaymentType::Cw20Burn => 1,
        _ => {
            return false;
        },
    };
    match payment.amount {
        Some(a) => {
            if a == 0 {
                return false;
            }
        },
        None => {
            return false;
        },
    }
    if payment.args.len() < needed {
        return false;
    }
    let mut i: usize = 0;
    while i < needed
        invariant
            i <= needed,
            needed == payment@.args_needed(),
            needed <= payment.args@.len(),
            forall|k: int| 0 <= k < i ==> (#[trigger] payment@.args[k]).len() > 0,
        decreases needed - i,
    {
        assert(payment@.args[i as int] == payment.args@[i as int]@);
        if payment.args[i].as_str().is_empty() {
            return false;
        }
        i = i + 1;
    }
    true
}

/// The addresses that a leg's kind reads, for the host to check.
pub fn leg_addresses(payment: &Payment) -> (addresses: Vec<String>)
    ensures
        addresses.deep_view() == payment@.named_addresses(),
{
    let mut addresses: Vec<String> = Vec::new();
    let needed: usize = match payment.payment_type {
        PaymentType::Native => 1,
        PaymentType::Cw20 => 2,
        PaymentType::Cw20Burn => 1,
        _ => {
            assert(addresses.deep_view() =~= payment@.named_addresses());
            return addresses;
        },
    };
    let mut i: usize = 0;
    while i < needed && i < payment.args.len()
        invariant
            i <= needed,
            i <= payment.args@.len(),
            addresses.deep_view() == payment@.args.take(i as int),
        decreases needed - i,
    {
        let ghost before = addresses.deep_view();
        let address = payment.args[i].clone();
        assert(address@ == payment@.args[i as int]) by {
            assert(payment@.args[i as int] == payment.args@[i as int]@);
        }
        addresses.push(address);
        assert(addresses.deep_view() =~= before.push(address@));
        assert(before.push(address@) =~= payment@.args.take(i + 1));
        i = i + 1;
    }
    assert(payment@.args.take(payment@.args.len() as int) =~= payment@.args);
    addresses
}

/// Whether every leg of one group can be registered.
pub fn has_valid_payments(group: &MintGroup) -> (valid: bool)
    ensures
        valid == group@.payments_valid(),
{
    let mut i: usize = 0;
    while i < group.payments.len()
        invariant
            i <= group.payments@.len(),
            forall|k: int| 0 <= k < i ==> (#[trigger] group@.payments[k]).valid(),
        decreases group.payments@.len() - i,
    {
        assert(group@.payments[i as int] == group.payments@[i as int]@);
        if !is_valid_payment(&group.payments[i]) {
            return false;
        }
        i = i + 1;
    }
    true
}

/// Checks the legs of every group. A leg of an unsupported kind, without a
/// strictly positive amount or without its addresses fails the whole list.
pub fn validate_payments(groups: &Vec<MintGroup>) -> (outcome: Result<(), ContractError>)
    ensures
        payments_valid(groups.deep_view()) ==> outcome is Ok,
        !payments_valid(groups.deep_view()) ==> outcome == Err::<(), ContractError>(
            ContractError::InvalidShares,
        ),
{
    let mut i: usize = 0;
    while i < groups.len()
        invariant
            i <= groups@.len(),
            forall|k: int| 0 <= k < i ==> (#[trigger] groups.deep_view()[k]).payments_valid(),
        decreases groups@.len() - i,
    {
        assert(groups.deep_view()[i as int] == groups@[i as int]@);
        if !has_valid_payments(&groups[i]) {
            return Err(ContractError::InvalidShares);
        }
        i = i + 1;
    }
    Ok(())
}

/// Checks that the groups suit the collection's standard: in a
/// fungible-batch collection every group declares a batch size above zero.
pub fn validate_groups(collection_type: &String, groups: &Vec<MintGroup>) -> (outcome: Result<
    (),
    ContractError,
>)
    ensures
        groups_valid(collection_type@, groups.deep_view()) ==> outcome is Ok,
        !groups_valid(collection_type@, groups.deep_view()) ==> outcome == Err::<
            (),
            ContractError,
        >(ContractError::InvalidChainConfig),
{
    let batched = String::from_str("404");
    if *collection_type == batched {
        let mut i: usize = 0;
        while i < groups.len()
            invariant
                i <= groups@.len(),
                collection_type@ == "404"@,
                forall|k: int| 0 <= k < i ==> (#[trigger] groups.deep_view()[k]).has_batch(),
            decreases groups@.len() - i,
        {
            assert(groups.deep_view()[i as int] == groups@[i as int]@);
            let declared = match groups[i].batch_size {
                Some(b) => b > 0,
                None => false,
            };
            if !declared {
                assert(!groups.deep_view()[i as int].has_batch());
                return Err(ContractError::InvalidChainConfig);
            }
            i = i + 1;
        }
    }
    Ok(())
}

/// Groups that pass both checks can serve mints in a collection with the
/// tags they were checked for.
pub proof fn lemma_valid_groups_are_wf(
    chain: Seq<char>,
    standard: Seq<char>,
    groups: Seq<MintGroupView>,
)
    requires
        payments_valid(groups),
        groups_valid(standard, groups),
    ensures
        groups_wf(groups, strategy_of(chain, standard) == Some(Strategy::Native404)),
{
    assert forall|i: int| 0 <= i < groups.len() implies (#[trigger] groups[i]).wf(
        strategy_of(chain, standard) == Some(Strategy::Native404),
    ) by {
        assert(groups[i].payments_valid());
        assert forall|k: int| 0 <= k < groups[i].payments.len() implies (
        #[trigger] groups[i].payments[k]).wf() by {
            assert(groups[i].payments[k].valid());
        }
    }
}

/// Whether a group can serve a mint in a collection that is, or is not,
/// minted in fungible batches.
pub fn is_group_wf(group: &MintGroup, batched: bool) -> (wf: bool)
    ensures
        wf == group@.wf(batched),
{
    let mut i: usize = 0;
    while i < group.payments.len()
        invariant
            i <= group.payments@.len(),
            forall|k: int| 0 <= k < i ==> (#[trigger] group@.payments[k]).wf(),
        decreases group.payments@.len() - i,
    {
        assert(group@.payments[i as int] == group.payments@[i as int]@);
        let leg = &group.payments[i];
        let supported = match leg.payment_type {
            PaymentType::Native => true,
            PaymentType::Cw20 => true,
            PaymentType::Cw20Burn => true,
            _ => false,
        };
        if supported && !is_valid_payment(leg) {
            return false;
        }
        i = i + 1;
    }
    if batched {
        match group.batch_size {
            Some(b) => b > 0,
            None => false,
        }
    } else {
        true
    }
}

/// Whether a collection keeps its invariant.
pub fn is_collection_wf(collection: &Collection) -> (wf: bool)
    ensures
        wf == collection@.wf(),
{
    let batched = match collection.strategy() {
        Some(Strategy::Native404) => true,
        Some(_) => false,
        None => {
            return false;
        },
    };
    let first: u128 = match collection.start_order {
        Some(f) => f,
        None => 0,
    };
    if collection.next_token < first || collection.next_token - first > collection.supply {
        return false;
    }
    let mut i: usize = 0;
    while i < collection.mint_groups.len()
        invariant
            i <= collection.mint_groups@.len(),
            batched == collection@.batched(),
            forall|k: int| 0 <= k < i ==> (#[trigger] collection@.mint_groups[k]).wf(batched),
        decreases collection.mint_groups@.len() - i,
    {
        assert(collection@.mint_groups[i as int] == collection.mint_groups@[i as int]@);
        if !is_group_wf(&collection.mint_groups[i], batched) {
            return false;
        }
        i = i + 1;
    }
    true
}

} // verus!
