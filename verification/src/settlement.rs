//! The payment distribution engine: the transfers and burns that a mint
//! implies, and the split of the platform's fee.

use crate::admission::{expected_funds, has_native_leg, native_part, native_sum};
use crate::error::{ContractError, StdError};
use crate::response::{
    note, plain, Attribute, AttributeView, Coin, CoinView, CosmosMsg, CosmosMsgView,
    ExecutePayload, ExecutePayloadView, ReplyOn, SubMsg, SubMsgView,
};
use crate::state::{
    Config, ConfigView, Partner, PartnerView, Payment, PaymentType, PaymentTypeView, PaymentView,
};
use crate::structs::{Cw20ExecuteMsg, Cw20ExecuteMsgView};
use crate::text::{decimal, decimal_string, owned};
use vstd::prelude::*;
use vstd::string::*;

verus! {

/// What a leg costs for `amount` units.
pub open spec fn leg_total(leg: PaymentView, amount: u128) -> int {
    leg.amount->0 * amount
}

/// The instruction that settles one leg for `amount` units: a transfer of
/// native currency to the leg's recipient, a transfer of tokens from the
/// payer to the leg's recipient, or a burn of the payer's tokens.
pub open spec fn leg_message(
    leg: PaymentView,
    payer: Seq<char>,
    denom: Seq<char>,
    amount: u128,
) -> CosmosMsgView {
    let total = leg_total(leg, amount) as u128;
    match leg.payment_type {
        PaymentTypeView::Native => CosmosMsgView::BankSend {
            to_address: leg.args[0],
            amount: CoinView { denom, amount: total },
        },
        PaymentTypeView::Cw20 => CosmosMsgView::WasmExecute {
            contract_addr: leg.args[1],
            msg: ExecutePayloadView::Cw20(
                Cw20ExecuteMsgView::TransferFrom {
                    owner: payer,
                    recipient: leg.args[0],
                    amount: total,
                },
            ),
        },
        _ => CosmosMsgView::WasmExecute {
            contract_addr: leg.args[0],
            msg: ExecutePayloadView::Cw20(
                Cw20ExecuteMsgView::BurnFrom { owner: payer, amount: total },
            ),
        },
    }
}

/// The note that records one settled leg.
pub open spec fn leg_note(leg: PaymentView, amount: u128) -> AttributeView {
    let total = decimal(leg_total(leg, amount) as nat);
    match leg.payment_type {
        PaymentTypeView::Native => note("paid_sei"@, total),
        PaymentTypeView::Cw20 => note("paid_"@ + leg.args[1], total),
        _ => note("burned_"@ + leg.args[0], total),
    }
}

/// Why a leg cannot be settled, if it cannot: its kind is not supported, or
/// its total does not fit.
pub open spec fn leg_fault(leg: PaymentView, amount: u128) -> Option<ContractError> {
    if !leg.supported() {
        Some(ContractError::NotImplemented)
    } else if leg_total(leg, amount) > u128::MAX {
        Some(ContractError::Std(StdError::Overflow))
    } else {
        None
    }
}

/// The first fault among the legs, in their order.
pub open spec fn legs_fault(legs: Seq<PaymentView>, amount: u128) -> Option<ContractError>
    decreases legs.len(),
{
    if legs.len() == 0 {
        None
    } else if legs_fault(legs.drop_last(), amount) is Some {
        legs_fault(legs.drop_last(), amount)
    } else {
        leg_fault(legs.last(), amount)
    }
}

/// The instructions that settle the legs, one for each leg in order.
pub open spec fn legs_messages(
    legs: Seq<PaymentView>,
    payer: Seq<char>,
    denom: Seq<char>,
    amount: u128,
) -> Seq<SubMsgView> {
    Seq::new(legs.len(), |i: int| plain(leg_message(legs[i], payer, denom, amount)))
}

/// The notes that record the legs, one for each leg in order.
pub open spec fn legs_notes(legs: Seq<PaymentView>, amount: u128) -> Seq<AttributeView> {
    Seq::new(legs.len(), |i: int| leg_note(legs[i], amount))
}

/// Whether the flat fee is charged: some leg costs more than nothing.
pub open spec fn fee_due(legs: Seq<PaymentView>, amount: u128) -> bool {
    exists|i: int| 0 <= i < legs.len() && leg_total(#[trigger] legs[i], amount) > 0
}

/// The platform's fee for `amount` units.
pub open spec fn platform_fee(fee: u128, amount: u128) -> int {
    fee * amount
}

/// What a partner with `percent` percent takes of the fee: that percentage
/// of the flat fee, rounded down.
pub open spec fn partner_share(fee: u128, percent: u128) -> int {
    (fee * percent) / 100
}

/// What is left of the fee for the platform's admin.
pub open spec fn admin_share(fee: u128, amount: u128, percent: u128) -> int {
    platform_fee(fee, amount) - partner_share(fee, percent)
}

/// The percentage that is carved out of the fee: the partner's, where a
/// partner applies, and 0 where none does.
pub open spec fn carved_percent(partner: Option<PartnerView>) -> u128 {
    match partner {
        Some(p) => p.fee_percent,
        None => 0,
    }
}

/// The transfers that split the fee: the partner's share, where a partner
/// with a share applies, and then the admin's share.
pub open spec fn fee_messages(config: ConfigView, partner: Option<PartnerView>, amount: u128) -> Seq<
    SubMsgView,
> {
    let percent = carved_percent(partner);
    let to_admin = plain(
        CosmosMsgView::BankSend {
            to_address: config.admin,
            amount: CoinView {
                denom: config.denom,
                amount: admin_share(config.fee, amount, percent) as u128,
            },
        },
    );
    if percent > 0 {
        seq![
            plain(
                CosmosMsgView::BankSend {
                    to_address: partner->0.partner,
                    amount: CoinView {
                        denom: config.denom,
                        amount: partner_share(config.fee, percent) as u128,
                    },
                },
            ),
            to_admin,
        ]
    } else {
        seq![to_admin]
    }
}

/// Why the payment for a mint cannot be distributed, if it cannot: a leg is
/// at fault, or the fee is due and does not fit.
pub open spec fn settlement_fault(legs: Seq<PaymentView>, fee: u128, amount: u128) -> Option<
    ContractError,
> {
    if legs_fault(legs, amount) is Some {
        legs_fault(legs, amount)
    } else if fee_due(legs, amount) && platform_fee(fee, amount) > u128::MAX {
        Some(ContractError::Std(StdError::Overflow))
    } else {
        None
    }
}

/// Every instruction that distributes the payment for a mint: the legs in
/// order, then the fee where it is due.
pub open spec fn settlement_messages(
    legs: Seq<PaymentView>,
    config: ConfigView,
    partner: Option<PartnerView>,
    payer: Seq<char>,
    amount: u128,
) -> Seq<SubMsgView> {
    if fee_due(legs, amount) {
        legs_messages(legs, payer, config.denom, amount) + fee_messages(config, partner, amount)
    } else {
        legs_messages(legs, payer, config.denom, amount)
    }
}

/// The fee splits exactly: whatever the percentage, the partner's share
/// and the admin's share add up to the platform's fee.
pub proof fn lemma_fee_split_adds_up(fee: u128, amount: u128, percent: u128)
    ensures
        platform_fee(fee, amount) == partner_share(fee, percent) + admin_share(
            fee,
            amount,
            percent,
        ),
{
}

/// Where at least one unit is minted and the partner takes at most 99
/// percent, neither share is negative, the partner's share is no more than
/// the flat fee, and it is the given percentage of it rounded down.
pub proof fn lemma_fee_split(fee: u128, amount: u128, percent: u128)
    requires
        percent <= 99,
        amount >= 1,
    ensures
        platform_fee(fee, amount) == partner_share(fee, percent) + admin_share(
            fee,
            amount,
            percent,
        ),
        0 <= partner_share(fee, percent) <= fee,
        0 <= admin_share(fee, amount, percent) <= platform_fee(fee, amount),
        100 * partner_share(fee, percent) <= fee * percent < 100 * partner_share(fee, percent)
            + 100,
{
    let f = fee as int;
    let p = percent as int;
    let a = amount as int;
    assert(0 <= (f * p) / 100 <= f && 100 * ((f * p) / 100) <= f * p < 100 * ((f * p) / 100)
        + 100) by (nonlinear_arith)
        requires
            0 <= f,
            0 <= p <= 99,
    ;
    assert(f * a >= f) by (nonlinear_arith)
        requires
            0 <= f,
            a >= 1,
    ;
}

/// The partner's share computed from the quotient and remainder of the fee
/// by 100, which never leaves 128 bits.
proof fn lemma_share_by_parts(fee: u128, percent: u128)
    requires
        percent <= 99,
    ensures
        partner_share(fee, percent) == (fee / 100) * percent + ((fee % 100) * percent) / 100,
        (fee / 100) * percent <= fee,
        (fee % 100) * percent <= 9801,
{
    let f = fee as int;
    let p = percent as int;
    let q = f / 100;
    let r = f % 100;
    assert(f == 100 * q + r);
    assert((100 * q + r) * p == 100 * (q * p) + r * p) by (nonlinear_arith);
    assert((100 * (q * p) + r * p) / 100 == q * p + (r * p) / 100) by (nonlinear_arith)
        requires
            0 <= r * p,
    ;
    assert(0 <= r * p <= 9801) by (nonlinear_arith)
        requires
            0 <= r <= 99,
            0 <= p <= 99,
    ;
    assert(0 <= q * p <= f) by (nonlinear_arith)
        requires
            0 <= q,
            100 * q <= f,
            0 <= p <= 99,
    ;
}

/// What a partner with `percent` percent takes of the flat fee.
pub fn compute_partner_share(fee: u128, percent: u128) -> (share: u128)
    requires
        percent <= 99,
    ensures
        share == partner_share(fee, percent),
{
    proof {
        lemma_share_by_parts(fee, percent);
        lemma_fee_split(fee, 1, percent);
    }
    let whole: u128 = (fee / 100) * percent;
    let part: u128 = ((fee % 100) * percent) / 100;
    whole + part
}

/// An instruction on which the host does not report back.
pub fn plain_message(msg: CosmosMsg) -> (sub: SubMsg)
    ensures
        sub@ == plain(msg@),
{
    SubMsg { id: 0, msg, reply_on: ReplyOn::Never }
}

/// A transfer of `amount` of the denomination `denom` to `to`.
pub fn bank_send(to: &String, denom: &String, amount: u128) -> (sub: SubMsg)
    ensures
        sub@ == plain(
            CosmosMsgView::BankSend {
                to_address: to@,
                amount: CoinView { denom: denom@, amount },
            },
        ),
{
    plain_message(
        CosmosMsg::BankSend { to_address: to.clone(), amount: Coin { denom: denom.clone(), amount } },
    )
}

/// Builds the instructions and notes that settle the legs for `amount`
/// units, or names the first fault among them.
pub fn settle_legs(payments: &Vec<Payment>, denom: &String, payer: &String, amount: u128) -> (outcome:
    Result<(Vec<SubMsg>, Vec<Attribute>), ContractError>)
    requires
        forall|i: int| 0 <= i < payments@.len() ==> (#[trigger] payments.deep_view()[i]).wf(),
    ensures
        match outcome {
            Ok((messages, notes)) => {
                &&& legs_fault(payments.deep_view(), amount) is None
                &&& messages.deep_view() == legs_messages(
                    payments.deep_view(),
                    payer@,
                    denom@,
                    amount,
                )
                &&& notes.deep_view() == legs_notes(payments.deep_view(), amount)
            },
            Err(e) => legs_fault(payments.deep_view(), amount) == Some(e),
        },
{
    let ghost legs = payments.deep_view();
    let mut messages: Vec<SubMsg> = Vec::new();
    let mut notes: Vec<Attribute> = Vec::new();
    let mut i: usize = 0;
    assert(legs.take(0) =~= Seq::<PaymentView>::empty());
    while i < payments.len()
        invariant
            i <= payments@.len(),
            legs == payments.deep_view(),
            forall|k: int| 0 <= k < payments@.len() ==> (#[trigger] legs[k]).wf(),
            legs_fault(legs.take(i as int), amount) is None,
            messages@.len() == i,
            notes@.len() == i,
            forall|k: int|
                0 <= k < i ==> (#[trigger] messages@[k])@ == plain(
                    leg_message(legs[k], payer@, denom@, amount),
                ),
            forall|k: int| 0 <= k < i ==> (#[trigger] notes@[k])@ == leg_note(legs[k], amount),
        decreases payments@.len() - i,
    {
        let leg = &payments[i];
        proof {
            assert(legs.take(i + 1).drop_last() =~= legs.take(i as int));
            assert(legs.take(i + 1).last() == legs[i as int]);
            assert(legs[i as int] == leg@);
            assert(legs[i as int].wf());
        }
        let per_unit: u128 = match leg.amount {
            Some(a) => a,
            None => 0,
        };
        let supported = match leg.payment_type {
            PaymentType::Native => true,
            PaymentType::Cw20 => true,
            PaymentType::Cw20Burn => true,
            _ => false,
        };
        if !supported {
            proof {
                assert(leg_fault(legs[i as int], amount) == Some(ContractError::NotImplemented));
                lemma_legs_fault_stays(legs, i + 1, amount);
            }
            return Err(ContractError::NotImplemented);
        }
        let total: u128 = match per_unit.checked_mul(amount) {
            Some(t) => t,
            None => {
                proof {
                    assert(leg_fault(legs[i as int], amount) == Some(
                        ContractError::Std(StdError::Overflow),
                    ));
                    lemma_legs_fault_stays(legs, i + 1, amount);
                }
                return Err(ContractError::Std(StdError::Overflow));
            },
        };
        assert(leg.args.deep_view()[0] == leg.args@[0]@);
        match leg.payment_type {
            PaymentType::Native => {
                messages.push(bank_send(&leg.args[0], denom, total));
                notes.push(Attribute { key: owned("paid_sei"), value: decimal_string(total) });
            },
            PaymentType::Cw20 => {
                assert(leg.args.deep_view()[1] == leg.args@[1]@);
                messages.push(
                    plain_message(
                        CosmosMsg::WasmExecute {
                            contract_addr: leg.args[1].clone(),
                            msg: ExecutePayload::Cw20(
                                Cw20ExecuteMsg::TransferFrom {
                                    owner: payer.clone(),
                                    recipient: leg.args[0].clone(),
                                    amount: total,
                                },
                            ),
                        },
                    ),
                );
                let mut key = owned("paid_");
                key.append(leg.args[1].as_str());
                notes.push(Attribute { key, value: decimal_string(total) });
            },
            _ => {
                messages.push(
                    plain_message(
                        CosmosMsg::WasmExecute {
                            contract_addr: leg.args[0].clone(),
                            msg: ExecutePayload::Cw20(
                                Cw20ExecuteMsg::BurnFrom { owner: payer.clone(), amount: total },
                            ),
                        },
                    ),
                );
                let mut key = owned("burned_");
                key.append(leg.args[0].as_str());
                notes.push(Attribute { key, value: decimal_string(total) });
            },
        }
        i = i + 1;
    }
    proof {
        assert(legs.take(payments@.len() as int) =~= legs);
        assert(messages.deep_view() =~= legs_messages(legs, payer@, denom@, amount));
        assert(notes.deep_view() =~= legs_notes(legs, amount));
    }
    Ok((messages, notes))
}

/// A fault among the first legs is the fault of the whole list.
proof fn lemma_legs_fault_stays(legs: Seq<PaymentView>, n: int, amount: u128)
    requires
        0 <= n <= legs.len(),
        legs_fault(legs.take(n), amount) is Some,
    ensures
        legs_fault(legs, amount) == legs_fault(legs.take(n), amount),
    decreases legs.len() - n,
{
    if n < legs.len() {
        assert(legs.take(n + 1).drop_last() =~= legs.take(n));
        lemma_legs_fault_stays(legs, n + 1, amount);
    } else {
        assert(legs.take(n) =~= legs);
    }
}

/// Builds the transfers that split the fee for `amount` units.
pub fn split_fee(config: &Config, partner: &Option<Partner>, amount: u128) -> (outcome: Result<
    Vec<SubMsg>,
    ContractError,
>)
    requires
        amount >= 1,
        partner matches Some(p) ==> p@.wf(),
    ensures
        match outcome {
            Ok(messages) => {
                &&& platform_fee(config.fee, amount) <= u128::MAX
                &&& messages.deep_view() == fee_messages(config@, partner.deep_view(), amount)
            },
            Err(e) => {
                &&& e == ContractError::Std(StdError::Overflow)
                &&& platform_fee(config.fee, amount) > u128::MAX
            },
        },
{
    let whole: u128 = match config.fee.checked_mul(amount) {
        Some(w) => w,
        None => {
            return Err(ContractError::Std(StdError::Overflow));
        },
    };
    let mut messages: Vec<SubMsg> = Vec::new();
    let mut to_admin: u128 = whole;
    match partner {
        Some(p) => {
            if p.fee_percent > 0 {
                proof {
                    lemma_fee_split(config.fee, amount, p.fee_percent);
                }
                let share = compute_partner_share(config.fee, p.fee_percent);
                messages.push(bank_send(&p.partner, &config.denom, share));
                to_admin = whole - share;
            }
        },
        None => {},
    }
    assert(partner_share(config.fee, 0) == 0);
    messages.push(bank_send(&config.admin, &config.denom, to_admin));
    assert(messages.deep_view() =~= fee_messages(config@, partner.deep_view(), amount));
    Ok(messages)
}

/// The models of two lists laid end to end are the model of the whole.
pub proof fn lemma_deep_view_concat<T: DeepView>(a: Seq<T>, b: Seq<T>)
    ensures
        Seq::new((a + b).len(), |i: int| (a + b)[i].deep_view()) == Seq::new(
            a.len(),
            |i: int| a[i].deep_view(),
        ) + Seq::new(b.len(), |i: int| b[i].deep_view()),
{
    assert(Seq::new((a + b).len(), |i: int| (a + b)[i].deep_view()) =~= Seq::new(
        a.len(),
        |i: int| a[i].deep_view(),
    ) + Seq::new(b.len(), |i: int| b[i].deep_view()));
}

/// Lays `tail` behind `head`.
pub fn append_messages(head: &mut Vec<SubMsg>, tail: Vec<SubMsg>)
    ensures
        final(head).deep_view() == old(head).deep_view() + tail.deep_view(),
{
    let ghost before = head@;
    let mut tail = tail;
    let ghost added = tail@;
    head.append(&mut tail);
    proof {
        lemma_deep_view_concat(before, added);
    }
}

/// Lays `tail` behind `head`.
pub fn append_notes(head: &mut Vec<Attribute>, tail: Vec<Attribute>)
    ensures
        final(head).deep_view() == old(head).deep_view() + tail.deep_view(),
{
    let ghost before = head@;
    let mut tail = tail;
    let ghost added = tail@;
    head.append(&mut tail);
    proof {
        lemma_deep_view_concat(before, added);
    }
}

/// Builds every instruction that distributes the payment for a mint of
/// `amount` units, with the notes that record the legs, or names the fault
/// that prevents it.
pub fn settle(
    payments: &Vec<Payment>,
    config: &Config,
    partner: &Option<Partner>,
    payer: &String,
    amount: u128,
) -> (outcome: Result<(Vec<SubMsg>, Vec<Attribute>), ContractError>)
    requires
        forall|i: int| 0 <= i < payments@.len() ==> (#[trigger] payments.deep_view()[i]).wf(),
        partner matches Some(p) ==> p@.wf(),
    ensures
        match outcome {
            Ok((messages, notes)) => {
                &&& settlement_fault(payments.deep_view(), config.fee, amount) is None
                &&& messages.deep_view() == settlement_messages(
                    payments.deep_view(),
                    config@,
                    partner.deep_view(),
                    payer@,
                    amount,
                )
                &&& notes.deep_view() == legs_notes(payments.deep_view(), amount)
            },
            Err(e) => settlement_fault(payments.deep_view(), config.fee, amount) == Some(e),
        },
{
    let ghost legs = payments.deep_view();
    let (mut messages, notes) = match settle_legs(payments, &config.denom, payer, amount) {
        Ok(built) => built,
        Err(e) => {
            return Err(e);
        },
    };
    let due = payments.len() > 0 && amount > 0;
    proof {
        lemma_no_fault_everywhere(legs, amount);
        if due {
            assert(legs[0].supported() && legs[0].wf());
            let a = legs[0].amount->0;
            assert(a * amount > 0) by (nonlinear_arith)
                requires
                    a > 0,
                    amount > 0,
            ;
            assert(leg_total(legs[0], amount) > 0);
        } else {
            assert forall|i: int| 0 <= i < legs.len() implies leg_total(#[trigger] legs[i], amount)
                <= 0 by {
                let a = legs[i].amount->0;
                assert(a * amount == 0) by (nonlinear_arith)
                    requires
                        amount == 0,
                ;
            }
        }
        assert(due == fee_due(legs, amount));
    }
    if due {
        match split_fee(config, partner, amount) {
            Ok(fee) => {
                append_messages(&mut messages, fee);
            },
            Err(e) => {
                return Err(e);
            },
        }
    }
    Ok((messages, notes))
}

/// Where the legs are without fault, each of them is.
proof fn lemma_no_fault_everywhere(legs: Seq<PaymentView>, amount: u128)
    requires
        legs_fault(legs, amount) is None,
    ensures
        forall|i: int| 0 <= i < legs.len() ==> leg_fault(#[trigger] legs[i], amount) is None,
    decreases legs.len(),
{
    if legs.len() > 0 {
        lemma_no_fault_everywhere(legs.drop_last(), amount);
        assert forall|i: int| 0 <= i < legs.len() implies leg_fault(#[trigger] legs[i], amount)
            is None by {
            if i < legs.len() - 1 {
                assert(legs.drop_last()[i] == legs[i]);
            }
        }
    }
}

/// What an instruction sends in native currency.
pub open spec fn native_sent(message: SubMsgView) -> int {
    match message.msg {
        CosmosMsgView::BankSend { to_address, amount } => amount.amount as int,
        _ => 0,
    }
}

/// What a list of instructions sends in native currency.
pub open spec fn total_native_sent(messages: Seq<SubMsgView>) -> int
    decreases messages.len(),
{
    if messages.len() == 0 {
        0
    } else {
        total_native_sent(messages.drop_last()) + native_sent(messages.last())
    }
}

/// Two lists of instructions send together what each sends.
pub proof fn lemma_total_native_sent_concat(a: Seq<SubMsgView>, b: Seq<SubMsgView>)
    ensures
        total_native_sent(a + b) == total_native_sent(a) + total_native_sent(b),
    decreases b.len(),
{
    if b.len() == 0 {
        assert(a + b =~= a);
    } else {
        assert((a + b).drop_last() =~= a + b.drop_last());
        assert((a + b).last() == b.last());
        lemma_total_native_sent_concat(a, b.drop_last());
    }
}

/// Instructions that send no native currency send none together.
pub proof fn lemma_total_native_sent_none(messages: Seq<SubMsgView>)
    requires
        forall|i: int| 0 <= i < messages.len() ==> native_sent(#[trigger] messages[i]) == 0,
    ensures
        total_native_sent(messages) == 0,
    decreases messages.len(),
{
    if messages.len() > 0 {
        lemma_total_native_sent_none(messages.drop_last());
    }
}

/// The instructions that settle the first `n` legs send the native price of
/// those legs, `amount` times.
proof fn lemma_legs_send_native_sum(
    legs: Seq<PaymentView>,
    payer: Seq<char>,
    denom: Seq<char>,
    amount: u128,
    n: int,
)
    requires
        0 <= n <= legs.len(),
        forall|i: int| 0 <= i < legs.len() ==> leg_fault(#[trigger] legs[i], amount) is None,
        forall|i: int| 0 <= i < legs.len() ==> (#[trigger] legs[i]).wf(),
    ensures
        total_native_sent(legs_messages(legs.take(n), payer, denom, amount)) == native_sum(
            legs.take(n),
        ) * amount,
    decreases n,
{
    let sent = legs_messages(legs.take(n), payer, denom, amount);
    if n == 0 {
        assert(legs.take(n) =~= Seq::<PaymentView>::empty());
        assert(sent =~= Seq::<SubMsgView>::empty());
        assert(native_sum(legs.take(n)) * amount == 0) by (nonlinear_arith)
            requires
                native_sum(legs.take(n)) == 0,
        ;
    } else {
        lemma_legs_send_native_sum(legs, payer, denom, amount, n - 1);
        let before = legs_messages(legs.take(n - 1), payer, denom, amount);
        let leg = legs[n - 1];
        assert(legs.take(n).drop_last() =~= legs.take(n - 1));
        assert(legs.take(n).last() == leg);
        assert(sent.drop_last() =~= before);
        assert(sent.last() == plain(leg_message(leg, payer, denom, amount)));
        assert(leg_fault(leg, amount) is None && leg.wf());
        let a = leg.amount->0 as int;
        assert(0 <= a * amount) by (nonlinear_arith)
            requires
                0 <= a,
                0 <= amount,
        ;
        assert(native_sent(sent.last()) == native_part(leg) * amount) by {
            if leg.payment_type is Native {
                assert(native_part(leg) == a);
            } else {
                assert(native_part(leg) * amount == 0) by (nonlinear_arith)
                    requires
                        native_part(leg) == 0,
                ;
            }
        }
        let sum = native_sum(legs.take(n - 1));
        let part = native_part(leg);
        assert((sum + part) * amount == sum * amount + part * amount) by (nonlinear_arith);
    }
}

/// The transfers that split the fee send, partner and admin together,
/// exactly the platform's fee, where at least one unit is minted, the fee
/// fits and the partner takes at most 99 percent.
pub proof fn lemma_fee_messages_add_up(
    config: ConfigView,
    partner: Option<PartnerView>,
    amount: u128,
)
    requires
        amount >= 1,
        partner matches Some(p) ==> p.wf(),
        platform_fee(config.fee, amount) <= u128::MAX,
    ensures
        total_native_sent(fee_messages(config, partner, amount)) == platform_fee(
            config.fee,
            amount,
        ),
{
    let percent = carved_percent(partner);
    lemma_fee_split(config.fee, amount, percent);
    let split = fee_messages(config, partner, amount);
    let none = Seq::<SubMsgView>::empty();
    assert(total_native_sent(none) == 0);
    if percent > 0 {
        let first = split.drop_last();
        assert(split.len() == 2 && first.len() == 1);
        assert(first.drop_last() =~= none);
        assert(first.last() == split[0]);
        assert(split.last() == split[1]);
        assert(native_sent(split[0]) == partner_share(config.fee, percent));
        assert(native_sent(split[1]) == admin_share(config.fee, amount, percent));
        assert(total_native_sent(first) == native_sent(split[0]));
        assert(total_native_sent(split) == total_native_sent(first) + native_sent(split[1]));
    } else {
        assert(split.len() == 1);
        assert(split.drop_last() =~= none);
        assert(partner_share(config.fee, 0) == 0);
        assert(native_sent(split[0]) == admin_share(config.fee, amount, percent));
        assert(total_native_sent(split) == total_native_sent(split.drop_last()) + native_sent(
            split.last(),
        ));
    }
}

/// Settlement is exact: where a group has a native leg and the payment can
/// be distributed, the instructions send out in native currency exactly
/// what the admission check expects to come in, the native price and the
/// flat fee for each unit.
pub proof fn lemma_settlement_is_exact(
    legs: Seq<PaymentView>,
    config: ConfigView,
    partner: Option<PartnerView>,
    payer: Seq<char>,
    amount: u128,
)
    requires
        forall|i: int| 0 <= i < legs.len() ==> (#[trigger] legs[i]).wf(),
        partner matches Some(p) ==> p.wf(),
        has_native_leg(legs),
        settlement_fault(legs, config.fee, amount) is None,
    ensures
        total_native_sent(settlement_messages(legs, config, partner, payer, amount))
            == expected_funds(legs, config.fee, amount),
{
    lemma_no_fault_everywhere(legs, amount);
    lemma_legs_send_native_sum(legs, payer, config.denom, amount, legs.len() as int);
    assert(legs.take(legs.len() as int) =~= legs);
    let settled = legs_messages(legs, payer, config.denom, amount);
    let sum = native_sum(legs);
    let fee = config.fee as int;
    assert((sum + fee) * amount == sum * amount + fee * amount) by (nonlinear_arith);
    if fee_due(legs, amount) {
        let k = choose|k: int| 0 <= k < legs.len() && leg_total(#[trigger] legs[k], amount) > 0;
        assert(amount >= 1) by (nonlinear_arith)
            requires
                legs[k].amount->0 * amount > 0,
                amount >= 0,
        ;
        let split = fee_messages(config, partner, amount);
        lemma_fee_messages_add_up(config, partner, amount);
        lemma_total_native_sent_concat(settled, split);
    } else {
        let k = choose|k: int| 0 <= k < legs.len() && (#[trigger] legs[k]).payment_type is Native;
        assert(legs[k].supported() && legs[k].wf());
        assert(leg_total(legs[k], amount) <= 0);
        assert(amount == 0) by (nonlinear_arith)
            requires
                legs[k].amount->0 * amount <= 0,
                legs[k].amount->0 > 0,
                amount >= 0,
        ;
        assert(fee * amount == 0) by (nonlinear_arith)
            requires
                amount == 0,
        ;
    }
}

} // verus!
