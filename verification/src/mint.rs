//! Minting: a request is admitted, paid for, dispatched and recorded, or it
//! is turned down and nothing changes.

use crate::admission::{
    admission, check_admission, find_group, group_index, has_native_leg, mint_call, MintCall,
};
use crate::dispatch::{dispatch, dispatch_fault, dispatch_messages, dispatch_note};
use crate::error::{ContractError, StdError};
use crate::helpers::{
    create_global_mint_info_key, create_group_key, create_mint_log_key,
    create_mint_log_key_404, global_mint_info_key, group_key, mint_log_key, mint_log_key_404,
};
use crate::msg::Mint;
use crate::response::{note, Attribute, Env, MessageInfo, Response, ResponseView, SubMsg};
use crate::settlement::{
    append_messages, append_notes, legs_notes, lemma_settlement_is_exact,
    lemma_total_native_sent_concat, lemma_total_native_sent_none, settle, settlement_fault,
    settlement_messages, total_native_sent,
};
use crate::state::{
    Collection, CollectionView, MintGroupView, MintInfo, Partner, Strategy,
};
use crate::store::{Lighthouse, LighthouseView};
use crate::structs::GetEvmAddressResponse;
use crate::text::{decimal, decimal_string, owned};
use vstd::prelude::*;

verus! {

/// The group that a request names, in a collection that has it.
pub open spec fn group_of(c: CollectionView, call: MintCall) -> MintGroupView {
    c.mint_groups[group_index(c.mint_groups, call.group)->0]
}

/// The key of the wallet's mints in the group it asks for.
pub open spec fn wallet_key(call: MintCall) -> Seq<char> {
    group_key(call.sender, call.collection, call.group)
}

/// The key of the running total of the group asked for.
pub open spec fn total_key(call: MintCall) -> Seq<char> {
    global_mint_info_key(call.collection, call.group)
}

/// Why a mint request is turned down, if it is. The platform must be set
/// up and the collection registered; the group must exist; then the
/// admission checks run, the payment must be distributable, the units
/// dispatchable, and the group's running total must fit.
pub open spec fn mint_fault(s: LighthouseView, call: MintCall) -> Option<ContractError> {
    if s.config is None || !s.collections.contains_key(call.collection) {
        Some(ContractError::Std(StdError::NotFound))
    } else {
        let config = s.config->0;
        let c = s.collections[call.collection];
        if group_index(c.mint_groups, call.group) is None {
            Some(ContractError::InvalidMintGroup)
        } else {
            let g = group_of(c, call);
            let minted = s.minted(wallet_key(call)).len();
            let issued = s.issued(total_key(call));
            let admitted = admission(config, c, g, minted, issued, call);
            if admitted is Err {
                Some(admitted->Err_0)
            } else if settlement_fault(g.payments, config.fee, call.amount) is Some {
                settlement_fault(g.payments, config.fee, call.amount)
            } else if dispatch_fault(c, call) is Some {
                dispatch_fault(c, call)
            } else if issued + call.amount > u128::MAX {
                Some(ContractError::Std(StdError::Overflow))
            } else {
                None
            }
        }
    }
}

/// The answer to a mint request that goes through: the payment
/// instructions and then the mint instructions; the notes on the request,
/// on each leg and on what was minted.
pub open spec fn mint_response(s: LighthouseView, call: MintCall) -> ResponseView {
    let config = s.config->0;
    let c = s.collections[call.collection];
    let g = group_of(c, call);
    ResponseView {
        messages: settlement_messages(
            g.payments,
            config,
            s.partner_of(c.partner),
            call.sender,
            call.amount,
        ) + dispatch_messages(c, call.collection, g, call),
        attributes: seq![
            note("action"@, "mint_lighthouse"@),
            note("chain"@, c.chain),
            note("collection"@, call.collection),
            note("group"@, call.group),
            note("recipient"@, call.sender),
            note("mint_amount"@, decimal(call.amount as nat)),
        ] + legs_notes(g.payments, call.amount) + seq![dispatch_note(c, g, call)],
    }
}

/// What is recorded for the `i`-th unit of a mint: the token number of a
/// unique token, or the batch size of a fungible batch.
pub open spec fn unit_record(c: CollectionView, g: MintGroupView, i: int) -> u128 {
    if c.batched() {
        g.batch_size->0
    } else {
        (c.next_token + i) as u128
    }
}

/// The key under which the minter of the `i`-th unit is logged: by token
/// number for a unique token, by group and running order for a batch.
pub open spec fn unit_log_key(
    c: CollectionView,
    collection: Seq<char>,
    group: Seq<char>,
    issued: u128,
    i: int,
) -> Seq<char> {
    if c.batched() {
        mint_log_key_404(collection, group, decimal((issued + i) as nat))
    } else {
        mint_log_key(collection, decimal((c.next_token + i) as nat))
    }
}

/// Whether the numbers in the log keys of `amount` units fit: the running
/// order of batches, or the token numbers of unique tokens.
pub open spec fn log_numbers_fit(c: CollectionView, issued: u128, amount: u128) -> bool {
    if c.batched() {
        issued + amount <= u128::MAX
    } else {
        c.next_token + amount <= u128::MAX
    }
}

/// The keys under which the minter of each of `amount` units is logged, in
/// the order of the units, for a group that has issued `issued` units; or
/// `None` where the numbers do not fit.
pub fn unit_log_keys(
    collection: &Collection,
    address: &String,
    group: &String,
    issued: u128,
    amount: u128,
) -> (keys: Option<Vec<String>>)
    ensures
        match keys {
            Some(k) => {
                &&& log_numbers_fit(collection@, issued, amount)
                &&& k@.len() == amount
                &&& forall|i: int|
                    0 <= i < amount ==> (#[trigger] k@[i])@ == unit_log_key(
                        collection@,
                        address@,
                        group@,
                        issued,
                        i,
                    )
            },
            None => !log_numbers_fit(collection@, issued, amount),
        },
{
    let batched = match collection.strategy() {
        Some(Strategy::Native404) => true,
        _ => false,
    };
    let first: u128 = if batched {
        issued
    } else {
        collection.next_token
    };
    if first.checked_add(amount).is_none() {
        return None;
    }
    let mut keys: Vec<String> = Vec::new();
    let mut i: u128 = 0;
    while i < amount
        invariant
            i <= amount,
            first + amount <= u128::MAX,
            batched == collection@.batched(),
            first == (if batched {
                issued
            } else {
                collection.next_token
            }),
            keys@.len() == i,
            forall|k: int|
                0 <= k < i ==> (#[trigger] keys@[k])@ == unit_log_key(
                    collection@,
                    address@,
                    group@,
                    issued,
                    k,
                ),
        decreases amount - i,
    {
        let number = decimal_string(first + i);
        let key = if batched {
            create_mint_log_key_404(address.as_str(), group.as_str(), number.as_str())
        } else {
            create_mint_log_key(address.as_str(), number.as_str())
        };
        keys.push(key);
        i = i + 1;
    }
    Some(keys)
}

/// The mint log after the first `count` units of a mint were logged.
pub open spec fn logs_after(
    logs: Map<Seq<char>, Seq<char>>,
    c: CollectionView,
    issued: u128,
    call: MintCall,
    count: nat,
) -> Map<Seq<char>, Seq<char>>
    decreases count,
{
    if count == 0 {
        logs
    } else {
        logs_after(logs, c, issued, call, (count - 1) as nat).insert(
            unit_log_key(c, call.collection, call.group, issued, count - 1),
            call.sender,
        )
    }
}

/// Where the cursor stands after a mint: moved on by the units minted, a
/// batch counting for its size.
pub open spec fn cursor_after(c: CollectionView, g: MintGroupView, amount: u128) -> int {
    if c.batched() {
        c.next_token + g.batch_size->0 * amount
    } else {
        c.next_token + amount
    }
}

/// The state after a mint request that goes through: the cursor moved on,
/// the units added to the wallet's record and to the group's total, and the
/// wallet logged as the minter of each unit.
pub open spec fn mint_state(s: LighthouseView, call: MintCall) -> LighthouseView {
    let c = s.collections[call.collection];
    let g = group_of(c, call);
    let issued = s.issued(total_key(call));
    LighthouseView {
        collections: s.collections.insert(
            call.collection,
            CollectionView { next_token: cursor_after(c, g, call.amount) as u128, ..c },
        ),
        mint_info: s.mint_info.insert(
            wallet_key(call),
            s.minted(wallet_key(call)) + Seq::new(
                call.amount as nat,
                |i: int| unit_record(c, g, i),
            ),
        ),
        global_mint_info: s.global_mint_info.insert(total_key(call), (issued + call.amount) as u128),
        mint_logs: logs_after(s.mint_logs, c, issued, call, call.amount as nat),
        ..s
    }
}

impl Lighthouse {
    /// Mints `msg.amount` units from a group of a collection to the sender.
    ///
    /// `association` is what the address oracle says of the sender. The
    /// request goes through exactly when `mint_fault` finds no fault; the
    /// state then changes as `mint_state` says and the answer is
    /// `mint_response`. Otherwise the fault is returned and the state stays
    /// as it was.
    pub fn mint(
        &mut self,
        env: &Env,
        info: &MessageInfo,
        association: &GetEvmAddressResponse,
        msg: &Mint,
    ) -> (outcome: Result<Response, ContractError>)
        requires
            old(self).wf(),
        ensures
            final(self).wf(),
            match outcome {
                Ok(response) => {
                    &&& mint_fault(old(self)@, mint_call(*env, *info, *association, *msg)) is None
                    &&& final(self)@ == mint_state(
                        old(self)@,
                        mint_call(*env, *info, *association, *msg),
                    )
                    &&& response@ == mint_response(
                        old(self)@,
                        mint_call(*env, *info, *association, *msg),
                    )
                },
                Err(e) => {
                    &&& mint_fault(old(self)@, mint_call(*env, *info, *association, *msg))
                        == Some(e)
                    &&& final(self)@ == old(self)@
                },
            },
    {
        let ghost call = mint_call(*env, *info, *association, *msg);
        let ghost s = self@;
        let config = match self.config() {
            Some(c) => c.clone(),
            None => {
                return Err(ContractError::Std(StdError::NotFound));
            },
        };
        let collection = match self.collection(msg.collection.as_str()) {
            Some(c) => c.clone(),
            None => {
                return Err(ContractError::Std(StdError::NotFound));
            },
        };
        let ghost c = collection@;
        assert(s.collections.contains_key(call.collection) && c == s.collections[call.collection]);
        let index = match find_group(&collection.mint_groups, &msg.group) {
            Some(i) => i,
            None => {
                return Err(ContractError::InvalidMintGroup);
            },
        };
        let group = &collection.mint_groups[index];
        let ghost g = group@;
        assert(g == group_of(c, call));
        assert(g.wf(c.batched()));
        let wallet = create_group_key(
            info.sender.as_str(),
            msg.collection.as_str(),
            msg.group.as_str(),
        );
        let total = create_global_mint_info_key(msg.collection.as_str(), msg.group.as_str());
        let mints = match self.wallet_mints(wallet.as_str()) {
            Some(m) => m.clone(),
            None => MintInfo { mints: Vec::new() },
        };
        assert(mints@ =~= s.minted(wallet_key(call)));
        let issued: u128 = match self.group_total(total.as_str()) {
            Some(t) => t,
            None => 0,
        };
        let partner: Option<Partner> = match &collection.partner {
            Some(address) => match self.partner(address.as_str()) {
                Some(p) => Some(p.clone()),
                None => None,
            },
            None => None,
        };
        assert(partner.deep_view() == s.partner_of(c.partner));
        match check_admission(
            &config,
            &collection,
            group,
            mints.mints.len(),
            issued,
            env,
            info,
            association,
            msg,
        ) {
            Err(e) => {
                return Err(e);
            },
            Ok(_) => {},
        }
        assert forall|i: int| 0 <= i < group.payments@.len() implies (
        #[trigger] group.payments.deep_view()[i]).wf() by {
            assert(g.payments[i].wf());
        }
        let (messages, notes) = match settle(
            &group.payments,
            &config,
            &partner,
            &info.sender,
            msg.amount,
        ) {
            Ok(built) => built,
            Err(e) => {
                return Err(e);
            },
        };
        let (minting, noted) = match dispatch(
            &collection,
            &msg.collection,
            group,
            env,
            info,
            association,
            msg,
        ) {
            Ok(built) => built,
            Err(e) => {
                return Err(e);
            },
        };
        if issued.checked_add(msg.amount).is_none() {
            return Err(ContractError::Std(StdError::Overflow));
        }
        assert(mint_fault(s, call) is None);
        self.record_mint(
            &collection,
            index,
            wallet,
            total,
            mints,
            issued,
            env,
            info,
            association,
            msg,
        );
        Ok(mint_answer(&collection, messages, minting, notes, noted, info, msg))
    }

    /// Records a mint that goes through: logs the minter of each unit, adds
    /// the units to the wallet's record and the group's total, and moves the
    /// collection's cursor.
    fn record_mint(
        &mut self,
        collection: &Collection,
        index: usize,
        wallet: String,
        total: String,
        mints: MintInfo,
        issued: u128,
        env: &Env,
        info: &MessageInfo,
        association: &GetEvmAddressResponse,
        msg: &Mint,
    )
        requires
            old(self).wf(),
            mint_fault(old(self)@, mint_call(*env, *info, *association, *msg)) is None,
            old(self)@.collections[msg.collection@] == collection@,
            group_index(collection@.mint_groups, msg.group@) == Some(index as int),
            index < collection.mint_groups@.len(),
            wallet@ == wallet_key(mint_call(*env, *info, *association, *msg)),
            total@ == total_key(mint_call(*env, *info, *association, *msg)),
            mints@ == old(self)@.minted(wallet@),
            issued == old(self)@.issued(total@),
        ensures
            final(self).wf(),
            final(self)@ == mint_state(old(self)@, mint_call(*env, *info, *association, *msg)),
    {
        let ghost call = mint_call(*env, *info, *association, *msg);
        let ghost s = self@;
        let ghost c = collection@;
        let group = &collection.mint_groups[index];
        let ghost g = group@;
        assert(g == group_of(c, call));
        assert(c.wf());
        assert(g.wf(c.batched()));
        let mut mints = mints;
        let batched = match collection.strategy() {
            Some(Strategy::Native404) => true,
            _ => false,
        };
        let batch: u128 = match group.batch_size {
            Some(b) => b,
            None => 0,
        };
        let first: u128 = collection.next_token;
        let amount: u128 = msg.amount;
        proof {
            if batched {
                assert(batch * amount == amount * batch) by (nonlinear_arith);
                assert(amount * batch >= 0) by (nonlinear_arith)
                    requires
                        amount >= 0,
                        batch >= 0,
                ;
            }
        }
        let keys = match unit_log_keys(collection, &msg.collection, &msg.group, issued, amount) {
            Some(keys) => keys,
            None => Vec::new(),
        };
        let mut i: usize = 0;
        let ghost before = mints@;
        while i < keys.len()
            invariant
                i <= keys@.len(),
                keys@.len() == amount,
                forall|k: int|
                    0 <= k < amount ==> (#[trigger] keys@[k])@ == unit_log_key(
                        c,
                        call.collection,
                        call.group,
                        issued,
                        k,
                    ),
                batched == c.batched(),
                batched ==> g.batch_size == Some(batch),
                !batched ==> first + amount <= u128::MAX,
                first == c.next_token,
                call.sender == info.sender@,
                self@ == (LighthouseView {
                    mint_logs: logs_after(s.mint_logs, c, issued, call, i as nat),
                    ..s
                }),
                mints@ == before + Seq::new(i as nat, |k: int| unit_record(c, g, k)),
            decreases keys@.len() - i,
        {
            self.log_minter(keys[i].clone(), info.sender.clone());
            let unit: u128 = if batched {
                batch
            } else {
                first + i as u128
            };
            mints.mints.push(unit);
            assert(mints@ =~= before + Seq::new((i + 1) as nat, |k: int| unit_record(c, g, k)));
            i = i + 1;
        }
        self.set_wallet_mints(wallet, mints);
        self.set_group_total(total, issued + amount);
        let mut updated = collection.clone();
        updated.next_token = if batched {
            first + batch * amount
        } else {
            first + amount
        };
        assert(updated@ == (CollectionView {
            next_token: cursor_after(c, g, call.amount) as u128,
            ..c
        }));
        self.set_collection(msg.collection.clone(), updated);
        assert(self@ == mint_state(s, call));
        proof {
            lemma_mint_keeps_invariant(s, call);
        }
    }
}

/// Puts together the answer to a mint that goes through.
fn mint_answer(
    collection: &Collection,
    messages: Vec<SubMsg>,
    minting: Vec<SubMsg>,
    notes: Vec<Attribute>,
    noted: Attribute,
    info: &MessageInfo,
    msg: &Mint,
) -> (response: Response)
    ensures
        response@.messages == messages.deep_view() + minting.deep_view(),
        response@.attributes == seq![
            note("action"@, "mint_lighthouse"@),
            note("chain"@, collection@.chain),
            note("collection"@, msg.collection@),
            note("group"@, msg.group@),
            note("recipient"@, info.sender@),
            note("mint_amount"@, decimal(msg.amount as nat)),
        ] + notes.deep_view() + seq![noted@],
{
    let mut messages = messages;
    let mut notes = notes;
    append_messages(&mut messages, minting);
    let mut attributes: Vec<Attribute> = Vec::new();
    attributes.push(Attribute { key: owned("action"), value: owned("mint_lighthouse") });
    attributes.push(Attribute { key: owned("chain"), value: collection.chain.clone() });
    attributes.push(Attribute { key: owned("collection"), value: msg.collection.clone() });
    attributes.push(Attribute { key: owned("group"), value: msg.group.clone() });
    attributes.push(Attribute { key: owned("recipient"), value: info.sender.clone() });
    attributes.push(Attribute { key: owned("mint_amount"), value: decimal_string(msg.amount) });
    let ghost fixed = attributes.deep_view();
    let ghost legs = notes.deep_view();
    notes.push(noted);
    let ghost tail = notes.deep_view();
    append_notes(&mut attributes, notes);
    let response = Response { messages, attributes };
    proof {
        assert(fixed =~= seq![
            note("action"@, "mint_lighthouse"@),
            note("chain"@, collection@.chain),
            note("collection"@, msg.collection@),
            note("group"@, msg.group@),
            note("recipient"@, info.sender@),
            note("mint_amount"@, decimal(msg.amount as nat)),
        ]);
        assert(tail =~= legs + seq![noted@]);
        assert(response@.attributes =~= fixed + legs + seq![noted@]);
    }
    response
}

/// The state after a mint request: changed as `mint_state` says where the
/// request goes through, and as it was where it is turned down.
pub open spec fn mint_step(s: LighthouseView, call: MintCall) -> LighthouseView {
    if mint_fault(s, call) is None {
        mint_state(s, call)
    } else {
        s
    }
}

/// The state after a sequence of mint requests, taken in order.
pub open spec fn after_mints(s: LighthouseView, calls: Seq<MintCall>) -> LighthouseView
    decreases calls.len(),
{
    if calls.len() == 0 {
        s
    } else {
        mint_step(after_mints(s, calls.drop_last()), calls.last())
    }
}

/// A mint that goes through keeps the state's invariant. In particular the
/// collection's cursor stays within its supply.
pub proof fn lemma_mint_keeps_invariant(s: LighthouseView, call: MintCall)
    requires
        s.wf(),
        mint_fault(s, call) is None,
    ensures
        mint_state(s, call).wf(),
        mint_state(s, call).collections.dom() == s.collections.dom(),
{
    let c = s.collections[call.collection];
    let g = group_of(c, call);
    let after = mint_state(s, call);
    let moved = CollectionView { next_token: cursor_after(c, g, call.amount) as u128, ..c };
    assert(c.wf());
    let amount = call.amount as int;
    if c.batched() {
        let batch = g.batch_size->0 as int;
        assert(batch * amount == amount * batch) by (nonlinear_arith);
        assert(amount * batch >= 0) by (nonlinear_arith)
            requires
                amount >= 0,
                batch >= 0,
        ;
    }
    assert(moved.wf());
    assert forall|k: Seq<char>| #[trigger] after.collections.contains_key(k) implies {
        &&& after.collections[k].wf()
        &&& after.collections[k].collection_address == Some(k)
    } by {
        if k != call.collection {
            assert(s.collections.contains_key(k));
        }
    }
    assert(after.collections.dom() =~= s.collections.dom());
}

/// Whatever mint requests arrive, in whatever order, the state keeps its
/// invariant: for every registered collection the units issued, counted
/// from its first token to its cursor, never exceed its supply.
pub proof fn lemma_supply_is_never_exceeded(s: LighthouseView, calls: Seq<MintCall>)
    requires
        s.wf(),
    ensures
        after_mints(s, calls).wf(),
        forall|k: Seq<char>| #[trigger]
            after_mints(s, calls).collections.contains_key(k) ==> {
                let c = after_mints(s, calls).collections[k];
                0 <= c.next_token - c.first_token() <= c.supply
            },
    decreases calls.len(),
{
    if calls.len() > 0 {
        let before = after_mints(s, calls.drop_last());
        lemma_supply_is_never_exceeded(s, calls.drop_last());
        if mint_fault(before, calls.last()) is None {
            lemma_mint_keeps_invariant(before, calls.last());
        }
    }
    assert forall|k: Seq<char>| #[trigger]
        after_mints(s, calls).collections.contains_key(k) implies {
        let c = after_mints(s, calls).collections[k];
        0 <= c.next_token - c.first_token() <= c.supply
    } by {
        assert(after_mints(s, calls).collections[k].wf());
    }
}

/// A mint from a group with a native leg settles exactly: what its
/// instructions send out in native currency, to creators, partner and
/// platform together, is the one coin that came with the request.
pub proof fn lemma_mint_sends_what_it_receives(s: LighthouseView, call: MintCall)
    requires
        s.wf(),
        mint_fault(s, call) is None,
        has_native_leg(group_of(s.collections[call.collection], call).payments),
    ensures
        call.funds.len() == 1,
        total_native_sent(mint_response(s, call).messages) == call.funds[0].amount,
{
    let config = s.config->0;
    let c = s.collections[call.collection];
    let g = group_of(c, call);
    let partner = s.partner_of(c.partner);
    assert(c.wf());
    assert(g.wf(c.batched()));
    let paying = settlement_messages(g.payments, config, partner, call.sender, call.amount);
    let minting = dispatch_messages(c, call.collection, g, call);
    lemma_settlement_is_exact(g.payments, config, partner, call.sender, call.amount);
    lemma_total_native_sent_none(minting);
    lemma_total_native_sent_concat(paying, minting);
}

} // verus!
