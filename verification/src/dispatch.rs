//! The execution dispatch adapter: the mint instructions for each kind of
//! collection, and the calldata for the bridged chain.

use crate::admission::{mint_call, sold_out, MintCall};
use crate::codec::{
    base64_encode, base64_input_limit, base64_text, keccak256, keccak256_digest,
};
use crate::error::{ContractError, StdError};
use crate::helpers::{pad_address_to_bytes32, padded_address};
use crate::msg::Mint;
use crate::response::{
    note, plain, Attribute, AttributeView, CosmosMsg, CosmosMsgView, Env, ExecutePayload,
    ExecutePayloadView, MessageInfo, SubMsg, SubMsgView,
};
use crate::settlement::plain_message;
use crate::state::{Collection, CollectionView, MintGroup, MintGroupView, Strategy};
use crate::structs::{
    Cw404ExecuteMsg, Cw404ExecuteMsgView, EvmMsg, EvmMsgView, GetEvmAddressResponse,
};
use crate::text::{decimal, decimal_string, owned};
use vstd::prelude::*;
use vstd::string::*;
use vstd::utf8::encode_utf8;

verus! {

/// The last `len` base-256 digits of `n`, the most significant first.
pub open spec fn word_of(n: nat, len: nat) -> Seq<u8>
    decreases len,
{
    if len == 0 {
        Seq::empty()
    } else {
        word_of(n / 256, (len - 1) as nat).push((n % 256) as u8)
    }
}

/// A number as a 32-byte big-endian word.
pub open spec fn token_word(n: u128) -> Seq<u8> {
    word_of(n as nat, 32)
}

/// Digits given least significant first, read back most significant first.
spec fn reversed(low: Seq<u8>) -> Seq<u8> {
    Seq::new(low.len(), |i: int| low[low.len() - 1 - i])
}

/// Writes a number as a 32-byte big-endian word.
pub fn token_word_bytes(n: u128) -> (word: Vec<u8>)
    ensures
        word@ == token_word(n),
{
    let mut low: Vec<u8> = Vec::new();
    let mut rest: u128 = n;
    let mut k: usize = 0;
    assert(token_word(n) =~= word_of(rest as nat, 32) + reversed(low@));
    while k < 32
        invariant
            k <= 32,
            low@.len() == k,
            token_word(n) == word_of(rest as nat, (32 - k) as nat) + reversed(low@),
        decreases 32 - k,
    {
        let d: u8 = (rest % 256) as u8;
        proof {
            let next = low@.push(d);
            assert(reversed(next) =~= seq![d] + reversed(low@));
            assert(word_of(rest as nat, (32 - k) as nat) == word_of(
                (rest / 256) as nat,
                (32 - k - 1) as nat,
            ).push(d));
            assert(word_of((rest / 256) as nat, (32 - k - 1) as nat) + reversed(next) =~= word_of(
                rest as nat,
                (32 - k) as nat,
            ) + reversed(low@));
        }
        low.push(d);
        rest = rest / 256;
        k = k + 1;
    }
    let mut word: Vec<u8> = Vec::new();
    let mut i: usize = 32;
    while i > 0
        invariant
            i <= 32,
            low@.len() == 32,
            word@ == reversed(low@).subrange(0, 32 - i),
        decreases i,
    {
        i = i - 1;
        word.push(low[i]);
        assert(word@ =~= reversed(low@).subrange(0, 32 - i));
    }
    assert(word@ =~= word_of(rest as nat, 0) + reversed(low@));
    word
}

/// The first four bytes of the hash of a function signature.
pub open spec fn selector(signature: Seq<char>) -> Seq<u8> {
    keccak256_digest(encode_utf8(signature)).take(4)
}

/// The first four bytes of a digest.
pub fn leading_four(digest: &Vec<u8>) -> (bytes: Vec<u8>)
    requires
        digest@.len() >= 4,
    ensures
        bytes@ == digest@.take(4),
{
    let mut bytes: Vec<u8> = Vec::new();
    let mut i: usize = 0;
    while i < 4
        invariant
            i <= 4,
            digest@.len() >= 4,
            bytes@ == digest@.take(i as int),
        decreases 4 - i,
    {
        bytes.push(digest[i]);
        assert(bytes@ =~= digest@.take(i + 1));
        i = i + 1;
    }
    bytes
}

/// Computes the selector of a function signature.
pub fn function_selector(signature: &str) -> (bytes: Vec<u8>)
    ensures
        bytes@ == selector(signature@),
        bytes@.len() == 4,
{
    let digest = keccak256(signature.as_bytes());
    leading_four(&digest)
}

/// A call into the bridged chain that sends no value.
pub open spec fn evm_call(to: Seq<char>, data: Seq<u8>) -> SubMsgView {
    plain(CosmosMsgView::Custom(EvmMsgView::CallEvm { to, value: 0, data: base64_text(data) }))
}

/// Builds a call into the bridged chain that sends no value.
pub fn evm_call_message(to: &String, data: &Vec<u8>) -> (sub: SubMsg)
    requires
        data@.len() <= base64_input_limit(),
    ensures
        sub@ == evm_call(to@, data@),
{
    let text = base64_encode(data.as_slice());
    plain_message(CosmosMsg::Custom(EvmMsg::CallEvm { to: to.clone(), value: 0, data: text }))
}

/// The calldata that mints token `token` to the recipient whose padded
/// address is `recipient`: the selector of `mint(address,uint256)`, the
/// recipient and the token number as 32-byte words.
pub open spec fn mint_call_data(recipient: Seq<u8>, token: u128) -> Seq<u8> {
    selector("mint(address,uint256)"@) + recipient + token_word(token)
}

/// The instruction that mints unique token `token` on the native chain.
pub open spec fn unique_mint(collection: Seq<char>, owner: Seq<char>, token: u128) -> SubMsgView {
    plain(
        CosmosMsgView::WasmExecute {
            contract_addr: collection,
            msg: ExecutePayloadView::Cw721Mint { token_id: decimal(token as nat), owner },
        },
    )
}

/// The instruction that mints unique token `token` on the bridged chain.
pub open spec fn bridged_mint(collection: Seq<char>, recipient: Seq<u8>, token: u128) -> SubMsgView {
    evm_call(collection, mint_call_data(recipient, token))
}

/// The instruction that mints one batch of `batch` fungible units.
pub open spec fn batch_mint(collection: Seq<char>, recipient: Seq<char>, batch: u128) -> SubMsgView {
    plain(
        CosmosMsgView::WasmExecute {
            contract_addr: collection,
            msg: ExecutePayloadView::Cw404(
                Cw404ExecuteMsgView::Mint { recipient, amount: batch },
            ),
        },
    )
}

/// Why the units cannot be dispatched, if they cannot. Unique tokens need
/// token numbers that fit; on the bridged chain the wallet also needs an
/// associated address that can be padded.
pub open spec fn dispatch_fault(c: CollectionView, call: MintCall) -> Option<ContractError> {
    match c.strategy() {
        Some(Strategy::Native404) => None,
        Some(Strategy::Bridged721) => if !call.association.associated {
            Some(ContractError::NotAssociatedAddress)
        } else {
            match padded_address(call.association.evm_address) {
                Err(e) => Some(ContractError::Std(e)),
                Ok(_) => if c.next_token + call.amount > u128::MAX {
                    Some(ContractError::Std(StdError::Overflow))
                } else {
                    None
                },
            }
        },
        _ => if c.next_token + call.amount > u128::MAX {
            Some(ContractError::Std(StdError::Overflow))
        } else {
            None
        },
    }
}

/// The mint instructions for a request: one for each unit, with token
/// numbers running up from the collection's cursor.
pub open spec fn dispatch_messages(
    c: CollectionView,
    key: Seq<char>,
    g: MintGroupView,
    call: MintCall,
) -> Seq<SubMsgView> {
    match c.strategy() {
        Some(Strategy::Native404) => Seq::new(
            call.amount as nat,
            |i: int| batch_mint(key, call.sender, g.batch_size->0),
        ),
        Some(Strategy::Bridged721) => Seq::new(
            call.amount as nat,
            |i: int|
                bridged_mint(
                    key,
                    padded_address(call.association.evm_address)->Ok_0,
                    (c.next_token + i) as u128,
                ),
        ),
        _ => Seq::new(
            call.amount as nat,
            |i: int| unique_mint(key, call.sender, (c.next_token + i) as u128),
        ),
    }
}

/// The decimal forms of `count` numbers from `first` on, with a comma and a
/// space between them.
pub open spec fn listed(first: nat, count: nat) -> Seq<char>
    decreases count,
{
    if count == 0 {
        Seq::empty()
    } else if count == 1 {
        decimal(first)
    } else {
        listed(first, (count - 1) as nat) + ", "@ + decimal((first + count - 1) as nat)
    }
}

/// The note that records what was minted: the token numbers of unique
/// tokens, or the number of fungible units.
pub open spec fn dispatch_note(c: CollectionView, g: MintGroupView, call: MintCall) -> AttributeView {
    if c.batched() {
        note("amount"@, decimal((g.batch_size->0 * call.amount) as nat))
    } else {
        note("token_ids"@, listed(c.next_token as nat, call.amount as nat))
    }
}

/// Writes the decimal forms of `count` numbers from `first` on, with a comma
/// and a space between them.
pub fn list_numbers(first: u128, count: u128) -> (text: String)
    requires
        first + count <= u128::MAX,
    ensures
        text@ == listed(first as nat, count as nat),
{
    let mut text = String::new();
    let mut i: u128 = 0;
    assert(text@ =~= listed(first as nat, 0));
    while i < count
        invariant
            i <= count,
            first + count <= u128::MAX,
            text@ == listed(first as nat, i as nat),
        decreases count - i,
    {
        if i > 0 {
            text.append(", ");
        }
        let number = decimal_string(first + i);
        text.append(number.as_str());
        assert(text@ =~= listed(first as nat, (i + 1) as nat));
        i = i + 1;
    }
    text
}

/// Builds the mint instructions for a request that was admitted, with the
/// note that records them, or names the fault that prevents it.
pub fn dispatch(
    collection: &Collection,
    key: &String,
    group: &MintGroup,
    env: &Env,
    info: &MessageInfo,
    association: &GetEvmAddressResponse,
    msg: &Mint,
) -> (outcome: Result<(Vec<SubMsg>, Attribute), ContractError>)
    requires
        collection@.wf(),
        group@.wf(collection@.batched()),
        !sold_out(collection@, group@, msg.amount),
    ensures
        match outcome {
            Ok((messages, noted)) => {
                &&& dispatch_fault(collection@, mint_call(*env, *info, *association, *msg)) is None
                &&& messages.deep_view() == dispatch_messages(
                    collection@,
                    key@,
                    group@,
                    mint_call(*env, *info, *association, *msg),
                )
                &&& noted@ == dispatch_note(
                    collection@,
                    group@,
                    mint_call(*env, *info, *association, *msg),
                )
            },
            Err(e) => dispatch_fault(collection@, mint_call(*env, *info, *association, *msg))
                == Some(e),
        },
{
    let ghost call = mint_call(*env, *info, *association, *msg);
    let ghost c = collection@;
    let amount: u128 = msg.amount;
    let first: u128 = collection.next_token;
    let mut messages: Vec<SubMsg> = Vec::new();
    match collection.strategy() {
        Some(Strategy::Native404) => {
            let batch: u128 = match group.batch_size {
                Some(b) => b,
                None => 0,
            };
            let mut i: u128 = 0;
            while i < amount
                invariant
                    i <= amount,
                    messages@.len() == i,
                    forall|k: int|
                        0 <= k < i ==> (#[trigger] messages@[k])@ == batch_mint(
                            key@,
                            info.sender@,
                            batch,
                        ),
                decreases amount - i,
            {
                messages.push(
                    plain_message(
                        CosmosMsg::WasmExecute {
                            contract_addr: key.clone(),
                            msg: ExecutePayload::Cw404(
                                Cw404ExecuteMsg::Mint {
                                    recipient: info.sender.clone(),
                                    amount: batch,
                                },
                            ),
                        },
                    ),
                );
                i = i + 1;
            }
            assert(messages.deep_view() =~= dispatch_messages(c, key@, group@, call));
            assert(batch * amount <= c.supply) by (nonlinear_arith)
                requires
                    c.next_token + amount * batch <= c.supply,
                    c.next_token >= 0,
            ;
            let units: u128 = batch * amount;
            let noted = Attribute { key: owned("amount"), value: decimal_string(units) };
            Ok((messages, noted))
        },
        Some(Strategy::Bridged721) => {
            if !association.associated {
                return Err(ContractError::NotAssociatedAddress);
            }
            let recipient = match pad_address_to_bytes32(association.evm_address.as_str()) {
                Ok(word) => word,
                Err(e) => {
                    return Err(ContractError::Std(e));
                },
            };
            if first.checked_add(amount).is_none() {
                return Err(ContractError::Std(StdError::Overflow));
            }
            assert(recipient@.len() == 32);
            let select = function_selector("mint(address,uint256)");
            let mut i: u128 = 0;
            while i < amount
                invariant
                    i <= amount,
                    first + amount <= u128::MAX,
                    recipient@.len() == 32,
                    select@ == selector("mint(address,uint256)"@),
                    select@.len() == 4,
                    messages@.len() == i,
                    forall|k: int|
                        0 <= k < i ==> (#[trigger] messages@[k])@ == bridged_mint(
                            key@,
                            recipient@,
                            (first + k) as u128,
                        ),
                decreases amount - i,
            {
                let word = token_word_bytes(first + i);
                let mut data: Vec<u8> = Vec::new();
                data.extend_from_slice(select.as_slice());
                data.extend_from_slice(recipient.as_slice());
                data.extend_from_slice(word.as_slice());
                assert(data@ =~= mint_call_data(recipient@, (first + i) as u128));
                proof {
                    lemma_word_len((first + i) as nat, 32);
                }
                messages.push(evm_call_message(key, &data));
                i = i + 1;
            }
            assert(messages.deep_view() =~= dispatch_messages(c, key@, group@, call));
            let noted = Attribute {
                key: owned("token_ids"),
                value: list_numbers(first, amount),
            };
            Ok((messages, noted))
        },
        _ => {
            if first.checked_add(amount).is_none() {
                return Err(ContractError::Std(StdError::Overflow));
            }
            let mut i: u128 = 0;
            while i < amount
                invariant
                    i <= amount,
                    first + amount <= u128::MAX,
                    messages@.len() == i,
                    forall|k: int|
                        0 <= k < i ==> (#[trigger] messages@[k])@ == unique_mint(
                            key@,
                            info.sender@,
                            (first + k) as u128,
                        ),
                decreases amount - i,
            {
                messages.push(
                    plain_message(
                        CosmosMsg::WasmExecute {
                            contract_addr: key.clone(),
                            msg: ExecutePayload::Cw721Mint {
                                token_id: decimal_string(first + i),
                                owner: info.sender.clone(),
                            },
                        },
                    ),
                );
                i = i + 1;
            }
            assert(messages.deep_view() =~= dispatch_messages(c, key@, group@, call));
            let noted = Attribute {
                key: owned("token_ids"),
                value: list_numbers(first, amount),
            };
            Ok((messages, noted))
        },
    }
}

/// A word has as many bytes as were asked for.
pub proof fn lemma_word_len(n: nat, len: nat)
    ensures
        word_of(n, len).len() == len,
    decreases len,
{
    if len > 0 {
        lemma_word_len(n / 256, (len - 1) as nat);
    }
}

} // verus!
