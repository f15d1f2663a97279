//! Store keys, allowlist proofs and address encodings.

use crate::codec::{
    base32_to_bytes, bech32_decode, bech32_groups, groups_to_bytes, hex_decode, hex_decoded,
    hex_input_limit, keccak256, keccak256_digest, lowercase_text, to_lowercase,
    trim_start_matches, without_leading,
};
use crate::error::StdError;
pub use crate::text::bytes_to_hex;
use crate::text::{hex_text, owned};
pub use crate::validation::{validate_groups, validate_payments};
use vstd::utf8::encode_utf8;
use vstd::prelude::*;
use vstd::string::*;

verus! {

/// Two texts with an underscore between them.
pub open spec fn joined(a: Seq<char>, b: Seq<char>) -> Seq<char> {
    a + "_"@ + b
}

/// The key of a wallet's mints in one group of one collection.
pub open spec fn group_key(addr: Seq<char>, collection: Seq<char>, group: Seq<char>) -> Seq<char> {
    joined(joined(addr, collection), group)
}

/// The key under which a group's running total is kept.
pub open spec fn global_mint_info_key(collection: Seq<char>, group: Seq<char>) -> Seq<char> {
    joined(collection, group)
}

/// The key under which the minter of a unique token is logged.
pub open spec fn mint_log_key(collection: Seq<char>, token_id: Seq<char>) -> Seq<char> {
    joined(collection, token_id)
}

/// The key under which the minter of a batch is logged.
pub open spec fn mint_log_key_404(collection: Seq<char>, group: Seq<char>, order: Seq<char>) -> Seq<
    char,
> {
    joined(joined(collection, group), order)
}

/// The key under which a mint against a gated token is logged.
pub open spec fn gated_mint_log_key(
    collection: Seq<char>,
    contract: Seq<char>,
    group: Seq<char>,
    gated_token_id: Seq<char>,
) -> Seq<char> {
    joined(joined(joined(collection, contract), group), gated_token_id)
}

fn join(a: String, b: &str) -> (text: String)
    ensures
        text@ == joined(a@, b@),
{
    let mut text = a;
    text.append("_");
    text.append(b);
    text
}

pub fn create_group_key(addr: &str, collection_addr: &str, group_name: &str) -> (key: String)
    ensures
        key@ == group_key(addr@, collection_addr@, group_name@),
{
    join(join(owned(addr), collection_addr), group_name)
}

pub fn create_global_mint_info_key(collection_addr: &str, group_name: &str) -> (key: String)
    ensures
        key@ == global_mint_info_key(collection_addr@, group_name@),
{
    join(owned(collection_addr), group_name)
}

pub fn create_mint_log_key(collection_addr: &str, token_id: &str) -> (key: String)
    ensures
        key@ == mint_log_key(collection_addr@, token_id@),
{
    join(owned(collection_addr), token_id)
}

pub fn create_mint_log_key_404(collection_addr: &str, group_name: &str, order: &str) -> (key:
    String)
    ensures
        key@ == mint_log_key_404(collection_addr@, group_name@, order@),
{
    join(join(owned(collection_addr), group_name), order)
}

pub fn create_gated_mint_log_key(
    collection_addr: &str,
    contract_address: &str,
    group_name: &str,
    gated_token_id: &str,
) -> (key: String)
    ensures
        key@ == gated_mint_log_key(
            collection_addr@,
            contract_address@,
            group_name@,
            gated_token_id@,
        ),
{
    join(join(join(owned(collection_addr), contract_address), group_name), gated_token_id)
}

/// Whether `a` comes strictly before `b` in the dictionary order of byte
/// strings: at the first position where they differ the byte of `a` is the
/// smaller, or `a` ends there and `b` goes on.
pub open spec fn lex_less(a: Seq<u8>, b: Seq<u8>) -> bool
    decreases a.len(),
{
    if b.len() == 0 {
        false
    } else if a.len() == 0 {
        true
    } else if a[0] != b[0] {
        a[0] < b[0]
    } else {
        lex_less(a.skip(1), b.skip(1))
    }
}

proof fn lemma_lex_less_step(a: Seq<u8>, b: Seq<u8>, i: int)
    requires
        0 <= i < a.len(),
        i < b.len(),
        a[i] == b[i],
    ensures
        lex_less(a.skip(i), b.skip(i)) == lex_less(a.skip(i + 1), b.skip(i + 1)),
{
    assert(a.skip(i).skip(1) =~= a.skip(i + 1));
    assert(b.skip(i).skip(1) =~= b.skip(i + 1));
}

/// Of two different byte strings one comes before the other.
pub proof fn lemma_lex_less_total(a: Seq<u8>, b: Seq<u8>)
    ensures
        a == b || lex_less(a, b) || lex_less(b, a),
        !(lex_less(a, b) && lex_less(b, a)),
    decreases a.len(),
{
    if a.len() == 0 || b.len() == 0 {
        if a.len() == 0 && b.len() == 0 {
            assert(a =~= b);
        }
    } else if a[0] == b[0] {
        lemma_lex_less_total(a.skip(1), b.skip(1));
        if a.skip(1) == b.skip(1) {
            assert(a =~= seq![a[0]] + a.skip(1));
            assert(b =~= seq![b[0]] + b.skip(1));
        }
    }
}

/// Whether `a` comes strictly before `b` in dictionary order.
pub fn bytes_less(a: &Vec<u8>, b: &Vec<u8>) -> (less: bool)
    ensures
        less == lex_less(a@, b@),
{
    let mut i: usize = 0;
    assert(a@.skip(0) =~= a@ && b@.skip(0) =~= b@);
    while i < a.len() && i < b.len()
        invariant
            i <= a@.len(),
            i <= b@.len(),
            lex_less(a@, b@) == lex_less(a@.skip(i as int), b@.skip(i as int)),
        decreases a@.len() - i,
    {
        if a[i] != b[i] {
            return a[i] < b[i];
        }
        proof {
            lemma_lex_less_step(a@, b@, i as int);
        }
        i = i + 1;
    }
    i < b.len()
}

/// Two hashes laid end to end, the one that comes first in dictionary order
/// in front.
pub open spec fn ordered_pair(a: Seq<u8>, b: Seq<u8>) -> Seq<u8> {
    if lex_less(a, b) {
        a + b
    } else {
        b + a
    }
}

/// The hash of a node above two hashes.
pub open spec fn merkle_parent(a: Seq<u8>, b: Seq<u8>) -> Seq<u8> {
    keccak256_digest(ordered_pair(a, b))
}

/// The hash reached from `leaf` by combining it with each sibling of
/// `proof` in turn.
pub open spec fn merkle_root_of(leaf: Seq<u8>, proof: Seq<Seq<u8>>) -> Seq<u8>
    decreases proof.len(),
{
    if proof.len() == 0 {
        leaf
    } else {
        merkle_parent(merkle_root_of(leaf, proof.drop_last()), proof.last())
    }
}

/// The node above two hashes does not depend on which of them is given
/// first.
pub proof fn lemma_merkle_parent_symmetric(a: Seq<u8>, b: Seq<u8>)
    ensures
        ordered_pair(a, b) == ordered_pair(b, a),
        merkle_parent(a, b) == merkle_parent(b, a),
{
    lemma_lex_less_total(a, b);
}

/// A proof of one sibling leads from either child to the same parent: from
/// a leaf with its sibling, and from the sibling with the leaf.
pub proof fn lemma_merkle_proof_of_one(leaf: Seq<u8>, sibling: Seq<u8>)
    ensures
        merkle_root_of(leaf, seq![sibling]) == merkle_parent(leaf, sibling),
        merkle_root_of(leaf, seq![sibling]) == merkle_root_of(sibling, seq![leaf]),
{
    lemma_merkle_parent_symmetric(leaf, sibling);
    assert(seq![sibling].drop_last() =~= Seq::<Seq<u8>>::empty());
    assert(seq![leaf].drop_last() =~= Seq::<Seq<u8>>::empty());
    assert(merkle_root_of(leaf, Seq::<Seq<u8>>::empty()) == leaf);
    assert(merkle_root_of(sibling, Seq::<Seq<u8>>::empty()) == sibling);
}

/// A proof that leads from a leaf to a root is extended by the sibling of
/// that root to a proof that leads to the node above.
pub proof fn lemma_merkle_proof_extends(leaf: Seq<u8>, proof: Seq<Seq<u8>>, sibling: Seq<u8>)
    ensures
        merkle_root_of(leaf, proof.push(sibling)) == merkle_parent(
            merkle_root_of(leaf, proof),
            sibling,
        ),
{
    assert(proof.push(sibling).drop_last() =~= proof);
}

/// The text that is hashed for the node above `a` and `b`.
pub fn merkle_pair(a: &Vec<u8>, b: &Vec<u8>) -> (pair: Vec<u8>)
    ensures
        pair@ == ordered_pair(a@, b@),
{
    let mut pair: Vec<u8> = Vec::new();
    if bytes_less(a, b) {
        pair.extend_from_slice(a.as_slice());
        pair.extend_from_slice(b.as_slice());
        assert(pair@ =~= a@ + b@);
    } else {
        pair.extend_from_slice(b.as_slice());
        pair.extend_from_slice(a.as_slice());
        assert(pair@ =~= b@ + a@);
    }
    pair
}

/// Whether two byte strings are the same.
pub fn bytes_equal(a: &Vec<u8>, b: &Vec<u8>) -> (same: bool)
    ensures
        same == (a@ == b@),
{
    if a.len() != b.len() {
        return false;
    }
    let mut i: usize = 0;
    while i < a.len()
        invariant
            a@.len() == b@.len(),
            i <= a@.len(),
            forall|k: int| 0 <= k < i ==> a@[k] == b@[k],
        decreases a@.len() - i,
    {
        if a[i] != b[i] {
            return false;
        }
        i = i + 1;
    }
    assert(a@ =~= b@);
    true
}

/// Whether `proof` leads from `leaf` to `root`.
pub fn merkle_proof_holds(proof: &Vec<Vec<u8>>, root: &Vec<u8>, leaf: Vec<u8>) -> (valid: bool)
    ensures
        valid == (merkle_root_of(leaf@, proof.deep_view()) == root@),
{
    let mut hash = leaf;
    let mut i: usize = 0;
    let ghost siblings = proof.deep_view();
    assert(siblings.take(0) =~= Seq::empty());
    while i < proof.len()
        invariant
            i <= proof@.len(),
            siblings == proof.deep_view(),
            hash@ == merkle_root_of(leaf@, siblings.take(i as int)),
        decreases proof@.len() - i,
    {
        let pair = merkle_pair(&hash, &proof[i]);
        hash = keccak256(pair.as_slice());
        proof {
            let next = siblings.take(i + 1);
            assert(next.drop_last() =~= siblings.take(i as int));
            assert(next.last() == proof@[i as int]@);
        }
        i = i + 1;
    }
    assert(siblings.take(proof@.len() as int) =~= siblings);
    bytes_equal(&hash, root)
}

/// Whether `proof` leads from `leaf` to `root`.
pub fn validate_merkle_proof(proof: Vec<Vec<u8>>, root: Vec<u8>, leaf: Vec<u8>) -> (valid: bool)
    ensures
        valid == (merkle_root_of(leaf@, proof.deep_view()) == root@),
{
    merkle_proof_holds(&proof, &root, leaf)
}

/// Twelve zero bytes, the padding in front of a 20-byte address in a
/// 32-byte word.
pub open spec fn address_padding() -> Seq<u8> {
    Seq::new(12, |i: int| 0u8)
}

/// The 32-byte word for an address given as lowercase hexadecimal text: the
/// 20 bytes the text spells, behind twelve zero bytes. Text that is not
/// hexadecimal is turned down; so is text that spells another number of
/// bytes, and text too long for the decoder.
pub open spec fn padded_hex(hex: Seq<u8>) -> Result<Seq<u8>, StdError> {
    if hex.len() > hex_input_limit() {
        Err(StdError::InvalidAddressLength)
    } else {
        match hex_decoded(hex) {
            None => Err(StdError::InvalidHex),
            Some(bytes) => if bytes.len() != 20 {
                Err(StdError::InvalidAddressLength)
            } else {
                Ok(address_padding() + bytes)
            },
        }
    }
}

/// The hexadecimal text of an address as it is decoded: without any leading
/// `0x`, in lowercase, as UTF-8 bytes.
pub open spec fn address_hex(address: Seq<char>) -> Seq<u8> {
    encode_utf8(lowercase_text(without_leading(address, "0x"@)))
}

/// The 32-byte word for a bridged-chain address.
pub open spec fn padded_address(address: Seq<char>) -> Result<Seq<u8>, StdError> {
    padded_hex(address_hex(address))
}

/// Whether an executable result stands for the model result `model`.
pub open spec fn bytes_result_is(
    result: Result<Vec<u8>, StdError>,
    model: Result<Seq<u8>, StdError>,
) -> bool {
    match result {
        Ok(bytes) => model == Ok::<Seq<u8>, StdError>(bytes@),
        Err(e) => model == Err::<Seq<u8>, StdError>(e),
    }
}

/// Whether an executable result stands for the model result `model`.
pub open spec fn text_result_is(
    result: Result<String, StdError>,
    model: Result<Seq<char>, StdError>,
) -> bool {
    match result {
        Ok(text) => model == Ok::<Seq<char>, StdError>(text@),
        Err(e) => model == Err::<Seq<char>, StdError>(e),
    }
}

/// Pads an address given as lowercase hexadecimal text to a 32-byte word.
pub fn pad_hex_to_bytes32(hex: &[u8]) -> (word: Result<Vec<u8>, StdError>)
    ensures
        bytes_result_is(word, padded_hex(hex@)),
{
    if hex.len() > usize::MAX / 8 {
        return Err(StdError::InvalidAddressLength);
    }
    match hex_decode(hex) {
        None => Err(StdError::InvalidHex),
        Some(decoded) => {
            if decoded.len() != 20 {
                return Err(StdError::InvalidAddressLength);
            }
            let mut padded: Vec<u8> = Vec::new();
            let mut i: usize = 0;
            while i < 12
                invariant
                    i <= 12,
                    padded@.len() == i,
                    forall|k: int| 0 <= k < i ==> padded@[k] == 0u8,
                decreases 12 - i,
            {
                padded.push(0u8);
                i = i + 1;
            }
            padded.extend_from_slice(decoded.as_slice());
            assert(padded@ =~= address_padding() + decoded@);
            Ok(padded)
        },
    }
}

/// Pads a bridged-chain address, with or without a leading `0x` and in
/// either case, to a 32-byte word.
pub fn pad_address_to_bytes32(address: &str) -> (word: Result<Vec<u8>, StdError>)
    ensures
        bytes_result_is(word, padded_address(address@)),
{
    proof {
        reveal_strlit("0x");
    }
    let trimmed = trim_start_matches(address, "0x");
    let lowered = to_lowercase(trimmed);
    pad_hex_to_bytes32(lowered.as_str().as_bytes())
}

/// The bridged-chain form of the bytes behind a native address: `0x` and
/// the hexadecimal text of the last 20 bytes.
pub open spec fn hex_address(bytes: Seq<u8>) -> Result<Seq<char>, StdError> {
    if bytes.len() < 20 {
        Err(StdError::InvalidAddressLength)
    } else {
        Ok("0x"@ + hex_text(bytes.skip(bytes.len() - 20)))
    }
}

/// The bridged-chain form of a bech32 address.
pub open spec fn bech32_as_hex(address: Seq<char>) -> Result<Seq<char>, StdError> {
    match bech32_groups(address) {
        None => Err(StdError::InvalidBech32),
        Some(groups) => match groups_to_bytes(groups) {
            None => Err(StdError::InvalidBech32),
            Some(bytes) => hex_address(bytes),
        },
    }
}

/// Writes the last 20 bytes of `bytes` as a bridged-chain address.
pub fn hex_address_of(bytes: &Vec<u8>) -> (address: Result<String, StdError>)
    ensures
        text_result_is(address, hex_address(bytes@)),
{
    if bytes.len() < 20 {
        return Err(StdError::InvalidAddressLength);
    }
    let start: usize = bytes.len() - 20;
    let mut tail: Vec<u8> = Vec::new();
    let mut i: usize = start;
    while i < bytes.len()
        invariant
            start <= i <= bytes@.len(),
            start == bytes@.len() - 20,
            tail@ == bytes@.subrange(start as int, i as int),
        decreases bytes@.len() - i,
    {
        tail.push(bytes[i]);
        assert(tail@ =~= bytes@.subrange(start as int, i + 1));
        i = i + 1;
    }
    assert(tail@ =~= bytes@.skip(bytes@.len() - 20));
    let mut address = owned("0x");
    let digits = bytes_to_hex(tail.as_slice());
    address.append(digits.as_str());
    Ok(address)
}

/// Converts a bech32 address to its bridged-chain form.
pub fn convert_bech32_to_hex(bech32_address: &str) -> (address: Result<String, StdError>)
    ensures
        text_result_is(address, bech32_as_hex(bech32_address@)),
{
    match bech32_decode(bech32_address) {
        None => Err(StdError::InvalidBech32),
        Some(groups) => {
            match base32_to_bytes(&groups) {
                None => Err(StdError::InvalidBech32),
                Some(bytes) => {
                    hex_address_of(&bytes)
                },
            }
        },
    }
}

} // verus!
