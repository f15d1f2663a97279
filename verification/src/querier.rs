//! The questions put to the bridged chain, and how its answers are read.

use crate::codec::{base64_encode, base64_text, keccak256, keccak256_digest};
use crate::dispatch::{function_selector, selector};
use crate::error::StdError;
use crate::helpers::{pad_address_to_bytes32, padded_address};
use crate::msg::{EvmQueryWrapper, Route};
use crate::structs::{EvmQuery, EvmQueryView};
use vstd::prelude::*;
use vstd::utf8::encode_utf8;

verus! {

/// The role of a contract's admin on the bridged chain: 32 zero bytes.
pub open spec fn admin_role() -> Seq<u8> {
    Seq::new(32, |i: int| 0u8)
}

/// The role of a contract's minter on the bridged chain: the hash of its
/// name.
pub open spec fn minter_role() -> Seq<u8> {
    keccak256_digest(encode_utf8("MINTER_ROLE"@))
}

/// The role of a contract's admin on the bridged chain.
pub fn default_admin_role() -> (role: Vec<u8>)
    ensures
        role@ == admin_role(),
{
    let mut role: Vec<u8> = Vec::new();
    let mut i: usize = 0;
    while i < 32
        invariant
            i <= 32,
            role@.len() == i,
            forall|k: int| 0 <= k < i ==> role@[k] == 0u8,
        decreases 32 - i,
    {
        role.push(0u8);
        i = i + 1;
    }
    assert(role@ =~= admin_role());
    role
}

/// The role of a contract's minter on the bridged chain.
pub fn minter_role_id() -> (role: Vec<u8>)
    ensures
        role@ == minter_role(),
        role@.len() == 32,
{
    keccak256("MINTER_ROLE".as_bytes())
}

/// The calldata that asks whether `address` holds `role`: the selector of
/// `hasRole(bytes32,address)`, the role, and the address as a 32-byte word.
pub open spec fn has_role_call_data(role: Seq<u8>, address: Seq<u8>) -> Seq<u8> {
    selector("hasRole(bytes32,address)"@) + role + address
}

/// The question whether `address` holds `role` on the contract `target`,
/// put in the platform's name.
pub open spec fn role_question(
    lighthouse_contract: Seq<char>,
    address: Seq<char>,
    target: Seq<char>,
    role: Seq<u8>,
) -> Result<EvmQueryView, StdError> {
    match padded_address(address) {
        Err(e) => Err(e),
        Ok(word) => Ok(
            EvmQueryView::StaticCall {
                from: lighthouse_contract,
                to: target,
                data: base64_text(has_role_call_data(role, word)),
            },
        ),
    }
}

/// Builds the question whether `address` holds `role` on the contract
/// `target_evm_contract`. A role is 32 bytes long.
pub fn has_role_query(
    lighthouse_contract: &String,
    address: &String,
    target_evm_contract: &String,
    role: &Vec<u8>,
) -> (question: Result<EvmQueryWrapper, StdError>)
    requires
        role@.len() == 32,
    ensures
        match question {
            Ok(q) => role_question(lighthouse_contract@, address@, target_evm_contract@, role@)
                == Ok::<EvmQueryView, StdError>(q.query_data@),
            Err(e) => role_question(lighthouse_contract@, address@, target_evm_contract@, role@)
                == Err::<EvmQueryView, StdError>(e),
        },
{
    let word = match pad_address_to_bytes32(address.as_str()) {
        Ok(w) => w,
        Err(e) => {
            return Err(e);
        },
    };
    assert(word@.len() == 32);
    let mut data = function_selector("hasRole(bytes32,address)");
    data.extend_from_slice(role.as_slice());
    data.extend_from_slice(word.as_slice());
    assert(data@ =~= has_role_call_data(role@, word@));
    assert(100 <= (usize::MAX as int) / 512);
    let text = base64_encode(data.as_slice());
    Ok(
        EvmQueryWrapper {
            route: Route::Evm,
            query_data: EvmQuery::StaticCall {
                from: lighthouse_contract.clone(),
                to: target_evm_contract.clone(),
                data: text,
            },
        },
    )
}

/// Reads the answer to a question about a role: the role is held unless the
/// answer is 32 zero bytes.
pub fn role_granted(answer: &Vec<u8>) -> (granted: bool)
    ensures
        granted == (answer@ != admin_role()),
{
    if answer.len() != 32 {
        return true;
    }
    let mut i: usize = 0;
    while i < 32
        invariant
            i <= 32,
            answer@.len() == 32,
            forall|k: int| 0 <= k < i ==> answer@[k] == 0u8,
        decreases 32 - i,
    {
        if answer[i] != 0 {
            assert(admin_role()[i as int] == 0u8);
            return true;
        }
        i = i + 1;
    }
    assert(answer@ =~= admin_role());
    false
}

/// Builds the question for the bridged-chain address of a native identity.
pub fn evm_address_query(bech32_address: &String) -> (question: EvmQueryWrapper)
    ensures
        question.query_data@ == (EvmQueryView::GetEvmAddress { sei_address: bech32_address@ }),
{
    EvmQueryWrapper {
        route: Route::Evm,
        query_data: EvmQuery::GetEvmAddress { sei_address: bech32_address.clone() },
    }
}

/// Builds the question for the native identity behind a bridged-chain
/// address.
pub fn bech32_address_query(evm_address: &String) -> (question: EvmQueryWrapper)
    ensures
        question.query_data@ == (EvmQueryView::GetSeiAddress { evm_address: evm_address@ }),
{
    EvmQueryWrapper {
        route: Route::Evm,
        query_data: EvmQuery::GetSeiAddress { evm_address: evm_address.clone() },
    }
}

} // verus!
