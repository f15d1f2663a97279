//! The failures that a request can end in.

use vstd::prelude::*;

verus! {

/// A failure below the platform's own rules: a record that is not there, a
/// number that does not fit, an address that cannot be read.
#[derive(Debug, Clone, Copy, PartialEq, Eq, Structural)]
pub enum StdError {
    /// A record that the request needs is absent from the store.
    NotFound,
    /// A total does not fit in 128 bits.
    Overflow,
    /// An address is not hexadecimal text.
    InvalidHex,
    /// An address does not hold exactly 20 bytes, or a bech32 payload holds
    /// fewer.
    InvalidAddressLength,
    /// An address is not valid bech32.
    InvalidBech32,
}

/// The named outcome of a request that was turned down. The first failing
/// check decides it, and the state is then left as it was.
#[derive(Debug, Clone, Copy, PartialEq, Eq, Structural)]
pub enum ContractError {
    Std(StdError),
    Unauthorized,
    RegistrationClosed,
    CollectionExists,
    NotMinter,
    SupplyLowerThanMinted,
    InvalidChainConfig,
    SoldOut,
    InvalidMintGroup,
    GroupNotOpenToMint,
    InvalidMerkleProof,
    MaxTokensMinted,
    ReservedSupplyRanOut,
    InvalidFunds,
    PartnerNotFound,
    InvalidFeePercent,
    InvalidShares,
    NotImplemented,
    NotAvailableForEVM,
    NotAssociatedAddress,
    InvalidReplyId,
}

} // verus!
