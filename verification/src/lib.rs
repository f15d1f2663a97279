//! Admission control and settlement core of an NFT collection launch platform.
//!
//! The crate decides whether a wallet may mint from an allowlisted group,
//! splits the mint payment among creators, partner and platform, and builds
//! the mint instructions for native and bridged collections. Every function
//! carries a contract over a mathematical model of the platform state: a
//! request either goes through, and then changes the state and answers as
//! its model says, or it is turned down with a named fault and changes
//! nothing.

pub mod admission;
pub mod codec;
pub mod dispatch;
pub mod error;
pub mod execute;
pub mod helpers;
pub mod mint;
pub mod msg;
pub mod querier;
pub mod query;
pub mod registry;
pub mod response;
pub mod settlement;
pub mod state;
pub mod store;
pub mod structs;
pub mod text;
pub mod validation;
