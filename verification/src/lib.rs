//! Core of a conviction-voting session for a Substrate-style chain.
//!
//! The library covers the protocol logic of composing a governed on-chain
//! vote: encoding the call, building the payload an external signer must
//! sign, reassembling the signed extrinsic from the returned signature,
//! tracking submission through finalization, and the session state machine
//! that sequences all of it.  Network transport, the browser-resident
//! signer, and page rendering stay outside; they communicate with this core
//! through plain values.

pub mod account;
pub mod conviction;
pub mod encoder;
pub mod errors;
pub mod extrinsic;
pub mod hexstr;
pub mod payload;
pub mod scale;
pub mod session;
pub mod signature;
pub mod submission;
pub mod text;
