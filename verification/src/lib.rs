//! Verified core of the Mintlayer hardware-wallet application: the APDU
//! protocol, the transaction summary and signing state machines, and the
//! text shown to the user for review.

pub mod status;
pub mod primitives;
pub mod messages;
pub mod totals;
pub mod summary;
pub mod transport;
pub mod command;
pub mod derivation;
pub mod codec;
pub mod sign_tx;
pub mod text;
pub mod review;
pub mod apdu;
pub mod sign_message;
pub mod legacy;
pub mod errors;
pub mod encoding;
pub mod legacy_review;
