//! Encoding of asset-transfer instructions into a data-carrier output script.
//!
//! A transfer names the output it draws on by a short coin identifier
//! ([`Scid`]), delta-encoded against the first transfer of the batch, and the
//! fields of every transfer are pushed as base-128 varints after a marker
//! opcode and a one-byte protocol tag.

pub mod error;
pub mod scid;
pub mod script;
pub mod transfer;
pub mod varint;

pub use error::TransferError;
pub use scid::Scid;
pub use script::build_transfer_script;
pub use transfer::AssetTransfer;
