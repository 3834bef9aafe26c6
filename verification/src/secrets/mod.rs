//! Secret storage and rotation engine.
pub mod crypto;
pub mod rotation;
pub mod storage;
pub mod types;
