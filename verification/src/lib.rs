//! Verification gate for smart-contract modules: checks that a module's
//! initializer has the required shape and that an entry function's signature
//! only uses types admissible as transaction input.

pub mod types;
pub mod canonical;
pub mod session;
pub mod classify;
pub mod verify;
