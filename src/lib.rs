//! Contract version bookkeeping: the (name, version) record that a contract
//! keeps in its storage, and the rules that govern a migration to new code.

pub mod registry;
pub mod version;
