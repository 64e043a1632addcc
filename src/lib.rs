pub mod accounts;
pub mod address;
pub mod identity;
pub mod laws;
pub mod program;
