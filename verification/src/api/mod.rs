pub mod check;
pub mod error;
pub mod tenants;
