//! A canonical financial-transaction model with a verified normalization
//! layer: raw bank-aggregator records are mapped to a typed `Transaction`
//! value (or a structured error), and transactions are converted to and from
//! a generic key-value mapping for the host boundary.

pub mod text;
pub mod decimal;
pub mod currency;
pub mod datetime;
pub mod mapping;
pub mod model;
pub mod normalize;
pub mod interchange;
