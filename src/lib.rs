//! Price reports for software packages and their dependencies, computed from
//! each package's OpenFare lock, together with the metrics settings that decide
//! which pricing plans apply and the payee's payment method settings.
pub mod quantity;
pub mod metrics;
pub mod plan;
pub mod report;
pub mod payment_method;
