//! A payment-switch core: one internal representation of a payment operation,
//! executed against interchangeable connectors through a per-flow contract,
//! with shared defaults for the flows a connector does not provide, a fixed
//! orchestration pipeline, and a total mapping of every failure into a
//! client-visible error.
pub mod api_error_response;
pub mod capability;
pub mod dummyconnector;
pub mod errors;
pub mod flows;
pub mod services;
pub mod transformers;
pub mod types;
