//! Live checking of telemetry samples against a resolved semantic-convention
//! registry: the advice model, the sample and registry models, and the
//! built-in advisors.

pub mod advice;
pub mod advisors;
pub mod error;
pub mod json;
pub mod laws;
pub mod policy;
pub mod sample;
pub mod semconv;
