//! OEM extensions: vendor-specific resources and attributes, modeled
//! as the plain values their accessors read.

/// Dell OEM manager attributes.
pub mod dell;

/// Lenovo OEM manager, security service and computer system
/// extensions.
pub mod lenovo;

/// Supermicro OEM KCS interface and system lockdown resources.
pub mod supermicro;
