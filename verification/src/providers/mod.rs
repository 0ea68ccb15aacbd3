//! The two provider-update variants.

pub mod digital_ocean;
pub mod google_cloud;
