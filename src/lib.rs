//! Host-side reconciliation of hosted application instances: instance
//! classification, the eligibility rules, suspension of unpaid applications,
//! and the plans that bring the conductor in line with the registry.
pub mod text;
pub mod instance;
pub mod eligibility;
pub mod unique;
pub mod transaction;
pub mod clock;
pub mod zome_call;
pub mod reconcile;
pub mod registry;
pub mod hbs;
pub mod config;
