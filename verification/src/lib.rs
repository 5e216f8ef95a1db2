//! A rental marketplace made of five cooperating components: a property
//! catalog, an agreement ledger, an escrow engine, a review engine and a
//! reward token.
//!
//! Each component is an explicit state value, and every operation is a
//! verified transition on it: the contract of an operation says, over the
//! mathematical view of the state, when it is refused and with which error,
//! and otherwise exactly what the state becomes and what is made known.
//!
//! A component reaches nothing outside itself. It is handed the authenticated
//! caller, the time, fresh identifiers and what another component answered,
//! and it hands back what is to be done elsewhere: transfers of the
//! settlement asset, notices to the ledger, rewards to ask for, events to
//! publish. What holds across operations and across components is stated as
//! proof functions at the end of each module.

pub mod types;
pub mod table;
pub mod property_registry;
pub mod rental_agreement;
pub mod escrow_manager;
pub mod review_system;
pub mod briq_token;
