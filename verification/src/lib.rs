//! Reference-counted handles over foreign component objects.

pub mod comptr;
pub mod error;
pub mod factory;
pub mod ledger;
pub mod space;
