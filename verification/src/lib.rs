//! A minimal on-chain voting protocol: a voter registry that tracks which
//! addresses may vote, and a polls service that gates every ballot on it.
//!
//! - [`primitives`]: addresses and 256-bit integers.
//! - [`address_set`]: the set of addresses behind every address-to-flag map.
//! - [`voter_registry`]: the registry, its checks and its read-only face.
//! - [`poll_rules`]: the checks of the polls service, on plain values.
//! - [`polls`]: the polls service.
//! - [`protocol`]: both services as one system, and the laws that hold of
//!   every history of calls.
//!
//! Each service is a value that its operations take explicitly, with the
//! calling address as an argument. Its view is a mathematical state, and
//! every operation is specified as a transition of that state.

pub mod address_set;
pub mod poll_rules;
pub mod polls;
pub mod primitives;
pub mod protocol;
pub mod voter_registry;
