//! A price-feed aggregator: a permissioned set of oracles submits numeric
//! observations, each round is settled on the median of its submissions, and a
//! shared funding pool pays the oracles.
//!
//! The whole state of the aggregator is one value, [`state::Aggregator`], that
//! every call takes explicitly. A call either succeeds, changes the state and
//! answers with a [`msg::Response`], or is rejected with an
//! [`error::ContractError`] and leaves the state as it was.
//!
//! - [`median`]: the median of a list of submissions.
//! - [`state`]: what the aggregator keeps, and the fund ledger.
//! - [`addr`]: addresses, and tables keyed by address.
//! - [`owned`]: the two-step handoff of the ownership.
//! - [`msg`], [`attr`]: what callers send, what the aggregator answers, and
//!   how its answers are logged.
//! - [`model`]: what each call does, as mathematical functions on the state.
//! - [`contract`]: the calls themselves, proved against [`model`].
//! - [`laws`]: what holds of every call.
//! - [`error`], [`oracle`]: the rejections, and the standard errors of the
//!   platform.
//! - [`modifier`], [`validator`]: small types shared with the contracts around
//!   the aggregator.

pub mod addr;
pub mod attr;
pub mod contract;
pub mod error;
pub mod laws;
pub mod median;
pub mod model;
pub mod modifier;
pub mod msg;
pub mod oracle;
pub mod owned;
pub mod state;
pub mod validator;
