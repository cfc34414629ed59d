//! The core of Aokiji, a wallet for a Nano account that several people hold
//! together.
//!
//! A transaction on such an account is signed in a ceremony among the holders
//! of the key's shares. This library decides what such a ceremony does and in
//! what order; the work itself (the ledger service, the session's file, the
//! network) is done by the caller:
//!
//! - [`intent`] and [`ledger`] turn what the user asks for into the request for
//!   an unsigned block, with the amount converted exactly by [`amount`];
//! - [`artifact`] holds the session's record, in which the block is queued;
//! - [`session`] plans the host and joiner roles of a ceremony;
//! - [`coordinator`] is the state machine that runs these steps one after
//!   another and reduces their outcomes into one [`state`], and [`safety`]
//!   states what holds of every run of it;
//! - [`in_flight`] keeps two ceremonies from running on one session at once;
//! - [`app_state`], [`nano`] and [`notation`] hold what the application shows:
//!   the open account, the calls to the Nano RPC service, and numbers written
//!   out.

pub mod amount;
pub mod app_state;
pub mod artifact;
pub mod coordinator;
pub mod in_flight;
pub mod intent;
pub mod ledger;
pub mod nano;
pub mod notation;
pub mod safety;
pub mod session;
pub mod state;
pub mod text;
