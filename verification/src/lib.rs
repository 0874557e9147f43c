//! The core of the daemon that supervises one unit of a charm: it keeps the
//! statuses that scripts report, a key-value store, and the desired state
//! of the unit's Docker containers, and it decides what a hook or a cron
//! tick sets off and how the running containers are brought in line with
//! what is desired.
//!
//! Nothing in this library starts a process, talks to the Docker engine or
//! touches a file. Where work of that kind is due, a function answers with
//! what is to be done, and is told the outcome by its caller:
//!
//! - `strmap`, `ports`, `text`: the collections and text functions that
//!   the rest is built on;
//! - `status`, `container`, `state`: the data of the daemon, with
//!   `persist` for the file it is kept in;
//! - `rpc`: the requests that read or change the state;
//! - `reconcile`: applying the desired state of the containers, step by
//!   step, with the proofs of where that leads in `convergence`;
//! - `script`, `hooks`, `cron`: the runs of the charm's scripts, with
//!   `sequence` for the order in which they are set off;
//! - `daemon`: the daemon itself;
//! - `error`: what is refused, and why.

pub mod container;
pub mod convergence;
pub mod cron;
pub mod daemon;
pub mod error;
pub mod hooks;
pub mod persist;
pub mod ports;
pub mod reconcile;
pub mod rpc;
pub mod script;
pub mod sequence;
pub mod state;
pub mod status;
pub mod strmap;
pub mod text;
