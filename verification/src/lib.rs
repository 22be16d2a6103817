//! A pool of API keys that is rotated among callers.
//!
//! The pool hands out one key per request, chosen among the keys that are
//! active and still under their per-minute and per-day limits, and counts
//! every request against a pool-wide per-minute ceiling.  Keys can be taken
//! out of rotation and come back after a cooldown; periodic jobs reset the
//! counters.  Every operation is stated over a mathematical model of the
//! pool: a map from identifiers to key records, and a request counter.
//!
//! Three things are taken on trust, each behind a private function whose
//! contract says what is assumed: the map that holds the records (`dashmap`,
//! in [`store`]), the reading of the clock (`chrono`, in [`timestamp`]) and
//! the random draw (`rand`, in [`routes::next`]).  Everything else is proved.

pub mod config;
pub mod error;
pub mod laws;
pub mod limiter;
pub mod models;
pub mod routes;
pub mod state;
pub mod store;
pub mod tasks;
pub mod timestamp;
pub mod utils;
