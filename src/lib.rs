//! Verified core of a hibernation-aware process supervisor: the watchdog's
//! dual-clock divergence test, the restart protocol, the supervisor's
//! startup and exit decisions, and the proxy's per-connection rules; beside
//! them, the pure parts of the team bookkeeping (diff statistics, conflict
//! detection, tool-call summaries and tallies, the node registry).
pub mod clock;
pub mod config;
pub mod ingest;
pub mod marker;
pub mod nodes;
pub mod proxy;
pub mod restart;
pub mod supervisor;
pub mod teams;
pub mod teams_repo;
pub mod text;
pub mod toolcalls;
pub mod transcript;
pub mod watchdog;
