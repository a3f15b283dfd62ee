//! Outbound tunnel client of the PortalBox agent: the framed proxy protocol,
//! the decisions of one reverse-connection worker and of the pool that keeps
//! workers warm, the retry policy, and the routing of activated connections
//! to local services.
pub mod apps;
pub mod cli;
pub mod dashboard;
pub mod endpoint;
pub mod models;
pub mod platform;
pub mod pool;
pub mod protocol;
pub mod retry;
pub mod router;
pub mod terminal;
pub mod text;
pub mod worker;
