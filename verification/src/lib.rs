//! A verified core for a distributed job scheduler: the decisions that the
//! server and the workers take about jobs, separated from the database,
//! network and process handling that surround them.
pub mod api_server;
pub mod external;
pub mod server;
pub mod shared;
pub mod supervisor;
pub mod text;
pub mod time;
pub mod worker;
