//! Cold-start tracker: report, for each incoming request, whether the serving
//! process instance is handling its first request ("cold") or a later one
//! ("warm").

pub mod handler;
pub mod tracker;
