//! A small HTTP uptime service: the address it binds, the text its
//! `/healthcheck` route answers with, and the decisions of its startup.
pub mod config;
pub mod healthcheck;
pub mod startup;
