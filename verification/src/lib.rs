//! Active-check HTTP probe core: classifies the outcome of a single HTTP
//! request (transport error, status code, body size, latency, document age)
//! into monitoring states following the Nagios/Checkmk plugin convention.
pub mod checking;
pub mod runner;
