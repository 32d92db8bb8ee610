//! A Prometheus exporter for the GARDENA smart system: what it keeps, decides and shows.
pub mod clock;
pub mod config;
pub mod course;
pub mod device;
pub mod exposition;
pub mod family;
pub mod http;
pub mod intake;
pub mod json;
pub mod location;
pub mod metrics;
pub mod ordered;
pub mod pages;
pub mod report;
pub mod retry;
pub mod session;
pub mod shown;
pub mod state;
pub mod text;
pub mod token;
pub mod usage;
pub mod valves;
