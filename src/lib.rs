//! Metric scraping, threshold classification, trend comparison and report
//! composition for a monitoring bot that watches a set of admin dashboards.

pub mod text;
pub mod html;
pub mod requests;
pub mod parser;
pub mod validators;
pub mod db;
pub mod trend;
pub mod slack;
pub mod mail;
