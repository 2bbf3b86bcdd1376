//! Verified core of a TradingView chart-snapshot service.

pub mod config;
pub mod poll;
pub mod scraper;
pub mod service;
pub mod text;

pub use config::Config;
pub use scraper::TradingViewScraper;
