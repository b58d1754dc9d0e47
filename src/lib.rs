//! Daily wallpaper fetcher: the decisions behind caching, naming and
//! downloading the image of the day, with their contracts.
pub mod actions;
pub mod api;
pub mod args;
pub mod catalog;
pub mod download;
pub mod error;
pub mod freshness;
pub mod image;
pub mod session;
pub mod text;
