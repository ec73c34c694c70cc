pub mod config;
pub mod date;
pub mod distance;
pub mod filter;
pub mod pattern;
pub mod pipeline;
pub mod record;
pub mod store;
pub mod text;
pub mod wkt_point;
