//! Decoding of loosely typed spreadsheet cells into catalog records, and the
//! decision logic of the media pipeline that turns attachments into cached,
//! segmented assets.

pub mod auth;
pub mod batch;
pub mod bitable;
pub mod catalog;
pub mod cell;
pub mod config;
pub mod decimal;
pub mod decode;
pub mod git;
pub mod media;
pub mod order;
pub mod pipeline;
pub mod playlist;
pub mod records;
pub mod schema;
pub mod storefront;
pub mod sync;
pub mod text;
