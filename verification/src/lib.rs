//! Browsing and fetching parts of a GitHub repository: address parsing,
//! listing classification, Git-LFS pointer resolution and download planning.

pub mod text;
pub mod lines;
pub mod lfs;
pub mod github;
pub mod item;
pub mod fetch;
pub mod batch;
pub mod resolve;
pub mod download;
pub mod toast;
pub mod ui;
pub mod keys;
pub mod control;
pub mod label;
