//! Provisioning and driving of two helper programs, a media downloader and a
//! media transcoder: which files to fetch for a platform, how to read the
//! downloader's description of a remote medium, which formats to ask for, and
//! how a download job proceeds.

pub mod binaries;
pub mod catalog;
pub mod download;
pub mod error;
pub mod install;
pub mod json;
pub mod paths;
pub mod probe;
pub mod selection;
pub mod text;
