//! Catalog of the patient records found in the files of a directory tree.
//!
//! The library holds the decisions of a scan and leaves reading and writing
//! to its caller: the caller asks the file system, hands over what it
//! answered, and carries out what the library returns.

pub mod app_config;
pub mod outside;
pub mod dicom_file_reader;
pub mod display_strategy;
pub mod jobs;
pub mod scan;
pub mod app;
