//! Harvesting of patient metadata from DICOM files.
//!
//! A run scans a directory tree, takes every regular file for a DICOM
//! container, and collects the patient's name and identifier from those
//! that are. A file that cannot be read or decoded costs its own record and
//! nothing else. The records are written as one JSON document.
//!
//! The library decides and computes; it neither touches the file system nor
//! logs. Its caller walks the tree, reads the files, runs the workers, and
//! puts the diagnostics and the document where they belong:
//!
//! - [`walk`] says what becomes of each thing the traversal comes upon;
//! - [`dicom`] decodes a file image and makes a record of it;
//! - [`harvest`] holds the extraction worker and the collection of records,
//!   and states what a run gives for any files in any order;
//! - [`sink`] writes the collection as JSON;
//! - [`error`] names the failures that end a run;
//! - [`util`] holds the options of a run.
//!
//! Everything is verified with Verus but the calls into the DICOM decoder
//! and the JSON serialiser, whose behaviour is stated in [`dicom::container`]
//! and [`sink`] and taken on trust.

pub mod dicom;
pub mod error;
pub mod harvest;
pub mod sink;
pub mod util;
pub mod walk;
