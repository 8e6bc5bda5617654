//! Decoding of DICOM containers into metadata records.

pub mod container;
pub mod dicom_metadata;
