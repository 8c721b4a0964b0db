//! Core of a batch image-renaming tool: scanning a walked directory
//! listing for image files, generating normalized names from a prefix, a
//! date stamp and a sequence number under a fixed length budget, driving a
//! rename batch and its bookkeeping, and shaping the small record that
//! survives across batches. All file-system work stays with the caller,
//! which feeds observations in and carries planned renames out.

pub mod batch;
pub mod config;
pub mod namegen;
pub mod numbers;
pub mod paths;
pub mod scanner;
pub mod text;
