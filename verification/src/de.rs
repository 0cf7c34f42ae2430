//! The libvirt XML documents, as the values that the library reads.

pub mod types;
