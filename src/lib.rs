//! Core of a tool that rebuilds C/C++ declarations from PDB debug information
//! and compares the text rebuilt from two PDB files line by line.
pub mod diffing;
pub mod error;
pub mod open_url;
pub mod pdb_types;
pub mod settings;
