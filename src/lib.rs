//! Building blocks of the command-line tools that query, pause and unpause a
//! target contract through an on-chain proxy: parsing of contract identifiers
//! and signing keys, resolution of command-line parameters, and the sequence of
//! remote calls each tool issues together with the lines it prints.
pub mod address;
pub mod config;
pub mod session;
pub mod text;
