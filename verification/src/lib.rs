//! Parsing of CASTEP `.pdos_weights` / `.pdos_bin` and `.bands` files and
//! selection of orbitals for a projected density of states.
//!
//! Every real number is carried without loss: values read from the binary
//! weight file as the 64 bits of their IEEE-754 encoding, values read from the
//! text band file as the decimal token that was written there.
pub mod fundamental;
pub mod bands;
pub mod helper;
pub mod pdos_weights_parser;
pub mod projectors;
