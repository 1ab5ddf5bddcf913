//! Host-side control of a secure-chip device under test, real or emulated.
pub mod console;
pub mod protocol;
pub mod supervisor;
pub mod emulator;
pub mod control;
pub mod transport;
pub mod ti50;
pub mod ti50emulator;
pub mod backend;

