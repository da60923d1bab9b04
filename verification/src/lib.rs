//! Windows API models for a PE emulator: registry, COM type libraries,
//! OLE automation helpers and C runtime routines, each verified against
//! a mathematical model of its behaviour.

pub mod assoc;
pub mod num;
pub mod text;

pub mod registry;
pub mod vm;
