//! The Windows DLLs that the machine provides.

pub mod dispatch;
pub mod guid;
pub mod ntdll;
pub mod ole;
pub mod ole32;
pub mod oleaut32;
pub mod msvcr40d;
pub mod msvcr100;
