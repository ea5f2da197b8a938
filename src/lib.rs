//! Installation engine of an operating-system deployment tool.
//!
//! The library decides; the caller acts. Every operation that touches the
//! machine (formatting, mounting, changing root, running tools) is computed
//! here as a plan of plain values, and the plans are proved to follow the
//! rules of the installer: which filesystem is used, which partition tables
//! fit the firmware, how much swap to create, what goes into fstab, and in
//! which order an installation proceeds and is cleaned up.

pub mod command;
pub mod disks;
pub mod error;
pub mod fstab;
pub mod guest;
pub mod install;
pub mod pipeline;
pub mod stages;
pub mod swap;
pub mod text;
