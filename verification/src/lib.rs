//! Hardware device inventory and driver-profile management.
//!
//! The crate decides which driver profiles apply to a PCI or USB device
//! (inclusion and exclusion identifier sets with wildcard semantics and
//! priority ordering), derives device lifecycle state, plans idempotent
//! install and uninstall runs, and parses the profile catalog.

pub mod catalog;
pub mod cli;
pub mod collect;
pub mod config;
pub mod control;
pub mod error;
pub mod hex;
pub mod install;
pub mod matcher;
pub mod pci;
pub mod sorting;
pub mod usb;
