//! Boot-menu and kernel-loading core of a second-stage bootloader.
//!
//! The crate finds bootable images on storage volumes, keeps the operator's
//! selection, and lays a kernel, its device tree and its initial ramdisk out
//! in physical memory. Everything here works on plain values; the firmware
//! around it performs the device access and the final jump.

pub mod bio;
pub mod container;
pub mod endian;
pub mod extlinux;
pub mod fbcon;
pub mod kernel_boot;
pub mod lk_fs;
pub mod lk_list;
pub mod memory;
pub mod menu;
pub mod osrel;
pub mod placement;
pub mod recovery;
pub mod scanner;
pub mod text;
