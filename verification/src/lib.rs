//! Boot-time application loader for a small RISC-V guest kernel.
//!
//! The crate finds application images in a flash region, measures each
//! image, describes the address space an application runs in, keeps the table
//! of kernel entry points that applications call through, and decides what
//! the boot loop does next. It also holds the bump allocator and the
//! device-tree decoding that the surrounding kernel relies on.
//!
//! Everything here works on plain values. Reading flash, writing the
//! translation register and jumping into an image are left to the caller.

#![allow(unused_imports)]

pub mod config;
pub mod image;
pub mod apps;
pub mod abi;
pub mod aspace;
pub mod dispatch;
pub mod early;
pub mod endian;
pub mod dtb;
pub mod axalloc;
