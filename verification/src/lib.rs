//! Read-only introspection of live kernel eBPF objects: the walk over the
//! kernel's id space, the decoding of descriptor records into display text,
//! and the navigation state behind the terminal screens.
//!
//! Everything here works on plain values. The caller performs the kernel
//! calls and the drawing, and hands results in and takes requests out.

pub mod detail;
pub mod format;
pub mod keys;
pub mod labels;
pub mod map_ids;
pub mod maps;
pub mod menu;
pub mod names;
pub mod probe;
pub mod programs;
pub mod records;
pub mod rows;
pub mod selection;
pub mod text;
pub mod walk;
