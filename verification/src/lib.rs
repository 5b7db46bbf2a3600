//! Construction of MS-DOS compatible hard-disk images.
//!
//! The crate models the legacy on-disk structures of a DOS hard disk --
//! the MBR partition table with its packed CHS addresses, the FAT16
//! volume boot record, and the cluster allocation table -- and proves
//! that the encoders and decoders match their byte-level layouts.

pub mod bootcode;
pub mod chs;
pub mod cluster;
pub mod disk;
pub mod errors;
pub mod fat;
pub mod fs;
pub mod partition;
pub mod sector;
pub mod vbr;
