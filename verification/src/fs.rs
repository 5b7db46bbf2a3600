//! Files placed on the FAT16 volume and their directory attributes.

use crate::cluster::Cluster;
use vstd::prelude::*;
use vstd::string::StringSliceAdditionalSpecFns;

verus! {

/// Attributes that can be set on a file or directory in a FAT file
/// system, one flag per bit of the directory entry's attribute byte.
#[derive(Debug, Clone, Copy, PartialEq, Eq, Structural)]
pub struct FileAttributes {
    pub read_only: bool,
    pub hidden: bool,
    pub system: bool,
    pub vol_id: bool,
    pub is_dir: bool,
    pub archive: bool,
}

/// The attribute set with every flag cleared.
pub open spec fn spec_default_attributes() -> FileAttributes {
    FileAttributes {
        read_only: false,
        hidden: false,
        system: false,
        vol_id: false,
        is_dir: false,
        archive: false,
    }
}

impl FileAttributes {
    /// The packed attribute byte: read-only in bit 0, hidden in bit 1,
    /// system in bit 2, volume id in bit 3, directory in bit 4, archive
    /// in bit 5.
    pub open spec fn spec_byte(self) -> u8 {
        ((if self.read_only {
            1int
        } else {
            0int
        }) + (if self.hidden {
            2int
        } else {
            0int
        }) + (if self.system {
            4int
        } else {
            0int
        }) + (if self.vol_id {
            8int
        } else {
            0int
        }) + (if self.is_dir {
            16int
        } else {
            0int
        }) + (if self.archive {
            32int
        } else {
            0int
        })) as u8
    }

    /// Convert the attributes to the single byte used on disk.
    pub fn as_byte(&self) -> (r: u8)
        ensures
            r == self.spec_byte(),
    {
        let mut data: u8 = 0;
        if self.read_only {
            data = data + 1;
        }
        if self.hidden {
            data = data + 2;
        }
        if self.system {
            data = data + 4;
        }
        if self.vol_id {
            data = data + 8;
        }
        if self.is_dir {
            data = data + 16;
        }
        if self.archive {
            data = data + 32;
        }
        data
    }
}

impl Default for FileAttributes {
    /// A fresh set of attributes with every flag cleared.
    fn default() -> (r: FileAttributes)
        ensures
            r == spec_default_attributes(),
    {
        FileAttributes {
            read_only: false,
            hidden: false,
            system: false,
            vol_id: false,
            is_dir: false,
            archive: false,
        }
    }
}

/// A byte that may never appear in an 8.3 file name.
pub open spec fn spec_invalid_name_byte(b: u8) -> bool {
    ||| b == 0x22
    ||| b == 0x2a
    ||| b == 0x2b
    ||| b == 0x2c
    ||| b == 0x2e
    ||| b == 0x2f
    ||| b == 0x3a
    ||| b == 0x3b
    ||| b == 0x3c
    ||| b == 0x3d
    ||| b == 0x3e
    ||| b == 0x3f
    ||| b == 0x5b
    ||| b == 0x5c
    ||| b == 0x5d
    ||| b == 0x7c
}

/// A valid 8.3 name: one to eleven bytes, not opening with a NUL or a
/// blank, and free of the disallowed punctuation bytes.
pub open spec fn spec_valid_name(bytes: Seq<u8>) -> bool {
    &&& 1 <= bytes.len() <= 11
    &&& bytes[0] != 0x00
    &&& bytes[0] != 0x20
    &&& forall|i: int| 0 <= i < bytes.len() ==> !spec_invalid_name_byte(#[trigger] bytes[i])
}

/// A file to be placed on the volume: its name, its bytes, the cluster
/// chain assigned to it, and its attribute flags.
#[derive(Debug)]
pub struct File {
    pub(crate) name: String,
    pub(crate) data: Vec<u8>,
    pub(crate) clusters: Vec<Cluster>,
    pub(crate) attributes: FileAttributes,
}

impl File {
    /// The file's name.
    pub closed spec fn spec_name(self) -> Seq<char> {
        self.name@
    }

    /// The file's content bytes.
    pub closed spec fn spec_data(self) -> Seq<u8> {
        self.data@
    }

    /// The cluster chain assigned to the file.
    pub closed spec fn spec_clusters(self) -> Seq<Cluster> {
        self.clusters@
    }

    /// The file's attribute flags.
    pub closed spec fn spec_attributes(self) -> FileAttributes {
        self.attributes
    }

    /// Create a file from a name and its content; clusters are assigned
    /// later, when the allocator places the file.
    pub fn new(name: String, data: Vec<u8>) -> (r: File)
        ensures
            r.spec_name() == name@,
            r.spec_data() == data@,
            r.spec_clusters() == Seq::<Cluster>::empty(),
            r.spec_attributes() == spec_default_attributes(),
    {
        File { name, data, clusters: Vec::new(), attributes: Default::default() }
    }

    /// Set or clear the read-only flag.
    pub fn set_readonly(&mut self, readonly: bool)
        ensures
            final(self).spec_attributes() == (FileAttributes {
                read_only: readonly,
                ..old(self).spec_attributes()
            }),
            final(self).spec_name() == old(self).spec_name(),
            final(self).spec_data() == old(self).spec_data(),
            final(self).spec_clusters() == old(self).spec_clusters(),
    {
        self.attributes.read_only = readonly;
    }

    /// Set or clear the hidden flag.
    pub fn set_hidden(&mut self, hidden: bool)
        ensures
            final(self).spec_attributes() == (FileAttributes {
                hidden,
                ..old(self).spec_attributes()
            }),
            final(self).spec_name() == old(self).spec_name(),
            final(self).spec_data() == old(self).spec_data(),
            final(self).spec_clusters() == old(self).spec_clusters(),
    {
        self.attributes.hidden = hidden;
    }

    /// Set or clear the system flag.
    pub fn set_system(&mut self, system: bool)
        ensures
            final(self).spec_attributes() == (FileAttributes {
                system,
                ..old(self).spec_attributes()
            }),
            final(self).spec_name() == old(self).spec_name(),
            final(self).spec_data() == old(self).spec_data(),
            final(self).spec_clusters() == old(self).spec_clusters(),
    {
        self.attributes.system = system;
    }

    /// Set or clear the volume-id flag.
    pub fn set_vol_id(&mut self, vol_id: bool)
        ensures
            final(self).spec_attributes() == (FileAttributes {
                vol_id,
                ..old(self).spec_attributes()
            }),
            final(self).spec_name() == old(self).spec_name(),
            final(self).spec_data() == old(self).spec_data(),
            final(self).spec_clusters() == old(self).spec_clusters(),
    {
        self.attributes.vol_id = vol_id;
    }

    /// Set or clear the directory flag.
    pub fn set_is_dir(&mut self, is_dir: bool)
        ensures
            final(self).spec_attributes() == (FileAttributes {
                is_dir,
                ..old(self).spec_attributes()
            }),
            final(self).spec_name() == old(self).spec_name(),
            final(self).spec_data() == old(self).spec_data(),
            final(self).spec_clusters() == old(self).spec_clusters(),
    {
        self.attributes.is_dir = is_dir;
    }

    /// Set or clear the archive flag.
    pub fn set_archive(&mut self, archive: bool)
        ensures
            final(self).spec_attributes() == (FileAttributes {
                archive,
                ..old(self).spec_attributes()
            }),
            final(self).spec_name() == old(self).spec_name(),
            final(self).spec_data() == old(self).spec_data(),
            final(self).spec_clusters() == old(self).spec_clusters(),
    {
        self.attributes.archive = archive;
    }

    /// Record the cluster chain the allocator assigned to this file.
    pub(crate) fn set_clusters(&mut self, clusters: Vec<Cluster>)
        ensures
            final(self).spec_clusters() == clusters@,
            final(self).spec_name() == old(self).spec_name(),
            final(self).spec_data() == old(self).spec_data(),
            final(self).spec_attributes() == old(self).spec_attributes(),
    {
        self.clusters = clusters;
    }

    /// The file's size in bytes.
    pub fn get_size(&self) -> (r: usize)
        ensures
            r == self.spec_data().len(),
    {
        self.data.len()
    }

    /// Validate a requested file name against the rules Microsoft lays
    /// down for 8.3 names; an empty name is invalid.
    pub fn validate_name(name: &str) -> (r: bool)
        ensures
            r == spec_valid_name(name.spec_bytes()),
    {
        let bytes = name.as_bytes();
        if bytes.len() < 1 || bytes.len() > 11 {
            return false;
        }
        let first = bytes[0];
        if first == 0x00 || first == 0x20 {
            return false;
        }
        let mut i: usize = 0;
        while i < bytes.len()
            invariant
                i <= bytes@.len(),
                bytes@ == name.spec_bytes(),
                forall|j: int| 0 <= j < i ==> !spec_invalid_name_byte(#[trigger] bytes@[j]),
            decreases bytes@.len() - i,
        {
            let b = bytes[i];
            if b == 0x22 || b == 0x2a || b == 0x2b || b == 0x2c || b == 0x2e || b == 0x2f
                || b == 0x3a || b == 0x3b || b == 0x3c || b == 0x3d || b == 0x3e || b == 0x3f
                || b == 0x5b || b == 0x5c || b == 0x5d || b == 0x7c {
                return false;
            }
            i += 1;
        }
        true
    }
}

} // verus!
