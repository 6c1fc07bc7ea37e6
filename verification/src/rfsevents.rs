//! What the watcher of the file system reports of a change.

use vstd::prelude::*;

verus! {

/// What happened to an item of the file system. A report holds several of
/// these at once, each as one bit of a number.
#[allow(non_camel_case_types)]
#[derive(Debug, Clone, Copy, PartialEq, Eq, Structural)]
pub enum FSEventStreamEventFlags {
    kFSEventStreamEventFlagNone,
    kFSEventStreamEventFlagMustScanSubDirs,
    kFSEventStreamEventFlagUserDropped,
    kFSEventStreamEventFlagKernelDropped,
    kFSEventStreamEventFlagEventIdsWrapped,
    kFSEventStreamEventFlagHistoryDone,
    kFSEventStreamEventFlagRootChanged,
    kFSEventStreamEventFlagMount,
    kFSEventStreamEventFlagUnmount,
    kFSEventStreamEventFlagItemCreated,
    kFSEventStreamEventFlagItemRemoved,
    kFSEventStreamEventFlagItemInodeMetaMod,
    kFSEventStreamEventFlagItemRenamed,
    kFSEventStreamEventFlagItemModified,
    kFSEventStreamEventFlagItemFinderInfoMod,
    kFSEventStreamEventFlagItemChangeOwner,
    kFSEventStreamEventFlagItemXattrMod,
    kFSEventStreamEventFlagItemIsFile,
    kFSEventStreamEventFlagItemIsDir,
    kFSEventStreamEventFlagItemIsSymlink,
}

impl FSEventStreamEventFlags {
    /// The bit of the flag; no bit for the flag that stands for none.
    pub open spec fn bits(self) -> u32 {
        match self {
            FSEventStreamEventFlags::kFSEventStreamEventFlagNone => 0x00000000,
            FSEventStreamEventFlags::kFSEventStreamEventFlagMustScanSubDirs => 0x00000001,
            FSEventStreamEventFlags::kFSEventStreamEventFlagUserDropped => 0x00000002,
            FSEventStreamEventFlags::kFSEventStreamEventFlagKernelDropped => 0x00000004,
            FSEventStreamEventFlags::kFSEventStreamEventFlagEventIdsWrapped => 0x00000008,
            FSEventStreamEventFlags::kFSEventStreamEventFlagHistoryDone => 0x00000010,
            FSEventStreamEventFlags::kFSEventStreamEventFlagRootChanged => 0x00000020,
            FSEventStreamEventFlags::kFSEventStreamEventFlagMount => 0x00000040,
            FSEventStreamEventFlags::kFSEventStreamEventFlagUnmount => 0x00000080,
            FSEventStreamEventFlags::kFSEventStreamEventFlagItemCreated => 0x00000100,
            FSEventStreamEventFlags::kFSEventStreamEventFlagItemRemoved => 0x00000200,
            FSEventStreamEventFlags::kFSEventStreamEventFlagItemInodeMetaMod => 0x00000400,
            FSEventStreamEventFlags::kFSEventStreamEventFlagItemRenamed => 0x00000800,
            FSEventStreamEventFlags::kFSEventStreamEventFlagItemModified => 0x00001000,
            FSEventStreamEventFlags::kFSEventStreamEventFlagItemFinderInfoMod => 0x00002000,
            FSEventStreamEventFlags::kFSEventStreamEventFlagItemChangeOwner => 0x00004000,
            FSEventStreamEventFlags::kFSEventStreamEventFlagItemXattrMod => 0x00008000,
            FSEventStreamEventFlags::kFSEventStreamEventFlagItemIsFile => 0x00010000,
            FSEventStreamEventFlags::kFSEventStreamEventFlagItemIsDir => 0x00020000,
            FSEventStreamEventFlags::kFSEventStreamEventFlagItemIsSymlink => 0x00040000,
        }
    }

    /// The bit of the flag.
    pub fn to_uint(&self) -> (v: u32)
        ensures
            v == self.bits(),
    {
        match self {
            FSEventStreamEventFlags::kFSEventStreamEventFlagNone => 0x00000000,
            FSEventStreamEventFlags::kFSEventStreamEventFlagMustScanSubDirs => 0x00000001,
            FSEventStreamEventFlags::kFSEventStreamEventFlagUserDropped => 0x00000002,
            FSEventStreamEventFlags::kFSEventStreamEventFlagKernelDropped => 0x00000004,
            FSEventStreamEventFlags::kFSEventStreamEventFlagEventIdsWrapped => 0x00000008,
            FSEventStreamEventFlags::kFSEventStreamEventFlagHistoryDone => 0x00000010,
            FSEventStreamEventFlags::kFSEventStreamEventFlagRootChanged => 0x00000020,
            FSEventStreamEventFlags::kFSEventStreamEventFlagMount => 0x00000040,
            FSEventStreamEventFlags::kFSEventStreamEventFlagUnmount => 0x00000080,
            FSEventStreamEventFlags::kFSEventStreamEventFlagItemCreated => 0x00000100,
            FSEventStreamEventFlags::kFSEventStreamEventFlagItemRemoved => 0x00000200,
            FSEventStreamEventFlags::kFSEventStreamEventFlagItemInodeMetaMod => 0x00000400,
            FSEventStreamEventFlags::kFSEventStreamEventFlagItemRenamed => 0x00000800,
            FSEventStreamEventFlags::kFSEventStreamEventFlagItemModified => 0x00001000,
            FSEventStreamEventFlags::kFSEventStreamEventFlagItemFinderInfoMod => 0x00002000,
            FSEventStreamEventFlags::kFSEventStreamEventFlagItemChangeOwner => 0x00004000,
            FSEventStreamEventFlags::kFSEventStreamEventFlagItemXattrMod => 0x00008000,
            FSEventStreamEventFlags::kFSEventStreamEventFlagItemIsFile => 0x00010000,
            FSEventStreamEventFlags::kFSEventStreamEventFlagItemIsDir => 0x00020000,
            FSEventStreamEventFlags::kFSEventStreamEventFlagItemIsSymlink => 0x00040000,
        }
    }

    /// The flag whose bit is `v`, where `v` is the bit of a flag.
    pub fn from_uint(v: u32) -> (flag: Option<FSEventStreamEventFlags>)
        ensures
            match flag {
                Some(f) => f.bits() == v,
                None => forall|f: FSEventStreamEventFlags| f.bits() != v,
            },
    {
        match v {
            0x00000000 => Some(FSEventStreamEventFlags::kFSEventStreamEventFlagNone),
            0x00000001 => Some(FSEventStreamEventFlags::kFSEventStreamEventFlagMustScanSubDirs),
            0x00000002 => Some(FSEventStreamEventFlags::kFSEventStreamEventFlagUserDropped),
            0x00000004 => Some(FSEventStreamEventFlags::kFSEventStreamEventFlagKernelDropped),
            0x00000008 => Some(FSEventStreamEventFlags::kFSEventStreamEventFlagEventIdsWrapped),
            0x00000010 => Some(FSEventStreamEventFlags::kFSEventStreamEventFlagHistoryDone),
            0x00000020 => Some(FSEventStreamEventFlags::kFSEventStreamEventFlagRootChanged),
            0x00000040 => Some(FSEventStreamEventFlags::kFSEventStreamEventFlagMount),
            0x00000080 => Some(FSEventStreamEventFlags::kFSEventStreamEventFlagUnmount),
            0x00000100 => Some(FSEventStreamEventFlags::kFSEventStreamEventFlagItemCreated),
            0x00000200 => Some(FSEventStreamEventFlags::kFSEventStreamEventFlagItemRemoved),
            0x00000400 => Some(FSEventStreamEventFlags::kFSEventStreamEventFlagItemInodeMetaMod),
            0x00000800 => Some(FSEventStreamEventFlags::kFSEventStreamEventFlagItemRenamed),
            0x00001000 => Some(FSEventStreamEventFlags::kFSEventStreamEventFlagItemModified),
            0x00002000 => Some(FSEventStreamEventFlags::kFSEventStreamEventFlagItemFinderInfoMod),
            0x00004000 => Some(FSEventStreamEventFlags::kFSEventStreamEventFlagItemChangeOwner),
            0x00008000 => Some(FSEventStreamEventFlags::kFSEventStreamEventFlagItemXattrMod),
            0x00010000 => Some(FSEventStreamEventFlags::kFSEventStreamEventFlagItemIsFile),
            0x00020000 => Some(FSEventStreamEventFlags::kFSEventStreamEventFlagItemIsDir),
            0x00040000 => Some(FSEventStreamEventFlags::kFSEventStreamEventFlagItemIsSymlink),
            _ => None,
        }
    }

    /// Tells whether the report `flags` holds this flag.
    pub fn is_set_in(&self, flags: u32) -> (set: bool)
        ensures
            set == (flags & self.bits() != 0),
    {
        flags & self.to_uint() != 0
    }
}

} // verus!
