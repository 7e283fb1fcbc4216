//! What the shell is told about the system it runs on. The shell itself
//! never looks: whoever drives it does, and hands over these plain facts.
use vstd::prelude::*;

verus! {

/// The kind of a file.
#[derive(Debug, Clone, Copy, PartialEq, Eq, Structural)]
pub enum FileKind {
    /// A regular file.
    Regular,
    /// A directory.
    Directory,
    /// A block device.
    BlockDevice,
    /// A character device.
    CharDevice,
    /// A named pipe.
    Fifo,
    /// A socket.
    Socket,
    /// Anything else.
    Other,
}

/// What is known of a path. Where `exists` is false, only `symlink` still
/// means anything.
#[derive(Debug, Clone, Copy, PartialEq, Eq, Structural)]
pub struct FileFacts {
    /// Whether the path leads to a file, links followed.
    pub exists: bool,
    /// The kind of that file.
    pub kind: FileKind,
    /// Whether the path itself is a symbolic link.
    pub symlink: bool,
    /// The permission bits of the file, with the set-id and sticky bits.
    pub mode: u32,
    /// The size of the file in bytes.
    pub size: u64,
    /// The user that owns the file.
    pub uid: u32,
    /// The group that owns the file.
    pub gid: u32,
    /// The number of the file within its file system.
    pub inode: u64,
    /// When the file was last modified, in seconds.
    pub modified: i64,
    /// The nanoseconds beyond those seconds.
    pub modified_nanos: u32,
    /// Whether the shell may read the file.
    pub readable: bool,
    /// Whether the shell may write the file.
    pub writable: bool,
}

/// What is known of the shell's own process.
#[derive(Debug, Clone, Copy, PartialEq, Eq, Structural)]
pub struct ProcessFacts {
    /// The effective user.
    pub euid: u32,
    /// The effective group.
    pub egid: u32,
}

/// One entry that was found in a directory of the search path.
#[derive(Debug)]
pub struct FoundFile {
    /// The name of the entry.
    pub name: String,
    /// The path of the entry.
    pub path: String,
    /// Whether it is a regular file.
    pub regular: bool,
}

impl FileFacts {
    /// What is known of a path that leads nowhere.
    pub open spec fn blank() -> FileFacts {
        FileFacts {
            exists: false,
            kind: FileKind::Other,
            symlink: false,
            mode: 0,
            size: 0,
            uid: 0,
            gid: 0,
            inode: 0,
            modified: 0,
            modified_nanos: 0,
            readable: false,
            writable: false,
        }
    }

    /// What is known of a path that leads nowhere.
    pub fn missing() -> (r: Self)
        ensures
            r == FileFacts::blank(),
    {
        FileFacts {
            exists: false,
            kind: FileKind::Other,
            symlink: false,
            mode: 0,
            size: 0,
            uid: 0,
            gid: 0,
            inode: 0,
            modified: 0,
            modified_nanos: 0,
            readable: false,
            writable: false,
        }
    }

    /// Whether any of the three execute bits is set.
    pub open spec fn executable(self) -> bool {
        self.mode & 0o111 != 0
    }

    /// Whether the file was modified later than `other`.
    pub open spec fn newer_than(self, other: FileFacts) -> bool {
        self.modified > other.modified || (self.modified == other.modified
            && self.modified_nanos > other.modified_nanos)
    }
}

} // verus!
