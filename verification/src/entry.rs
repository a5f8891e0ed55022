//! Files and directories of the remote host.

use vstd::prelude::*;

use crate::error::opt_text;
use crate::pex::UnixPex;
use crate::time::epoch;
use crate::time::Instant;
use crate::time::Timestamp;

verus! {

/// What is known of a file or a directory beside its name.
#[derive(Debug, PartialEq, Eq)]
pub struct Metadata {
    pub atime: Timestamp,
    pub ctime: Timestamp,
    pub mtime: Timestamp,
    pub gid: Option<u32>,
    pub mode: Option<UnixPex>,
    pub size: u64,
    pub symlink: Option<String>,
    pub uid: Option<u32>,
}

/// Metadata as a value.
#[verifier::ext_equal]
pub struct Facts {
    pub atime: Instant,
    pub ctime: Instant,
    pub mtime: Instant,
    pub gid: Option<u32>,
    pub mode: Option<UnixPex>,
    pub size: u64,
    pub symlink: Option<Seq<char>>,
    pub uid: Option<u32>,
}

impl View for Metadata {
    type V = Facts;

    open spec fn view(&self) -> Facts {
        Facts {
            atime: self.atime@,
            ctime: self.ctime@,
            mtime: self.mtime@,
            gid: self.gid,
            mode: self.mode,
            size: self.size,
            symlink: opt_text(self.symlink),
            uid: self.uid,
        }
    }
}

impl Clone for Metadata {
    fn clone(&self) -> (r: Metadata)
        ensures
            r@ == self@,
    {
        Metadata {
            atime: self.atime,
            ctime: self.ctime,
            mtime: self.mtime,
            gid: self.gid,
            mode: self.mode,
            size: self.size,
            symlink: match &self.symlink {
                Some(target) => Some(target.clone()),
                None => None,
            },
            uid: self.uid,
        }
    }
}

impl Default for Metadata {
    fn default() -> (r: Metadata)
        ensures
            r@ == (Facts {
                atime: epoch(),
                ctime: epoch(),
                mtime: epoch(),
                gid: None,
                mode: None,
                size: 0,
                symlink: None,
                uid: None,
            }),
    {
        Metadata {
            atime: Timestamp::unix_epoch(),
            ctime: Timestamp::unix_epoch(),
            mtime: Timestamp::unix_epoch(),
            gid: None,
            mode: None,
            size: 0,
            symlink: None,
            uid: None,
        }
    }
}

/// A directory.
#[derive(Clone, Debug, PartialEq, Eq)]
pub struct Directory {
    pub name: String,
    pub abs_path: String,
    pub metadata: Metadata,
}

/// A file, or a symbolic link.
#[derive(Clone, Debug, PartialEq, Eq)]
pub struct File {
    pub name: String,
    pub abs_path: String,
    pub extension: Option<String>,
    pub metadata: Metadata,
}

/// A file or a directory.
#[derive(Clone, Debug, PartialEq, Eq)]
pub enum Entry {
    Directory(Directory),
    File(File),
}

/// An entry as a value.
#[verifier::ext_equal]
pub enum Node {
    Directory { name: Seq<char>, abs_path: Seq<char>, facts: Facts },
    File { name: Seq<char>, abs_path: Seq<char>, extension: Option<Seq<char>>, facts: Facts },
}

impl Node {
    /// The name of the entry.
    pub open spec fn name(self) -> Seq<char> {
        match self {
            Node::Directory { name, .. } => name,
            Node::File { name, .. } => name,
        }
    }

    /// The path of the entry.
    pub open spec fn abs_path(self) -> Seq<char> {
        match self {
            Node::Directory { abs_path, .. } => abs_path,
            Node::File { abs_path, .. } => abs_path,
        }
    }

    /// What is known of the entry beside its name.
    pub open spec fn facts(self) -> Facts {
        match self {
            Node::Directory { facts, .. } => facts,
            Node::File { facts, .. } => facts,
        }
    }
}

impl View for Entry {
    type V = Node;

    open spec fn view(&self) -> Node {
        match self {
            Entry::Directory(d) => Node::Directory {
                name: d.name@,
                abs_path: d.abs_path@,
                facts: d.metadata@,
            },
            Entry::File(f) => Node::File {
                name: f.name@,
                abs_path: f.abs_path@,
                extension: opt_text(f.extension),
                facts: f.metadata@,
            },
        }
    }
}

impl Entry {
    /// The file that the entry is.
    pub fn unwrap_file(self) -> (r: File)
        requires
            self is File,
        ensures
            self == Entry::File(r),
    {
        match self {
            Entry::File(f) => f,
            Entry::Directory(_) => vstd::pervasive::unreached(),
        }
    }

    /// The directory that the entry is.
    pub fn unwrap_dir(self) -> (r: Directory)
        requires
            self is Directory,
        ensures
            self == Entry::Directory(r),
    {
        match self {
            Entry::Directory(d) => d,
            Entry::File(_) => vstd::pervasive::unreached(),
        }
    }

    /// The path of the entry.
    pub fn path(&self) -> (r: &str)
        ensures
            r@ == self@.abs_path(),
    {
        match self {
            Entry::Directory(d) => d.abs_path.as_str(),
            Entry::File(f) => f.abs_path.as_str(),
        }
    }

    /// What is known of the entry beside its name.
    pub fn metadata(&self) -> (r: &Metadata)
        ensures
            r@ == self@.facts(),
    {
        match self {
            Entry::Directory(d) => &d.metadata,
            Entry::File(f) => &f.metadata,
        }
    }
}

/// Entries as values.
pub open spec fn nodes(v: Seq<Entry>) -> Seq<Node> {
    v.map_values(|e: Entry| e@)
}

} // verus!
