//! The engine's file-system interface. The interpreter's file primitives go
//! through the `FileSystem` trait; the engine itself ships an in-memory
//! implementation, and a host front-end may supply one backed by the real
//! file system. Nothing is promised of any outcome: the evaluator states
//! what holds whatever an implementation returns.

use vstd::prelude::*;
use vstd::string::*;

verus! {

/// What the interpreter's file primitives need from a host: opening by path
/// and mode, whole-file reads, appending writes, closing, and reading a
/// source file by path. A handle identifies one opened file.
pub trait FileSystem {
    /// Opens `path` in the given mode and returns a handle, or `None` if the
    /// file cannot be opened.
    fn open_file(&mut self, path: &String, mode: &String) -> (r: Option<u64>);

    /// The whole contents of the opened file, or `None` if the handle is
    /// unusable.
    fn read_all(&mut self, handle: u64) -> (r: Option<String>);

    /// Writes `data` to the opened file; whether it was written.
    fn write_all(&mut self, handle: u64, data: &String) -> (r: bool);

    /// Closes the handle; whether it was open.
    fn close(&mut self, handle: u64) -> (r: bool);

    /// Whether the handle has been closed (unknown handles count as closed).
    fn is_closed(&self, handle: u64) -> (r: bool);

    /// The contents of the file at `path`, for loading source text.
    fn read_file(&mut self, path: &String) -> (r: Option<String>);
}

/// One file of the in-memory file system.
pub struct MemFile {
    pub path: String,
    pub contents: String,
    pub closed: bool,
}

/// An in-memory file system: files live in a table, handles index it. Each
/// open creates a fresh entry seeded from the latest entry with the same
/// path, so a close-and-reopen sees earlier writes.
pub struct MemFileSystem {
    pub files: Vec<MemFile>,
}

impl MemFileSystem {
    pub fn new() -> (r: MemFileSystem)
        ensures
            r.files@.len() == 0,
    {
        MemFileSystem { files: Vec::new() }
    }

    /// Seeds the file table with a file, as a host would with a disk.
    pub fn add_file(&mut self, path: &str, contents: &str)
        ensures
            final(self).files@.len() == old(self).files@.len() + 1,
    {
        self.files.push(
            MemFile { path: path.to_owned(), contents: contents.to_owned(), closed: true },
        );
    }

    /// The index of the latest entry with the given path, if any.
    fn find_latest(&self, path: &String) -> (r: Option<usize>)
        ensures
            r matches Some(i) ==> i < self.files@.len(),
    {
        let mut i: usize = self.files.len();
        while i > 0
            invariant
                i <= self.files@.len(),
            decreases i,
        {
            i = i - 1;
            if self.files[i].path == *path {
                return Some(i);
            }
        }
        None
    }

    /// The latest contents recorded under `path`, if any.
    pub fn latest_contents(&self, path: &str) -> (r: Option<String>) {
        let key = path.to_owned();
        match self.find_latest(&key) {
            Some(i) => Some(self.files[i].contents.clone()),
            None => None,
        }
    }
}

impl FileSystem for MemFileSystem {
    fn open_file(&mut self, path: &String, mode: &String) -> (r: Option<u64>) {
        if mode.as_str().unicode_len() == 0 {
            return None;
        }
        let m = mode.as_str().get_char(0);
        let existing = self.find_latest(path);
        let contents: String = if m == 'r' || m == 'a' {
            match existing {
                Some(i) => self.files[i].contents.clone(),
                None => {
                    if m == 'r' {
                        return None;
                    }
                    String::new()
                },
            }
        } else if m == 'w' {
            String::new()
        } else {
            return None;
        };
        if self.files.len() >= 0xFFFF_FFFF {
            return None;
        }
        let handle = self.files.len() as u64;
        self.files.push(MemFile { path: path.clone(), contents, closed: false });
        Some(handle)
    }

    fn read_all(&mut self, handle: u64) -> (r: Option<String>) {
        let i = handle as usize;
        if i < self.files.len() && !self.files[i].closed {
            Some(self.files[i].contents.clone())
        } else {
            None
        }
    }

    fn write_all(&mut self, handle: u64, data: &String) -> (r: bool) {
        let i = handle as usize;
        if i < self.files.len() && !self.files[i].closed {
            let f = &self.files[i];
            let mut contents = f.contents.clone();
            contents.append(data.as_str());
            let updated = MemFile { path: f.path.clone(), contents, closed: false };
            self.files.set(i, updated);
            true
        } else {
            false
        }
    }

    fn close(&mut self, handle: u64) -> (r: bool) {
        let i = handle as usize;
        if i < self.files.len() && !self.files[i].closed {
            let f = &self.files[i];
            let updated = MemFile { path: f.path.clone(), contents: f.contents.clone(), closed: true };
            self.files.set(i, updated);
            true
        } else {
            false
        }
    }

    fn is_closed(&self, handle: u64) -> (r: bool) {
        let i = handle as usize;
        if i < self.files.len() {
            self.files[i].closed
        } else {
            true
        }
    }

    fn read_file(&mut self, path: &String) -> (r: Option<String>) {
        match self.find_latest(path) {
            Some(i) => Some(self.files[i].contents.clone()),
            None => None,
        }
    }
}

} // verus!
