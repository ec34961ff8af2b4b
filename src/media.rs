use vstd::prelude::*;

use crate::error::{check, Error, Result, BAD_PARAMETERS, FILE_EXISTS};
use crate::handle::Handle;
use crate::write::{contains_nul, has_nul};

verus! {

/// A sink that owns a native file buffer for the library to fill.
pub trait Media {
    spec fn spec_file_handle(&self) -> Handle;

    /// The native file that receives the bytes.
    fn file_handle(&self) -> (r: Handle)
        ensures
            r == self.spec_file_handle(),
    ;
}

/// Where a media buffer lives.
#[derive(PartialEq, Eq, Structural, Clone, Copy, Debug)]
pub enum Backing {
    /// An open file on local disk.
    Disk,
    /// Process memory.
    Memory,
}

/// Media stored as a local file or in memory.
#[derive(PartialEq, Eq, Structural, Clone, Copy, Debug)]
pub struct FileMedia {
    pub file: Handle,
    pub backing: Backing,
}

impl Media for FileMedia {
    open spec fn spec_file_handle(&self) -> Handle {
        self.file
    }

    fn file_handle(&self) -> (r: Handle) {
        self.file
    }
}

impl FileMedia {
    /// Whether `path` can name a file for the native library: a path holding
    /// a NUL character cannot.
    pub fn check_path(path: &str) -> (r: Result<()>)
        ensures
            has_nul(path@) <==> r is Err,
            r is Err ==> r == Err::<(), Error>(Error { code: BAD_PARAMETERS }),
    {
        if contains_nul(path) {
            Err(Error::from_code(BAD_PARAMETERS))
        } else {
            Ok(())
        }
    }

    /// The outcome of the exclusive creation of a file: a negative descriptor
    /// means the path was taken.
    pub fn opened(fd: i32) -> (r: Result<i32>)
        ensures
            fd < 0 <==> r is Err,
            fd < 0 ==> r == Err::<i32, Error>(Error { code: FILE_EXISTS }),
            fd >= 0 ==> r == Ok::<i32, Error>(fd),
    {
        if fd < 0 {
            Err(Error::from_code(FILE_EXISTS))
        } else {
            Ok(fd)
        }
    }

    /// The media over a native file, once the status of the native call that
    /// made it is known.
    pub fn from_native(status: i32, file: Handle, backing: Backing) -> (r: Result<FileMedia>)
        ensures
            status == crate::error::OK ==> r == Ok::<FileMedia, Error>(FileMedia { file, backing }),
            status != crate::error::OK ==> r == Err::<FileMedia, Error>(Error { code: status }),
    {
        match check(status) {
            Ok(()) => Ok(FileMedia { file, backing }),
            Err(e) => Err(e),
        }
    }
}

} // verus!
