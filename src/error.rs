use vstd::prelude::*;

verus! {

/// Status code of a native call that succeeded.
pub const OK: i32 = 0;

/// Native status: an unspecified failure.
pub const GENERIC: i32 = -1;

/// Native status: a parameter was rejected.
pub const BAD_PARAMETERS: i32 = -2;

/// Native status: the port could not be identified.
pub const UNKNOWN_PORT: i32 = -5;

/// Native status: the operation is not supported by the device or driver.
pub const NOT_SUPPORTED: i32 = -6;

/// Native status: the port could not be initialised.
pub const IO_INIT: i32 = -31;

/// Native status: an input or output operation failed.
pub const IO: i32 = -7;

/// Native status: no matching USB device was found.
pub const IO_USB_FIND: i32 = -52;

/// Native status: data could not be interpreted.
pub const CORRUPTED_DATA: i32 = -102;

/// Native status: a file already exists.
pub const FILE_EXISTS: i32 = -103;

/// Native status: no driver knows the device model.
pub const MODEL_NOT_FOUND: i32 = -105;

/// The categories of failure that callers distinguish.
#[derive(PartialEq, Eq, Structural, Clone, Copy, Debug)]
pub enum ErrorKind {
    /// No device was found, or it could not be initialised.
    DeviceNotFound,
    /// The target file already exists.
    FileExists,
    /// A parameter could not be used.
    BadParameters,
    /// The device or its driver does not offer the operation.
    NotSupported,
    /// Data coming from the device is not valid.
    CorruptedData,
    /// Any other native failure; the code is kept in the error.
    Other,
}

/// The category of a native status code.
pub open spec fn kind_of(code: i32) -> ErrorKind {
    if code == MODEL_NOT_FOUND || code == UNKNOWN_PORT || code == IO_INIT || code == IO_USB_FIND {
        ErrorKind::DeviceNotFound
    } else if code == FILE_EXISTS {
        ErrorKind::FileExists
    } else if code == BAD_PARAMETERS {
        ErrorKind::BadParameters
    } else if code == NOT_SUPPORTED {
        ErrorKind::NotSupported
    } else if code == CORRUPTED_DATA {
        ErrorKind::CorruptedData
    } else {
        ErrorKind::Other
    }
}

/// A failed native call, identified by its status code.
#[derive(PartialEq, Eq, Structural, Clone, Copy, Debug)]
pub struct Error {
    pub code: i32,
}

pub type Result<T> = core::result::Result<T, Error>;

impl Error {
    /// The error for a native status code.
    pub fn from_code(code: i32) -> (r: Error)
        ensures
            r.code == code,
    {
        Error { code }
    }

    /// The native status code that this error carries.
    pub fn code(&self) -> (r: i32)
        ensures
            r == self.code,
    {
        self.code
    }

    /// The category of this error.
    pub fn kind(&self) -> (r: ErrorKind)
        ensures
            r == kind_of(self.code),
    {
        let c = self.code;
        if c == MODEL_NOT_FOUND || c == UNKNOWN_PORT || c == IO_INIT || c == IO_USB_FIND {
            ErrorKind::DeviceNotFound
        } else if c == FILE_EXISTS {
            ErrorKind::FileExists
        } else if c == BAD_PARAMETERS {
            ErrorKind::BadParameters
        } else if c == NOT_SUPPORTED {
            ErrorKind::NotSupported
        } else if c == CORRUPTED_DATA {
            ErrorKind::CorruptedData
        } else {
            ErrorKind::Other
        }
    }
}

/// Turns the status of a native call into a result: only `OK` is success.
pub fn check(status: i32) -> (r: Result<()>)
    ensures
        status == OK <==> r is Ok,
        status != OK ==> r == Err::<(), Error>(Error { code: status }),
{
    if status == OK {
        Ok(())
    } else {
        Err(Error::from_code(status))
    }
}

} // verus!
