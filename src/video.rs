use vstd::prelude::*;

use crate::camera::{Camera, Context};
use crate::error::{check, Error, Result, BAD_PARAMETERS, IO};
use crate::handle::Handle;

verus! {

/// Live preview streamed into a named pipe.
///
/// Lifecycle: built with a pipe path; started once the pipe is made, opened
/// and bound to a native file; polled for frames; stopped, which gives the
/// native file back.
#[derive(Clone, Debug)]
pub struct Video {
    pub fifo_path: String,
    pub fifo_fd: i32,
    pub camfile: Option<Handle>,
}

/// The native call that captures one preview frame into the bound file.
#[derive(PartialEq, Eq, Structural, Clone, Copy, Debug)]
pub struct PreviewRequest {
    pub camera: Handle,
    pub file: Handle,
    pub context: Handle,
}

impl Video {
    /// A stream to the pipe at `fifo_path`; nothing is opened yet.
    pub fn new_fifo(fifo_path: &str) -> (r: Video)
        ensures
            r.fifo_path@ == fifo_path@,
            r.fifo_fd == -1,
            r.camfile is None,
    {
        Video { fifo_path: fifo_path.to_owned(), fifo_fd: -1, camfile: None }
    }

    /// The path of the pipe.
    pub fn fifo_path(&self) -> (r: &str)
        ensures
            r@ == self.fifo_path@,
    {
        self.fifo_path.as_str()
    }

    /// Whether a native file is bound to the pipe.
    pub fn is_started(&self) -> (r: bool)
        ensures
            r == self.camfile is Some,
    {
        self.camfile.is_some()
    }

    /// Records the outcome of starting: the descriptor that opening the pipe
    /// gave, and the status and file of binding a native file to it. A
    /// negative descriptor is an `IO` error and a failed binding its own
    /// error; either way no file is bound.
    pub fn start(&mut self, fd: i32, bind_status: i32, camfile: Handle) -> (r: Result<()>)
        ensures
            final(self).fifo_path@ == old(self).fifo_path@,
            fd < 0 ==> r == Err::<(), Error>(Error { code: IO }) && final(self).fifo_fd == -1
                && final(self).camfile is None,
            fd >= 0 && bind_status != crate::error::OK ==> r == Err::<(), Error>(
                Error { code: bind_status },
            ) && final(self).fifo_fd == fd && final(self).camfile is None,
            fd >= 0 && bind_status == crate::error::OK ==> r is Ok && final(self).fifo_fd == fd
                && final(self).camfile == Some(camfile),
    {
        if fd < 0 {
            self.fifo_fd = -1;
            self.camfile = None;
            return Err(Error::from_code(IO));
        }
        self.fifo_fd = fd;
        match check(bind_status) {
            Ok(()) => {
                self.camfile = Some(camfile);
                Ok(())
            },
            Err(e) => {
                self.camfile = None;
                Err(e)
            },
        }
    }

    /// The native call that captures one frame into the pipe; a stream that
    /// was not started is a `BAD_PARAMETERS` error.
    pub fn poll(&self, camera: &Camera, context: &Context) -> (r: Result<PreviewRequest>)
        ensures
            self.camfile is None ==> r == Err::<PreviewRequest, Error>(
                Error { code: BAD_PARAMETERS },
            ),
            self.camfile is Some ==> r == Ok::<PreviewRequest, Error>(
                PreviewRequest {
                    camera: camera.handle,
                    file: self.camfile->0,
                    context: context.handle,
                },
            ),
    {
        match self.camfile {
            Some(file) => Ok(PreviewRequest { camera: camera.handle, file, context: context.handle }),
            None => Err(Error::from_code(BAD_PARAMETERS)),
        }
    }

    /// Stops the stream: returns the bound native file, which the caller
    /// releases, and leaves none bound, so that it is released only once.
    pub fn stop(&mut self) -> (r: Option<Handle>)
        ensures
            r == old(self).camfile,
            final(self).camfile is None,
            final(self).fifo_fd == -1,
            final(self).fifo_path@ == old(self).fifo_path@,
    {
        let r = self.camfile;
        self.camfile = None;
        self.fifo_fd = -1;
        r
    }
}

} // verus!
