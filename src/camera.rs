use vstd::prelude::*;

use crate::error::{check, Error, Result, CORRUPTED_DATA, GENERIC};
use crate::handle::Handle;
use crate::media::Media;
use crate::tree::{leaves_at, ConfigTree};
use crate::widget::Widget;

verus! {

/// The scope (cancellation, progress, logging) that native calls run in.
#[derive(PartialEq, Eq, Structural, Clone, Copy, Debug)]
pub struct Context {
    pub handle: Handle,
}

/// A camera connected to the system, by its native handle.
#[derive(PartialEq, Eq, Structural, Clone, Copy, Debug)]
pub struct Camera {
    pub handle: Handle,
}

/// A file stored on a camera's storage: its folder and its name.
#[derive(Clone, Debug)]
pub struct CameraFile {
    pub folder: String,
    pub name: String,
}

/// The native transfer of one camera file into a media sink.
#[derive(Clone, Debug)]
pub struct DownloadRequest {
    pub camera: Handle,
    pub folder: String,
    pub name: String,
    pub destination: Handle,
    pub context: Handle,
}

impl CameraFile {
    /// Returns the directory that the file is stored in.
    pub fn directory(&self) -> (r: &str)
        ensures
            r@ == self.folder@,
    {
        self.folder.as_str()
    }

    /// Returns the name of the file without the directory.
    pub fn basename(&self) -> (r: &str)
        ensures
            r@ == self.name@,
    {
        self.name.as_str()
    }
}

impl Camera {
    /// The camera whose native handle initialisation returned, once the status
    /// of the native open and init calls is known.
    pub fn autodetect(context: &Context, status: i32, handle: Handle) -> (r: Result<Camera>)
        ensures
            status == crate::error::OK ==> r == Ok::<Camera, Error>(Camera { handle }),
            status != crate::error::OK ==> r == Err::<Camera, Error>(Error { code: status }),
    {
        match check(status) {
            Ok(()) => Ok(Camera { handle }),
            Err(e) => Err(e),
        }
    }

    /// The file that a still capture produced, once the status of the native
    /// capture call is known.
    pub fn capture_image(&self, status: i32, folder: String, name: String) -> (r: Result<
        CameraFile,
    >)
        ensures
            status == crate::error::OK <==> r is Ok,
            r is Ok ==> r->Ok_0.folder@ == folder@ && r->Ok_0.name@ == name@,
            status != crate::error::OK ==> r == Err::<CameraFile, Error>(Error { code: status }),
    {
        match check(status) {
            Ok(()) => Ok(CameraFile { folder, name }),
            Err(e) => Err(e),
        }
    }

    /// The native call that streams `source` from this camera into
    /// `destination`.
    pub fn download<T: Media>(&self, context: &Context, source: &CameraFile, destination: &T) -> (r:
        DownloadRequest)
        ensures
            r.camera == self.handle,
            r.folder@ == source.folder@,
            r.name@ == source.name@,
            r.destination == destination.spec_file_handle(),
            r.context == context.handle,
    {
        DownloadRequest {
            camera: self.handle,
            folder: source.folder.clone(),
            name: source.name.clone(),
            destination: destination.file_handle(),
            context: context.handle,
        }
    }

    /// One widget for each leaf of the configuration tree, depth first in
    /// native child order, each over this camera, `context` and the tree's
    /// window. A tree without a root gives an error.
    pub fn widget(&self, context: &Context, tree: &ConfigTree) -> (r: Result<Vec<Widget>>)
        ensures
            r is Err <==> tree.nodes@.len() == 0,
            r is Err ==> r == Err::<Vec<Widget>, Error>(Error { code: GENERIC }),
            r is Ok ==> r->Ok_0@.len() == leaves_at(tree.nodes@, 0).len() && forall|i: int|
                0 <= i < r->Ok_0@.len() ==> #[trigger] r->Ok_0@[i] == (Widget {
                    context: context.handle,
                    camera: self.handle,
                    window: tree.nodes@[0].handle,
                    inner: leaves_at(tree.nodes@, 0)[i],
                }),
    {
        if tree.nodes.len() == 0 {
            return Err(Error::from_code(GENERIC));
        }
        let window = tree.nodes[0].handle;
        let leaves = tree.leaves();
        let mut out: Vec<Widget> = Vec::new();
        let mut i: usize = 0;
        while i < leaves.len()
            invariant
                i <= leaves@.len(),
                leaves@ == leaves_at(tree.nodes@, 0),
                window == tree.nodes@[0].handle,
                out@.len() == i,
                forall|j: int|
                    0 <= j < i ==> #[trigger] out@[j] == (Widget {
                        context: context.handle,
                        camera: self.handle,
                        window: window,
                        inner: leaves@[j],
                    }),
            decreases leaves@.len() - i,
        {
            match Widget::from_raw(context.handle, self.handle, window, leaves[i]) {
                Ok(w) => out.push(w),
                Err(e) => return Err(e),
            }
            i = i + 1;
        }
        Ok(out)
    }
}

/// What the native library's UTF-8 decoding makes of a byte string: the
/// characters, or `None` when the bytes are not valid UTF-8.
pub uninterp spec fn utf8_decoding(bytes: Seq<u8>) -> Option<Seq<char>>;

/// Relies on `String::from_utf8`: it succeeds exactly on valid UTF-8, with the
/// decoded characters, and the outcome depends on the bytes alone. The empty
/// byte string decodes to the empty text.
#[verifier::external_body]
fn decode_utf8(bytes: Vec<u8>) -> (r: Option<String>)
    ensures
        r is Some <==> utf8_decoding(bytes@) is Some,
        r is Some ==> utf8_decoding(bytes@) == Some(r->0@),
        bytes@.len() == 0 ==> r is Some && r->0@.len() == 0,
{
    String::from_utf8(bytes).ok()
}

/// The length of a NUL-terminated byte string held in a buffer: the bytes
/// before the first NUL, or the whole buffer when it holds none.
pub open spec fn c_text_len(b: Seq<u8>) -> nat
    decreases b.len(),
{
    if b.len() == 0 || b[0] == 0 {
        0
    } else {
        1 + c_text_len(b.drop_first())
    }
}

proof fn lemma_c_text_len(b: Seq<u8>, n: int)
    requires
        0 <= n <= b.len(),
        forall|j: int| 0 <= j < n ==> b[j] != 0,
        n == b.len() || b[n] == 0,
    ensures
        c_text_len(b) == n,
    decreases n,
{
    if n > 0 {
        lemma_c_text_len(b.drop_first(), n - 1);
    }
}

/// The text in a native text buffer: the bytes before the first NUL, decoded
/// as UTF-8. Bytes that are not valid UTF-8 give a `CORRUPTED_DATA` error.
pub fn camera_text_to_string(text: &[u8]) -> (r: Result<String>)
    ensures
        utf8_decoding(text@.take(c_text_len(text@) as int)) is None ==> r == Err::<String, Error>(
            Error { code: CORRUPTED_DATA },
        ),
        utf8_decoding(text@.take(c_text_len(text@) as int)) is Some ==> r is Ok && Some(r->Ok_0@)
            == utf8_decoding(text@.take(c_text_len(text@) as int)),
{
    let mut bytes: Vec<u8> = Vec::new();
    let mut i: usize = 0;
    while i < text.len() && text[i] != 0
        invariant
            i <= text@.len(),
            bytes@ == text@.take(i as int),
            forall|j: int| 0 <= j < i ==> text@[j] != 0,
        decreases text@.len() - i,
    {
        bytes.push(text[i]);
        i = i + 1;
        assert(bytes@ =~= text@.take(i as int));
    }
    proof {
        lemma_c_text_len(text@, i as int);
    }
    match decode_utf8(bytes) {
        Some(s) => Ok(s),
        None => Err(Error::from_code(CORRUPTED_DATA)),
    }
}

/// The outcome of a native text query (summary, manual, driver notes): the
/// call's own error, or else the text that the buffer holds.
pub fn read_camera_text(status: i32, text: &[u8]) -> (r: Result<String>)
    ensures
        status != crate::error::OK ==> r == Err::<String, Error>(Error { code: status }),
        status == crate::error::OK && utf8_decoding(text@.take(c_text_len(text@) as int)) is None
            ==> r == Err::<String, Error>(Error { code: CORRUPTED_DATA }),
        status == crate::error::OK && utf8_decoding(text@.take(c_text_len(text@) as int)) is Some
            ==> r is Ok && Some(r->Ok_0@) == utf8_decoding(text@.take(c_text_len(text@) as int)),
{
    match check(status) {
        Ok(()) => camera_text_to_string(text),
        Err(e) => Err(e),
    }
}

/// The outcome of a native call that returns nothing.
pub fn finish(status: i32) -> (r: Result<()>)
    ensures
        status == crate::error::OK <==> r is Ok,
        status != crate::error::OK ==> r == Err::<(), Error>(Error { code: status }),
{
    check(status)
}

} // verus!
