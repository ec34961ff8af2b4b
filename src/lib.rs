//! Ownership, value and error bookkeeping for a native camera-control library.
//!
//! Native handles are carried as plain integer identifiers; the calls that
//! dereference them are made by the host program, which hands the results back
//! to the functions here.
pub mod camera;
pub mod error;
pub mod handle;
pub mod media;
pub mod tree;
pub mod value_text;
pub mod video;
pub mod widget;
pub mod write;

pub use camera::{camera_text_to_string, Camera, CameraFile, Context};
pub use media::{FileMedia, Media};
pub use error::{Error, ErrorKind, Result};
pub use handle::{Handle, RefEvent, RefTarget};
pub use tree::{ConfigNode, ConfigTree};
pub use video::{PreviewRequest, Video};
pub use widget::{ValueShape, Widget, WidgetType, WidgetValue};
