//! A multi-format clipboard library: the shared format and value model, the
//! codecs that sit between values and native payloads, and the rules by which
//! a batch of formats is read from or offered to a platform clipboard.
//!
//! The library never touches the operating system itself. It says what has to
//! be read or offered, and it turns what a platform session reported into
//! clipboard values and errors.

pub mod codec;
pub mod common;
pub mod dispatch;
pub mod lifecycle;
pub mod platform;
pub mod text;
pub mod url;

pub use common::err;
pub use common::ClipboardData;
pub use common::ClipboardFormat;
pub use common::ClipboardProvider;
pub use common::Error;
pub use common::ImageData;
pub use common::ImageRgba;
pub use common::LinuxClipboardKind;
pub use common::WaitConfig;
pub use dispatch::GetAction;
pub use dispatch::GetFormats;
