//! Serves a directory tree that was compiled into the binary.
//!
//! The tree is an [`include_dir::Dir`]; [`StaticFiles`] decides, for the path
//! of a request, whether to answer with a file, to redirect to the directory
//! form of the path, or to pass the request on.

pub mod media;
pub mod options;
pub mod outcome;
pub mod path;
pub mod request;
pub mod responder;
pub mod tree;

pub use include_dir::Dir;
pub use options::Options;
pub use outcome::{Outcome, Response};
pub use request::Uri;
pub use responder::StaticFiles;
