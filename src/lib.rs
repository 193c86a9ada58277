//! A pull-based byte stream fed by native producers: the buffering controller,
//! the single-reader stream handle, the one-shot finalizer and the tee that
//! fans one stream out into two branches.

pub mod body;
pub mod engine;
pub mod extract;
pub mod finalizer;
pub mod source;
pub mod stream;
pub mod tee;
pub mod window;
