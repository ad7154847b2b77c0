//! Compile-time expansion of a single "criterion" test function into one
//! standalone unit test per case directory found in a corpus directory.
//!
//! The pipeline is: parse the attribute arguments (`dir = "<path>"`) into a
//! typed configuration, inspect the criterion function's signature for its
//! ordered parameter names, enumerate the case subdirectories of the corpus,
//! and synthesize one test function per case.  Each generated test calls the
//! renamed original function with one argument per parameter — the bytes
//! of the file `<dir>/<case>/<argname>`, included at compile time and
//! adapted by the byte-to-argument conversion trait.  Every failure is
//! turned into a diagnostic anchored at the offending token instead of an
//! abort.
//!
//! The host language's token trees, function items and directory entries
//! are represented as plain data ([`Token`], [`ItemFn`], [`DirRead`]); an
//! adapter converts to and from the compiler's own types at the boundary
//! and performs the actual directory reads.

pub mod error;
pub mod fnargs;
pub mod listdir;
pub mod params;
pub mod text;
pub mod transform;
pub mod utf8str;

pub use error::{Diagnostic, Error, Span};
pub use fnargs::{FnArg, Pat, Signature};
pub use listdir::{DirRead, EntryInfo};
pub use params::{MacroParams, Token};
pub use transform::{Expansion, GeneratedTest, ItemFn};
pub use utf8str::Utf8Str;
