//! A convenience wrapper for string-valued test vectors.
//!
//! A criterion function's arguments arrive as raw bytes; [`Utf8Str`] adapts
//! them to string-like use by decoding UTF-8 on construction, so a test can
//! compare text instead of bytes.

use crate::text::str_eq;
use vstd::prelude::*;
use vstd::utf8::{decode_utf8, valid_utf8};

verus! {

/// The failure of decoding a byte slice as UTF-8.
#[derive(Clone, Copy, Debug, PartialEq, Eq, Structural)]
pub struct Utf8Error;

/// Relies on `str::from_utf8`: it succeeds exactly on valid UTF-8 input,
/// and the returned slice holds the characters those bytes encode.
#[verifier::external_body]
fn str_from_utf8(bytes: &[u8]) -> (r: Option<&str>)
    ensures
        r is Some <==> valid_utf8(bytes@),
        r matches Some(s) ==> s@ == decode_utf8(bytes@),
{
    core::str::from_utf8(bytes).ok()
}

/// A string slice decoded from raw bytes.  It behaves as the wrapped
/// `&str`, but is constructed from a byte slice — the shape in which a
/// test vector's file contents arrive.
#[derive(Clone, Copy, Debug)]
pub struct Utf8Str<'a>(&'a str);

impl<'a> View for Utf8Str<'a> {
    type V = Seq<char>;

    closed spec fn view(&self) -> Seq<char> {
        self.0@
    }
}

impl<'a> Utf8Str<'a> {
    /// Decode a byte slice as UTF-8; fails exactly when the bytes are not
    /// valid UTF-8.
    pub fn try_from(bytes: &'a [u8]) -> (r: Result<Utf8Str<'a>, Utf8Error>)
        ensures
            r is Ok <==> valid_utf8(bytes@),
            r matches Ok(s) ==> s@ == decode_utf8(bytes@),
    {
        match str_from_utf8(bytes) {
            Some(s) => Ok(Utf8Str(s)),
            None => Err(Utf8Error),
        }
    }

    /// The wrapped string slice.
    pub fn deref(&self) -> (r: &'a str)
        ensures
            r@ == self@,
    {
        self.0
    }

    /// Whether the wrapped text equals the given string.
    pub fn eq(&self, other: &str) -> (r: bool)
        ensures
            r == (self@ == other@),
    {
        str_eq(self.0, other)
    }
}

} // verus!
