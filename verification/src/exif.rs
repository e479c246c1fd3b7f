//! EXIF metadata: a JSON document carried as text. The library checks that
//! the text is JSON and keeps it as written; its shape is the reader's to
//! interpret.

use vstd::prelude::*;
use vstd::string::*;

verus! {

/// Whether serde_json takes the text as one JSON value.
pub uninterp spec fn json_document(text: Seq<char>) -> bool;

/// Trusted: calls `serde_json::from_str` for a `serde_json::Value` and says
/// whether it gave a value or an error. The contract only names that
/// outcome; it depends on the text alone.
#[verifier::external_body]
fn is_json_text(text: &str) -> (r: bool)
    ensures
        r == json_document(text@),
{
    serde_json::from_str::<serde_json::Value>(text).is_ok()
}

/// EXIF metadata of a media file.
#[derive(Debug, PartialEq, Eq)]
pub struct ExifData {
    text: String,
}

impl View for ExifData {
    type V = Seq<char>;

    closed spec fn view(&self) -> Seq<char> {
        self.text@
    }
}

impl Clone for ExifData {
    fn clone(&self) -> (r: Self)
        ensures
            r@ == self@,
    {
        proof {
            use_type_invariant(self);
        }
        ExifData { text: self.text.clone() }
    }
}

impl ExifData {
    #[verifier::type_invariant]
    spec fn is_document(self) -> bool {
        self.text@.len() > 0 && json_document(self.text@)
    }

    /// Takes a text as metadata if it is not empty and is a JSON document.
    pub fn parse(text: &str) -> (r: Option<ExifData>)
        ensures
            r is Some <==> text@.len() > 0 && json_document(text@),
            r matches Some(d) ==> d@ == text@,
    {
        if !text.is_empty() && is_json_text(text) {
            Some(ExifData { text: String::from_str(text) })
        } else {
            None
        }
    }

    /// The JSON text.
    pub fn as_str(&self) -> (s: &str)
        ensures
            s@ == self@,
            self@.len() > 0,
            json_document(self@),
    {
        proof {
            use_type_invariant(self);
        }
        self.text.as_str()
    }
}

} // verus!
