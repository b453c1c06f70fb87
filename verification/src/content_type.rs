//! The content-type table of the asset-serving edge: which MIME name a
//! file extension selects. The serving itself is transport plumbing and
//! stays outside the library; the mapping is plain logic and is verified.

use vstd::prelude::*;

verus! {

/// The content types the asset-serving edge tells apart.
pub enum ContentType {
    CSS,
    HTML,
    PNG,
    TXT,
}

/// Which content type a file extension names; anything unknown is served
/// as plain text.
pub open spec fn content_type_of_ext(ext: Seq<char>) -> ContentType {
    if ext == "css"@ {
        ContentType::CSS
    } else if ext == "html"@ {
        ContentType::HTML
    } else if ext == "png"@ {
        ContentType::PNG
    } else {
        ContentType::TXT
    }
}

/// The MIME name of each content type.
pub open spec fn content_type_str(t: ContentType) -> Seq<char> {
    match t {
        ContentType::CSS => "text/css"@,
        ContentType::HTML => "text/html"@,
        ContentType::PNG => "image/png"@,
        ContentType::TXT => "text/plain"@,
    }
}

/// Relies on `str`'s `PartialEq`: two string slices are equal exactly when
/// their characters are.
#[verifier::external_body]
fn str_eq(a: &str, b: &str) -> (r: bool)
    ensures
        r == (a@ == b@),
{
    a == b
}

impl ContentType {
    /// The content type that file extension `ext` names.
    pub fn from_ext(ext: &str) -> (r: ContentType)
        ensures
            r == content_type_of_ext(ext@),
    {
        if str_eq(ext, "css") {
            ContentType::CSS
        } else if str_eq(ext, "html") {
            ContentType::HTML
        } else if str_eq(ext, "png") {
            ContentType::PNG
        } else {
            ContentType::TXT
        }
    }

    /// The MIME name to put in a response header.
    pub fn to_str(&self) -> (r: &str)
        ensures
            r@ == content_type_str(*self),
    {
        match *self {
            ContentType::CSS => "text/css",
            ContentType::HTML => "text/html",
            ContentType::PNG => "image/png",
            ContentType::TXT => "text/plain",
        }
    }
}

} // verus!
