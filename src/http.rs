//! HTTP status codes and content kinds, with their fixed wire strings.
use vstd::prelude::*;

use crate::text::str_eq;

verus! {

/// Represents HTTP status codes used in HTTP response messages.
#[derive(Clone, Copy, Debug, PartialEq, Eq, Structural)]
pub enum HttpStatusCode {
    OK,
    BadRequest,
    NotFound,
    InternalServerError,
}

/// The status line text of each status code.
pub open spec fn status_text(s: HttpStatusCode) -> Seq<char> {
    match s {
        HttpStatusCode::OK => "200 OK"@,
        HttpStatusCode::BadRequest => "400 BAD REQUEST"@,
        HttpStatusCode::NotFound => "404 NOT FOUND"@,
        HttpStatusCode::InternalServerError => "500 INTERNAL SERVER ERROR"@,
    }
}

impl HttpStatusCode {
    /// Returns the status line corresponding to the HTTP status code.
    pub fn status_line(&self) -> (r: &str)
        ensures
            r@ == status_text(*self),
    {
        match self {
            HttpStatusCode::OK => "200 OK",
            HttpStatusCode::BadRequest => "400 BAD REQUEST",
            HttpStatusCode::NotFound => "404 NOT FOUND",
            HttpStatusCode::InternalServerError => "500 INTERNAL SERVER ERROR",
        }
    }
}

/// The kind of content a response carries.
#[derive(Clone, Copy, Debug, PartialEq, Eq, Structural)]
pub enum HttpContentType {
    Html,
    Css,
    Jpg,
    Png,
}

/// The MIME type of each content kind.
pub open spec fn mime_text(k: HttpContentType) -> Seq<char> {
    match k {
        HttpContentType::Html => "text/html"@,
        HttpContentType::Css => "text/css"@,
        HttpContentType::Jpg => "image/jpg"@,
        HttpContentType::Png => "image/png"@,
    }
}

/// The content kind named by a file extension; an unrecognised extension
/// falls back to PNG.
pub open spec fn kind_of_extension(ext: Seq<char>) -> HttpContentType {
    if ext == "html"@ {
        HttpContentType::Html
    } else if ext == "css"@ {
        HttpContentType::Css
    } else if ext == "jpg"@ || ext == "jpeg"@ {
        HttpContentType::Jpg
    } else {
        HttpContentType::Png
    }
}

impl HttpContentType {
    /// Returns the MIME type of the content kind.
    pub fn content_type(&self) -> (r: &str)
        ensures
            r@ == mime_text(*self),
    {
        match self {
            HttpContentType::Html => "text/html",
            HttpContentType::Css => "text/css",
            HttpContentType::Jpg => "image/jpg",
            HttpContentType::Png => "image/png",
        }
    }

    /// Derives the content kind from a file extension, by exact match.
    pub fn from_extension(extension: &str) -> (r: HttpContentType)
        ensures
            r == kind_of_extension(extension@),
    {
        if str_eq(extension, "html") {
            HttpContentType::Html
        } else if str_eq(extension, "css") {
            HttpContentType::Css
        } else if str_eq(extension, "jpg") || str_eq(extension, "jpeg") {
            HttpContentType::Jpg
        } else {
            HttpContentType::Png
        }
    }
}

impl<'a> From<&'a str> for HttpContentType {
    fn from(extension: &'a str) -> (r: HttpContentType) {
        HttpContentType::from_extension(extension)
    }
}

impl<'a> vstd::std_specs::convert::FromSpecImpl<&'a str> for HttpContentType {
    open spec fn obeys_from_spec() -> bool {
        true
    }

    open spec fn from_spec(extension: &'a str) -> HttpContentType {
        kind_of_extension(extension@)
    }
}

} // verus!
