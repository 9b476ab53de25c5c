//! The pipeline's error values.
//!
//! Every failure in the pipeline is terminal: it is reported once and the
//! tool exits nonzero. Callers that perform I/O map their own failures onto
//! these variants; the verified functions state in their contracts exactly
//! which variant they return and when.

use vstd::prelude::*;
use vstd::string::StringExecFns;

verus! {

/// One terminal failure of the query-resolve-download pipeline.
#[derive(Debug, PartialEq, Eq)]
pub enum Error {
    /// The marketplace or asset host could not be reached.
    ReqwestDns,
    /// The download response carried no usable content length.
    ReqwestLength,
    /// The response body did not match the expected envelope shape.
    JsonParse,
    /// A file could not be written.
    FileWrite,
    /// A file could not be read back.
    FileRead,
    /// A file could not be deleted.
    FileDelete,
    /// The search produced no extension; carries the search term.
    Search(String),
    /// The installer program could not be launched.
    Command,
    /// The selected index was outside the listed range, or no installable
    /// package asset exists.
    IndexOutOfBound,
    /// A string could not be read as an integer.
    ParseInt,
    /// An asset URL could not be parsed.
    UrlParse,
    /// The output stream could not be flushed.
    Flush,
}

/// The one-line description of each failure, as reported to the user.
pub open spec fn spec_message(e: Error) -> Seq<char> {
    match e {
        Error::ReqwestDns => "Couldn't resolve the site."@,
        Error::ReqwestLength => "Error while trying to get the content length"@,
        Error::JsonParse => "The json received doesn't match what is expected."@,
        Error::FileWrite => "Error while writing a file."@,
        Error::FileRead => "Error while reading a file."@,
        Error::FileDelete => "Error while deleting a file."@,
        Error::Search(term) => "Couldn't find the extension: "@ + term@,
        Error::Command => "Couldn't find the program used to install the extension."@,
        Error::IndexOutOfBound => "The index you selected is invalid."@,
        Error::ParseInt => "Couldn't parse a string to an integer."@,
        Error::UrlParse => "Couldn't parse a url."@,
        Error::Flush => "Error while trying to flush the buffer."@,
    }
}

impl Error {
    /// The one-line description reported to the user before the tool exits.
    pub fn message(&self) -> (s: String)
        ensures
            s@ == spec_message(*self),
    {
        match self {
            Error::ReqwestDns => "Couldn't resolve the site.".to_owned(),
            Error::ReqwestLength => "Error while trying to get the content length".to_owned(),
            Error::JsonParse => "The json received doesn't match what is expected.".to_owned(),
            Error::FileWrite => "Error while writing a file.".to_owned(),
            Error::FileRead => "Error while reading a file.".to_owned(),
            Error::FileDelete => "Error while deleting a file.".to_owned(),
            Error::Search(term) => {
                let mut s: String = "Couldn't find the extension: ".to_owned();
                s.append(term.as_str());
                s
            },
            Error::Command => "Couldn't find the program used to install the extension.".to_owned(),
            Error::IndexOutOfBound => "The index you selected is invalid.".to_owned(),
            Error::ParseInt => "Couldn't parse a string to an integer.".to_owned(),
            Error::UrlParse => "Couldn't parse a url.".to_owned(),
            Error::Flush => "Error while trying to flush the buffer.".to_owned(),
        }
    }
}

} // verus!
