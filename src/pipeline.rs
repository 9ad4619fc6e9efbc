use vstd::prelude::*;
use vstd::utf8::{decode_utf8, valid_utf8};
use crate::decode::decode_metadata;
use crate::error::Error;
use crate::json::{parse_value, parsed_json};
use crate::model::{Metadata, MetadataView};

verus! {

/// The text that `String::from_utf8_lossy` makes of some bytes.
pub uninterp spec fn lossy_text(b: Seq<u8>) -> Seq<char>;

/// The text that `str::trim` leaves of a text.
pub uninterp spec fn trimmed(s: Seq<char>) -> Seq<char>;

/// Relies on `String::from_utf8`: it succeeds exactly on valid UTF-8 and
/// then holds the text those bytes encode.
#[verifier::external_body]
fn utf8_text(b: Vec<u8>) -> (r: Option<String>)
    ensures
        r is Some <==> valid_utf8(b@),
        r is Some ==> r->Some_0@ == decode_utf8(b@),
{
    String::from_utf8(b).ok()
}

/// Relies on `String::from_utf8_lossy`: valid UTF-8 is kept as it is.
#[verifier::external_body]
fn lossy_utf8_text(b: &Vec<u8>) -> (r: String)
    ensures
        r@ == lossy_text(b@),
        valid_utf8(b@) ==> r@ == decode_utf8(b@),
{
    String::from_utf8_lossy(b).into_owned()
}

/// Relies on `str::trim`: the text without leading and trailing whitespace.
#[verifier::external_body]
fn trim_text(s: &String) -> (r: String)
    ensures
        r@ == trimmed(s@),
{
    s.trim().to_string()
}

/// The graph that a text decodes to, if it is a well-formed metadata document.
pub open spec fn decode_text(s: Seq<char>) -> Option<MetadataView> {
    match parsed_json(s) {
        Some(j) => decode_metadata(j),
        None => None,
    }
}

/// Decodes the tool's JSON report.
pub fn parse_metadata(text: &str) -> (r: Result<Metadata, Error>)
    ensures
        r is Ok <==> decode_text(text@) is Some,
        r is Ok ==> decode_text(text@) == Some(r->Ok_0@),
        r is Err ==> r->Err_0 is StructuralDecode,
{
    match parse_value(text) {
        Ok(v) => match Metadata::from_json(&v) {
            Some(m) => Ok(m),
            None => Err(Error::StructuralDecode(
                "the document does not have the shape of a metadata report".to_owned(),
            )),
        },
        Err(e) => Err(Error::StructuralDecode(e)),
    }
}

/// Classifies what the tool left behind: a failing exit status gives its
/// trimmed diagnostic, else the output must be UTF-8 text holding a
/// well-formed metadata document.
pub fn parse_output(success: bool, stdout: Vec<u8>, stderr: &Vec<u8>) -> (r: Result<Metadata, Error>)
    ensures
        !success ==> r is Err && r->Err_0 is ToolReported
            && r->Err_0->ToolReported_0@ == trimmed(lossy_text(stderr@)),
        success && !valid_utf8(stdout@) ==> r is Err && r->Err_0 is Encoding,
        success && valid_utf8(stdout@) ==> {
            &&& r is Ok <==> decode_text(decode_utf8(stdout@)) is Some
            &&& r is Ok ==> decode_text(decode_utf8(stdout@)) == Some(r->Ok_0@)
            &&& r is Err ==> r->Err_0 is StructuralDecode
        },
{
    if !success {
        let text = lossy_utf8_text(stderr);
        return Err(Error::ToolReported(trim_text(&text)));
    }
    match utf8_text(stdout) {
        Some(text) => parse_metadata(text.as_str()),
        None => Err(Error::Encoding),
    }
}

} // verus!
