//! Reading a venue's text frames: JSON first, then the venue's classifier.

use vstd::prelude::*;
use crate::error::ExStreamError;
use crate::json::{parse_json, parsed_json, JsonValue};

verus! {

/// The inbound messages of one venue. A classifier tries the venue's shapes
/// in a fixed order and takes the first whose required fields are all there
/// with the right types; a document of no known shape is kept as raw text.
pub trait VenueMessage: Sized {
    /// Whether `m` is what a document reads as; `raw` is the frame it came
    /// in. Each document reads as exactly one message, up to the views of
    /// its texts and lists.
    spec fn reads_as(doc: JsonValue, raw: String, m: Self) -> bool;

    fn classify(doc: &JsonValue, raw: &String) -> (r: Self)
        ensures
            Self::reads_as(*doc, *raw, r),
    ;
}

/// Reads one text frame: a frame that is not JSON is a parse error that keeps
/// the frame's text; any JSON document is classified.
pub fn parse_frame<M: VenueMessage>(text: String) -> (r: Result<M, ExStreamError>)
    ensures
        parsed_json(text@) is None <==> r is Err,
        r matches Err(e) ==> e matches ExStreamError::ParseError { raw_content, .. } && raw_content == text,
        r matches Ok(m) ==> M::reads_as(parsed_json(text@)->0, text, m),
{
    match parse_json(text.as_str()) {
        Ok(doc) => Ok(M::classify(&doc, &text)),
        Err(error) => Err(ExStreamError::ParseError { error, raw_content: text }),
    }
}

} // verus!
