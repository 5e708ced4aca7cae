//! From an obtained JSON payload to the text that is shown.

use vstd::prelude::*;
use crate::display::WordDisplay;
use crate::display::rendered;
use crate::json::json_of;
use crate::options::DisplayOptions;
use crate::parser::ParseError;
use crate::parser::parse_word_json;
use crate::parser::record_of;
use crate::parser::record_shape_ok;

verus! {

/// Renders one obtained JSON payload under the given options. Raw mode
/// hands the payload back verbatim, unparsed: it succeeds even for
/// malformed JSON. Structured mode parses the payload and renders the
/// record; a payload that does not parse is reported as the error and
/// never aborts — the cache already holds the raw bytes regardless.
pub fn handle_word_json(word_json: &str, options: &DisplayOptions) -> (r: Result<
    String,
    ParseError,
>)
    ensures
        options.json ==> (r matches Ok(out) && out@ == word_json@),
        !options.json ==> match r {
            Ok(out) => json_of(word_json@) matches Some(j) && record_shape_ok(j) && out@
                == rendered(record_of(j), *options),
            Err(ParseError::Syntax) => json_of(word_json@) is None,
            Err(ParseError::Shape) => json_of(word_json@) matches Some(j) && !record_shape_ok(
                j,
            ),
        },
{
    if options.json {
        Ok(word_json.to_owned())
    } else {
        match parse_word_json(word_json) {
            Ok(record) => {
                let display = WordDisplay::new(record, *options);
                Ok(display.display_word_data())
            },
            Err(e) => Err(e),
        }
    }
}

} // verus!
