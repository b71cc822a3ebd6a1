use vstd::prelude::*;

use crate::error::{result_view, ErrorView, GameSenseError};

verus! {

/// The body the engine sends for an endpoint it does not know.
pub const NOT_FOUND_BODY: &'static str = "Page not found";

/// The entries of `text` read as a JSON object, in the order received: each
/// key, the value's text (a string value as it is, any other value as its
/// JSON text), and whether the value is a string. `None` where `text` is not
/// a JSON object.
pub uninterp spec fn json_object_entries(text: Seq<char>) -> Option<Seq<(Seq<char>, Seq<char>, bool)>>;

pub open spec fn entries_view(v: Seq<(String, String, bool)>) -> Seq<(Seq<char>, Seq<char>, bool)> {
    Seq::new(v.len(), |i: int| (v[i].0@, v[i].1@, v[i].2))
}

pub open spec fn parsed_view(p: Option<Vec<(String, String, bool)>>) -> Option<
    Seq<(Seq<char>, Seq<char>, bool)>,
> {
    match p {
        Some(v) => Some(entries_view(v@)),
        None => None,
    }
}

/// Relies on serde_json::from_str into a `serde_json::Map` (kept in the order
/// received), and on `Display` for `serde_json::Value` for values that are
/// not strings.
#[verifier::external_body]
pub(crate) fn parse_object_entries(text: &str) -> (r: Option<Vec<(String, String, bool)>>)
    ensures
        parsed_view(r) == json_object_entries(text@),
{
    match serde_json::from_str::<serde_json::Map<String, serde_json::Value>>(text) {
        Ok(map) => Some(
            map.into_iter().map(|(k, v)| match v {
                serde_json::Value::String(s) => (k, s, true),
                other => (k, other.to_string(), false),
            }).collect(),
        ),
        Err(_) => None,
    }
}

/// What an envelope whose entries are `entries` means: the first entry
/// decides; under the key `error` it is the engine's failure message,
/// under any other key it is the result.
pub open spec fn entries_outcome(entries: Option<Seq<(Seq<char>, Seq<char>, bool)>>) -> Result<
    Seq<char>,
    ErrorView,
> {
    match entries {
        None => Err(ErrorView::MalformedResponse),
        Some(es) => if es.len() == 0 {
            Err(ErrorView::MalformedResponse)
        } else if es[0].0 == "error"@ {
            Err(ErrorView::EngineError(es[0].1))
        } else {
            Ok(es[0].1)
        },
    }
}

/// What the engine's answer `text` means.
pub open spec fn envelope_outcome(text: Seq<char>) -> Result<Seq<char>, ErrorView> {
    if text == NOT_FOUND_BODY@ {
        Err(ErrorView::EndpointNotFound)
    } else {
        entries_outcome(json_object_entries(text))
    }
}

/// Decides an answer from the entries that parsing it gave.
pub fn decode_entries(entries: Option<Vec<(String, String, bool)>>) -> (r: Result<
    String,
    GameSenseError,
>)
    ensures
        result_view(r) == entries_outcome(parsed_view(entries)),
{
    match entries {
        None => Err(GameSenseError::MalformedResponse),
        Some(es) => {
            let ghost view = entries_view(es@);
            if es.len() == 0 {
                Err(GameSenseError::MalformedResponse)
            } else {
                let mut es = es;
                let (key, value, _) = es.remove(0);
                assert(key@ == view[0].0 && value@ == view[0].1);
                if key == "error".to_owned() {
                    Err(GameSenseError::EngineError(value))
                } else {
                    Ok(value)
                }
            }
        },
    }
}

/// Decodes the engine's answer: the result on success, else why it failed.
pub fn decode_response(text: &str) -> (r: Result<String, GameSenseError>)
    ensures
        result_view(r) == envelope_outcome(text@),
{
    if text.to_owned() == NOT_FOUND_BODY.to_owned() {
        Err(GameSenseError::EndpointNotFound)
    } else {
        decode_entries(parse_object_entries(text))
    }
}

} // verus!
