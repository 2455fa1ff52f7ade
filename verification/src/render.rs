//! Response rendering: the three output modes, each derived from the one
//! stored payload representation, together with the media type and the
//! cache-control window the response advertises.

use vstd::prelude::*;

use crate::cache::TTL_SECONDS;
use crate::pipeline::b64_decode;
use crate::pipeline::b64_decoding_of;
use crate::text::str_eq;

verus! {

/// The supported response encodings. Unknown or absent `mode` values fall
/// back to the binary body.
#[derive(Clone, Copy, Debug, PartialEq, Eq, Structural, Hash)]
pub enum Mode {
    Binary,
    Base64Text,
    Json,
}

/// The mode a present `mode` query value selects.
pub open spec fn mode_of(s: Seq<char>) -> Mode {
    if s == "json"@ {
        Mode::Json
    } else if s == "base64"@ {
        Mode::Base64Text
    } else {
        Mode::Binary
    }
}

/// Map the optional `mode` query value to an output mode. Total: anything
/// unrecognized is served as binary.
pub fn parse_mode(mode: Option<&str>) -> (m: Mode)
    ensures
        mode matches Some(s) ==> m == mode_of(s@),
        mode is None ==> m == Mode::Binary,
{
    match mode {
        None => Mode::Binary,
        Some(s) => {
            if str_eq(s, "json") {
                Mode::Json
            } else if str_eq(s, "base64") {
                Mode::Base64Text
            } else {
                Mode::Binary
            }
        },
    }
}

/// A rendered response body, ready for the transport layer.
#[allow(inconsistent_fields)]
pub enum Output {
    /// The raw animation bytes, served as `image/gif`.
    Binary { body: Vec<u8> },
    /// The stored representation as a data-URI-style text body.
    Base64Text { body: String },
    /// The JSON envelope fields: the identity and the stored representation.
    Json { id: String, image_data: String },
}

/// The mathematical image of a rendered response.
#[allow(inconsistent_fields)]
#[verifier::ext_equal]
pub enum OutputModel {
    Binary { body: Seq<u8> },
    Base64Text { body: Seq<char> },
    Json { id: Seq<char>, image_data: Seq<char> },
}

impl View for Output {
    type V = OutputModel;

    open spec fn view(&self) -> OutputModel {
        match self {
            Output::Binary { body } => OutputModel::Binary { body: body@ },
            Output::Base64Text { body } => OutputModel::Base64Text { body: body@ },
            Output::Json { id, image_data } => OutputModel::Json {
                id: id@,
                image_data: image_data@,
            },
        }
    }
}

/// The prefix of the data-URI-style text body.
pub open spec fn data_uri_prefix() -> Seq<char> {
    "data:image/png;base64,"@
}

/// What each mode renders from a stored payload: the JSON envelope and the
/// text body carry the representation itself; the binary body is its decoding,
/// absent when the payload is not a valid encoding.
pub open spec fn render_model(mode: Mode, id: Seq<char>, payload: Seq<char>) -> Option<
    OutputModel,
> {
    match mode {
        Mode::Json => Some(OutputModel::Json { id: id, image_data: payload }),
        Mode::Base64Text => Some(OutputModel::Base64Text { body: data_uri_prefix() + payload }),
        Mode::Binary => match b64_decoding_of(payload) {
            Some(b) => Some(OutputModel::Binary { body: b }),
            None => None,
        },
    }
}

/// Render a stored payload in the requested mode.
pub fn render(mode: Mode, id_str: &str, payload: &String) -> (r: Option<Output>)
    ensures
        r is Some <==> render_model(mode, id_str@, payload@) is Some,
        r matches Some(o) ==> render_model(mode, id_str@, payload@) == Some(o@),
{
    match mode {
        Mode::Json => Some(Output::Json { id: id_str.to_owned(), image_data: payload.clone() }),
        Mode::Base64Text => {
            let body = String::from_str("data:image/png;base64,").concat(payload.as_str());
            Some(Output::Base64Text { body })
        },
        Mode::Binary => match b64_decode(payload.as_str()) {
            Some(bytes) => Some(Output::Binary { body: bytes }),
            None => None,
        },
    }
}

/// Seconds of the cache-control window a response advertises: the TTL on the
/// binary and text bodies; none required on the JSON envelope.
pub open spec fn cache_control_secs_spec(mode: Mode) -> Option<u64> {
    match mode {
        Mode::Json => None,
        _ => Some(TTL_SECONDS),
    }
}

pub fn cache_control_secs(mode: Mode) -> (r: Option<u64>)
    ensures
        r == cache_control_secs_spec(mode),
{
    match mode {
        Mode::Json => None,
        _ => Some(TTL_SECONDS),
    }
}

/// The media type of each mode's body.
pub open spec fn content_type_spec(mode: Mode) -> Seq<char> {
    match mode {
        Mode::Binary => "image/gif"@,
        Mode::Base64Text => "text/plain"@,
        Mode::Json => "application/json"@,
    }
}

pub fn content_type(mode: Mode) -> (r: &'static str)
    ensures
        r@ == content_type_spec(mode),
{
    match mode {
        Mode::Binary => "image/gif",
        Mode::Base64Text => "text/plain",
        Mode::Json => "application/json",
    }
}

/// Rendering equivalence law: the three modes derive from the same stored
/// representation. The JSON envelope and the text body embed the payload
/// itself, and whenever the payload decodes, the binary body is exactly that
/// decoding — so decoding the text body's representation yields the binary
/// body.
pub proof fn lemma_rendering_equivalence(id: Seq<char>, payload: Seq<char>)
    ensures
        render_model(Mode::Json, id, payload) == Some(
            OutputModel::Json { id: id, image_data: payload },
        ),
        render_model(Mode::Base64Text, id, payload) == Some(
            OutputModel::Base64Text { body: data_uri_prefix() + payload },
        ),
        (render_model(Mode::Binary, id, payload) is Some) == (b64_decoding_of(payload) is Some),
        b64_decoding_of(payload) matches Some(bytes) ==> render_model(Mode::Binary, id, payload)
            == Some(OutputModel::Binary { body: bytes }),
{
}

} // verus!
