use vstd::prelude::*;
use vstd::utf8::{decode_utf8, valid_utf8};

verus! {

/// Why a request body did not yield a payload.
#[derive(Debug, Clone, Copy, PartialEq, Eq, Structural)]
pub enum DeserializeError {
    /// The body could not be read to its end.
    CollectBodyFail,
    /// The text is not the JSON of the payload.
    ParseError,
    /// The bytes are not UTF-8.
    NotUtf8,
}

impl DeserializeError {
    /// The message of the error.
    pub open spec fn message(self) -> Seq<char> {
        match self {
            DeserializeError::CollectBodyFail => "collect body error"@,
            DeserializeError::ParseError => "parse body error"@,
            DeserializeError::NotUtf8 => "encode body error"@,
        }
    }

    /// The message of the error as a string.
    pub fn to_string(&self) -> (message: String)
        ensures
            message@ == self.message(),
    {
        match self {
            DeserializeError::CollectBodyFail => "collect body error".to_owned(),
            DeserializeError::ParseError => "parse body error".to_owned(),
            DeserializeError::NotUtf8 => "encode body error".to_owned(),
        }
    }
}

/// Calls `String::from_utf8`. Trusted: it succeeds exactly on valid UTF-8,
/// and the string then holds the text that the bytes encode.
#[verifier::external_body]
fn string_from_utf8(bytes: Vec<u8>) -> (text: Option<String>)
    ensures
        text is Some <==> valid_utf8(bytes@),
        text matches Some(s) ==> s@ == decode_utf8(bytes@),
{
    String::from_utf8(bytes).ok()
}

/// The text of a request body. `collected` holds the bytes of the body, or
/// `None` if reading it failed.
pub fn decode_body(collected: Option<Vec<u8>>) -> (text: Result<String, DeserializeError>)
    ensures
        match collected {
            None => text == Err::<String, DeserializeError>(DeserializeError::CollectBodyFail),
            Some(bytes) => if valid_utf8(bytes@) {
                text matches Ok(s) && s@ == decode_utf8(bytes@)
            } else {
                text == Err::<String, DeserializeError>(DeserializeError::NotUtf8)
            },
        },
{
    match collected {
        None => Err(DeserializeError::CollectBodyFail),
        Some(bytes) => match string_from_utf8(bytes) {
            Some(text) => Ok(text),
            None => Err(DeserializeError::NotUtf8),
        },
    }
}

} // verus!
