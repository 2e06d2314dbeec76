//! The standalone flexible text content value.
//!
//! `TextContent` is the freestanding form of the block: callers build
//! it directly or convert a string into it, and the codec functions
//! here carry it across the JSON boundary under the shared contract of
//! `crate::codec`.

use vstd::prelude::*;
use crate::codec::ContentView;
use crate::codec::DecodeError;
use crate::codec::spec_decode;
use crate::codec::encodes;
use crate::codec::text_key;
use crate::codec::arguments_key;
use crate::codec::encode_text_object;
use crate::codec::encode_arguments_object;
use crate::json::obj_view;
use crate::json::obj_remove;
use crate::json::obj_clone;
use crate::json::value_into_string;
use crate::json::value_into_object;
use crate::json::JsonObject;

verus! {

/// A flexible text content block: either a normal text block
/// (`{"text": "..."}` on the wire) or the templating mode
/// (`{"tensorzero::arguments": {...}}`). The enclosing message layer
/// owns the `"type"` discriminator that selects this shape; this type
/// owns the two payload keys and their mutual exclusion.
#[derive(Debug)]
pub enum TextContent {
    /// A literal text block.
    Text { text: String },
    /// The templating mode: a free-form bundle of template arguments.
    TensorZeroArguments { tensorzero_arguments: JsonObject },
}

impl View for TextContent {
    type V = ContentView;

    open spec fn view(&self) -> ContentView {
        match self {
            TextContent::Text { text } => ContentView::Text { text: text@ },
            TextContent::TensorZeroArguments { tensorzero_arguments } => ContentView::Arguments {
                arguments: obj_view(*tensorzero_arguments),
            },
        }
    }
}

impl TextContent {
    /// Decodes one wire object by the decision table of
    /// `crate::codec::spec_decode`: exactly one of `"text"` (holding a
    /// string) or `"tensorzero::arguments"` (holding an object) must be
    /// present; any unrecognized keys are ignored.
    pub fn decode(obj: JsonObject) -> (r: Result<TextContent, DecodeError>)
        ensures
            (match r {
                Ok(c) => spec_decode(obj_view(obj)) == Ok::<ContentView, DecodeError>(c@),
                Err(e) => spec_decode(obj_view(obj)) == Err::<ContentView, DecodeError>(e),
            }),
    {
        let mut remaining = obj;
        let text = obj_remove(&mut remaining, "text");
        let arguments = obj_remove(&mut remaining, "tensorzero::arguments");
        // The two recognized keys differ, so removing one leaves the
        // other's entry alone.
        proof {
            reveal_strlit("text");
            reveal_strlit("tensorzero::arguments");
            assert(text_key().len() == 4);
            assert(arguments_key().len() == 21);
        }
        match (text, arguments) {
            (Some(t), None) => match value_into_string(t) {
                Ok(s) => Ok(TextContent::Text { text: s }),
                Err(_) => Err(DecodeError::TypeMismatch),
            },
            (None, Some(a)) => match value_into_object(a) {
                Ok(m) => Ok(TextContent::TensorZeroArguments { tensorzero_arguments: m }),
                Err(_) => Err(DecodeError::TypeMismatch),
            },
            (Some(_), Some(_)) => Err(DecodeError::MutualExclusionViolation),
            (None, None) => Err(DecodeError::MissingField),
        }
    }

    /// Encodes to the wire object carrying exactly the one key that
    /// the variant calls for. Encoding never fails, and its output
    /// decodes back to this same value: the round trip.
    pub fn encode(&self) -> (r: JsonObject)
        ensures
            encodes(self@, obj_view(r)),
            (spec_decode(obj_view(r)) == Ok::<ContentView, DecodeError>(self@)),
    {
        match self {
            TextContent::Text { text } => encode_text_object(text.as_str()),
            TextContent::TensorZeroArguments { tensorzero_arguments } => encode_arguments_object(
                tensorzero_arguments,
            ),
        }
    }
}

impl Clone for TextContent {
    /// The copy carries the same payload as the original.
    fn clone(&self) -> (r: TextContent)
        ensures
            r@ == self@,
    {
        match self {
            TextContent::Text { text } => TextContent::Text { text: text.clone() },
            TextContent::TensorZeroArguments { tensorzero_arguments } => {
                TextContent::TensorZeroArguments {
                    tensorzero_arguments: obj_clone(tensorzero_arguments),
                }
            },
        }
    }
}

impl From<String> for TextContent {
    /// An owned string becomes the literal text variant.
    fn from(value: String) -> (r: TextContent) {
        TextContent::Text { text: value }
    }
}

impl vstd::std_specs::convert::FromSpecImpl<String> for TextContent {
    open spec fn obeys_from_spec() -> bool {
        true
    }

    open spec fn from_spec(value: String) -> TextContent {
        TextContent::Text { text: value }
    }
}

impl From<&str> for TextContent {
    /// A borrowed string becomes the literal text variant.
    fn from(value: &str) -> (r: TextContent)
        ensures
            r@ == (ContentView::Text { text: value@ }),
    {
        TextContent::Text { text: value.to_owned() }
    }
}

impl vstd::std_specs::convert::FromSpecImpl<&str> for TextContent {
    open spec fn obeys_from_spec() -> bool {
        false
    }

    open spec fn from_spec(value: &str) -> TextContent {
        arbitrary()
    }
}

} // verus!
