//! The flexible text block as one entry of a message's content array.
//!
//! `ChatCompletionRequestMessageContentPartText` is the same two-shape
//! union as `crate::content::TextContent`, embedded in a chat request
//! message. It shares the wire contract of `crate::codec` and adds an
//! ergonomic builder that enforces the mutual exclusion of the two
//! payloads proactively: setting either field clears the other.

use vstd::prelude::*;
use crate::codec::ContentView;
use crate::codec::DecodeError;
use crate::codec::spec_decode;
use crate::codec::encodes;
use crate::codec::encode_text_object;
use crate::codec::encode_arguments_object;
use crate::content::TextContent;
use crate::json::obj_view;
use crate::json::obj_clone;
use crate::json::JsonObject;

verus! {

/// One text-typed entry of a chat message's content array: either a
/// literal text block or a bundle of template arguments, never both.
/// The enclosing entry owns the `"type"` discriminator; this type owns
/// the two payload keys.
#[derive(Debug)]
pub enum ChatCompletionRequestMessageContentPartText {
    /// A literal text block.
    Text { text: String },
    /// The templating mode: a free-form bundle of template arguments.
    TensorZeroArguments { tensorzero_arguments: JsonObject },
}

impl View for ChatCompletionRequestMessageContentPartText {
    type V = ContentView;

    open spec fn view(&self) -> ContentView {
        match self {
            ChatCompletionRequestMessageContentPartText::Text { text } => ContentView::Text {
                text: text@,
            },
            ChatCompletionRequestMessageContentPartText::TensorZeroArguments {
                tensorzero_arguments,
            } => ContentView::Arguments { arguments: obj_view(*tensorzero_arguments) },
        }
    }
}

impl ChatCompletionRequestMessageContentPartText {
    /// Decodes one wire object by the shared decision table: exactly
    /// one of `"text"` (holding a string) or `"tensorzero::arguments"`
    /// (holding an object) must be present; unrecognized keys are
    /// ignored.
    pub fn decode(obj: JsonObject) -> (r: Result<
        ChatCompletionRequestMessageContentPartText,
        DecodeError,
    >)
        ensures
            (match r {
                Ok(c) => spec_decode(obj_view(obj)) == Ok::<ContentView, DecodeError>(c@),
                Err(e) => spec_decode(obj_view(obj)) == Err::<ContentView, DecodeError>(e),
            }),
    {
        match TextContent::decode(obj) {
            Ok(TextContent::Text { text }) => Ok(
                ChatCompletionRequestMessageContentPartText::Text { text },
            ),
            Ok(TextContent::TensorZeroArguments { tensorzero_arguments }) => Ok(
                ChatCompletionRequestMessageContentPartText::TensorZeroArguments {
                    tensorzero_arguments,
                },
            ),
            Err(e) => Err(e),
        }
    }

    /// Encodes to the wire object carrying exactly the one key that
    /// the variant calls for. Encoding never fails, and its output
    /// decodes back to this same value: the round trip.
    pub fn encode(&self) -> (r: JsonObject)
        ensures
            encodes(self@, obj_view(r)),
            (spec_decode(obj_view(r)) == Ok::<ContentView, DecodeError>(self@)),
    {
        match self {
            ChatCompletionRequestMessageContentPartText::Text { text } => encode_text_object(
                text.as_str(),
            ),
            ChatCompletionRequestMessageContentPartText::TensorZeroArguments {
                tensorzero_arguments,
            } => encode_arguments_object(tensorzero_arguments),
        }
    }
}

impl Clone for ChatCompletionRequestMessageContentPartText {
    /// The copy carries the same payload as the original.
    fn clone(&self) -> (r: ChatCompletionRequestMessageContentPartText)
        ensures
            r@ == self@,
    {
        match self {
            ChatCompletionRequestMessageContentPartText::Text { text } => {
                ChatCompletionRequestMessageContentPartText::Text { text: text.clone() }
            },
            ChatCompletionRequestMessageContentPartText::TensorZeroArguments {
                tensorzero_arguments,
            } => {
                ChatCompletionRequestMessageContentPartText::TensorZeroArguments {
                    tensorzero_arguments: obj_clone(tensorzero_arguments),
                }
            },
        }
    }
}

impl Default for ChatCompletionRequestMessageContentPartText {
    /// The default value is an empty literal text block.
    fn default() -> (r: ChatCompletionRequestMessageContentPartText)
        ensures
            r@ == (ContentView::Text { text: Seq::<char>::empty() }),
    {
        ChatCompletionRequestMessageContentPartText::Text { text: String::new() }
    }
}

/// The failure type the builder declares. No sequence of builder calls
/// produces it today: the builder enforces mutual exclusion proactively
/// and falls back to an empty text block when nothing was set.
#[derive(Clone, Copy, Debug, PartialEq, Eq, Structural)]
pub enum BuildError {
    /// No payload was available to build from.
    MissingPayload,
}

/// The abstract state of the builder: which of the two mutually
/// exclusive payloads is currently set.
pub struct BuilderView {
    pub text: Option<Seq<char>>,
    pub arguments: Option<Map<Seq<char>, serde_json::Value>>,
}

/// What `build` makes of a builder state: text wins when set, then
/// arguments, and an empty builder falls back to empty literal text.
pub open spec fn spec_build(b: BuilderView) -> ContentView {
    match b.text {
        Some(text) => ContentView::Text { text },
        None => match b.arguments {
            Some(arguments) => ContentView::Arguments { arguments },
            None => ContentView::Text { text: Seq::<char>::empty() },
        },
    }
}

/// Builder for `ChatCompletionRequestMessageContentPartText`. Setting
/// either payload clears the other, so mutual exclusion can never be
/// violated; the last setter called wins.
#[derive(Debug)]
pub struct ChatCompletionRequestMessageContentPartTextArgs {
    text: Option<String>,
    tensorzero_arguments: Option<JsonObject>,
}

impl View for ChatCompletionRequestMessageContentPartTextArgs {
    type V = BuilderView;

    closed spec fn view(&self) -> BuilderView {
        BuilderView {
            text: match self.text {
                Some(text) => Some(text@),
                None => None,
            },
            arguments: match self.tensorzero_arguments {
                Some(arguments) => Some(obj_view(arguments)),
                None => None,
            },
        }
    }
}

impl ChatCompletionRequestMessageContentPartTextArgs {
    /// A fresh builder with neither payload set.
    pub fn new() -> (r: ChatCompletionRequestMessageContentPartTextArgs)
        ensures
            r@ == (BuilderView { text: None, arguments: None }),
    {
        ChatCompletionRequestMessageContentPartTextArgs {
            text: None,
            tensorzero_arguments: None,
        }
    }

    /// Sets the literal text payload and clears the argument bundle.
    pub fn text(self, text: &str) -> (r: ChatCompletionRequestMessageContentPartTextArgs)
        ensures
            r@ == (BuilderView { text: Some(text@), arguments: None }),
    {
        ChatCompletionRequestMessageContentPartTextArgs {
            text: Some(text.to_owned()),
            tensorzero_arguments: None,
        }
    }

    /// Sets the argument bundle payload and clears the literal text.
    pub fn tensorzero_arguments(self, args: JsonObject) -> (r:
        ChatCompletionRequestMessageContentPartTextArgs)
        ensures
            r@ == (BuilderView { text: None, arguments: Some(obj_view(args)) }),
    {
        ChatCompletionRequestMessageContentPartTextArgs {
            text: None,
            tensorzero_arguments: Some(args),
        }
    }

    /// Builds the content part: text when set, else the argument
    /// bundle, else the default empty text block. Declared fallible,
    /// but every builder state builds successfully.
    pub fn build(self) -> (r: Result<ChatCompletionRequestMessageContentPartText, BuildError>)
        ensures
            (match r {
                Ok(c) => c@ == spec_build(self@),
                Err(_) => false,
            }),
    {
        match self.text {
            Some(text) => Ok(ChatCompletionRequestMessageContentPartText::Text { text }),
            None => match self.tensorzero_arguments {
                Some(tensorzero_arguments) => Ok(
                    ChatCompletionRequestMessageContentPartText::TensorZeroArguments {
                        tensorzero_arguments,
                    },
                ),
                None => Ok(ChatCompletionRequestMessageContentPartText::default()),
            },
        }
    }
}

impl Clone for ChatCompletionRequestMessageContentPartTextArgs {
    /// The copy carries the same builder state as the original.
    fn clone(&self) -> (r: ChatCompletionRequestMessageContentPartTextArgs)
        ensures
            r@ == self@,
    {
        ChatCompletionRequestMessageContentPartTextArgs {
            text: match &self.text {
                Some(text) => Some(text.clone()),
                None => None,
            },
            tensorzero_arguments: match &self.tensorzero_arguments {
                Some(arguments) => Some(obj_clone(arguments)),
                None => None,
            },
        }
    }
}

impl Default for ChatCompletionRequestMessageContentPartTextArgs {
    /// The default builder has neither payload set.
    fn default() -> (r: ChatCompletionRequestMessageContentPartTextArgs)
        ensures
            r@ == (BuilderView { text: None, arguments: None }),
    {
        ChatCompletionRequestMessageContentPartTextArgs::new()
    }
}

} // verus!
