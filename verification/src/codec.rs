//! The shared wire contract of the flexible text content block.
//!
//! A block carries either literal text or a bundle of template
//! arguments, encoded as alternate keys of one flat JSON object:
//! `{"text": "..."}` or `{"tensorzero::arguments": {...}}`. This
//! module states that contract once — the decode decision table
//! (`spec_decode`), what a faithful encoding is (`encodes`), and the
//! round-trip law tying the two together — and provides the encoding
//! builders that both content types share.

use vstd::prelude::*;
use crate::json::obj_view;
use crate::json::str_content;
use crate::json::obj_content;
use crate::json::obj_new;
use crate::json::obj_insert;
use crate::json::obj_clone;
use crate::json::value_from_str;
use crate::json::value_from_object;
use crate::json::JsonObject;

verus! {

/// A failure raised while decoding a wire object into one of the
/// content types of this crate. All variants are produced at decode
/// time and propagate to the caller; nothing is recovered internally.
#[derive(Clone, Copy, Debug, PartialEq, Eq, Structural)]
pub enum DecodeError {
    /// A recognized key is present but holds the wrong kind of JSON value.
    TypeMismatch,
    /// Both of two mutually exclusive keys are present on the same object.
    MutualExclusionViolation,
    /// A required key (or every key of an exclusive pair) is absent.
    MissingField,
    /// A strict-schema object carries a key that the schema does not know.
    UnknownFieldRejected,
}

/// The mathematical shape of a flexible text content block: exactly
/// one of literal text or a bundle of template arguments.
pub enum ContentView {
    Text { text: Seq<char> },
    Arguments { arguments: Map<Seq<char>, serde_json::Value> },
}

/// The wire key that carries literal text.
pub open spec fn text_key() -> Seq<char> {
    "text"@
}

/// The wire key that carries a bundle of template arguments.
pub open spec fn arguments_key() -> Seq<char> {
    "tensorzero::arguments"@
}

/// The decode decision table. Exactly one of the two recognized keys
/// must be present and hold a value of its kind; unrecognized keys are
/// ignored, since the enclosing message layer owns any further schema.
pub open spec fn spec_decode(obj: Map<Seq<char>, serde_json::Value>) -> Result<
    ContentView,
    DecodeError,
> {
    let has_text = obj.contains_key(text_key());
    let has_arguments = obj.contains_key(arguments_key());
    if has_text && has_arguments {
        Err(DecodeError::MutualExclusionViolation)
    } else if has_text {
        match str_content(obj[text_key()]) {
            Some(text) => Ok(ContentView::Text { text }),
            None => Err(DecodeError::TypeMismatch),
        }
    } else if has_arguments {
        match obj_content(obj[arguments_key()]) {
            Some(arguments) => Ok(ContentView::Arguments { arguments }),
            None => Err(DecodeError::TypeMismatch),
        }
    } else {
        Err(DecodeError::MissingField)
    }
}

/// What it means for a wire object to be a faithful encoding of a
/// content view: it carries exactly the one key its variant calls for,
/// holding a value of the right kind with the variant's payload.
pub open spec fn encodes(c: ContentView, obj: Map<Seq<char>, serde_json::Value>) -> bool {
    match c {
        ContentView::Text { text } => obj.dom() =~= set![text_key()] && str_content(
            obj[text_key()],
        ) == Some(text),
        ContentView::Arguments { arguments } => obj.dom() =~= set![arguments_key()]
            && obj_content(obj[arguments_key()]) == Some(arguments),
    }
}

/// Round trip: among objects whose keys are all recognized — the only
/// objects encoding produces — an object decodes to a content view
/// exactly when it is a faithful encoding of that view. (Decoding
/// alone also tolerates unrecognized keys and ignores them.)
pub proof fn lemma_round_trip(c: ContentView, obj: Map<Seq<char>, serde_json::Value>)
    requires
        obj.dom().subset_of(set![text_key(), arguments_key()]),
    ensures
        (encodes(c, obj) <==> spec_decode(obj) == Ok::<ContentView, DecodeError>(c)),
{
    reveal_strlit("text");
    reveal_strlit("tensorzero::arguments");
    assert(text_key().len() == 4);
    assert(arguments_key().len() == 21);
    assert(text_key() != arguments_key());
    if encodes(c, obj) {
        match c {
            ContentView::Text { text } => {
                assert(obj.contains_key(text_key()));
                assert(!obj.contains_key(arguments_key()));
            },
            ContentView::Arguments { arguments } => {
                assert(obj.contains_key(arguments_key()));
                assert(!obj.contains_key(text_key()));
            },
        }
    }
    if spec_decode(obj) == Ok::<ContentView, DecodeError>(c) {
        match c {
            ContentView::Text { text } => {
                assert(obj.dom() =~= set![text_key()]);
            },
            ContentView::Arguments { arguments } => {
                assert(obj.dom() =~= set![arguments_key()]);
            },
        }
    }
}

/// Builds the one-key wire object that carries literal text.
pub fn encode_text_object(text: &str) -> (r: JsonObject)
    ensures
        encodes((ContentView::Text { text: text@ }), obj_view(r)),
        (spec_decode(obj_view(r)) == Ok::<ContentView, DecodeError>(
            ContentView::Text { text: text@ },
        )),
{
    let mut obj = obj_new();
    let v = value_from_str(text);
    obj_insert(&mut obj, "text", v);
    proof {
        assert(obj_view(obj).dom() =~= set![text_key()]);
        lemma_round_trip(ContentView::Text { text: text@ }, obj_view(obj));
    }
    obj
}

/// Builds the one-key wire object that carries an argument bundle.
pub fn encode_arguments_object(arguments: &JsonObject) -> (r: JsonObject)
    ensures
        encodes((ContentView::Arguments { arguments: obj_view(*arguments) }), obj_view(r)),
        (spec_decode(obj_view(r)) == Ok::<ContentView, DecodeError>(
            ContentView::Arguments { arguments: obj_view(*arguments) },
        )),
{
    let mut obj = obj_new();
    let v = value_from_object(obj_clone(arguments));
    obj_insert(&mut obj, "tensorzero::arguments", v);
    proof {
        assert(obj_view(obj).dom() =~= set![arguments_key()]);
        lemma_round_trip(
            ContentView::Arguments { arguments: obj_view(*arguments) },
            obj_view(obj),
        );
    }
    obj
}

} // verus!
