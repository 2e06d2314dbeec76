//! The strict-schema named template.
//!
//! `Template` is a sibling of the flexible text block sharing its wire
//! module but not its tolerance: both of its fields are required and
//! any unrecognized key fails the decode — the contract the flexible
//! codec deliberately does not apply to itself.

use vstd::prelude::*;
use vstd::assert_by_contradiction;
use crate::codec::DecodeError;
use crate::json::obj_view;
use crate::json::str_content;
use crate::json::obj_content;
use crate::json::obj_new;
use crate::json::obj_insert;
use crate::json::obj_remove;
use crate::json::obj_is_empty;
use crate::json::obj_clone;
use crate::json::value_from_str;
use crate::json::value_from_object;
use crate::json::value_into_string;
use crate::json::value_into_object;
use crate::json::JsonObject;

verus! {

/// The wire key that carries a template's name.
pub open spec fn name_key() -> Seq<char> {
    "name"@
}

/// The wire key that carries a template's arguments.
pub open spec fn template_arguments_key() -> Seq<char> {
    "arguments"@
}

/// The mathematical shape of a named template: its name's characters
/// and its argument entries.
pub struct TemplateView {
    pub name: Seq<char>,
    pub arguments: Map<Seq<char>, serde_json::Value>,
}

/// The strict decode table: any key besides the two recognized ones is
/// rejected, both keys are required, the name must be a string and the
/// arguments an object — checked in that order.
pub open spec fn spec_decode_template(obj: Map<Seq<char>, serde_json::Value>) -> Result<
    TemplateView,
    DecodeError,
> {
    if !obj.dom().subset_of(set![name_key(), template_arguments_key()]) {
        Err(DecodeError::UnknownFieldRejected)
    } else if !(obj.contains_key(name_key()) && obj.contains_key(template_arguments_key())) {
        Err(DecodeError::MissingField)
    } else {
        match str_content(obj[name_key()]) {
            Some(name) => match obj_content(obj[template_arguments_key()]) {
                Some(arguments) => Ok(TemplateView { name, arguments }),
                None => Err(DecodeError::TypeMismatch),
            },
            None => Err(DecodeError::TypeMismatch),
        }
    }
}

/// What it means for a wire object to be a faithful encoding of a
/// template: exactly the two recognized keys, the name a string and
/// the arguments an object, each holding the template's payload.
pub open spec fn encodes_template(t: TemplateView, obj: Map<Seq<char>, serde_json::Value>) -> bool {
    obj.dom() =~= set![name_key(), template_arguments_key()] && str_content(obj[name_key()])
        == Some(t.name) && obj_content(obj[template_arguments_key()]) == Some(t.arguments)
}

/// Round trip: a wire object decodes to a template exactly when it is
/// a faithful encoding of that template. The strict schema leaves no
/// room for extra keys, so no side condition is needed.
pub proof fn lemma_template_round_trip(t: TemplateView, obj: Map<Seq<char>, serde_json::Value>)
    ensures
        (encodes_template(t, obj) <==> spec_decode_template(obj) == Ok::<
            TemplateView,
            DecodeError,
        >(t)),
{
    reveal_strlit("name");
    reveal_strlit("arguments");
    assert(name_key().len() == 4);
    assert(template_arguments_key().len() == 9);
    assert(name_key() != template_arguments_key());
    if encodes_template(t, obj) {
        assert(obj.dom().subset_of(set![name_key(), template_arguments_key()]));
        assert(obj.contains_key(name_key()));
        assert(obj.contains_key(template_arguments_key()));
    }
    if spec_decode_template(obj) == Ok::<TemplateView, DecodeError>(t) {
        assert(obj.dom() =~= set![name_key(), template_arguments_key()]);
    }
}

/// A named template reference. On the wire it is the strict object
/// `{"name": "<string>", "arguments": {<object>}}`: both fields
/// required, no other key tolerated.
#[derive(Debug)]
pub struct Template {
    pub name: String,
    pub arguments: JsonObject,
}

impl View for Template {
    type V = TemplateView;

    open spec fn view(&self) -> TemplateView {
        TemplateView { name: self.name@, arguments: obj_view(self.arguments) }
    }
}

impl Template {
    /// Decodes one wire object by the strict table of
    /// `spec_decode_template`: unknown keys are rejected first, then
    /// missing fields, then a name that is not a string, then
    /// arguments that are not an object.
    pub fn decode(obj: JsonObject) -> (r: Result<Template, DecodeError>)
        ensures
            (match r {
                Ok(t) => spec_decode_template(obj_view(obj)) == Ok::<TemplateView, DecodeError>(
                    t@,
                ),
                Err(e) => spec_decode_template(obj_view(obj)) == Err::<TemplateView, DecodeError>(
                    e,
                ),
            }),
    {
        let mut remaining = obj;
        let name = obj_remove(&mut remaining, "name");
        let arguments = obj_remove(&mut remaining, "arguments");
        // The two recognized keys differ, so removing one leaves the
        // other's entry alone; whatever remains afterwards is unknown.
        proof {
            reveal_strlit("name");
            reveal_strlit("arguments");
            assert(name_key().len() == 4);
            assert(template_arguments_key().len() == 9);
            assert(name_key() != template_arguments_key());
        }
        let no_unknown = obj_is_empty(&remaining);
        proof {
            let dom = obj_view(obj).dom();
            let keys = set![name_key(), template_arguments_key()];
            if no_unknown {
                assert forall|k: Seq<char>| dom.contains(k) implies keys.contains(k) by {
                    if k != name_key() && k != template_arguments_key() {
                        assert(obj_view(remaining).dom().contains(k));
                    }
                }
                assert(dom.subset_of(keys));
            } else {
                assert_by_contradiction!(!dom.subset_of(keys), {
                    assert(obj_view(remaining).dom() =~= Set::<Seq<char>>::empty());
                });
            }
        }
        if !no_unknown {
            return Err(DecodeError::UnknownFieldRejected);
        }
        match (name, arguments) {
            (Some(n), Some(a)) => match value_into_string(n) {
                Ok(name) => match value_into_object(a) {
                    Ok(arguments) => Ok(Template { name, arguments }),
                    Err(_) => Err(DecodeError::TypeMismatch),
                },
                Err(_) => Err(DecodeError::TypeMismatch),
            },
            _ => Err(DecodeError::MissingField),
        }
    }

    /// Encodes to the strict two-key wire object. Encoding never
    /// fails, and its output decodes back to this same template: the
    /// round trip.
    pub fn encode(&self) -> (r: JsonObject)
        ensures
            encodes_template(self@, obj_view(r)),
            (spec_decode_template(obj_view(r)) == Ok::<TemplateView, DecodeError>(self@)),
    {
        let mut obj = obj_new();
        let name_value = value_from_str(self.name.as_str());
        obj_insert(&mut obj, "name", name_value);
        let arguments_value = value_from_object(obj_clone(&self.arguments));
        obj_insert(&mut obj, "arguments", arguments_value);
        proof {
            reveal_strlit("name");
            reveal_strlit("arguments");
            assert(name_key().len() == 4);
            assert(template_arguments_key().len() == 9);
            assert(obj_view(obj).dom() =~= set![name_key(), template_arguments_key()]);
            lemma_template_round_trip(self@, obj_view(obj));
        }
        obj
    }
}

impl Clone for Template {
    /// The copy carries the same name and arguments as the original.
    fn clone(&self) -> (r: Template)
        ensures
            r@ == self@,
    {
        Template { name: self.name.clone(), arguments: obj_clone(&self.arguments) }
    }
}

} // verus!
