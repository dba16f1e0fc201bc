//! JSON documents as plain values.

use vstd::prelude::*;
use vstd::string::*;

use crate::foreign::{debug_quoted, debug_text, json_document, json_from_slice, json_value};
use crate::numeral::{integer, law_numerals_read_back, read_i64, signed_decimal};
use crate::text::{contains, law_occurrence, occurs_at, occurs_in, same_text};

verus! {

/// A JSON document.
#[derive(Debug)]
pub enum JsonValue {
    Null,
    Bool(bool),
    /// A number, by its shortest decimal text: an integer has neither a point nor an exponent.
    Number(String),
    Text(String),
    Array(Vec<JsonValue>),
    /// The members. Where a name occurs twice, the first one counts.
    Object(Vec<(String, JsonValue)>),
}

/// What a JSON document says.
pub enum JsonView {
    Null,
    Bool(bool),
    Number(Seq<char>),
    Text(Seq<char>),
    Array(Seq<JsonView>),
    Object(Seq<(Seq<char>, JsonView)>),
}

impl JsonValue {
    /// What the document says.
    pub open spec fn content(self) -> JsonView
        decreases self,
    {
        match self {
            JsonValue::Null => JsonView::Null,
            JsonValue::Bool(b) => JsonView::Bool(b),
            JsonValue::Number(n) => JsonView::Number(n@),
            JsonValue::Text(t) => JsonView::Text(t@),
            JsonValue::Array(items) => JsonView::Array(
                Seq::new(
                    items@.len(),
                    |i: int|
                        if 0 <= i < items@.len() {
                            items@[i].content()
                        } else {
                            JsonView::Null
                        },
                ),
            ),
            JsonValue::Object(members) => JsonView::Object(
                Seq::new(
                    members@.len(),
                    |i: int|
                        if 0 <= i < members@.len() {
                            (members@[i].0@, members@[i].1.content())
                        } else {
                            (Seq::<char>::empty(), JsonView::Null)
                        },
                ),
            ),
        }
    }
}

impl View for JsonValue {
    type V = JsonView;

    open spec fn view(&self) -> JsonView {
        self.content()
    }
}

/// The value of the first member with the name `key`.
pub open spec fn lookup(members: Seq<(Seq<char>, JsonView)>, key: Seq<char>) -> Option<JsonView>
    decreases members.len(),
{
    if members.len() == 0 {
        None
    } else if members[0].0 == key {
        Some(members[0].1)
    } else {
        lookup(members.drop_first(), key)
    }
}

impl JsonView {
    /// The member `key` of an object; nothing else has members.
    pub open spec fn member(self, key: Seq<char>) -> Option<JsonView> {
        match self {
            JsonView::Object(members) => lookup(members, key),
            _ => None,
        }
    }

    /// What a JSON string holds.
    pub open spec fn text(self) -> Option<Seq<char>> {
        match self {
            JsonView::Text(t) => Some(t),
            _ => None,
        }
    }

    /// A JSON number that is an integer of 64 bits.
    pub open spec fn int64(self) -> Option<i64> {
        match self {
            JsonView::Number(n) => match integer(n) {
                Some(v) if i64::MIN <= v <= i64::MAX => Some(v as i64),
                _ => None,
            },
            _ => None,
        }
    }

    /// A JSON truth value.
    pub open spec fn truth(self) -> Option<bool> {
        match self {
            JsonView::Bool(b) => Some(b),
            _ => None,
        }
    }

    /// What kind of value this is, in the words of a type error: a scalar with its value.
    pub open spec fn description(self) -> Seq<char> {
        match self {
            JsonView::Null => "null"@,
            JsonView::Bool(true) => "boolean `true`"@,
            JsonView::Bool(false) => "boolean `false`"@,
            JsonView::Number(n) => if occurs_in(n, "."@) || occurs_in(n, "e"@) {
                "floating point `"@ + n + "`"@
            } else {
                "integer `"@ + n + "`"@
            },
            JsonView::Text(t) => "string "@ + debug_quoted(t),
            JsonView::Array(_) => "sequence"@,
            JsonView::Object(_) => "map"@,
        }
    }

    /// The member `key`, where it is a string.
    pub open spec fn text_member(self, key: Seq<char>) -> Option<Seq<char>> {
        match self.member(key) {
            Some(v) => v.text(),
            None => None,
        }
    }
}

/// A text that is not JSON.
#[derive(Debug, Clone, Copy, PartialEq, Eq, Structural)]
pub struct InvalidJson;

impl JsonValue {
    /// Reads a JSON text.
    pub fn parse(bytes: &[u8]) -> (r: Result<JsonValue, InvalidJson>)
        ensures
            match r {
                Ok(value) => json_document(bytes@) == Some(value@),
                Err(_) => json_document(bytes@) is None,
            },
    {
        match json_from_slice(bytes) {
            Ok(value) => Ok(json_value(value)),
            Err(_) => Err(InvalidJson),
        }
    }

    /// What kind of value this is, in the words of a type error: a scalar with its value.
    pub fn describe(&self) -> (r: String)
        ensures
            r@ == self@.description(),
    {
        match self {
            JsonValue::Null => "null".to_owned(),
            JsonValue::Bool(b) => if *b {
                "boolean `true`".to_owned()
            } else {
                "boolean `false`".to_owned()
            },
            JsonValue::Number(n) => if contains(n.as_str(), ".") || contains(n.as_str(), "e") {
                "floating point `".to_owned().concat(n.as_str()).concat("`")
            } else {
                "integer `".to_owned().concat(n.as_str()).concat("`")
            },
            JsonValue::Text(t) => "string ".to_owned().concat(debug_text(t.as_str()).as_str()),
            JsonValue::Array(_) => "sequence".to_owned(),
            JsonValue::Object(_) => "map".to_owned(),
        }
    }

    /// The member `key` of an object.
    pub fn get(&self, key: &str) -> (r: Option<&JsonValue>)
        ensures
            r.deep_view() == self@.member(key@),
    {
        match self {
            JsonValue::Object(members) => {
                let ghost all = self@->Object_0;
                let mut i: usize = 0;
                assert(all.skip(0) =~= all);
                while i < members.len()
                    invariant
                        i <= members.len(),
                        self@ == JsonView::Object(all),
                        all.len() == members.len(),
                        forall|k: int|
                            0 <= k < members.len() ==> #[trigger] all[k] == (
                                members@[k].0@,
                                members@[k].1@,
                            ),
                        lookup(all, key@) == lookup(all.skip(i as int), key@),
                    decreases members.len() - i,
                {
                    assert(all.skip(i as int)[0] == all[i as int]);
                    assert(all.skip(i as int).drop_first() =~= all.skip(i + 1));
                    if same_text(members[i].0.as_str(), key) {
                        return Some(&members[i].1);
                    }
                    i = i + 1;
                }
                None
            },
            _ => None,
        }
    }

    /// What a string holds.
    pub fn as_str(&self) -> (r: Option<&str>)
        ensures
            r.deep_view() == self@.text(),
    {
        match self {
            JsonValue::Text(t) => Some(t.as_str()),
            _ => None,
        }
    }

    /// An integer of 64 bits.
    pub fn as_i64(&self) -> (r: Option<i64>)
        ensures
            r == self@.int64(),
    {
        match self {
            JsonValue::Number(n) => read_i64(n.as_str()),
            _ => None,
        }
    }

    /// A truth value.
    pub fn as_bool(&self) -> (r: Option<bool>)
        ensures
            r == self@.truth(),
    {
        match self {
            JsonValue::Bool(b) => Some(*b),
            _ => None,
        }
    }

    /// The member `key`, where it is a string.
    pub fn get_str(&self, key: &str) -> (r: Option<&str>)
        ensures
            r.deep_view() == self@.text_member(key@),
    {
        match self.get(key) {
            Some(v) => v.as_str(),
            None => None,
        }
    }
}

/// A member of a JSON object that is a string.
pub(crate) fn text_entry(name: &str, value: &str) -> (r: (String, JsonValue))
    ensures
        r.0@ == name@,
        r.1@ == JsonView::Text(value@),
{
    (name.to_owned(), JsonValue::Text(value.to_owned()))
}

impl DeepView for JsonValue {
    type V = JsonView;

    open spec fn deep_view(&self) -> JsonView {
        self@
    }
}

/// The member that is found under a name is the first one with it; where none is found, no member
/// has the name, and what is no object has no members.
pub proof fn law_first_member_counts(members: Seq<(Seq<char>, JsonView)>, key: Seq<char>)
    ensures
        match JsonView::Object(members).member(key) {
            Some(value) => exists|i: int|
                0 <= i < members.len() && #[trigger] members[i] == (key, value) && forall|j: int|
                    0 <= j < i ==> (#[trigger] members[j]).0 != key,
            None => forall|j: int| 0 <= j < members.len() ==> (#[trigger] members[j]).0 != key,
        },
    decreases members.len(),
{
    if members.len() > 0 && members[0].0 == key {
        assert(members[0] == (key, members[0].1));
    } else if members.len() > 0 {
        let rest = members.drop_first();
        law_first_member_counts(rest, key);
        match JsonView::Object(rest).member(key) {
            Some(value) => {
                let i = choose|i: int|
                    0 <= i < rest.len() && #[trigger] rest[i] == (key, value) && forall|j: int|
                        0 <= j < i ==> (#[trigger] rest[j]).0 != key;
                assert(members[i + 1] == (key, value));
                assert forall|j: int| 0 <= j < i + 1 implies (#[trigger] members[j]).0 != key by {
                    if j > 0 {
                        assert(rest[j - 1] == members[j]);
                    }
                }
            },
            None => {
                assert forall|j: int| 0 <= j < members.len() implies (#[trigger] members[j]).0
                    != key by {
                    if j > 0 {
                        assert(rest[j - 1] == members[j]);
                    }
                }
            },
        }
    }
}

/// Only objects have members; a value is read as what it is and as nothing else; and an integer of
/// 64 bits is read back from its numeral.
pub proof fn law_values_are_read_as_they_are(value: JsonView, key: Seq<char>, n: int)
    ensures
        !(value is Object) ==> value.member(key) is None,
        value.text() == (match value {
            JsonView::Text(text) => Some(text),
            _ => None,
        }),
        value.truth() is Some <==> value is Bool,
        value == JsonView::Bool(true) ==> value.truth() == Some(true),
        value == JsonView::Bool(false) ==> value.truth() == Some(false),
        value.int64() is Some ==> value is Number,
        value.text_member(key) matches Some(text) ==> value.member(key) == Some(
            JsonView::Text(text),
        ),
        value.member(key) matches Some(JsonView::Text(text)) ==> value.text_member(key) == Some(
            text,
        ),
        i64::MIN <= n <= i64::MAX ==> JsonView::Number(signed_decimal(n)).int64() == Some(n as i64),
{
    if n < 0 {
        law_numerals_read_back((-n) as nat);
    } else {
        law_numerals_read_back(n as nat);
    }
}

/// A description tells the kind of a value, and of a number or a text the value too. A number with
/// a point or an exponent is a floating-point one, any other an integer.
pub proof fn law_descriptions_tell_the_value(n: Seq<char>, t: Seq<char>)
    ensures
        occurs_in(JsonView::Number(n).description(), n),
        n.contains('.') || n.contains('e') ==> "floating point `"@.is_prefix_of(
            JsonView::Number(n).description(),
        ),
        !n.contains('.') && !n.contains('e') ==> "integer `"@.is_prefix_of(
            JsonView::Number(n).description(),
        ),
        occurs_in(JsonView::Text(t).description(), debug_quoted(t)),
{
    reveal_strlit(".");
    reveal_strlit("e");
    assert("."@ =~= seq!['.']);
    assert("e"@ =~= seq!['e']);
    lemma_one_char_occurs(n, '.');
    lemma_one_char_occurs(n, 'e');
    let float = "floating point `"@ + n + "`"@;
    let int_text = "integer `"@ + n + "`"@;
    law_occurrence(float, n);
    law_occurrence(int_text, n);
    assert("floating point `"@ =~= float.take("floating point `"@.len() as int));
    assert("integer `"@ =~= int_text.take("integer `"@.len() as int));
    let text = "string "@ + debug_quoted(t);
    assert(text =~= "string "@ + debug_quoted(t) + Seq::<char>::empty());
    law_occurrence(text, debug_quoted(t));
}

/// A text of one character occurs exactly where the character does.
proof fn lemma_one_char_occurs(s: Seq<char>, c: char)
    ensures
        occurs_in(s, seq![c]) <==> s.contains(c),
{
    if s.contains(c) {
        let i = choose|i: int| 0 <= i < s.len() && s[i] == c;
        assert(s.subrange(i, i + 1) =~= seq![c]);
        assert(occurs_at(s, seq![c], i));
    }
    if occurs_in(s, seq![c]) {
        let at = choose|at: int| occurs_at(s, seq![c], at);
        assert(s.subrange(at, at + 1)[0] == s[at]);
    }
}

/// What a document says is what it holds: a text its characters, an array its elements and an
/// object its members, in order.
pub proof fn law_documents_say_what_they_hold(
    text: String,
    items: Vec<JsonValue>,
    members: Vec<(String, JsonValue)>,
    i: int,
)
    ensures
        JsonValue::Null@ == JsonView::Null,
        JsonValue::Bool(true)@ == JsonView::Bool(true),
        JsonValue::Bool(false)@ == JsonView::Bool(false),
        JsonValue::Text(text)@ == JsonView::Text(text@),
        JsonValue::Number(text)@ == JsonView::Number(text@),
        JsonValue::Array(items)@ is Array,
        JsonValue::Array(items)@->Array_0.len() == items@.len(),
        0 <= i < items@.len() ==> JsonValue::Array(items)@->Array_0[i] == items@[i]@,
        JsonValue::Object(members)@ is Object,
        JsonValue::Object(members)@->Object_0.len() == members@.len(),
        0 <= i < members@.len() ==> JsonValue::Object(members)@->Object_0[i] == (
            members@[i].0@,
            members@[i].1@,
        ),
{
}

} // verus!
