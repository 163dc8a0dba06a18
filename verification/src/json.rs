//! JSON documents as plain trees, and the two calls that turn text into a tree
//! and a string into its quoted JSON form.
use vstd::prelude::*;
use vstd::string::StringExecFns;

verus! {

/// A JSON document held as a tree of plain values.
///
/// A number keeps the text it was written with; the members of an object keep
/// the order in which the parser hands them out.
#[derive(Debug)]
pub enum Json {
    Null,
    Bool(bool),
    Number(String),
    Text(String),
    Array(Vec<Json>),
    Object(Vec<Member>),
}

/// One `name: value` pair of an object.
#[derive(Debug)]
pub struct Member {
    pub name: String,
    pub value: Json,
}

/// `serde_json::Value`, a document as `serde_json` holds it.
#[verifier::external_type_specification]
#[verifier::external_body]
pub struct ExValue(serde_json::Value);

/// The mathematical value of a [`Json`] tree.
pub enum JsonValue {
    Null,
    Bool(bool),
    Number(Seq<char>),
    Text(Seq<char>),
    Array(Seq<JsonValue>),
    Object(Seq<(Seq<char>, JsonValue)>),
}

impl Json {
    /// The value of this tree, node by node.
    pub open spec fn value(self) -> JsonValue
        decreases self,
    {
        match self {
            Json::Null => JsonValue::Null,
            Json::Bool(b) => JsonValue::Bool(b),
            Json::Number(n) => JsonValue::Number(n@),
            Json::Text(t) => JsonValue::Text(t@),
            Json::Array(items) => JsonValue::Array(
                Seq::new(
                    items@.len(),
                    |i: int|
                        if 0 <= i < items@.len() {
                            items@[i].value()
                        } else {
                            JsonValue::Null
                        },
                ),
            ),
            Json::Object(members) => JsonValue::Object(
                Seq::new(
                    members@.len(),
                    |i: int|
                        if 0 <= i < members@.len() {
                            (members@[i].name@, members@[i].value.value())
                        } else {
                            (Seq::empty(), JsonValue::Null)
                        },
                ),
            ),
        }
    }
}

impl View for Json {
    type V = JsonValue;

    open spec fn view(&self) -> JsonValue {
        self.value()
    }
}

/// The text of an optional string.
pub open spec fn text_of(text: Option<String>) -> Option<Seq<char>> {
    match text {
        Some(t) => Some(t@),
        None => None,
    }
}

/// The value of an optional tree.
pub open spec fn value_of(doc: Option<Json>) -> Option<JsonValue> {
    match doc {
        Some(d) => Some(d@),
        None => None,
    }
}

/// The JSON string literal that `serde_json` writes for a text: the text between
/// double quotes, with the escapes JSON asks for. `None` if it reports an error.
pub uninterp spec fn quoted(text: Seq<char>) -> Option<Seq<char>>;

/// The document that `serde_json` reads from a text, or `None` where it rejects
/// the text.
pub uninterp spec fn parsed(text: Seq<char>) -> Option<JsonValue>;

/// The document that a `serde_json::Value` holds.
pub uninterp spec fn document(value: serde_json::Value) -> JsonValue;

/// The value of the first member called `name`, if there is one.
pub open spec fn member(members: Seq<(Seq<char>, JsonValue)>, name: Seq<char>) -> Option<
    JsonValue,
>
    decreases members.len(),
{
    if members.len() == 0 {
        None
    } else if members[0].0 == name {
        Some(members[0].1)
    } else {
        member(members.skip(1), name)
    }
}

impl JsonValue {
    /// The member `name` of an object; `None` for anything else.
    pub open spec fn get(self, name: Seq<char>) -> Option<JsonValue> {
        match self {
            JsonValue::Object(members) => member(members, name),
            _ => None,
        }
    }

    /// The text of a string; `None` for anything else.
    pub open spec fn text(self) -> Option<Seq<char>> {
        match self {
            JsonValue::Text(t) => Some(t),
            _ => None,
        }
    }

    /// The text of the member `name`, where that member is a string.
    pub open spec fn text_member(self, name: Seq<char>) -> Option<Seq<char>> {
        match self.get(name) {
            Some(value) => value.text(),
            None => None,
        }
    }

    /// The member `name`, where it is there and is not `null`.
    pub open spec fn optional(self, name: Seq<char>) -> Option<JsonValue> {
        match self.get(name) {
            Some(value) => if value is Null {
                None
            } else {
                Some(value)
            },
            None => None,
        }
    }

    /// The items of the member `name`, where that member is an array.
    pub open spec fn array_member(self, name: Seq<char>) -> Option<Seq<JsonValue>> {
        match self.get(name) {
            Some(JsonValue::Array(items)) => Some(items),
            _ => None,
        }
    }
}

/// The value of an object lists its members in order, each by name and value.
pub proof fn lemma_object_view(doc: Json)
    requires
        doc is Object,
    ensures
        doc@ is Object,
        doc@->Object_0.len() == doc->Object_0@.len(),
        forall|k: int|
            0 <= k < doc->Object_0@.len() ==> #[trigger] doc@->Object_0[k] == (
                doc->Object_0@[k].name@,
                doc->Object_0@[k].value@,
            ),
{
}

/// The value of an array lists the values of its items in order.
pub proof fn lemma_array_view(doc: Json)
    requires
        doc is Array,
    ensures
        doc@ is Array,
        doc@->Array_0.len() == doc->Array_0@.len(),
        forall|k: int|
            0 <= k < doc->Array_0@.len() ==> #[trigger] doc@->Array_0[k] == doc->Array_0@[k]@,
{
}

/// Calls `serde_json::to_string` on a string slice. Its outcome is named
/// [`quoted`]: it depends on the text alone.
#[verifier::external_body]
pub(crate) fn quote(text: &str) -> (out: Option<String>)
    ensures
        text_of(out) == quoted(text@),
{
    serde_json::to_string(text).ok()
}

/// Calls `serde_json::from_str` for a `serde_json::Value`. Whether it accepts
/// the text, and the document it then holds, depend on the text alone and are
/// named [`parsed`].
#[verifier::external_body]
fn read(text: &str) -> (value: Option<serde_json::Value>)
    ensures
        match value {
            Some(v) => parsed(text@) == Some(document(v)),
            None => parsed(text@).is_none(),
        },
{
    serde_json::from_str::<serde_json::Value>(text).ok()
}

/// One node of a `serde_json::Value`, with its children still to be looked at.
pub enum Node<'a> {
    Null,
    Bool(bool),
    Number(String),
    Text(String),
    Array(Vec<&'a serde_json::Value>),
    Object(Vec<(String, &'a serde_json::Value)>),
}

/// Whether `node` shows what `doc` is: the same variant, the same scalar, and
/// children that hold the documents of `doc`, one for one and in order.
pub open spec fn shows(node: Node<'_>, doc: JsonValue) -> bool {
    match node {
        Node::Null => doc == JsonValue::Null,
        Node::Bool(b) => doc == JsonValue::Bool(b),
        Node::Number(n) => doc == JsonValue::Number(n@),
        Node::Text(t) => doc == JsonValue::Text(t@),
        Node::Array(items) => {
            &&& doc matches JsonValue::Array(docs)
            &&& docs.len() == items@.len()
            &&& forall|i: int| 0 <= i < items@.len() ==> #[trigger] docs[i] == document(*items@[i])
        },
        Node::Object(members) => {
            &&& doc matches JsonValue::Object(docs)
            &&& docs.len() == members@.len()
            &&& forall|i: int|
                0 <= i < members@.len() ==> #[trigger] docs[i] == (
                    members@[i].0@,
                    document(*members@[i].1),
                )
        },
    }
}

/// Tells the variants of a `serde_json::Value` apart and hands out what the
/// variant holds: a scalar as it is, a number as the text that `serde_json`
/// prints for it, the items of an array and the members of an object in the
/// order in which `serde_json` hands them out.
#[verifier::external_body]
fn open(value: &serde_json::Value) -> (node: Node<'_>)
    ensures
        shows(node, document(*value)),
{
    match value {
        serde_json::Value::Null => Node::Null,
        serde_json::Value::Bool(b) => Node::Bool(*b),
        serde_json::Value::Number(n) => Node::Number(n.to_string()),
        serde_json::Value::String(t) => Node::Text(t.clone()),
        serde_json::Value::Array(items) => Node::Array(items.iter().collect()),
        serde_json::Value::Object(members) => Node::Object(
            members.iter().map(|(name, value)| (name.clone(), value)).collect(),
        ),
    }
}

/// Copies a `serde_json::Value` into a [`Json`] tree, node by node.
fn convert(value: &serde_json::Value) -> (doc: Json)
    ensures
        doc@ == document(*value),
    decreases document(*value),
{
    match open(value) {
        Node::Null => Json::Null,
        Node::Bool(b) => Json::Bool(b),
        Node::Number(n) => Json::Number(n),
        Node::Text(t) => Json::Text(t),
        Node::Array(items) => {
            let ghost docs = document(*value)->Array_0;
            let mut out: Vec<Json> = Vec::new();
            let mut i: usize = 0;
            while i < items.len()
                invariant
                    i <= items.len(),
                    out@.len() == i,
                    document(*value) == JsonValue::Array(docs),
                    docs.len() == items@.len(),
                    forall|k: int|
                        0 <= k < items@.len() ==> #[trigger] docs[k] == document(*items@[k]),
                    forall|k: int| 0 <= k < i ==> (#[trigger] out@[k])@ == docs[k],
                decreases items.len() - i,
            {
                proof {
                    assert(document(*value)->Array_0 == docs);
                    assert(docs[i as int] == document(*items@[i as int]));
                }
                out.push(convert(items[i]));
                i = i + 1;
            }
            let doc = Json::Array(out);
            proof {
                lemma_array_view(doc);
                assert(doc@->Array_0 =~= docs);
            }
            doc
        },
        Node::Object(members) => {
            let ghost docs = document(*value)->Object_0;
            let mut out: Vec<Member> = Vec::new();
            let mut i: usize = 0;
            while i < members.len()
                invariant
                    i <= members.len(),
                    out@.len() == i,
                    document(*value) == JsonValue::Object(docs),
                    docs.len() == members@.len(),
                    forall|k: int|
                        0 <= k < members@.len() ==> #[trigger] docs[k] == (
                            members@[k].0@,
                            document(*members@[k].1),
                        ),
                    forall|k: int|
                        0 <= k < i ==> ((#[trigger] out@[k]).name@, out@[k].value@) == docs[k],
                decreases members.len() - i,
            {
                proof {
                    assert(document(*value)->Object_0 == docs);
                    assert(docs[i as int].1 == document(*members@[i as int].1));
                }
                let name = members[i].0.clone();
                let inner = convert(members[i].1);
                out.push(Member { name, value: inner });
                i = i + 1;
            }
            let doc = Json::Object(out);
            proof {
                lemma_object_view(doc);
                assert(doc@->Object_0 =~= docs);
            }
            doc
        },
    }
}

/// Reads a text as JSON. `None` where the text is not a JSON document.
pub fn parse(text: &str) -> (doc: Option<Json>)
    ensures
        value_of(doc) == parsed(text@),
{
    match read(text) {
        Some(value) => Some(convert(&value)),
        None => None,
    }
}

impl Json {
    /// The member `name` of an object.
    pub fn get(&self, name: &str) -> (found: Option<&Json>)
        ensures
            match found {
                Some(value) => self@.get(name@) == Some(value@),
                None => self@.get(name@).is_none(),
            },
    {
        match self {
            Json::Object(members) => {
                let wanted = String::from_str(name);
                let mut i: usize = 0;
                proof {
                    lemma_object_view(*self);
                    assert(self@->Object_0.skip(0) =~= self@->Object_0);
                }
                while i < members.len()
                    invariant
                        i <= members.len(),
                        wanted@ == name@,
                        self@ is Object,
                        self@->Object_0.len() == members@.len(),
                        forall|k: int|
                            0 <= k < members@.len() ==> #[trigger] self@->Object_0[k] == (
                                members@[k].name@,
                                members@[k].value@,
                            ),
                        member(self@->Object_0, name@) == member(
                            self@->Object_0.skip(i as int),
                            name@,
                        ),
                    decreases members.len() - i,
                {
                    let ghost rest = self@->Object_0.skip(i as int);
                    assert(rest[0] == self@->Object_0[i as int]);
                    assert(rest.skip(1) =~= self@->Object_0.skip(i as int + 1));
                    if members[i].name == wanted {
                        return Some(&members[i].value);
                    }
                    i = i + 1;
                }
                None
            },
            _ => None,
        }
    }

    /// The text of the member `name`, where that member is a string.
    pub fn text_member(&self, name: &str) -> (text: Option<&String>)
        ensures
            match text {
                Some(t) => self@.text_member(name@) == Some(t@),
                None => self@.text_member(name@).is_none(),
            },
    {
        match self.get(name) {
            Some(value) => value.as_text(),
            None => None,
        }
    }

    /// The member `name`, where it is there and is not `null`.
    pub fn optional(&self, name: &str) -> (found: Option<&Json>)
        ensures
            match found {
                Some(value) => self@.optional(name@) == Some(value@),
                None => self@.optional(name@).is_none(),
            },
    {
        match self.get(name) {
            Some(value) => match value {
                Json::Null => None,
                _ => Some(value),
            },
            None => None,
        }
    }

    /// The items of the member `name`, where that member is an array.
    pub fn array_member(&self, name: &str) -> (found: Option<&Vec<Json>>)
        ensures
            match found {
                Some(items) => {
                    &&& self@.array_member(name@) is Some
                    &&& self@.array_member(name@).unwrap().len() == items@.len()
                    &&& forall|k: int|
                        0 <= k < items@.len() ==> #[trigger] self@.array_member(
                            name@,
                        ).unwrap()[k] == items@[k]@
                },
                None => self@.array_member(name@).is_none(),
            },
    {
        match self.get(name) {
            Some(value) => match value {
                Json::Array(items) => {
                    proof {
                        lemma_array_view(*value);
                    }
                    Some(items)
                },
                _ => None,
            },
            None => None,
        }
    }

    /// Whether this is the string `text`.
    pub fn is_text(&self, text: &str) -> (same: bool)
        ensures
            same == (self@ == JsonValue::Text(text@)),
    {
        match self {
            Json::Text(t) => {
                let wanted = String::from_str(text);
                *t == wanted
            },
            _ => false,
        }
    }

    /// The text of a string.
    pub fn as_text(&self) -> (text: Option<&String>)
        ensures
            match text {
                Some(t) => self@.text() == Some(t@),
                None => self@.text().is_none(),
            },
    {
        match self {
            Json::Text(t) => Some(t),
            _ => None,
        }
    }
}

} // verus!
