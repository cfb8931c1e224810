//! A JSON document as a tree, and its compact text.

use vstd::prelude::*;

verus! {

/// A JSON document as a mathematical value. An object keeps its members in the
/// order in which they are written.
pub enum JsonValue {
    Null,
    Bool(bool),
    Number(int),
    Str(Seq<char>),
    Array(Seq<JsonValue>),
    Object(Seq<MemberValue>),
}

/// One member of a JSON object as a mathematical value.
pub struct MemberValue {
    pub key: Seq<char>,
    pub value: JsonValue,
}

/// The text of a JSON string: what `serde_json::to_string` returns for a `&str`
/// with these characters (quotes around the escaped characters).
pub uninterp spec fn quoted_text(s: Seq<char>) -> Seq<char>;

/// The decimal digit for a number below ten.
pub open spec fn digit(d: nat) -> char {
    if d == 0 {
        '0'
    } else if d == 1 {
        '1'
    } else if d == 2 {
        '2'
    } else if d == 3 {
        '3'
    } else if d == 4 {
        '4'
    } else if d == 5 {
        '5'
    } else if d == 6 {
        '6'
    } else if d == 7 {
        '7'
    } else if d == 8 {
        '8'
    } else {
        '9'
    }
}

/// The decimal digits of a natural number, without leading zeros.
pub open spec fn digits(n: nat) -> Seq<char>
    decreases n,
{
    if n < 10 {
        seq![digit(n)]
    } else {
        digits(n / 10).push(digit(n % 10))
    }
}

/// The text of a JSON integer: a minus sign for a negative number, then its digits.
pub open spec fn integer_text(n: int) -> Seq<char> {
    if n < 0 {
        seq!['-'] + digits((-n) as nat)
    } else {
        digits(n as nat)
    }
}

/// The texts of the first `n` items, separated by commas.
pub open spec fn items_text(items: Seq<JsonValue>, n: nat) -> Seq<char>
    decreases items, n,
{
    if n == 0 || n > items.len() {
        Seq::empty()
    } else if n == 1 {
        items[0].text()
    } else {
        items_text(items, (n - 1) as nat) + ","@ + items[n - 1].text()
    }
}

/// The texts of the first `n` members, separated by commas: each is the quoted
/// key, a colon and the value.
pub open spec fn members_text(members: Seq<MemberValue>, n: nat) -> Seq<char>
    decreases members, n,
{
    if n == 0 || n > members.len() {
        Seq::empty()
    } else if n == 1 {
        quoted_text(members[0].key) + ":"@ + members[0].value.text()
    } else {
        members_text(members, (n - 1) as nat) + ","@ + quoted_text(members[n - 1].key) + ":"@
            + members[n - 1].value.text()
    }
}

impl JsonValue {
    /// The compact text of the document: no white space, members and items in
    /// their order.
    pub open spec fn text(self) -> Seq<char>
        decreases self, 0nat,
    {
        match self {
            JsonValue::Null => "null"@,
            JsonValue::Bool(b) => if b {
                "true"@
            } else {
                "false"@
            },
            JsonValue::Number(n) => integer_text(n),
            JsonValue::Str(s) => quoted_text(s),
            JsonValue::Array(items) => "["@ + items_text(items, items.len()) + "]"@,
            JsonValue::Object(members) => "{"@ + members_text(members, members.len()) + "}"@,
        }
    }

    /// How many members of the object have this key; none where the document is
    /// no object.
    pub open spec fn count_key(self, key: Seq<char>) -> nat {
        match self {
            JsonValue::Object(members) => key_count(members, key),
            _ => 0,
        }
    }

    /// Whether the document is an object with a member of this key.
    pub open spec fn has_key(self, key: Seq<char>) -> bool {
        self.count_key(key) > 0
    }

    /// Whether the document is an object whose first member is the string
    /// `value` under `key`.
    pub open spec fn starts_with(self, key: Seq<char>, value: Seq<char>) -> bool {
        match self {
            JsonValue::Object(members) => members.len() > 0 && members[0] == member(
                key,
                JsonValue::Str(value),
            ),
            _ => false,
        }
    }
}

/// One where the condition holds, zero where it does not.
pub open spec fn one(condition: bool) -> nat {
    if condition {
        1
    } else {
        0
    }
}

/// How many of the members have this key.
pub open spec fn key_count(members: Seq<MemberValue>, key: Seq<char>) -> nat
    decreases members.len(),
{
    if members.len() == 0 {
        0
    } else {
        key_count(members.drop_last(), key) + one(members.last().key == key)
    }
}

/// No member, no key.
pub broadcast proof fn lemma_count_empty(key: Seq<char>)
    ensures
        #[trigger] key_count(Seq::empty(), key) == 0,
{
}

/// A member added at the end counts where it has the key.
pub broadcast proof fn lemma_count_push(members: Seq<MemberValue>, m: MemberValue, key: Seq<char>)
    ensures
        #[trigger] key_count(members.push(m), key) == key_count(members, key) + one(m.key == key),
{
    assert(members.push(m).drop_last() =~= members);
}

/// The members of two sequences count together.
pub broadcast proof fn lemma_count_concat(
    first: Seq<MemberValue>,
    second: Seq<MemberValue>,
    key: Seq<char>,
)
    ensures
        #[trigger] key_count(first + second, key) == key_count(first, key) + key_count(
            second,
            key,
        ),
    decreases second.len(),
{
    if second.len() == 0 {
        assert(first + second =~= first);
    } else {
        lemma_count_concat(first, second.drop_last(), key);
        assert((first + second).drop_last() =~= first + second.drop_last());
    }
}

/// An optional field counts where it is set and has the key.
pub broadcast proof fn lemma_count_optional(
    name: Seq<char>,
    value: Option<JsonValue>,
    key: Seq<char>,
)
    ensures
        #[trigger] key_count(optional_member(name, value), key) == one(
            value is Some && name == key,
        ),
{
    if value is Some {
        lemma_count_push(Seq::empty(), member(name, value->Some_0), key);
    }
}

/// The facts by which the keys of a written object are counted.
pub broadcast group group_key_count {
    lemma_count_empty,
    lemma_count_push,
    lemma_count_concat,
    lemma_count_optional,
}

/// An object member.
pub open spec fn member(key: Seq<char>, value: JsonValue) -> MemberValue {
    MemberValue { key, value }
}

/// The JSON number of an optional integer.
pub open spec fn number_value(n: Option<u32>) -> Option<JsonValue> {
    match n {
        Some(n) => Some(JsonValue::Number(n as int)),
        None => None,
    }
}

/// The JSON boolean of an optional flag.
pub open spec fn bool_value(b: Option<bool>) -> Option<JsonValue> {
    match b {
        Some(b) => Some(JsonValue::Bool(b)),
        None => None,
    }
}

/// The JSON string of an optional string.
pub open spec fn string_value(s: Option<Seq<char>>) -> Option<JsonValue> {
    match s {
        Some(s) => Some(JsonValue::Str(s)),
        None => None,
    }
}

/// The members that an optional field gives: one where it is set, none where
/// it is not.
pub open spec fn optional_member(key: Seq<char>, value: Option<JsonValue>) -> Seq<MemberValue> {
    match value {
        Some(v) => seq![MemberValue { key, value: v }],
        None => Seq::empty(),
    }
}

/// The documents of a sequence of items.
pub open spec fn item_values(items: Seq<Json>) -> Seq<JsonValue> {
    Seq::new(items.len(), |i: int| items[i]@)
}

/// The members of a sequence of object members.
pub open spec fn member_values(members: Seq<Member>) -> Seq<MemberValue> {
    Seq::new(members.len(), |i: int| members[i]@)
}

/// The document of an optional item.
pub open spec fn optional_value(value: Option<Json>) -> Option<JsonValue> {
    match value {
        Some(j) => Some(j@),
        None => None,
    }
}

/// A JSON document.
#[derive(Debug, PartialEq, Eq)]
pub enum Json {
    Null,
    Bool(bool),
    Number(i64),
    Str(String),
    Array(Vec<Json>),
    Object(Vec<Member>),
}

/// One member of a JSON object.
#[derive(Debug, PartialEq, Eq)]
pub struct Member {
    pub key: String,
    pub value: Json,
}

impl View for Member {
    type V = MemberValue;

    open spec fn view(&self) -> MemberValue {
        MemberValue { key: self.key@, value: self.value@ }
    }
}

impl View for Json {
    type V = JsonValue;

    open spec fn view(&self) -> JsonValue
        decreases self,
    {
        match self {
            Json::Null => JsonValue::Null,
            Json::Bool(b) => JsonValue::Bool(*b),
            Json::Number(n) => JsonValue::Number(*n as int),
            Json::Str(s) => JsonValue::Str(s@),
            Json::Array(items) => JsonValue::Array(
                Seq::new(
                    items.len() as nat,
                    |i: int|
                        if 0 <= i < items.len() {
                            items[i]@
                        } else {
                            JsonValue::Null
                        },
                ),
            ),
            Json::Object(members) => JsonValue::Object(
                Seq::new(
                    members.len() as nat,
                    |i: int|
                        if 0 <= i < members.len() {
                            MemberValue { key: members[i].key@, value: members[i].value@ }
                        } else {
                            MemberValue { key: Seq::empty(), value: JsonValue::Null }
                        },
                ),
            ),
        }
    }
}

impl DeepView for Json {
    type V = JsonValue;

    open spec fn deep_view(&self) -> JsonValue {
        self@
    }
}

/// `String::push_str` appends the characters of `tail` to `text`.
pub assume_specification[ String::push_str ](text: &mut String, tail: &str)
    ensures
        final(text)@ == old(text)@ + tail@,
;

/// Calls `serde_json::to_string` on a string slice. The result is the JSON
/// string for it; writing into memory has no failure, so the call always
/// succeeds.
#[verifier::external_body]
fn quote(s: &str) -> (out: String)
    ensures
        out@ == quoted_text(s@),
{
    serde_json::to_string(s).unwrap_or_default()
}

/// Calls `serde_json::to_string` on an `i64`. The result is the number in
/// decimal, with a minus sign where it is negative; the call always succeeds.
#[verifier::external_body]
fn integer(n: i64) -> (out: String)
    ensures
        out@ == integer_text(n as int),
{
    serde_json::to_string(&n).unwrap_or_default()
}

impl Json {
    /// The compact JSON text of the document.
    pub fn to_text(&self) -> (out: String)
        ensures
            out@ == self@.text(),
        decreases self,
    {
        match self {
            Json::Null => "null".to_owned(),
            Json::Bool(b) => if *b {
                "true".to_owned()
            } else {
                "false".to_owned()
            },
            Json::Number(n) => integer(*n),
            Json::Str(s) => quote(s.as_str()),
            Json::Array(items) => {
                let mut out = "[".to_owned();
                let mut i: usize = 0;
                while i < items.len()
                    invariant
                        i <= items.len(),
                        self@ == JsonValue::Array(self@->Array_0),
                        self@->Array_0.len() == items.len(),
                        forall|k: int| 0 <= k < items.len() ==> self@->Array_0[k] == items[k]@,
                        forall|k: int|
                            0 <= k < items.len() ==> #[trigger] decreases_to!(self => items[k]),
                        out@ == "["@ + items_text(self@->Array_0, i as nat),
                    decreases items.len() - i,
                {
                    let ghost before = out@;
                    if i > 0 {
                        out.push_str(",");
                    }
                    let piece = items[i].to_text();
                    out.push_str(piece.as_str());
                    i += 1;
                    assert(out@ =~= "["@ + items_text(self@->Array_0, i as nat));
                }
                out.push_str("]");
                out
            },
            Json::Object(members) => {
                let mut out = "{".to_owned();
                let mut i: usize = 0;
                while i < members.len()
                    invariant
                        i <= members.len(),
                        self@ == JsonValue::Object(self@->Object_0),
                        self@->Object_0.len() == members.len(),
                        forall|k: int|
                            0 <= k < members.len() ==> self@->Object_0[k] == members[k]@,
                        forall|k: int|
                            0 <= k < members.len() ==> #[trigger] decreases_to!(
                                self => members[k].value
                            ),
                        out@ == "{"@ + members_text(self@->Object_0, i as nat),
                    decreases members.len() - i,
                {
                    if i > 0 {
                        out.push_str(",");
                    }
                    let key = quote(members[i].key.as_str());
                    out.push_str(key.as_str());
                    out.push_str(":");
                    let piece = members[i].value.to_text();
                    out.push_str(piece.as_str());
                    i += 1;
                    assert(out@ =~= "{"@ + members_text(self@->Object_0, i as nat));
                }
                out.push_str("}");
                out
            },
        }
    }
}

impl Json {
    /// A JSON string with the characters of `s`.
    pub fn string(s: &str) -> (j: Json)
        ensures
            j@ == JsonValue::Str(s@),
    {
        Json::Str(s.to_owned())
    }

    /// A JSON number.
    pub fn number(n: u32) -> (j: Json)
        ensures
            j@ == JsonValue::Number(n as int),
    {
        Json::Number(n as i64)
    }

    /// A JSON array of the given items, in their order.
    pub fn array(items: Vec<Json>) -> (j: Json)
        ensures
            j@ == JsonValue::Array(item_values(items@)),
    {
        let j = Json::Array(items);
        proof {
            assert(j@->Array_0 =~= item_values(items@));
        }
        j
    }

    /// The JSON number of an optional integer.
    pub fn optional_number(n: &Option<u32>) -> (j: Option<Json>)
        ensures
            optional_value(j) == number_value(*n),
    {
        match n {
            Some(n) => Some(Json::number(*n)),
            None => None,
        }
    }

    /// The JSON boolean of an optional flag.
    pub fn optional_bool(b: &Option<bool>) -> (j: Option<Json>)
        ensures
            optional_value(j) == bool_value(*b),
    {
        match b {
            Some(b) => Some(Json::Bool(*b)),
            None => None,
        }
    }

    /// The JSON string of an optional string.
    pub fn optional_string(s: &Option<String>) -> (j: Option<Json>)
        ensures
            optional_value(j) == string_value(s.deep_view()),
    {
        match s {
            Some(s) => Some(Json::string(s.as_str())),
            None => None,
        }
    }

    /// A copy of an optional document.
    pub fn optional_copy(value: &Option<Json>) -> (j: Option<Json>)
        ensures
            optional_value(j) == optional_value(*value),
    {
        match value {
            Some(v) => Some(v.copy()),
            None => None,
        }
    }

    /// A copy of the document.
    pub fn copy(&self) -> (j: Json)
        ensures
            j@ == self@,
        decreases self,
    {
        match self {
            Json::Null => Json::Null,
            Json::Bool(b) => Json::Bool(*b),
            Json::Number(n) => Json::Number(*n),
            Json::Str(s) => Json::Str(s.clone()),
            Json::Array(items) => {
                let mut copies: Vec<Json> = Vec::new();
                let mut i: usize = 0;
                while i < items.len()
                    invariant
                        i <= items.len(),
                        copies.len() == i,
                        forall|k: int| 0 <= k < i ==> copies[k]@ == items[k]@,
                        forall|k: int|
                            0 <= k < items.len() ==> #[trigger] decreases_to!(self => items[k]),
                    decreases items.len() - i,
                {
                    copies.push(items[i].copy());
                    i += 1;
                }
                let j = Json::Array(copies);
                proof {
                    assert(j@->Array_0 =~= self@->Array_0);
                }
                j
            },
            Json::Object(members) => {
                let mut copies: Vec<Member> = Vec::new();
                let mut i: usize = 0;
                while i < members.len()
                    invariant
                        i <= members.len(),
                        copies.len() == i,
                        forall|k: int| 0 <= k < i ==> copies[k]@ == members[k]@,
                        forall|k: int|
                            0 <= k < members.len() ==> #[trigger] decreases_to!(
                                self => members[k].value
                            ),
                    decreases members.len() - i,
                {
                    let value = members[i].value.copy();
                    copies.push(Member { key: members[i].key.clone(), value });
                    i += 1;
                }
                let j = Json::Object(copies);
                proof {
                    assert(j@->Object_0 =~= self@->Object_0);
                }
                j
            },
        }
    }
}

/// An object under construction: members are added at the end.
pub struct ObjectBuilder {
    members: Vec<Member>,
}

impl View for ObjectBuilder {
    type V = Seq<MemberValue>;

    closed spec fn view(&self) -> Seq<MemberValue> {
        member_values(self.members@)
    }
}

impl ObjectBuilder {
    /// An object without members.
    pub fn new() -> (b: ObjectBuilder)
        ensures
            b@ == Seq::<MemberValue>::empty(),
    {
        let b = ObjectBuilder { members: Vec::new() };
        proof {
            assert(b@ =~= Seq::<MemberValue>::empty());
        }
        b
    }

    /// Adds a member at the end.
    pub fn member(&mut self, key: &str, value: Json)
        ensures
            final(self)@ == old(self)@.push(MemberValue { key: key@, value: value@ }),
    {
        self.members.push(Member { key: key.to_owned(), value });
        proof {
            assert(self@ =~= old(self)@.push(MemberValue { key: key@, value: value@ }));
        }
    }

    /// Adds a member at the end where `value` is set, and nothing where it is not.
    pub fn optional(&mut self, key: &str, value: Option<Json>)
        ensures
            final(self)@ == old(self)@ + optional_member(key@, optional_value(value)),
    {
        match value {
            Some(v) => {
                self.members.push(Member { key: key.to_owned(), value: v });
                proof {
                    assert(self@ =~= old(self)@ + optional_member(key@, optional_value(value)));
                }
            },
            None => {
                proof {
                    assert(self@ =~= old(self)@ + optional_member(key@, optional_value(value)));
                }
            },
        }
    }

    /// The object with the members added so far.
    pub fn build(self) -> (j: Json)
        ensures
            j@ == JsonValue::Object(self@),
    {
        let j = Json::Object(self.members);
        proof {
            assert(j@->Object_0 =~= self@);
        }
        j
    }
}

} // verus!
