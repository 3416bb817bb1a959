//! JSON documents as plain values: what the protocol, the configuration files
//! and the session records are read from and written with.

use vstd::prelude::*;

verus! {

/// A JSON document of `serde_json`, carried between its parser and writer.
#[verifier::external_type_specification]
#[verifier::external_body]
pub struct ExValue(serde_json::Value);

/// A JSON number of `serde_json`: an integer of 64 bits or a floating-point number.
#[verifier::external_type_specification]
#[verifier::external_body]
pub struct ExNumber(serde_json::Number);

/// The error with which `serde_json` refuses a text.
#[verifier::external_type_specification]
#[verifier::external_body]
pub struct ExJsonError(serde_json::Error);

/// A JSON document.  The members of an object stand in the order in which the
/// parser hands them out.
#[derive(Debug)]
pub enum Json {
    Null,
    Bool(bool),
    Number(serde_json::Number),
    Text(String),
    Array(Vec<Json>),
    Object(Vec<(String, Json)>),
}

/// The mathematical content of a [`Json`] document.
pub enum JsonView {
    Null,
    Bool(bool),
    Number(serde_json::Number),
    Text(Seq<char>),
    Array(Seq<JsonView>),
    Object(Seq<(Seq<char>, JsonView)>),
}

/// The content of a document, member by member.
pub open spec fn json_view(json: Json) -> JsonView
    decreases json,
{
    match json {
        Json::Null => JsonView::Null,
        Json::Bool(value) => JsonView::Bool(value),
        Json::Number(number) => JsonView::Number(number),
        Json::Text(text) => JsonView::Text(text@),
        Json::Array(items) => JsonView::Array(
            Seq::new(
                items@.len(),
                |i: int|
                    if 0 <= i < items@.len() {
                        json_view(items@[i])
                    } else {
                        JsonView::Null
                    },
            ),
        ),
        Json::Object(members) => JsonView::Object(
            Seq::new(
                members@.len(),
                |i: int|
                    if 0 <= i < members@.len() {
                        (members@[i].0@, json_view(members@[i].1))
                    } else {
                        (Seq::empty(), JsonView::Null)
                    },
            ),
        ),
    }
}

impl View for Json {
    type V = JsonView;

    open spec fn view(&self) -> JsonView {
        json_view(*self)
    }
}

/// What a document of `serde_json` holds.
pub uninterp spec fn value_json(value: serde_json::Value) -> JsonView;

/// The document of `serde_json` that holds the given content.
pub uninterp spec fn json_value(json: JsonView) -> serde_json::Value;

/// The document that `serde_json::from_slice` reads from a text, or the error
/// with which it refuses the text.
pub uninterp spec fn value_read(bytes: Seq<u8>) -> Result<serde_json::Value, serde_json::Error>;

/// The text that `serde_json::to_vec` writes for a document, or the error that
/// it reports.
pub uninterp spec fn value_bytes(value: serde_json::Value) -> Result<Seq<u8>, serde_json::Error>;

/// The words of an error of `serde_json`.
pub uninterp spec fn error_words(error: serde_json::Error) -> Seq<char>;

/// The text that `Value::to_string` writes for a document.
pub uninterp spec fn value_text(value: serde_json::Value) -> Seq<char>;

/// What `Number::as_u64` gives.
pub uninterp spec fn number_as_u64(number: serde_json::Number) -> Option<u64>;

/// What `Number::as_i64` gives.
pub uninterp spec fn number_as_i64(number: serde_json::Number) -> Option<i64>;

/// The number that `Number::from` makes of an unsigned integer.
pub uninterp spec fn u64_number(value: u64) -> serde_json::Number;

/// The number that `Number::from` makes of a signed integer.
pub uninterp spec fn i64_number(value: i64) -> serde_json::Number;

/// The content of the JSON document that a text holds, or nothing where the
/// text is not one.
pub open spec fn parsed(bytes: Seq<u8>) -> Option<JsonView> {
    match value_read(bytes) {
        Ok(value) => Some(value_json(value)),
        Err(_) => None,
    }
}

/// What the parser says of a text that it refuses.
pub open spec fn refusal(bytes: Seq<u8>) -> Seq<char> {
    error_words(value_read(bytes)->Err_0)
}

/// The compact text of a document, as bytes.
pub open spec fn encoded(json: JsonView) -> Option<Seq<u8>> {
    match value_bytes(json_value(json)) {
        Ok(bytes) => Some(bytes),
        Err(_) => None,
    }
}

/// What the writer says of a document that it refuses.
pub open spec fn write_refusal(json: JsonView) -> Seq<char> {
    error_words(value_bytes(json_value(json))->Err_0)
}

/// The compact text of a document, as characters.
pub open spec fn compact(json: JsonView) -> Seq<char> {
    value_text(json_value(json))
}

/// `serde_json::from_slice` into a `Value`: the document, or the refusal, is a
/// function of the text.
#[verifier::external_body]
fn read_value(bytes: &[u8]) -> (r: Result<serde_json::Value, serde_json::Error>)
    ensures
        r == value_read(bytes@),
{
    serde_json::from_slice(bytes)
}

/// Takes a `serde_json::Value` apart, variant by variant; put together again,
/// the parts give the same value.
#[verifier::external_body]
fn json_of(value: &serde_json::Value) -> (r: Json)
    ensures
        r@ == value_json(*value),
        json_value(r@) == *value,
{
    match value {
        serde_json::Value::Null => Json::Null,
        serde_json::Value::Bool(flag) => Json::Bool(*flag),
        serde_json::Value::Number(number) => Json::Number(number.clone()),
        serde_json::Value::String(text) => Json::Text(text.clone()),
        serde_json::Value::Array(items) => Json::Array(items.iter().map(json_of).collect()),
        serde_json::Value::Object(members) => Json::Object(
            members.iter().map(|member| (member.0.clone(), json_of(member.1))).collect(),
        ),
    }
}

/// Puts a `serde_json::Value` together, variant by variant.
#[verifier::external_body]
fn value_of(json: &Json) -> (r: serde_json::Value)
    ensures
        r == json_value(json@),
{
    match json {
        Json::Null => serde_json::Value::Null,
        Json::Bool(flag) => serde_json::Value::Bool(*flag),
        Json::Number(number) => serde_json::Value::Number(number.clone()),
        Json::Text(text) => serde_json::Value::String(text.clone()),
        Json::Array(items) => serde_json::Value::Array(items.iter().map(value_of).collect()),
        Json::Object(members) => serde_json::Value::Object(
            members.iter().map(|member| (member.0.clone(), value_of(&member.1))).collect(),
        ),
    }
}

/// `serde_json::to_vec` of a `Value`: the text is a function of the document.
#[verifier::external_body]
fn write_value(value: &serde_json::Value) -> (r: Result<Vec<u8>, serde_json::Error>)
    ensures
        match r {
            Ok(bytes) => value_bytes(*value) == Ok::<Seq<u8>, serde_json::Error>(bytes@),
            Err(error) => value_bytes(*value) == Err::<Seq<u8>, serde_json::Error>(error),
        },
{
    serde_json::to_vec(value)
}

/// `Value::to_string`: the text is a function of the document.
#[verifier::external_body]
fn display_value(value: &serde_json::Value) -> (r: String)
    ensures
        r@ == value_text(*value),
{
    value.to_string()
}

/// `serde_json::Error::to_string`: the words are a function of the error.
#[verifier::external_body]
pub(crate) fn error_text(error: &serde_json::Error) -> (r: String)
    ensures
        r@ == error_words(*error),
{
    error.to_string()
}

/// `Number::as_u64`: the integer that the number is, where it is one from zero
/// up to the largest of 64 bits.
#[verifier::external_body]
fn read_u64(number: &serde_json::Number) -> (r: Option<u64>)
    ensures
        r == number_as_u64(*number),
{
    number.as_u64()
}

/// `Number::as_i64`: the integer that the number is, where it fits 64 bits with
/// a sign.
#[verifier::external_body]
fn read_i64(number: &serde_json::Number) -> (r: Option<i64>)
    ensures
        r == number_as_i64(*number),
{
    number.as_i64()
}

/// `Number::from` on an unsigned integer: the number is that integer.
#[verifier::external_body]
fn number_from_u64(value: u64) -> (r: serde_json::Number)
    ensures
        r == u64_number(value),
        number_as_u64(r) == Some(value),
        number_as_i64(r) == (if value <= i64::MAX { Some(value as i64) } else { None }),
{
    serde_json::Number::from(value)
}

/// `Number::from` on a signed integer: the number is that integer, and the only
/// one that is.
#[verifier::external_body]
fn number_from_i64(value: i64) -> (r: serde_json::Number)
    ensures
        r == i64_number(value),
        number_as_i64(r) == Some(value),
        number_as_u64(r) == (if value >= 0 { Some(value as u64) } else { None }),
        forall|number: serde_json::Number| #[trigger]
            number_as_i64(number) == Some(value) ==> number == r,
{
    serde_json::Number::from(value)
}

/// `Number::clone`: the copy is the same number.
#[verifier::external_body]
fn copy_number(number: &serde_json::Number) -> (r: serde_json::Number)
    ensures
        r == *number,
{
    number.clone()
}

/// The first member of an object under a name.
pub open spec fn member(members: Seq<(Seq<char>, JsonView)>, name: Seq<char>) -> Option<JsonView>
    decreases members.len(),
{
    if members.len() == 0 {
        None
    } else if members[0].0 == name {
        Some(members[0].1)
    } else {
        member(members.skip(1), name)
    }
}

/// The member of a document under a name; nothing where the document is no
/// object or has no such member.
pub open spec fn field(json: JsonView, name: Seq<char>) -> Option<JsonView> {
    match json {
        JsonView::Object(members) => member(members, name),
        _ => None,
    }
}

/// The member of an optional document.
pub open spec fn opt_field(json: Option<JsonView>, name: Seq<char>) -> Option<JsonView> {
    match json {
        Some(value) => field(value, name),
        None => None,
    }
}

/// The characters of a document that is a text.
pub open spec fn text_of(json: JsonView) -> Option<Seq<char>> {
    match json {
        JsonView::Text(text) => Some(text),
        _ => None,
    }
}

/// The characters of an optional document that is a text.
pub open spec fn opt_text(json: Option<JsonView>) -> Option<Seq<char>> {
    match json {
        Some(value) => text_of(value),
        None => None,
    }
}

/// The text member of a document.
pub open spec fn text_field(json: JsonView, name: Seq<char>) -> Option<Seq<char>> {
    opt_text(field(json, name))
}

/// The unsigned integer that a document is.
pub open spec fn u64_of(json: JsonView) -> Option<u64> {
    match json {
        JsonView::Number(number) => number_as_u64(number),
        _ => None,
    }
}

/// The signed integer that a document is.
pub open spec fn i64_of(json: JsonView) -> Option<i64> {
    match json {
        JsonView::Number(number) => number_as_i64(number),
        _ => None,
    }
}

/// The truth value that a document is.
pub open spec fn bool_of(json: JsonView) -> Option<bool> {
    match json {
        JsonView::Bool(value) => Some(value),
        _ => None,
    }
}

/// The members of an object without those under a name.
pub open spec fn without_member(
    members: Seq<(Seq<char>, JsonView)>,
    name: Seq<char>,
) -> Seq<(Seq<char>, JsonView)>
    decreases members.len(),
{
    if members.len() == 0 {
        Seq::empty()
    } else if members[0].0 == name {
        without_member(members.skip(1), name)
    } else {
        seq![members[0]] + without_member(members.skip(1), name)
    }
}

/// A document without the member under a name.
pub open spec fn without(json: JsonView, name: Seq<char>) -> JsonView {
    match json {
        JsonView::Object(members) => JsonView::Object(without_member(members, name)),
        other => other,
    }
}

/// The members of an object with a value put under a name: in the place of the
/// first member of that name, or at the end.
pub open spec fn put_member(
    members: Seq<(Seq<char>, JsonView)>,
    name: Seq<char>,
    value: JsonView,
) -> Seq<(Seq<char>, JsonView)>
    decreases members.len(),
{
    if members.len() == 0 {
        seq![(name, value)]
    } else if members[0].0 == name {
        seq![(name, value)] + members.skip(1)
    } else {
        seq![members[0]] + put_member(members.skip(1), name, value)
    }
}

/// A document with a value put under a name; what is no object stays as it is.
pub open spec fn put(json: JsonView, name: Seq<char>, value: JsonView) -> JsonView {
    match json {
        JsonView::Object(members) => JsonView::Object(put_member(members, name, value)),
        other => other,
    }
}

proof fn member_of_cons(
    head: (Seq<char>, JsonView),
    rest: Seq<(Seq<char>, JsonView)>,
    name: Seq<char>,
)
    ensures
        member(seq![head] + rest, name) == (if head.0 == name {
            Some(head.1)
        } else {
            member(rest, name)
        }),
{
    assert((seq![head] + rest).skip(1) =~= rest);
}

proof fn member_of_without(
    members: Seq<(Seq<char>, JsonView)>,
    dropped: Seq<char>,
    name: Seq<char>,
)
    ensures
        member(without_member(members, dropped), name) == (if dropped == name {
            None
        } else {
            member(members, name)
        }),
    decreases members.len(),
{
    if members.len() > 0 {
        member_of_without(members.skip(1), dropped, name);
        member_of_cons(members[0], without_member(members.skip(1), dropped), name);
    }
}

proof fn member_of_put(
    members: Seq<(Seq<char>, JsonView)>,
    placed: Seq<char>,
    value: JsonView,
    name: Seq<char>,
)
    ensures
        member(put_member(members, placed, value), name) == (if placed == name {
            Some(value)
        } else {
            member(members, name)
        }),
    decreases members.len(),
{
    if members.len() > 0 {
        if members[0].0 == placed {
            member_of_cons((placed, value), members.skip(1), name);
        } else {
            member_of_put(members.skip(1), placed, value, name);
            member_of_cons(members[0], put_member(members.skip(1), placed, value), name);
        }
    } else {
        assert(seq![(placed, value)] =~= seq![(placed, value)] + Seq::empty());
        member_of_cons((placed, value), Seq::empty(), name);
    }
}

/// Dropping a member leaves nothing under its name and every other member in place.
pub proof fn field_of_without(json: JsonView, dropped: Seq<char>, name: Seq<char>)
    ensures
        field(without(json, dropped), name) == (if dropped == name {
            None
        } else {
            field(json, name)
        }),
{
    if let JsonView::Object(members) = json {
        member_of_without(members, dropped, name);
    }
}

/// Putting a value under a name makes it the member of that name and leaves
/// every other member in place.
pub proof fn field_of_put(json: JsonView, placed: Seq<char>, value: JsonView, name: Seq<char>)
    ensures
        field(put(json, placed, value), name) == (if placed == name && json is Object {
            Some(value)
        } else {
            field(json, name)
        }),
{
    if let JsonView::Object(members) = json {
        member_of_put(members, placed, value, name);
    }
}

/// Dropping a name that is not there changes nothing.
pub proof fn without_absent(json: JsonView, name: Seq<char>)
    requires
        field(json, name) is None,
    ensures
        without(json, name) == json,
{
    if let JsonView::Object(members) = json {
        without_absent_member(members, name);
    }
}

proof fn without_absent_member(members: Seq<(Seq<char>, JsonView)>, name: Seq<char>)
    requires
        member(members, name) is None,
    ensures
        without_member(members, name) == members,
    decreases members.len(),
{
    if members.len() > 0 {
        without_absent_member(members.skip(1), name);
        assert(seq![members[0]] + members.skip(1) =~= members);
    } else {
        assert(members =~= Seq::empty());
    }
}

/// Putting back what is already under a name changes nothing.
pub proof fn put_present(json: JsonView, name: Seq<char>)
    requires
        field(json, name) is Some,
    ensures
        put(json, name, field(json, name)->0) == json,
{
    if let JsonView::Object(members) = json {
        put_present_member(members, name);
    }
}

proof fn put_present_member(members: Seq<(Seq<char>, JsonView)>, name: Seq<char>)
    requires
        member(members, name) is Some,
    ensures
        put_member(members, name, member(members, name)->0) == members,
    decreases members.len(),
{
    if members[0].0 == name {
        assert(seq![members[0]] + members.skip(1) =~= members);
    } else {
        put_present_member(members.skip(1), name);
        assert(seq![members[0]] + members.skip(1) =~= members);
    }
}

/// Reads the JSON document that a text holds.
pub fn parse(bytes: &[u8]) -> (r: Result<Json, serde_json::Error>)
    ensures
        r is Ok == parsed(bytes@) is Some,
        r is Ok ==> parsed(bytes@) == Some(r->Ok_0@),
        r is Err ==> error_words(r->Err_0) == refusal(bytes@),
{
    match read_value(bytes) {
        Ok(value) => Ok(json_of(&value)),
        Err(error) => Err(error),
    }
}

impl Json {
    /// The document of a parsed `serde_json::Value`.
    pub fn from_value(value: &serde_json::Value) -> (r: Json)
        ensures
            r@ == value_json(*value),
            json_value(r@) == *value,
    {
        json_of(value)
    }

    /// The document as a `serde_json::Value`.
    pub fn to_value(&self) -> (r: serde_json::Value)
        ensures
            r == json_value(self@),
    {
        value_of(self)
    }

    /// A text document.
    pub fn text(value: &str) -> (r: Json)
        ensures
            r@ == JsonView::Text(value@),
    {
        Json::Text(value.to_owned())
    }

    /// A number document that is an unsigned integer.
    pub fn unsigned(value: u64) -> (r: Json)
        ensures
            r@ == JsonView::Number(u64_number(value)),
            u64_of(r@) == Some(value),
            i64_of(r@) == (if value <= i64::MAX { Some(value as i64) } else { None }),
    {
        Json::Number(number_from_u64(value))
    }

    /// A number document that is a signed integer.
    pub fn signed(value: i64) -> (r: Json)
        ensures
            r@ == JsonView::Number(i64_number(value)),
            i64_of(r@) == Some(value),
            u64_of(r@) == (if value >= 0 { Some(value as u64) } else { None }),
            forall|json: JsonView| #[trigger] i64_of(json) == Some(value) ==> json == r@,
    {
        Json::Number(number_from_i64(value))
    }

    /// An object with one member.
    pub fn object1(name: &str, value: Json) -> (r: Json)
        ensures
            r@ == JsonView::Object(seq![(name@, value@)]),
    {
        let ghost content = value@;
        let mut members: Vec<(String, Json)> = Vec::new();
        members.push((name.to_owned(), value));
        let json = Json::Object(members);
        assert(json@->Object_0 =~= seq![(name@, content)]);
        json
    }

    /// An object with one member more.
    pub fn with(self, name: &str, value: Json) -> (r: Json)
        requires
            self@ is Object,
        ensures
            r@ == JsonView::Object(self@->Object_0.push((name@, value@))),
    {
        let ghost before = self@->Object_0;
        let ghost content = value@;
        match self {
            Json::Object(members) => {
                let mut members = members;
                members.push((name.to_owned(), value));
                let json = Json::Object(members);
                assert(json@->Object_0 =~= before.push((name@, content)));
                json
            },
            other => other,
        }
    }

    /// A copy of the document.
    pub fn copy(&self) -> (r: Json)
        ensures
            r@ == self@,
        decreases self,
    {
        match self {
            Json::Null => Json::Null,
            Json::Bool(value) => Json::Bool(*value),
            Json::Number(number) => Json::Number(copy_number(number)),
            Json::Text(text) => Json::Text(text.clone()),
            Json::Array(items) => {
                let mut out: Vec<Json> = Vec::new();
                let mut i: usize = 0;
                while i < items.len()
                    invariant
                        *self == Json::Array(*items),
                        i <= items@.len(),
                        out@.len() == i,
                        forall|k: int| 0 <= k < i ==> json_view(out@[k]) == json_view(items@[k]),
                    decreases items.len() - i,
                {
                    assert(decreases_to!(*self => self->Array_0));
                    assert(decreases_to!(items => items@));
                    assert(decreases_to!(items@ => items@[i as int]));
                    out.push(items[i].copy());
                    i = i + 1;
                }
                let json = Json::Array(out);
                assert(json@->Array_0 =~= self@->Array_0);
                json
            },
            Json::Object(members) => {
                let mut out: Vec<(String, Json)> = Vec::new();
                let mut i: usize = 0;
                while i < members.len()
                    invariant
                        *self == Json::Object(*members),
                        i <= members@.len(),
                        out@.len() == i,
                        forall|k: int|
                            0 <= k < i ==> out@[k].0@ == members@[k].0@ && json_view(out@[k].1)
                                == json_view(members@[k].1),
                    decreases members.len() - i,
                {
                    assert(decreases_to!(*self => self->Object_0));
                    assert(decreases_to!(members => members@));
                    assert(decreases_to!(members@ => members@[i as int]));
                    assert(decreases_to!(members@[i as int] => members@[i as int].1));
                    out.push((members[i].0.clone(), members[i].1.copy()));
                    i = i + 1;
                }
                let json = Json::Object(out);
                assert(json@->Object_0 =~= self@->Object_0);
                json
            },
        }
    }

    /// The member under a name.
    pub fn get(&self, name: &str) -> (r: Option<&Json>)
        ensures
            crate::text::opt(r) == field(self@, name@),
    {
        match self {
            Json::Object(members) => {
                let ghost all = self@->Object_0;
                assert(all.skip(0) =~= all);
                let mut i: usize = 0;
                while i < members.len()
                    invariant
                        *self == Json::Object(*members),
                        i <= members@.len(),
                        self@ == JsonView::Object(all),
                        all.len() == members@.len(),
                        forall|k: int|
                            0 <= k < all.len() ==> all[k] == (
                                members@[k].0@,
                                json_view(members@[k].1),
                            ),
                        member(all, name@) == member(all.skip(i as int), name@),
                    decreases members.len() - i,
                {
                    assert(all.skip(i as int).skip(1) =~= all.skip(i + 1));
                    if crate::text::same(members[i].0.as_str(), name) {
                        return Some(&members[i].1);
                    }
                    i = i + 1;
                }
                None
            },
            _ => None,
        }
    }

    /// The document without the member under a name.
    pub fn without(&self, name: &str) -> (r: Json)
        ensures
            r@ == without(self@, name@),
    {
        match self {
            Json::Object(members) => {
                let ghost all = self@->Object_0;
                let mut out: Vec<(String, Json)> = Vec::new();
                let mut i: usize = 0;
                assert(all.skip(0) =~= all);
                assert(json_view(Json::Object(out))->Object_0 =~= Seq::empty());
                assert(Seq::<(Seq<char>, JsonView)>::empty() + without_member(all, name@)
                    =~= without_member(all, name@));
                while i < members.len()
                    invariant
                        all.len() == members@.len(),
                        i <= members@.len(),
                        forall|k: int|
                            0 <= k < all.len() ==> all[k] == (
                                members@[k].0@,
                                json_view(members@[k].1),
                            ),
                        json_view(Json::Object(out))->Object_0 + without_member(
                            all.skip(i as int),
                            name@,
                        ) == without_member(all, name@),
                    decreases members.len() - i,
                {
                    let ghost before = json_view(Json::Object(out))->Object_0;
                    let ghost rest = all.skip(i as int);
                    assert(rest.skip(1) =~= all.skip(i + 1));
                    if !crate::text::same(members[i].0.as_str(), name) {
                        let copy = (members[i].0.clone(), members[i].1.copy());
                        out.push(copy);
                        assert(json_view(Json::Object(out))->Object_0 =~= before.push(all[i as int]));
                        assert(before.push(all[i as int]) + without_member(rest.skip(1), name@)
                            =~= before + (seq![rest[0]] + without_member(rest.skip(1), name@)));
                    }
                    i = i + 1;
                }
                let json = Json::Object(out);
                assert(json@->Object_0 =~= without_member(all, name@));
                json
            },
            other => other.copy(),
        }
    }

    /// The document with a value put under a name.
    pub fn put(&self, name: &str, value: Json) -> (r: Json)
        ensures
            r@ == put(self@, name@, value@),
    {
        match self {
            Json::Object(members) => {
                let ghost all = self@->Object_0;
                let ghost content = value@;
                let mut out: Vec<(String, Json)> = Vec::new();
                let mut value = Some(value);
                let mut i: usize = 0;
                assert(all.skip(0) =~= all);
                assert(json_view(Json::Object(out))->Object_0 =~= Seq::empty());
                assert(Seq::<(Seq<char>, JsonView)>::empty() + put_member(all, name@, content)
                    =~= put_member(all, name@, content));
                while i < members.len()
                    invariant
                        all.len() == members@.len(),
                        i <= members@.len(),
                        value matches Some(json) ==> json@ == content,
                        forall|k: int|
                            0 <= k < all.len() ==> all[k] == (
                                members@[k].0@,
                                json_view(members@[k].1),
                            ),
                        json_view(Json::Object(out))->Object_0 + (if value is Some {
                            put_member(all.skip(i as int), name@, content)
                        } else {
                            all.skip(i as int)
                        }) == put_member(all, name@, content),
                    decreases members.len() - i,
                {
                    let ghost before = json_view(Json::Object(out))->Object_0;
                    let ghost rest = all.skip(i as int);
                    assert(rest.skip(1) =~= all.skip(i + 1));
                    assert(rest =~= seq![rest[0]] + rest.skip(1));
                    let hit = value.is_some() && crate::text::same(members[i].0.as_str(), name);
                    if hit {
                        let placed = (name.to_owned(), value.unwrap());
                        value = None;
                        out.push(placed);
                        assert(json_view(Json::Object(out))->Object_0 =~= before.push(
                            (name@, content),
                        ));
                        assert(before.push((name@, content)) + rest.skip(1) =~= before + (seq![
                            (name@, content),
                        ] + rest.skip(1)));
                    } else {
                        let copy = (members[i].0.clone(), members[i].1.copy());
                        out.push(copy);
                        assert(json_view(Json::Object(out))->Object_0 =~= before.push(all[i as int]));
                        proof {
                            if value is Some {
                                assert(before.push(all[i as int]) + put_member(
                                    rest.skip(1),
                                    name@,
                                    content,
                                ) =~= before + (seq![rest[0]] + put_member(
                                    rest.skip(1),
                                    name@,
                                    content,
                                )));
                            } else {
                                assert(before.push(all[i as int]) + rest.skip(1) =~= before + rest);
                            }
                        }
                    }
                    i = i + 1;
                }
                let ghost before = json_view(Json::Object(out))->Object_0;
                if let Some(last) = value {
                    out.push((name.to_owned(), last));
                    assert(json_view(Json::Object(out))->Object_0 =~= before + seq![(name@, content)]);
                }
                let json = Json::Object(out);
                assert(json@->Object_0 =~= put_member(all, name@, content));
                json
            },
            other => other.copy(),
        }
    }

    /// The characters of a text document.
    pub fn as_str(&self) -> (r: Option<&String>)
        ensures
            crate::text::opt(r) == text_of(self@),
    {
        match self {
            Json::Text(text) => Some(text),
            _ => None,
        }
    }

    /// A copy of the text member under a name.
    pub fn get_text(&self, name: &str) -> (r: Option<String>)
        ensures
            crate::text::opt(r) == text_field(self@, name@),
    {
        match self.get(name) {
            Some(json) => match json.as_str() {
                Some(text) => Some(text.clone()),
                None => None,
            },
            None => None,
        }
    }

    /// The unsigned integer that the document is.
    pub fn as_u64(&self) -> (r: Option<u64>)
        ensures
            r == u64_of(self@),
    {
        match self {
            Json::Number(number) => read_u64(number),
            _ => None,
        }
    }

    /// The signed integer that the document is.
    pub fn as_i64(&self) -> (r: Option<i64>)
        ensures
            r == i64_of(self@),
    {
        match self {
            Json::Number(number) => read_i64(number),
            _ => None,
        }
    }

    /// The truth value that the document is.
    pub fn as_bool(&self) -> (r: Option<bool>)
        ensures
            r == bool_of(self@),
    {
        match self {
            Json::Bool(value) => Some(*value),
            _ => None,
        }
    }

    /// The compact text of the document, as bytes.
    pub fn to_bytes(&self) -> (r: Result<Vec<u8>, serde_json::Error>)
        ensures
            r is Ok == encoded(self@) is Some,
            r is Ok ==> encoded(self@) == Some(r->Ok_0@),
            r is Err ==> error_words(r->Err_0) == write_refusal(self@),
    {
        write_value(&value_of(self))
    }

    /// The compact text of the document, as characters.
    pub fn to_text(&self) -> (r: String)
        ensures
            r@ == compact(self@),
    {
        display_value(&value_of(self))
    }
}

/// A copy of an optional document.
pub fn copy_opt_json(json: &Option<Json>) -> (r: Option<Json>)
    ensures
        crate::text::opt(r) == crate::text::opt(*json),
{
    match json {
        Some(value) => Some(value.copy()),
        None => None,
    }
}

} // verus!
