//! JSON documents as values of the crate's own, and the reading of single
//! fields out of a JSON object.
//!
//! A record of the API is a JSON object. The functions here read one member
//! of such an object under one of a few policies (required, optional,
//! defaulted, null-tolerant); the record decoders are built from them.

use vstd::prelude::*;
use serde_json::Value;
use crate::float::Float;
use crate::text::{opt_chars, same_text};

verus! {

/// `serde_json::Value`, a document as `serde_json` holds it.
#[verifier::external_type_specification]
#[verifier::external_body]
pub struct ExValue(Value);

/// `serde_json::Error`, the error of a text that is no JSON.
#[verifier::external_type_specification]
#[verifier::external_body]
pub struct ExJsonError(serde_json::Error);

/// A JSON number: its value as a double, and the exact integer where the
/// numeral is an integer between `i64::MIN` and `u64::MAX`.
#[derive(Clone, Copy, Debug, PartialEq, Eq, Structural)]
pub struct Number {
    pub float: Float,
    pub whole: Option<i128>,
}

/// A JSON document. An object keeps its members in a list; where a name
/// occurs twice the first member counts.
#[derive(Debug, PartialEq)]
pub enum Json {
    Null,
    Bool(bool),
    Number(Number),
    Text(String),
    Array(Vec<Json>),
    Object(Vec<(String, Json)>),
}

/// The mathematical value of a JSON document.
pub enum JsonView {
    Null,
    Bool(bool),
    Number(Number),
    Text(Seq<char>),
    Array(Seq<JsonView>),
    Object(Seq<(Seq<char>, JsonView)>),
}

/// The members of an object, by name and value.
pub type Members = Seq<(Seq<char>, JsonView)>;

impl View for Json {
    type V = JsonView;

    open spec fn view(&self) -> JsonView
        decreases self,
    {
        match self {
            Json::Null => JsonView::Null,
            Json::Bool(b) => JsonView::Bool(*b),
            Json::Number(n) => JsonView::Number(*n),
            Json::Text(s) => JsonView::Text(s@),
            Json::Array(items) => JsonView::Array(items_view(items@)),
            Json::Object(members) => JsonView::Object(members_view(members@)),
        }
    }
}

/// The values of a list of documents.
pub open spec fn items_view(items: Seq<Json>) -> Seq<JsonView>
    decreases items,
{
    if items.len() == 0 {
        Seq::empty()
    } else {
        items_view(items.drop_last()).push(items.last().view())
    }
}

/// The names and values of a list of members.
pub open spec fn members_view(members: Seq<(String, Json)>) -> Members
    decreases members,
{
    if members.len() == 0 {
        Seq::empty()
    } else {
        members_view(members.drop_last()).push((members.last().0@, members.last().1.view()))
    }
}

/// The value of a list holds the value of each item, in order.
pub proof fn lemma_items_view(items: Seq<Json>)
    ensures
        items_view(items).len() == items.len(),
        forall|i: int| 0 <= i < items.len() ==> #[trigger] items_view(items)[i] == items[i]@,
    decreases items.len(),
{
    reveal_with_fuel(items_view, 2);
    if items.len() > 0 {
        lemma_items_view(items.drop_last());
    }
}

/// The value of a member list holds the name and value of each member, in order.
pub proof fn lemma_members_view(members: Seq<(String, Json)>)
    ensures
        members_view(members).len() == members.len(),
        forall|i: int|
            0 <= i < members.len() ==> #[trigger] members_view(members)[i] == (
                members[i].0@,
                members[i].1@,
            ),
    decreases members.len(),
{
    reveal_with_fuel(members_view, 2);
    if members.len() > 0 {
        lemma_members_view(members.drop_last());
    }
}

impl Clone for Json {
    #[verifier::loop_isolation(false)]
    fn clone(&self) -> (r: Self)
        ensures
            r@ == self@,
        decreases self,
    {
        match self {
            Json::Null => Json::Null,
            Json::Bool(b) => Json::Bool(*b),
            Json::Number(n) => Json::Number(*n),
            Json::Text(s) => Json::Text(s.clone()),
            Json::Array(items) => {
                let mut out: Vec<Json> = Vec::new();
                let mut i: usize = 0;
                while i < items.len()
                    invariant
                        i <= items.len(),
                        out.len() == i,
                        forall|k: int| 0 <= k < i ==> out[k]@ == items[k]@,
                    decreases items.len() - i,
                {
                    let item = items[i].clone();
                    out.push(item);
                    i += 1;
                }
                proof {
                    lemma_items_view(out@);
                    lemma_items_view(items@);
                    assert(items_view(out@) =~= items_view(items@));
                }
                Json::Array(out)
            },
            Json::Object(members) => {
                let mut out: Vec<(String, Json)> = Vec::new();
                let mut i: usize = 0;
                while i < members.len()
                    invariant
                        i <= members.len(),
                        out.len() == i,
                        forall|k: int|
                            0 <= k < i ==> out[k].0@ == members[k].0@ && out[k].1@
                                == members[k].1@,
                    decreases members.len() - i,
                {
                    let value = members[i].1.clone();
                    out.push((members[i].0.clone(), value));
                    i += 1;
                }
                proof {
                    lemma_members_view(out@);
                    lemma_members_view(members@);
                    assert(members_view(out@) =~= members_view(members@));
                }
                Json::Object(out)
            },
        }
    }
}

/// The value of an optional item.
pub open spec fn opt_view<T: View>(o: Option<T>) -> Option<T::V> {
    match o {
        Some(t) => Some(t@),
        None => None,
    }
}

/// The values of a list of items.
pub open spec fn views<T: View>(s: Seq<T>) -> Seq<T::V> {
    Seq::new(s.len(), |i: int| s[i]@)
}

/// The characters of a piece of text that may be absent, where the reading
/// itself may have failed.
pub open spec fn opt_opt_chars(o: Option<Option<String>>) -> Option<Option<Seq<char>>> {
    match o {
        Some(inner) => Some(opt_chars(inner)),
        None => None,
    }
}

/// The value of the first member with the given name.
pub open spec fn member(members: Members, name: Seq<char>) -> Option<JsonView>
    decreases members.len(),
{
    if members.len() == 0 {
        None
    } else if members[0].0 == name {
        Some(members[0].1)
    } else {
        member(members.drop_first(), name)
    }
}

/// True when the member is missing or is JSON null.
pub open spec fn absent(members: Members, name: Seq<char>) -> bool {
    member(members, name) is None || member(members, name) == Some(JsonView::Null)
}

/// A member that must be there and be text.
pub open spec fn required_text(members: Members, name: Seq<char>) -> Option<Seq<char>> {
    match member(members, name) {
        Some(JsonView::Text(s)) => Some(s),
        _ => None,
    }
}

/// A text member that is empty when missing. JSON null is not text.
pub open spec fn defaulted_text(members: Members, name: Seq<char>) -> Option<Seq<char>> {
    match member(members, name) {
        None => Some(Seq::empty()),
        Some(JsonView::Text(s)) => Some(s),
        _ => None,
    }
}

/// A text member that may be missing or null.
pub open spec fn optional_text(members: Members, name: Seq<char>) -> Option<Option<Seq<char>>> {
    match member(members, name) {
        None => Some(None),
        Some(JsonView::Null) => Some(None),
        Some(JsonView::Text(s)) => Some(Some(s)),
        _ => None,
    }
}

/// A document as a count: an integer numeral from 0 to `u32::MAX`.
pub open spec fn as_count(j: JsonView) -> Option<u32> {
    match j {
        JsonView::Number(n) => match n.whole {
            Some(w) => if 0 <= w <= u32::MAX {
                Some(w as u32)
            } else {
                None
            },
            None => None,
        },
        _ => None,
    }
}

/// A document as a signed whole number: an integer numeral within `i64`.
pub open spec fn as_whole(j: JsonView) -> Option<i64> {
    match j {
        JsonView::Number(n) => match n.whole {
            Some(w) => if i64::MIN <= w <= i64::MAX {
                Some(w as i64)
            } else {
                None
            },
            None => None,
        },
        _ => None,
    }
}

/// A document as an amount: any numeral, taken as a double.
pub open spec fn as_amount(j: JsonView) -> Option<Float> {
    match j {
        JsonView::Number(n) => Some(n.float),
        _ => None,
    }
}

/// A member that must be there and be a count.
pub open spec fn required_count(members: Members, name: Seq<char>) -> Option<u32> {
    match member(members, name) {
        Some(j) => as_count(j),
        None => None,
    }
}

/// A count member that is 0 when missing. JSON null is no count.
pub open spec fn defaulted_count(members: Members, name: Seq<char>) -> Option<u32> {
    match member(members, name) {
        Some(j) => as_count(j),
        None => Some(0),
    }
}

/// A count member that may be missing or null.
pub open spec fn optional_count(members: Members, name: Seq<char>) -> Option<Option<u32>> {
    match member(members, name) {
        None => Some(None),
        Some(JsonView::Null) => Some(None),
        Some(j) => match as_count(j) {
            Some(n) => Some(Some(n)),
            None => None,
        },
    }
}

/// A member that must be there and be a signed whole number.
pub open spec fn required_whole(members: Members, name: Seq<char>) -> Option<i64> {
    match member(members, name) {
        Some(j) => as_whole(j),
        None => None,
    }
}

/// A signed whole member that is 0 when missing. JSON null is no number.
pub open spec fn defaulted_whole(members: Members, name: Seq<char>) -> Option<i64> {
    match member(members, name) {
        Some(j) => as_whole(j),
        None => Some(0),
    }
}

/// A member that must be there and be a number.
pub open spec fn required_amount(members: Members, name: Seq<char>) -> Option<Float> {
    match member(members, name) {
        Some(j) => as_amount(j),
        None => None,
    }
}

/// An amount that tolerates null: positive zero when the member is missing
/// or null, the number when it is one, and a failure for anything else.
pub open spec fn lenient_amount(members: Members, name: Seq<char>) -> Option<Float> {
    match member(members, name) {
        None => Some(Float { bits: 0 }),
        Some(JsonView::Null) => Some(Float { bits: 0 }),
        Some(j) => as_amount(j),
    }
}

/// An amount that may be missing or null.
pub open spec fn optional_amount(members: Members, name: Seq<char>) -> Option<Option<Float>> {
    match member(members, name) {
        None => Some(None),
        Some(JsonView::Null) => Some(None),
        Some(j) => match as_amount(j) {
            Some(x) => Some(Some(x)),
            None => None,
        },
    }
}

/// The members of a document that is an object.
pub open spec fn as_object(j: JsonView) -> Option<Members> {
    match j {
        JsonView::Object(members) => Some(members),
        _ => None,
    }
}

/// The items of a document that is an array.
pub open spec fn as_array(j: JsonView) -> Option<Seq<JsonView>> {
    match j {
        JsonView::Array(items) => Some(items),
        _ => None,
    }
}

impl Json {
    /// The members, if the document is an object.
    pub fn members(&self) -> (r: Option<&Vec<(String, Json)>>)
        ensures
            match r {
                Some(m) => as_object(self@) == Some(members_view(m@)),
                None => as_object(self@) is None,
            },
    {
        match self {
            Json::Object(members) => Some(members),
            _ => None,
        }
    }

    /// The items, if the document is an array.
    pub fn items(&self) -> (r: Option<&Vec<Json>>)
        ensures
            match r {
                Some(v) => as_array(self@) == Some(items_view(v@)),
                None => as_array(self@) is None,
            },
    {
        match self {
            Json::Array(items) => Some(items),
            _ => None,
        }
    }

    /// The characters, if the document is text.
    pub fn text(&self) -> (r: Option<&String>)
        ensures
            match r {
                Some(s) => self@ == JsonView::Text(s@),
                None => !(self@ is Text),
            },
    {
        match self {
            Json::Text(s) => Some(s),
            _ => None,
        }
    }

    /// Whether the document is JSON null.
    pub fn is_null(&self) -> (r: bool)
        ensures
            r == (self@ == JsonView::Null),
    {
        match self {
            Json::Null => true,
            _ => false,
        }
    }

    /// The document as a count.
    pub fn count(&self) -> (r: Option<u32>)
        ensures
            r == as_count(self@),
    {
        match self {
            Json::Number(n) => match n.whole {
                Some(w) => if 0 <= w && w <= 0xffff_ffff {
                    Some(w as u32)
                } else {
                    None
                },
                None => None,
            },
            _ => None,
        }
    }

    /// The document as a signed whole number.
    pub fn whole(&self) -> (r: Option<i64>)
        ensures
            r == as_whole(self@),
    {
        match self {
            Json::Number(n) => match n.whole {
                Some(w) => if -0x8000_0000_0000_0000 <= w && w <= 0x7fff_ffff_ffff_ffff {
                    Some(w as i64)
                } else {
                    None
                },
                None => None,
            },
            _ => None,
        }
    }

    /// The document as an amount.
    pub fn amount(&self) -> (r: Option<Float>)
        ensures
            r == as_amount(self@),
    {
        match self {
            Json::Number(n) => Some(n.float),
            _ => None,
        }
    }
}

/// The first member with the given name.
pub fn find<'a>(members: &'a Vec<(String, Json)>, name: &str) -> (r: Option<&'a Json>)
    ensures
        opt_view(r) == member(members_view(members@), name@),
{
    let ghost all = members_view(members@);
    let mut i: usize = 0;
    proof {
        lemma_members_view(members@);
        assert(all.skip(0) =~= all);
    }
    while i < members.len()
        invariant
            i <= members.len(),
            all == members_view(members@),
            member(all, name@) == member(all.skip(i as int), name@),
        decreases members.len() - i,
    {
        proof {
            lemma_members_view(members@);
            assert(all.skip(i as int).drop_first() =~= all.skip(i as int + 1));
            assert(all.skip(i as int)[0] == all[i as int]);
        }
        if same_text(members[i].0.as_str(), name) {
            return Some(&members[i].1);
        }
        i += 1;
    }
    assert(all.skip(i as int).len() == 0);
    None
}

/// Reads a member that must be there and be text.
pub fn read_text(members: &Vec<(String, Json)>, name: &str) -> (r: Option<String>)
    ensures
        opt_chars(r) == required_text(members_view(members@), name@),
{
    match find(members, name) {
        Some(Json::Text(s)) => Some(s.clone()),
        _ => None,
    }
}

/// Reads a text member that is empty when missing.
pub fn read_text_or_empty(members: &Vec<(String, Json)>, name: &str) -> (r: Option<String>)
    ensures
        opt_chars(r) == defaulted_text(members_view(members@), name@),
{
    match find(members, name) {
        None => Some(String::new()),
        Some(Json::Text(s)) => Some(s.clone()),
        _ => None,
    }
}

/// Reads a text member that may be missing or null.
pub fn read_optional_text(members: &Vec<(String, Json)>, name: &str) -> (r: Option<Option<String>>)
    ensures
        opt_opt_chars(r) == optional_text(members_view(members@), name@),
{
    match find(members, name) {
        None => Some(None),
        Some(Json::Null) => Some(None),
        Some(Json::Text(s)) => Some(Some(s.clone())),
        _ => None,
    }
}

/// Reads a member that must be there and be a count.
pub fn read_count(members: &Vec<(String, Json)>, name: &str) -> (r: Option<u32>)
    ensures
        r == required_count(members_view(members@), name@),
{
    match find(members, name) {
        Some(j) => j.count(),
        None => None,
    }
}

/// Reads a count member that is 0 when missing.
pub fn read_count_or_zero(members: &Vec<(String, Json)>, name: &str) -> (r: Option<u32>)
    ensures
        r == defaulted_count(members_view(members@), name@),
{
    match find(members, name) {
        Some(j) => j.count(),
        None => Some(0),
    }
}

/// Reads a count member that may be missing or null.
pub fn read_optional_count(members: &Vec<(String, Json)>, name: &str) -> (r: Option<Option<u32>>)
    ensures
        r == optional_count(members_view(members@), name@),
{
    match find(members, name) {
        None => Some(None),
        Some(j) => if j.is_null() {
            Some(None)
        } else {
            match j.count() {
                Some(n) => Some(Some(n)),
                None => None,
            }
        },
    }
}

/// Reads a member that must be there and be a signed whole number.
pub fn read_whole(members: &Vec<(String, Json)>, name: &str) -> (r: Option<i64>)
    ensures
        r == required_whole(members_view(members@), name@),
{
    match find(members, name) {
        Some(j) => j.whole(),
        None => None,
    }
}

/// Reads a signed whole member that is 0 when missing.
pub fn read_whole_or_zero(members: &Vec<(String, Json)>, name: &str) -> (r: Option<i64>)
    ensures
        r == defaulted_whole(members_view(members@), name@),
{
    match find(members, name) {
        Some(j) => j.whole(),
        None => Some(0),
    }
}

/// Reads a member that must be there and be a number.
pub fn read_amount(members: &Vec<(String, Json)>, name: &str) -> (r: Option<Float>)
    ensures
        r == required_amount(members_view(members@), name@),
{
    match find(members, name) {
        Some(j) => j.amount(),
        None => None,
    }
}

/// Reads an amount that tolerates null: a missing member and a null member
/// both read as positive zero, never as a failure.
pub fn read_lenient_amount(members: &Vec<(String, Json)>, name: &str) -> (r: Option<Float>)
    ensures
        r == lenient_amount(members_view(members@), name@),
        absent(members_view(members@), name@) ==> r == Some(Float { bits: 0 }),
{
    match find(members, name) {
        None => Some(Float::zero()),
        Some(j) => if j.is_null() {
            Some(Float::zero())
        } else {
            j.amount()
        },
    }
}

/// Reads an amount that may be missing or null.
pub fn read_optional_amount(members: &Vec<(String, Json)>, name: &str) -> (r: Option<
    Option<Float>,
>)
    ensures
        r == optional_amount(members_view(members@), name@),
{
    match find(members, name) {
        None => Some(None),
        Some(j) => if j.is_null() {
            Some(None)
        } else {
            match j.amount() {
                Some(x) => Some(Some(x)),
                None => None,
            }
        },
    }
}

/// The document that a `serde_json::Value` holds.
pub uninterp spec fn value_json(v: Value) -> JsonView;

/// The document that `serde_json` reads out of a text; `None` where it
/// rejects the text.
pub uninterp spec fn parsed_json(text: Seq<char>) -> Option<JsonView>;

/// `serde_json::from_str` to a `Value`. Whether the text is accepted, and
/// which document it gives, depends on the text alone.
#[verifier::external_body]
fn value_from_text(text: &str) -> (r: Result<Value, serde_json::Error>)
    ensures
        match r {
            Ok(v) => parsed_json(text@) == Some(value_json(v)),
            Err(_) => parsed_json(text@) is None,
        },
{
    serde_json::from_str::<Value>(text)
}

/// Copies a `serde_json::Value` into a `Json`, variant by variant. A number
/// keeps its `as_f64` as bits and its `as_i128`; `as_f64` has a value for
/// every number that `serde_json` holds without arbitrary precision, so the
/// default is never taken. An object's members come in the order in which
/// its map yields them.
#[verifier::external_body]
fn json_from_value(v: &Value) -> (r: Json)
    ensures
        r@ == value_json(*v),
{
    match v {
        Value::Null => Json::Null,
        Value::Bool(b) => Json::Bool(*b),
        Value::Number(n) => Json::Number(
            Number {
                float: Float { bits: n.as_f64().unwrap_or_default().to_bits() },
                whole: n.as_i128(),
            },
        ),
        Value::String(s) => Json::Text(s.clone()),
        Value::Array(items) => Json::Array(items.iter().map(json_from_value).collect()),
        Value::Object(map) => Json::Object(
            map.iter().map(|(k, v)| (k.clone(), json_from_value(v))).collect(),
        ),
    }
}

/// The document that a `serde_json::Value` holds, as a `Json`.
pub fn from_value(v: &Value) -> (r: Json)
    ensures
        r@ == value_json(*v),
{
    json_from_value(v)
}

/// The words of a `serde_json::Error`, by its `Display`.
#[verifier::external_body]
fn json_error_words(e: &serde_json::Error) -> (r: String) {
    e.to_string()
}

/// Reads a JSON text. The outcome is the document that `serde_json` finds
/// in the text, or its words on why it found none.
pub fn parse(text: &str) -> (r: Result<Json, String>)
    ensures
        match r {
            Ok(j) => parsed_json(text@) == Some(j@),
            Err(_) => parsed_json(text@) is None,
        },
{
    match value_from_text(text) {
        Ok(v) => Ok(json_from_value(&v)),
        Err(e) => Err(json_error_words(&e)),
    }
}

} // verus!
