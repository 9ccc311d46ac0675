//! JSON objects of texts, numbers and lists of texts.

use vstd::prelude::*;
use vstd::string::StringExecFns;
use crate::split;
use crate::text;

verus! {

/// The value of a field.
#[derive(Clone, Debug)]
pub enum Field {
    Text(String),
    Number(i64),
    Flag(bool),
    Texts(Vec<String>),
    Ids(Vec<u64>),
    /// An object of texts.
    Labels(Vec<(String, String)>),
}

/// What a `Field` says.
#[verifier::ext_equal]
pub enum FieldView {
    Text(Seq<char>),
    Number(i64),
    Flag(bool),
    Texts(Seq<Seq<char>>),
    Ids(Seq<u64>),
    Labels(Seq<(Seq<char>, Seq<char>)>),
}

impl View for Field {
    type V = FieldView;

    open spec fn view(&self) -> FieldView {
        match self {
            Field::Text(s) => FieldView::Text(s@),
            Field::Number(n) => FieldView::Number(*n),
            Field::Flag(b) => FieldView::Flag(*b),
            Field::Texts(v) => FieldView::Texts(text::views(v@)),
            Field::Ids(v) => FieldView::Ids(v@),
            Field::Labels(v) => FieldView::Labels(label_views(v@)),
        }
    }
}

/// Pairs of texts by their characters.
pub open spec fn label_views(s: Seq<(String, String)>) -> Seq<(Seq<char>, Seq<char>)> {
    Seq::new(s.len(), |i: int| (s[i].0@, s[i].1@))
}

/// The names and values of an object.
pub open spec fn field_views(s: Seq<(String, Field)>) -> Seq<(Seq<char>, FieldView)> {
    Seq::new(s.len(), |i: int| (s[i].0@, s[i].1@))
}

pub broadcast proof fn field_views_push(s: Seq<(String, Field)>, x: (String, Field))
    ensures
        #[trigger] field_views(s.push(x)) == field_views(s).push((x.0@, x.1@)),
{
    assert(field_views(s.push(x)) =~= field_views(s).push((x.0@, x.1@)));
}

/// The objects of a list.
pub open spec fn row_views(s: Seq<Vec<(String, Field)>>) -> Seq<Seq<(Seq<char>, FieldView)>> {
    Seq::new(s.len(), |i: int| field_views(s[i]@))
}

/// A field that holds a text.
pub fn text_field(name: &str, value: &str) -> (r: (String, Field))
    ensures
        r.0@ == name@,
        r.1@ == FieldView::Text(value@),
{
    (name.to_owned(), Field::Text(value.to_owned()))
}

/// A field that holds a number.
pub fn number_field(name: &str, value: i64) -> (r: (String, Field))
    ensures
        r.0@ == name@,
        r.1@ == FieldView::Number(value),
{
    (name.to_owned(), Field::Number(value))
}

/// A field that holds a list of texts.
pub fn texts_field(name: &str, value: &Vec<String>) -> (r: (String, Field))
    ensures
        r.0@ == name@,
        r.1@ == FieldView::Texts(text::views(value@)),
{
    (name.to_owned(), Field::Texts(text::copy_strings(value)))
}

/// The JSON text of an object with these fields.
pub uninterp spec fn object_text(fields: Seq<(Seq<char>, FieldView)>) -> Seq<char>;

/// `serde_json::Value::to_string` of an object: its compact JSON text.
#[verifier::external_body]
pub(crate) fn render_object(fields: &Vec<(String, Field)>) -> (r: String)
    ensures
        r@ == object_text(field_views(fields@)),
{
    let members = fields.iter().map(|f| (f.0.clone(), match &f.1 {
        Field::Text(s) => serde_json::Value::from(s.as_str()),
        Field::Number(n) => serde_json::Value::from(*n),
        Field::Flag(b) => serde_json::Value::from(*b),
        Field::Texts(v) => serde_json::Value::from(v.clone()),
        Field::Ids(v) => serde_json::Value::from(v.clone()),
        Field::Labels(v) => serde_json::Value::Object(
            v.iter().map(|l| (l.0.clone(), serde_json::Value::from(l.1.as_str()))).collect(),
        ),
    }));
    serde_json::Value::Object(members.collect()).to_string()
}

/// A text as a JSON string.
pub uninterp spec fn text_json(s: Seq<char>) -> Seq<char>;

/// `serde_json::Value::to_string` of a string: the text between quotes, with what has to be
/// escaped escaped.
#[verifier::external_body]
pub(crate) fn render_text(s: &str) -> (r: String)
    ensures
        r@ == text_json(s@),
{
    serde_json::Value::from(s).to_string()
}

/// A member of an object: its name, and its value as a JSON text.
pub open spec fn member_text(m: (Seq<char>, Seq<char>)) -> Seq<char> {
    text_json(m.0) + ":"@ + m.1
}

/// An object with these members, in this order.
pub open spec fn record_text(members: Seq<(Seq<char>, Seq<char>)>) -> Seq<char> {
    "{"@ + split::joined(Seq::new(members.len(), |i: int| member_text(members[i])), ","@) + "}"@
}

/// Renders an object with these members, in this order.
pub(crate) fn render_record(members: &Vec<(String, String)>) -> (r: String)
    ensures
        r@ == record_text(label_views(members@)),
{
    broadcast use text::views_push;

    let ghost ms = label_views(members@);
    let mut parts: Vec<String> = Vec::new();
    let mut i: usize = 0;
    proof {
        assert(text::views(parts@) =~= Seq::empty());
    }
    while i < members.len()
        invariant
            i <= members@.len(),
            ms == label_views(members@),
            text::views(parts@) == Seq::new(i as nat, |j: int| member_text(ms[j])),
        decreases members@.len() - i,
    {
        let mut part: String = render_text(members[i].0.as_str());
        part.append(":");
        part.append(members[i].1.as_str());
        proof {
            assert(part@ == member_text(ms[i as int]));
            assert(Seq::new((i + 1) as nat, |j: int| member_text(ms[j])) =~= Seq::new(
                i as nat,
                |j: int| member_text(ms[j]),
            ).push(member_text(ms[i as int])));
        }
        parts.push(part);
        i = i + 1;
    }
    let mut out: String = "{".to_owned();
    out.append(split::join(&parts, ",").as_str());
    out.append("}");
    out
}

pub broadcast proof fn label_views_push(s: Seq<(String, String)>, x: (String, String))
    ensures
        #[trigger] label_views(s.push(x)) == label_views(s).push((x.0@, x.1@)),
{
    assert(label_views(s.push(x)) =~= label_views(s).push((x.0@, x.1@)));
}

/// Why a text is no JSON document.
pub uninterp spec fn json_error_text(s: Seq<char>) -> Option<Seq<char>>;

/// `serde_json::from_str`: why it does not read the text as a document.
#[verifier::external_body]
pub(crate) fn json_error(s: &str) -> (r: Option<String>)
    ensures
        text::opt_view(r) == json_error_text(s@),
{
    match serde_json::from_str::<serde_json::Value>(s) {
        Ok(_) => None,
        Err(e) => Some(e.to_string()),
    }
}

/// Whether a text is a JSON document.
pub open spec fn is_json(s: Seq<char>) -> bool {
    json_error_text(s) is None
}

pub fn json_valid(s: &str) -> (r: bool)
    ensures
        r == is_json(s@),
{
    json_error(s).is_none()
}

/// The JSON text of a list of texts.
pub uninterp spec fn texts_json(v: Seq<Seq<char>>) -> Seq<char>;

/// `serde_json::Value::to_string` of a list of texts: its compact JSON text.
#[verifier::external_body]
pub(crate) fn render_texts(v: &Vec<String>) -> (r: String)
    ensures
        r@ == texts_json(text::views(v@)),
{
    serde_json::Value::from(v.clone()).to_string()
}

/// The list of texts in a JSON text.
pub uninterp spec fn texts_parsed(s: Seq<char>) -> Option<Seq<Seq<char>>>;

/// Whether `v` is the list that `s` is the JSON text of, if it is that of any.
pub open spec fn texts_read_back(s: Seq<char>, v: Option<Seq<Seq<char>>>) -> bool {
    forall|w: Seq<Seq<char>>| #[trigger] texts_json(w) == s ==> v == Some(w)
}

/// An optional list by its characters.
pub open spec fn texts_view(v: Option<Vec<String>>) -> Option<Seq<Seq<char>>> {
    match v {
        Some(v) => Some(text::views(v@)),
        None => None,
    }
}

/// `serde_json::from_str` to a list of texts. It reads back what a list is written as.
#[verifier::external_body]
pub(crate) fn parse_texts(s: &str) -> (r: Option<Vec<String>>)
    ensures
        texts_view(r) == texts_parsed(s@),
        texts_read_back(s@, texts_view(r)),
{
    serde_json::from_str::<Vec<String>>(s).ok()
}

/// A JSON document as its compact text: `null` where there is none.
pub uninterp spec fn document_text(s: Seq<char>) -> Seq<char>;

/// `serde_json::from_str` and `serde_json::Value::to_string`: the compact text of a document,
/// and that of nothing where the text holds none.
#[verifier::external_body]
pub(crate) fn render_document(s: &str) -> (r: String)
    ensures
        r@ == document_text(s@),
{
    serde_json::from_str::<serde_json::Value>(s).unwrap_or_default().to_string()
}

/// The items of the list under a key of a JSON document, each as a JSON text.
pub uninterp spec fn items_under(s: Seq<char>, key: Seq<char>) -> Option<Seq<Seq<char>>>;

/// `serde_json::Value::get` and `as_array`: the items of the list under a key of a document.
#[verifier::external_body]
pub(crate) fn read_items(s: &str, key: &str) -> (r: Option<Vec<String>>)
    ensures
        texts_view(r) == items_under(s@, key@),
{
    let document = serde_json::from_str::<serde_json::Value>(s).ok()?;
    Some(document.get(key)?.as_array()?.iter().map(|v| v.to_string()).collect())
}

/// The number at a place of a JSON document, where there is one.
pub uninterp spec fn number_at(s: Seq<char>, pointer: Seq<char>) -> Option<u64>;

/// `serde_json::Value::pointer` and `as_u64`: the number at a place of a document.
#[verifier::external_body]
pub(crate) fn read_number(s: &str, pointer: &str) -> (r: Option<u64>)
    ensures
        r == number_at(s@, pointer@),
{
    serde_json::from_str::<serde_json::Value>(s).ok()?.pointer(pointer)?.as_u64()
}

/// The text at a place of a JSON document, where there is one.
pub uninterp spec fn text_at(s: Seq<char>, pointer: Seq<char>) -> Option<Seq<char>>;

/// `serde_json::Value::pointer` and `as_str`: the text at a place of a document.
#[verifier::external_body]
pub(crate) fn read_text(s: &str, pointer: &str) -> (r: Option<String>)
    ensures
        text::opt_view(r) == text_at(s@, pointer@),
{
    let document = serde_json::from_str::<serde_json::Value>(s).ok()?;
    Some(document.pointer(pointer)?.as_str()?.to_owned())
}

} // verus!
