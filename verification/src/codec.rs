//! JSON values from bytes and as text, by way of `serde_json`.

use crate::json::{Json, JsonTree, Number, Object};
#[allow(unused_imports)]
use crate::json::{is_number, numbers_ok};
use vstd::prelude::*;
#[allow(unused_imports)]
use vstd::utf8::encode_utf8;

verus! {

/// `serde_json::Value`: an opaque JSON value of that crate.
#[verifier::external_type_specification]
#[verifier::external_body]
pub struct ExValue(serde_json::Value);

/// What a `serde_json::Value` holds.
pub uninterp spec fn tree(value: serde_json::Value) -> JsonTree;

/// What `serde_json::from_slice` reads from these bytes: a value, or the text
/// of its complaint.
pub uninterp spec fn parsed(bytes: Seq<u8>) -> Result<JsonTree, Seq<char>>;

/// The text that `serde_json` reads from the start of these bytes, with the
/// number of bytes up to its end, or nothing when no text can be read there.
pub uninterp spec fn leading_text(bytes: Seq<u8>) -> Option<(Seq<char>, nat)>;

/// The number of bytes up to the end of the value that `serde_json` passes over
/// at the start of these bytes, or nothing when there is none.
pub uninterp spec fn leading_value(bytes: Seq<u8>) -> Option<nat>;

/// The compact text that `serde_json` writes for a value.
pub uninterp spec fn json_text(t: JsonTree) -> Seq<char>;

/// How many arrays and objects within one another `serde_json` reads.
pub const NESTING: usize = 127;

/// The member name by which `serde_json` tells a number from an object.
pub const NUMBER_TOKEN: &'static str = "$serde_json::private::Number";

/// Whether a value holds at most so many arrays and objects within one another,
/// and no object with a member that stands for a number.
pub open spec fn readable(t: JsonTree, levels: nat) -> bool
    decreases t,
{
    match t {
        JsonTree::Array(items) => levels > 0 && forall|i: int|
            0 <= i < items.len() ==> readable(#[trigger] items[i], (levels - 1) as nat),
        JsonTree::Object(members) => levels > 0 && forall|k: Seq<char>|
            members.dom().contains(k) ==> k != NUMBER_TOKEN@ && readable(
                #[trigger] members[k],
                (levels - 1) as nat,
            ),
        _ => true,
    }
}

/// An object without members is readable.
pub proof fn readable_when_empty(levels: nat)
    requires
        levels > 0,
    ensures
        readable(JsonTree::Object(Map::empty()), levels),
{
}

/// An object stays readable with one more readable member.
pub proof fn readable_with(
    members: Map<Seq<char>, JsonTree>,
    name: Seq<char>,
    value: JsonTree,
    levels: nat,
)
    requires
        readable(JsonTree::Object(members), levels),
        name != NUMBER_TOKEN@,
        readable(value, (levels - 1) as nat),
    ensures
        readable(JsonTree::Object(members.insert(name, value)), levels),
{
    let more = members.insert(name, value);
    let inner = (levels - 1) as nat;
    assert forall|k: Seq<char>| more.dom().contains(k) implies k != NUMBER_TOKEN@ by {
        if k != name {
            assert(readable(JsonTree::Object(members)->Object_0[k], inner));
        }
    }
    assert forall|k: Seq<char>| more.dom().contains(k) implies readable(
        #[trigger] more[k],
        inner,
    ) by {
        if k != name {
            assert(readable(JsonTree::Object(members)->Object_0[k], inner));
        }
    }
}

/// An array of readable items is readable one level up.
pub proof fn readable_array(items: Seq<JsonTree>, levels: nat)
    requires
        levels > 0,
        forall|i: int| 0 <= i < items.len() ==> readable(#[trigger] items[i], (levels - 1) as nat),
    ensures
        readable(JsonTree::Array(items), levels),
{
}

/// A name of another length does not stand for a number.
pub proof fn names_no_number(name: Seq<char>)
    requires
        name.len() != 28,
    ensures
        name != NUMBER_TOKEN@,
{
    reveal_strlit("$serde_json::private::Number");
}

/// Whether a value is read back from its text, if it can be read at all.
pub open spec fn reads_back(text: Seq<char>, t: JsonTree) -> bool {
    readable(t, NESTING as nat) ==> parsed(encode_utf8(text)) == Ok::<JsonTree, Seq<char>>(t)
}

/// The members that a list of entries makes: a later entry replaces an earlier
/// one of the same name.
pub open spec fn pairs_map(pairs: Seq<(Seq<char>, JsonTree)>) -> Map<Seq<char>, JsonTree>
    decreases pairs.len(),
{
    if pairs.len() == 0 {
        Map::empty()
    } else {
        pairs_map(pairs.drop_last()).insert(pairs.last().0, pairs.last().1)
    }
}

/// No name occurs twice.
pub open spec fn distinct_names(pairs: Seq<(Seq<char>, JsonTree)>) -> bool {
    forall|i: int, j: int|
        #![trigger pairs[i], pairs[j]]
        0 <= i < j < pairs.len() ==> pairs[i].0 != pairs[j].0
}

/// What a list of outside values holds.
pub open spec fn value_trees(items: Seq<serde_json::Value>) -> Seq<JsonTree> {
    Seq::new(items.len(), |i: int| tree(items[i]))
}

/// The names and contents of borrowed entries.
pub open spec fn borrowed_pairs(entries: Seq<(&String, &serde_json::Value)>) -> Seq<
    (Seq<char>, JsonTree),
> {
    Seq::new(entries.len(), |i: int| (entries[i].0@, tree(*entries[i].1)))
}

/// The names and contents of owned entries.
pub open spec fn owned_pairs(entries: Seq<(String, serde_json::Value)>) -> Seq<
    (Seq<char>, JsonTree),
> {
    Seq::new(entries.len(), |i: int| (entries[i].0@, tree(entries[i].1)))
}

/// One layer of a `serde_json::Value`, borrowed.
pub enum Layer<'a> {
    Null,
    Bool(bool),
    Number(&'a str),
    Text(&'a str),
    Array(&'a Vec<serde_json::Value>),
    Object(Vec<(&'a String, &'a serde_json::Value)>),
}

/// What the value with this outermost layer holds.
pub open spec fn layer_tree(layer: Layer) -> JsonTree {
    match layer {
        Layer::Null => JsonTree::Null,
        Layer::Bool(b) => JsonTree::Bool(b),
        Layer::Number(n) => JsonTree::Number(n@),
        Layer::Text(t) => JsonTree::Text(t@),
        Layer::Array(items) => JsonTree::Array(value_trees(items@)),
        Layer::Object(entries) => JsonTree::Object(pairs_map(borrowed_pairs(entries@))),
    }
}

/// The parts that make up a `serde_json::Value`.
pub enum Parts {
    Null,
    Bool(bool),
    Number(String),
    Text(String),
    Array(Vec<serde_json::Value>),
    Object(Vec<(String, serde_json::Value)>),
}

/// What the value made of these parts holds.
pub open spec fn parts_tree(parts: Parts) -> JsonTree {
    match parts {
        Parts::Null => JsonTree::Null,
        Parts::Bool(b) => JsonTree::Bool(b),
        Parts::Number(n) => JsonTree::Number(n@),
        Parts::Text(t) => JsonTree::Text(t@),
        Parts::Array(items) => JsonTree::Array(value_trees(items@)),
        Parts::Object(entries) => JsonTree::Object(pairs_map(owned_pairs(entries@))),
    }
}

/// Calls `serde_json::from_slice` for a `Value`. The result depends on the
/// bytes alone. The text of a number in the value is the text that was read,
/// with the sign of its exponent written out, so it has the form of a JSON
/// number.
#[verifier::external_body]
fn parse_value(bytes: &[u8]) -> (res: Result<serde_json::Value, String>)
    ensures
        match res {
            Ok(v) => parsed(bytes@) == Ok::<JsonTree, Seq<char>>(tree(v)) && numbers_ok(tree(v)),
            Err(e) => parsed(bytes@) == Err::<JsonTree, Seq<char>>(e@),
        },
{
    match serde_json::from_slice::<serde_json::Value>(bytes) {
        Ok(v) => Ok(v),
        Err(e) => Err(e.to_string()),
    }
}

/// Calls `serde_json::Deserializer::from_slice` and takes the first `String` of
/// its stream with `StreamDeserializer::byte_offset`, the number of bytes up to
/// the end of that text. Both depend on the bytes alone. A text takes at least
/// one byte.
#[verifier::external_body]
pub(crate) fn next_text(bytes: &[u8]) -> (res: Option<(String, usize)>)
    ensures
        match res {
            Some((s, n)) => leading_text(bytes@) == Some((s@, n as nat)) && 0 < n <= bytes@.len(),
            None => leading_text(bytes@) is None,
        },
{
    let mut texts = serde_json::Deserializer::from_slice(bytes).into_iter::<String>();
    match texts.next() {
        Some(Ok(s)) => Some((s, texts.byte_offset())),
        _ => None,
    }
}

/// Calls `serde_json::Deserializer::from_slice` and passes over the first value
/// of its stream as a `serde::de::IgnoredAny`, which looks at no more of it than
/// where it ends. `StreamDeserializer::byte_offset` is the number of bytes up to
/// that end; it depends on the bytes alone. A value takes at least one byte.
#[verifier::external_body]
pub(crate) fn skip_value(bytes: &[u8]) -> (res: Option<usize>)
    ensures
        match res {
            Some(n) => leading_value(bytes@) == Some(n as nat) && 0 < n <= bytes@.len(),
            None => leading_value(bytes@) is None,
        },
{
    let mut values = serde_json::Deserializer::from_slice(bytes)
        .into_iter::<serde::de::IgnoredAny>();
    match values.next() {
        Some(Ok(_)) => Some(values.byte_offset()),
        _ => None,
    }
}

/// Calls the `Display` of `serde_json::Value`, which writes the same compact
/// text as `serde_json::to_string` and `serde_json::to_vec`. The text depends
/// on what the value holds and on nothing else. `serde_json::from_slice` reads
/// the same value back from it, unless the value is nested too deeply or has a
/// member that `serde_json` takes for a number.
#[verifier::external_body]
fn value_text(value: &serde_json::Value) -> (s: String)
    ensures
        s@ == json_text(tree(*value)),
        numbers_ok(tree(*value)) ==> reads_back(s@, tree(*value)),
{
    value.to_string()
}

/// Takes the outermost layer of a `serde_json::Value` apart, variant by
/// variant, with `Number::as_str` for a number and `Map::iter` for an object.
/// A `Map` holds each name once.
#[verifier::external_body]
fn open_value<'a>(value: &'a serde_json::Value) -> (layer: Layer<'a>)
    ensures
        layer_tree(layer) == tree(*value),
        layer matches Layer::Object(entries) ==> distinct_names(borrowed_pairs(entries@)),
{
    match value {
        serde_json::Value::Null => Layer::Null,
        serde_json::Value::Bool(b) => Layer::Bool(*b),
        serde_json::Value::Number(n) => Layer::Number(n.as_str()),
        serde_json::Value::String(s) => Layer::Text(s.as_str()),
        serde_json::Value::Array(items) => Layer::Array(items),
        serde_json::Value::Object(map) => Layer::Object(map.iter().collect()),
    }
}

/// Puts a `serde_json::Value` together from its parts, variant by variant,
/// with `Number::from_str` for a number and `Map::from_iter` for an object.
/// `Number::from_str` keeps the text of a number whose exponent, if it has one,
/// has its sign written out.
#[verifier::external_body]
fn close_value(parts: Parts) -> (value: serde_json::Value)
    requires
        parts matches Parts::Number(n) ==> is_number(n@),
    ensures
        tree(value) == parts_tree(parts),
{
    match parts {
        Parts::Null => serde_json::Value::Null,
        Parts::Bool(b) => serde_json::Value::Bool(b),
        Parts::Number(n) => serde_json::Value::Number(n.parse().expect("a JSON number")),
        Parts::Text(s) => serde_json::Value::String(s),
        Parts::Array(items) => serde_json::Value::Array(items),
        Parts::Object(entries) => serde_json::Value::Object(entries.into_iter().collect()),
    }
}

proof fn distinct_pairs(pairs: Seq<(Seq<char>, JsonTree)>)
    requires
        distinct_names(pairs),
    ensures
        pairs_map(pairs).dom().finite(),
        forall|i: int|
            0 <= i < pairs.len() ==> pairs_map(pairs).dom().contains(pairs[i].0) && pairs_map(
                pairs,
            )[#[trigger] pairs[i].0] == pairs[i].1,
    decreases pairs.len(),
{
    if pairs.len() > 0 {
        let rest = pairs.drop_last();
        assert(forall|i: int| 0 <= i < rest.len() ==> #[trigger] rest[i] == pairs[i]);
        distinct_pairs(rest);
        assert forall|i: int| 0 <= i < pairs.len() implies pairs_map(pairs).dom().contains(
            pairs[i].0,
        ) && pairs_map(pairs)[#[trigger] pairs[i].0] == pairs[i].1 by {
            if i < rest.len() {
                assert(rest[i] == pairs[i]);
                assert(pairs[i].0 != pairs[pairs.len() - 1].0);
            }
        }
    }
}

fn from_value(value: &serde_json::Value) -> (j: Json)
    requires
        numbers_ok(tree(*value)),
    ensures
        j@ == tree(*value),
    decreases tree(*value),
{
    match open_value(value) {
        Layer::Null => Json::Null,
        Layer::Bool(b) => Json::Bool(b),
        Layer::Number(n) => match Number::parse(n) {
            Some(n) => Json::Number(n),
            None => Json::Null,
        },
        Layer::Text(t) => Json::text(t),
        Layer::Array(items) => {
            let ghost t = tree(*value);
            proof {
                assert(t->Array_0 == value_trees(items@));
                assert(decreases_to!(t => t->Array_0));
                assert(
                    forall|i: int| 0 <= i < items@.len() ==> #[trigger] numbers_ok(t->Array_0[i])
                );
            }
            Json::array(from_values(items))
        },
        Layer::Object(entries) => {
            let ghost t = tree(*value);
            proof {
                assert(t->Object_0 == pairs_map(borrowed_pairs(entries@)));
                assert(decreases_to!(t => t->Object_0));
            }
            Json::Object(from_entries(&entries))
        },
    }
}

fn from_values(items: &Vec<serde_json::Value>) -> (r: Vec<Json>)
    requires
        forall|i: int| 0 <= i < items@.len() ==> #[trigger] numbers_ok(value_trees(items@)[i]),
    ensures
        crate::json::trees(r@) == value_trees(items@),
    decreases value_trees(items@),
{
    let mut out: Vec<Json> = Vec::new();
    let mut i: usize = 0;
    while i < items.len()
        invariant
            i <= items@.len(),
            forall|i: int| 0 <= i < items@.len() ==> #[trigger] numbers_ok(value_trees(items@)[i]),
            out@.len() == i,
            forall|k: int| 0 <= k < i ==> #[trigger] out@[k].tree() == tree(items@[k]),
        decreases items@.len() - i,
    {
        assert(value_trees(items@)[i as int] == tree(items@[i as int]));
        assert(decreases_to!(value_trees(items@) => value_trees(items@)[i as int]));
        let item = from_value(&items[i]);
        out.push(item);
        i = i + 1;
    }
    assert(crate::json::trees(out@) =~= value_trees(items@));
    out
}

fn from_entries<'a>(entries: &Vec<(&'a String, &'a serde_json::Value)>) -> (o: Object)
    requires
        distinct_names(borrowed_pairs(entries@)),
        forall|k: Seq<char>|
            pairs_map(borrowed_pairs(entries@)).dom().contains(k) ==> #[trigger] numbers_ok(
                pairs_map(borrowed_pairs(entries@))[k],
            ),
    ensures
        o@ == pairs_map(borrowed_pairs(entries@)),
    decreases pairs_map(borrowed_pairs(entries@)),
{
    let ghost pairs = borrowed_pairs(entries@);
    let mut out = Object::new();
    let mut i: usize = 0;
    proof {
        distinct_pairs(pairs);
    }
    while i < entries.len()
        invariant
            i <= entries@.len(),
            pairs == borrowed_pairs(entries@),
            pairs_map(pairs).dom().finite(),
            forall|k: Seq<char>|
                pairs_map(pairs).dom().contains(k) ==> #[trigger] numbers_ok(pairs_map(pairs)[k]),
            forall|i: int|
                0 <= i < pairs.len() ==> pairs_map(pairs).dom().contains(pairs[i].0) && pairs_map(
                    pairs,
                )[#[trigger] pairs[i].0] == pairs[i].1,
            out@ == pairs_map(pairs.take(i as int)),
        decreases entries@.len() - i,
    {
        assert(pairs[i as int] == (entries@[i as int].0@, tree(*entries@[i as int].1)));
        assert(decreases_to!(pairs_map(pairs) => pairs_map(pairs)[pairs[i as int].0]));
        let value = from_value(entries[i].1);
        out.insert(entries[i].0.as_str(), value);
        assert(pairs.take(i + 1).drop_last() =~= pairs.take(i as int));
        i = i + 1;
    }
    assert(pairs.take(i as int) =~= pairs);
    out
}

pub(crate) fn to_value(j: &Json) -> (value: serde_json::Value)
    ensures
        tree(value) == j@,
        numbers_ok(j@),
    decreases j,
{
    match j {
        Json::Null => close_value(Parts::Null),
        Json::Bool(b) => close_value(Parts::Bool(*b)),
        Json::Number(n) => close_value(Parts::Number(n.as_str().to_owned())),
        Json::Text(t) => close_value(Parts::Text(t.clone())),
        Json::Array(items) => {
            proof {
                crate::json::array_tree(*items);
            }
            close_value(Parts::Array(to_values(items)))
        },
        Json::Object(o) => close_value(Parts::Object(o.to_entries())),
    }
}

fn to_values(items: &Vec<Json>) -> (r: Vec<serde_json::Value>)
    ensures
        value_trees(r@) == crate::json::trees(items@),
        numbers_ok(JsonTree::Array(crate::json::trees(items@))),
    decreases items,
{
    let mut out: Vec<serde_json::Value> = Vec::new();
    let mut i: usize = 0;
    while i < items.len()
        invariant
            i <= items@.len(),
            out@.len() == i,
            forall|k: int| 0 <= k < i ==> tree(#[trigger] out@[k]) == items@[k].tree(),
            forall|k: int| 0 <= k < i ==> numbers_ok(#[trigger] crate::json::trees(items@)[k]),
        decreases items@.len() - i,
    {
        let item = to_value(&items[i]);
        out.push(item);
        i = i + 1;
    }
    assert(value_trees(out@) =~= crate::json::trees(items@));
    out
}

/// Reads a JSON value from bytes, or says what is wrong with them.
pub fn parse(bytes: &[u8]) -> (r: Result<Json, String>)
    ensures
        match r {
            Ok(j) => parsed(bytes@) == Ok::<JsonTree, Seq<char>>(j@),
            Err(e) => parsed(bytes@) == Err::<JsonTree, Seq<char>>(e@),
        },
{
    match parse_value(bytes) {
        Ok(v) => Ok(from_value(&v)),
        Err(e) => Err(e),
    }
}

/// The compact text of a JSON value. The same value can be read back from it,
/// unless it is nested too deeply or has a member that stands for a number.
pub fn render(j: &Json) -> (s: String)
    ensures
        s@ == json_text(j@),
        reads_back(s@, j@),
{
    value_text(&to_value(j))
}

/// A value has the kind of its outermost layer, and what that layer holds.
pub proof fn a_value_is_what_its_layer_holds(
    b: bool,
    s: &str,
    items: &Vec<serde_json::Value>,
    entries: Vec<(&String, &serde_json::Value)>,
    i: int,
)
    ensures
        layer_tree(Layer::Null) == JsonTree::Null,
        layer_tree(Layer::Bool(b)) == JsonTree::Bool(b),
        layer_tree(Layer::Number(s)) == JsonTree::Number(s@),
        layer_tree(Layer::Text(s)) == JsonTree::Text(s@),
        layer_tree(Layer::Array(items)) is Array,
        layer_tree(Layer::Array(items))->Array_0.len() == items@.len(),
        0 <= i < items@.len() ==> layer_tree(Layer::Array(items))->Array_0[i] == tree(items@[i]),
        layer_tree(Layer::Object(entries)) == JsonTree::Object(
            pairs_map(borrowed_pairs(entries@)),
        ),
        borrowed_pairs(entries@).len() == entries@.len(),
        0 <= i < entries@.len() ==> borrowed_pairs(entries@)[i] == (
            entries@[i].0@,
            tree(*entries@[i].1),
        ),
{
}

/// A value is made of its parts, whole and in order.
pub proof fn a_value_is_made_of_its_parts(
    b: bool,
    s: String,
    items: Vec<serde_json::Value>,
    entries: Vec<(String, serde_json::Value)>,
    i: int,
)
    ensures
        parts_tree(Parts::Null) == JsonTree::Null,
        parts_tree(Parts::Bool(b)) == JsonTree::Bool(b),
        parts_tree(Parts::Number(s)) == JsonTree::Number(s@),
        parts_tree(Parts::Text(s)) == JsonTree::Text(s@),
        parts_tree(Parts::Array(items)) is Array,
        parts_tree(Parts::Array(items))->Array_0.len() == items@.len(),
        0 <= i < items@.len() ==> parts_tree(Parts::Array(items))->Array_0[i] == tree(items@[i]),
        parts_tree(Parts::Object(entries)) == JsonTree::Object(pairs_map(owned_pairs(entries@))),
        owned_pairs(entries@).len() == entries@.len(),
        0 <= i < entries@.len() ==> owned_pairs(entries@)[i] == (entries@[i].0@, tree(entries@[i].1)),
{
}

/// Pairs make a map in which each name has its value, and the last of a name stands.
pub proof fn pairs_make_a_map(
    pairs: Seq<(Seq<char>, JsonTree)>,
    name: Seq<char>,
    value: JsonTree,
)
    ensures
        pairs_map(Seq::empty()) == Map::<Seq<char>, JsonTree>::empty(),
        pairs_map(pairs.push((name, value))) == pairs_map(pairs).insert(name, value),
{
    assert(pairs.push((name, value)).drop_last() =~= pairs);
}

} // verus!
