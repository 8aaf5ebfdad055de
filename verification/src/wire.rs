//! Byte values on the wire.
//!
//! Cache values, hash fields and the authentication secret travel as JSON
//! arrays of small integers, not as base64 or as text. The server stores opaque
//! bytes, so a client that spoke only strings would corrupt every value that is
//! not valid UTF-8.

use crate::codec;
use crate::error::{Error, ErrorKind, Result};
#[allow(unused_imports)]
use crate::error::{plain, ErrorView};
use crate::json::{Json, JsonTree};
#[allow(unused_imports)]
use crate::json::{as_unsigned, trees};
use crate::text;
use vstd::prelude::*;

verus! {

/// Bytes on the wire: one number for each.
pub open spec fn bytes_tree(bytes: Seq<u8>) -> JsonTree {
    JsonTree::Array(
        Seq::new(bytes.len(), |i: int| JsonTree::Number(text::integer(bytes[i] as int))),
    )
}

/// What kind of value this is, in words.
pub open spec fn kind_words(t: JsonTree) -> Seq<char> {
    match t {
        JsonTree::Null => "null"@,
        JsonTree::Bool(_) => "a boolean"@,
        JsonTree::Number(_) => "a number"@,
        JsonTree::Text(_) => "a string"@,
        JsonTree::Array(_) => "an array"@,
        JsonTree::Object(_) => "an object"@,
    }
}

/// What the items of a list are read as, in order: the first item that cannot
/// be read decides for the whole list.
pub open spec fn collected<X>(
    items: Seq<JsonTree>,
    read: spec_fn(int, JsonTree) -> std::result::Result<X, ErrorView>,
) -> std::result::Result<Seq<X>, ErrorView>
    decreases items.len(),
{
    if items.len() == 0 {
        Ok(Seq::empty())
    } else {
        match collected(items.drop_last(), read) {
            Err(e) => Err(e),
            Ok(xs) => match read(items.len() - 1, items.last()) {
                Err(e) => Err(e),
                Ok(x) => Ok(xs.push(x)),
            },
        }
    }
}

/// The byte that an item of a byte list is.
pub open spec fn byte_of(index: int, item: JsonTree) -> std::result::Result<u8, ErrorView> {
    match as_unsigned(item) {
        Some(n) => if n <= 255 {
            Ok(n as u8)
        } else {
            Err(not_a_byte(index, item))
        },
        None => Err(not_a_byte(index, item)),
    }
}

/// The refusal of an item that is not a byte.
pub open spec fn not_a_byte(index: int, item: JsonTree) -> ErrorView {
    plain(
        ErrorKind::Protocol,
        "byte "@ + text::decimal(index as nat) + " of the value is "@ + codec::json_text(item)
            + ", which is not a number in 0..=255"@,
    )
}

/// The bytes that a value is.
pub open spec fn bytes_of(t: JsonTree) -> std::result::Result<Seq<u8>, ErrorView> {
    match t {
        JsonTree::Array(items) => collected(items, |i: int, x: JsonTree| byte_of(i, x)),
        _ => Err(plain(ErrorKind::Protocol, "expected an array of bytes, got "@ + kind_words(t))),
    }
}

/// The byte strings that a value is.
pub open spec fn byte_strings_of(t: JsonTree) -> std::result::Result<Seq<Seq<u8>>, ErrorView> {
    match t {
        JsonTree::Array(items) => collected(items, |i: int, x: JsonTree| bytes_of(x)),
        _ => Err(
            plain(ErrorKind::Protocol, "expected an array of byte arrays, got "@ + kind_words(t)),
        ),
    }
}

/// The `[field, value]` pair that a value is.
pub open spec fn pair_of(t: JsonTree) -> std::result::Result<(Seq<u8>, Seq<u8>), ErrorView> {
    if t is Array && t->Array_0.len() == 2 {
        match bytes_of(t->Array_0[0]) {
            Err(e) => Err(e),
            Ok(field) => match bytes_of(t->Array_0[1]) {
                Err(e) => Err(e),
                Ok(value) => Ok((field, value)),
            },
        }
    } else {
        Err(plain(ErrorKind::Protocol, "expected a [field, value] pair"@))
    }
}

/// What a list of byte strings holds.
pub open spec fn byte_strings(values: Seq<Vec<u8>>) -> Seq<Seq<u8>> {
    Seq::new(values.len(), |i: int| values[i]@)
}

/// Byte strings on the wire.
pub open spec fn byte_strings_tree(values: Seq<Seq<u8>>) -> JsonTree {
    JsonTree::Array(Seq::new(values.len(), |i: int| bytes_tree(values[i])))
}

/// The refusal of an empty argument.
pub open spec fn must_not_be_empty(name: Seq<char>) -> ErrorView {
    plain(ErrorKind::InvalidArgument, "`"@ + name + "` must not be empty"@)
}

pub(crate) proof fn collected_prefix_fails<X>(
    items: Seq<JsonTree>,
    read: spec_fn(int, JsonTree) -> std::result::Result<X, ErrorView>,
    n: int,
)
    requires
        0 <= n <= items.len(),
        collected(items.take(n), read) is Err,
    ensures
        collected(items, read) == collected(items.take(n), read),
    decreases items.len(),
{
    if n < items.len() {
        assert(items.drop_last().take(n) =~= items.take(n));
        collected_prefix_fails(items.drop_last(), read, n);
    } else {
        assert(items.take(n) =~= items);
    }
}

pub(crate) proof fn collected_step<X>(
    items: Seq<JsonTree>,
    read: spec_fn(int, JsonTree) -> std::result::Result<X, ErrorView>,
    n: int,
)
    requires
        0 <= n < items.len(),
    ensures
        items.take(n + 1).drop_last() == items.take(n),
        items.take(n + 1).last() == items[n],
{
    assert(items.take(n + 1).drop_last() =~= items.take(n));
}

proof fn bytes_read_back_up_to(bytes: Seq<u8>, n: int)
    requires
        0 <= n <= bytes.len(),
    ensures
        collected(bytes_tree(bytes)->Array_0.take(n), |i: int, x: JsonTree| byte_of(i, x)) == Ok::<
            Seq<u8>,
            ErrorView,
        >(bytes.take(n)),
    decreases n,
{
    let items = bytes_tree(bytes)->Array_0;
    if n > 0 {
        bytes_read_back_up_to(bytes, n - 1);
        collected_step(items, |i: int, x: JsonTree| byte_of(i, x), n - 1);
        text::decimal_reads_back(bytes[n - 1] as int);
        assert(bytes.take(n) =~= bytes.take(n - 1).push(bytes[n - 1]));
    } else {
        assert(bytes.take(0) =~= Seq::<u8>::empty());
    }
}

/// Every byte string comes back from the wire as it was, byte for byte.
pub proof fn bytes_round_trip(bytes: Seq<u8>)
    ensures
        bytes_of(bytes_tree(bytes)) == Ok::<Seq<u8>, ErrorView>(bytes),
{
    bytes_read_back_up_to(bytes, bytes.len() as int);
    assert(bytes.take(bytes.len() as int) =~= bytes);
    let items = bytes_tree(bytes)->Array_0;
    assert(items.take(bytes.len() as int) =~= items);
}

proof fn byte_strings_read_back_up_to(values: Seq<Seq<u8>>, n: int)
    requires
        0 <= n <= values.len(),
    ensures
        collected(
            byte_strings_tree(values)->Array_0.take(n),
            |i: int, x: JsonTree| bytes_of(x),
        ) == Ok::<Seq<Seq<u8>>, ErrorView>(values.take(n)),
    decreases n,
{
    let items = byte_strings_tree(values)->Array_0;
    if n > 0 {
        byte_strings_read_back_up_to(values, n - 1);
        collected_step(items, |i: int, x: JsonTree| bytes_of(x), n - 1);
        bytes_round_trip(values[n - 1]);
        assert(values.take(n) =~= values.take(n - 1).push(values[n - 1]));
    } else {
        assert(values.take(0) =~= Seq::<Seq<u8>>::empty());
    }
}

/// Every list of byte strings comes back from the wire as it was.
pub proof fn byte_strings_round_trip(values: Seq<Seq<u8>>)
    ensures
        byte_strings_of(byte_strings_tree(values)) == Ok::<Seq<Seq<u8>>, ErrorView>(values),
{
    byte_strings_read_back_up_to(values, values.len() as int);
    assert(values.take(values.len() as int) =~= values);
    let items = byte_strings_tree(values)->Array_0;
    assert(items.take(values.len() as int) =~= items);
}

/// A list with an item outside `0..=255` is refused, not masked.
pub proof fn a_non_byte_is_refused(items: Seq<JsonTree>, index: int)
    requires
        0 <= index < items.len(),
        as_unsigned(items[index]) is None || as_unsigned(items[index])->0 > 255,
    ensures
        bytes_of(JsonTree::Array(items)) is Err,
{
    let read = |i: int, x: JsonTree| byte_of(i, x);
    collected_step(items, read, index);
    assert(collected(items.take(index + 1), read) is Err);
    collected_prefix_fails(items, read, index + 1);
}

/// Encode bytes the way the server expects them.
pub fn byte_list(bytes: &[u8]) -> (j: Json)
    ensures
        j@ == bytes_tree(bytes@),
{
    let mut out: Vec<Json> = Vec::new();
    let mut i: usize = 0;
    while i < bytes.len()
        invariant
            i <= bytes@.len(),
            out@.len() == i,
            forall|k: int|
                0 <= k < i ==> #[trigger] out@[k].tree() == JsonTree::Number(
                    text::integer(bytes@[k] as int),
                ),
        decreases bytes@.len() - i,
    {
        out.push(Json::unsigned(bytes[i] as u64));
        i = i + 1;
    }
    assert(trees(out@) =~= bytes_tree(bytes@)->Array_0);
    Json::array(out)
}

/// Encode several byte strings, refusing an empty list here so the error names
/// the argument rather than arriving from the server.
pub fn byte_lists(values: &[Vec<u8>], name: &str) -> (r: Result<Json>)
    ensures
        match r {
            Ok(j) => values@.len() > 0 && j@ == byte_strings_tree(byte_strings(values@)),
            Err(e) => values@.len() == 0 && e@ == must_not_be_empty(name@),
        },
{
    if values.len() == 0 {
        return Err(Error::invalid(text::join3("`", name, "` must not be empty").as_str()));
    }
    let mut out: Vec<Json> = Vec::new();
    let mut i: usize = 0;
    while i < values.len()
        invariant
            i <= values@.len(),
            out@.len() == i,
            forall|k: int| 0 <= k < i ==> #[trigger] out@[k].tree() == bytes_tree(values@[k]@),
        decreases values@.len() - i,
    {
        out.push(byte_list(values[i].as_slice()));
        i = i + 1;
    }
    assert(trees(out@) =~= byte_strings_tree(byte_strings(values@))->Array_0);
    Ok(Json::array(out))
}

fn kind_of(value: &Json) -> (s: &'static str)
    ensures
        s@ == kind_words(value@),
{
    match value {
        Json::Null => "null",
        Json::Bool(_) => "a boolean",
        Json::Number(_) => "a number",
        Json::Text(_) => "a string",
        Json::Array(_) => "an array",
        Json::Object(_) => "an object",
    }
}

fn decode_byte(index: usize, item: &Json) -> (r: Result<u8>)
    ensures
        match r {
            Ok(b) => byte_of(index as int, item@) == Ok::<u8, ErrorView>(b),
            Err(e) => byte_of(index as int, item@) == Err::<u8, ErrorView>(e@),
        },
{
    match item.as_u64() {
        Some(n) => {
            if n <= 255 {
                return Ok(n as u8);
            }
        },
        None => {},
    }
    let mut message = "byte ".to_owned();
    text::push_decimal(&mut message, index as u128);
    message.append(" of the value is ");
    message.append(codec::render(item).as_str());
    message.append(", which is not a number in 0..=255");
    Err(Error::protocol(message.as_str()))
}

/// Decode a JSON array of small integers back into bytes.
///
/// A value outside `0..=255` is not a byte: it is refused rather than masked,
/// because masking would quietly corrupt the payload.
pub fn decode_byte_list(value: &Json) -> (r: Result<Vec<u8>>)
    ensures
        match r {
            Ok(bytes) => bytes_of(value@) == Ok::<Seq<u8>, ErrorView>(bytes@),
            Err(e) => bytes_of(value@) == Err::<Seq<u8>, ErrorView>(e@),
        },
{
    let items = match value.as_array() {
        Some(items) => items,
        None => {
            return Err(
                Error::protocol(
                    text::join("expected an array of bytes, got ", kind_of(value)).as_str(),
                ),
            );
        },
    };
    let ghost t = trees(items@);
    let ghost read = |i: int, x: JsonTree| byte_of(i, x);
    let mut out: Vec<u8> = Vec::with_capacity(items.len());
    let mut i: usize = 0;
    while i < items.len()
        invariant
            i <= items@.len(),
            t == trees(items@),
            value@ == JsonTree::Array(t),
            read == (|i: int, x: JsonTree| byte_of(i, x)),
            collected(t.take(i as int), read) == Ok::<Seq<u8>, ErrorView>(out@),
        decreases items@.len() - i,
    {
        assert(t[i as int] == items@[i as int]@);
        proof {
            collected_step(t, read, i as int);
        }
        match decode_byte(i, &items[i]) {
            Ok(b) => {
                out.push(b);
            },
            Err(e) => {
                proof {
                    collected_prefix_fails(t, read, i + 1);
                }
                return Err(e);
            },
        }
        i = i + 1;
    }
    assert(t.take(i as int) =~= t);
    Ok(out)
}

/// Decode an array of byte arrays.
pub fn decode_byte_lists(value: &Json) -> (r: Result<Vec<Vec<u8>>>)
    ensures
        match r {
            Ok(values) => byte_strings_of(value@) == Ok::<Seq<Seq<u8>>, ErrorView>(
                byte_strings(values@),
            ),
            Err(e) => byte_strings_of(value@) == Err::<Seq<Seq<u8>>, ErrorView>(e@),
        },
{
    let items = match value.as_array() {
        Some(items) => items,
        None => {
            return Err(
                Error::protocol(
                    text::join("expected an array of byte arrays, got ", kind_of(value)).as_str(),
                ),
            );
        },
    };
    let ghost t = trees(items@);
    let ghost read = |i: int, x: JsonTree| bytes_of(x);
    let mut out: Vec<Vec<u8>> = Vec::with_capacity(items.len());
    let mut i: usize = 0;
    assert(byte_strings(out@) =~= Seq::<Seq<u8>>::empty());
    while i < items.len()
        invariant
            i <= items@.len(),
            t == trees(items@),
            value@ == JsonTree::Array(t),
            read == (|i: int, x: JsonTree| bytes_of(x)),
            collected(t.take(i as int), read) == Ok::<Seq<Seq<u8>>, ErrorView>(byte_strings(out@)),
        decreases items@.len() - i,
    {
        assert(t[i as int] == items@[i as int]@);
        proof {
            collected_step(t, read, i as int);
        }
        match decode_byte_list(&items[i]) {
            Ok(b) => {
                let ghost before = byte_strings(out@);
                out.push(b);
                assert(byte_strings(out@) =~= before.push(b@));
            },
            Err(e) => {
                proof {
                    collected_prefix_fails(t, read, i + 1);
                }
                return Err(e);
            },
        }
        i = i + 1;
    }
    assert(t.take(i as int) =~= t);
    Ok(out)
}

/// Decode a `[field, value]` pair.
pub fn decode_pair(value: &Json) -> (r: Result<(Vec<u8>, Vec<u8>)>)
    ensures
        match r {
            Ok(p) => pair_of(value@) == Ok::<(Seq<u8>, Seq<u8>), ErrorView>((p.0@, p.1@)),
            Err(e) => pair_of(value@) == Err::<(Seq<u8>, Seq<u8>), ErrorView>(e@),
        },
{
    match value.as_array() {
        Some(items) => {
            if items.len() == 2 {
                assert(trees(items@)[0] == items@[0]@ && trees(items@)[1] == items@[1]@);
                return match decode_byte_list(&items[0]) {
                    Ok(field) => match decode_byte_list(&items[1]) {
                        Ok(value) => Ok((field, value)),
                        Err(e) => Err(e),
                    },
                    Err(e) => Err(e),
                };
            }
        },
        None => {},
    }
    Err(Error::protocol("expected a [field, value] pair"))
}

/// Bytes are sent as a list of numbers, one for each byte in its place.
pub proof fn bytes_are_sent_one_by_one(bytes: Seq<u8>, values: Seq<Vec<u8>>, i: int)
    ensures
        bytes_tree(bytes) is Array,
        bytes_tree(bytes)->Array_0.len() == bytes.len(),
        0 <= i < bytes.len() ==> bytes_tree(bytes)->Array_0[i] == JsonTree::Number(
            text::integer(bytes[i] as int),
        ),
        byte_strings(values).len() == values.len(),
        0 <= i < values.len() ==> byte_strings(values)[i] == values[i]@,
        byte_strings_tree(byte_strings(values)) is Array,
        byte_strings_tree(byte_strings(values))->Array_0.len() == values.len(),
        0 <= i < values.len() ==> byte_strings_tree(byte_strings(values))->Array_0[i] == bytes_tree(
            values[i]@,
        ),
{
}

/// A list is read whole: every item in its place, and only when every item can be
/// read.
pub proof fn lists_are_read_whole<X>(
    items: Seq<JsonTree>,
    read: spec_fn(int, JsonTree) -> std::result::Result<X, ErrorView>,
)
    ensures
        collected(items, read) matches Ok(xs) ==> {
            &&& xs.len() == items.len()
            &&& forall|i: int|
                0 <= i < items.len() ==> #[trigger] read(i, items[i]) == Ok::<X, ErrorView>(xs[i])
        },
        (forall|i: int| 0 <= i < items.len() ==> #[trigger] read(i, items[i]) is Ok) ==> collected(
            items,
            read,
        ) is Ok,
    decreases items.len(),
{
    if items.len() > 0 {
        let head = items.drop_last();
        lists_are_read_whole(head, read);
        assert forall|i: int| 0 <= i < head.len() implies head[i] == items[i] by {}
        if collected(items, read) is Ok {
            let xs = collected(items, read)->Ok_0;
            let before = collected(head, read)->Ok_0;
            assert forall|i: int| 0 <= i < items.len() implies #[trigger] read(i, items[i]) == Ok::<
                X,
                ErrorView,
            >(xs[i]) by {
                if i < head.len() {
                    assert(read(i, head[i]) == Ok::<X, ErrorView>(before[i]));
                }
            }
        }
        if forall|i: int| 0 <= i < items.len() ==> #[trigger] read(i, items[i]) is Ok {
            assert forall|i: int| 0 <= i < head.len() implies #[trigger] read(i, head[i]) is Ok by {
                assert(read(i, items[i]) is Ok);
            }
            assert(read(items.len() - 1, items[items.len() - 1]) is Ok);
        }
    }
}

/// A list that cannot be read is refused for its first item that cannot.
pub proof fn lists_are_refused_for_their_first_fault<X>(
    items: Seq<JsonTree>,
    read: spec_fn(int, JsonTree) -> std::result::Result<X, ErrorView>,
    at: int,
)
    requires
        0 <= at < items.len(),
        forall|i: int| 0 <= i < at ==> #[trigger] read(i, items[i]) is Ok,
        read(at, items[at]) is Err,
    ensures
        collected(items, read) == Err::<Seq<X>, ErrorView>(read(at, items[at])->Err_0),
{
    let head = items.take(at);
    assert forall|i: int| 0 <= i < head.len() implies #[trigger] read(i, head[i]) is Ok by {
        assert(read(i, items[i]) is Ok);
    }
    lists_are_read_whole(head, read);
    collected_step(items, read, at);
    collected_prefix_fails(items, read, at + 1);
}

/// A list of numbers is read as bytes exactly when each is one, and the first that is
/// not is named by its place.
pub proof fn a_byte_is_a_number_below_the_limit(index: int, n: u64, t: JsonTree)
    requires
        index >= 0,
    ensures
        n < 256 ==> byte_of(index, JsonTree::Number(text::integer(n as int))) == Ok::<u8, ErrorView>(
            n as u8,
        ),
        n >= 256 ==> byte_of(index, JsonTree::Number(text::integer(n as int))) is Err,
        !(t is Number) ==> byte_of(index, t) is Err,
        byte_of(index, t) matches Err(e) ==> e.kind == ErrorKind::Protocol && e.message == "byte "@
            + text::integer(index) + " of the value is "@ + codec::json_text(t)
            + ", which is not a number in 0..=255"@,
{
    text::decimal_reads_back(n as int);
}

/// Bytes are read from a list of them, item by item, and from nothing else.
pub proof fn bytes_are_read_from_a_list(items: Seq<JsonTree>, t: JsonTree)
    ensures
        bytes_of(JsonTree::Array(items)) matches Ok(bytes) ==> {
            &&& bytes.len() == items.len()
            &&& forall|i: int|
                0 <= i < items.len() ==> #[trigger] byte_of(i, items[i]) == Ok::<u8, ErrorView>(
                    bytes[i],
                )
        },
        byte_strings_of(JsonTree::Array(items)) matches Ok(values) ==> {
            &&& values.len() == items.len()
            &&& forall|i: int|
                0 <= i < items.len() ==> bytes_of(#[trigger] items[i]) == Ok::<Seq<u8>, ErrorView>(
                    values[i],
                )
        },
        (forall|i: int| 0 <= i < items.len() ==> bytes_of(#[trigger] items[i]) is Ok)
            ==> byte_strings_of(JsonTree::Array(items)) is Ok,
        !(t is Array) ==> bytes_of(t) == Err::<Seq<u8>, ErrorView>(
            plain(ErrorKind::Protocol, "expected an array of bytes, got "@ + kind_words(t)),
        ),
        !(t is Array) ==> byte_strings_of(t) == Err::<Seq<Seq<u8>>, ErrorView>(
            plain(ErrorKind::Protocol, "expected an array of byte arrays, got "@ + kind_words(t)),
        ),
{
    let one = |i: int, x: JsonTree| byte_of(i, x);
    lists_are_read_whole(items, one);
    assert forall|i: int| 0 <= i < items.len() implies #[trigger] byte_of(i, items[i]) == one(
        i,
        items[i],
    ) by {}
    let many = |i: int, x: JsonTree| bytes_of(x);
    lists_are_read_whole(items, many);
    assert forall|i: int| 0 <= i < items.len() implies bytes_of(#[trigger] items[i]) == many(
        i,
        items[i],
    ) by {}
}

/// A pair is a list of two, the field first and the value second.
pub proof fn a_pair_is_a_field_and_a_value(items: Seq<JsonTree>, t: JsonTree)
    ensures
        items.len() == 2 ==> (pair_of(JsonTree::Array(items)) matches Ok((field, value)) ==> {
            &&& bytes_of(items[0]) == Ok::<Seq<u8>, ErrorView>(field)
            &&& bytes_of(items[1]) == Ok::<Seq<u8>, ErrorView>(value)
        }),
        items.len() == 2 && bytes_of(items[0]) is Ok && bytes_of(items[1]) is Ok ==> pair_of(
            JsonTree::Array(items),
        ) is Ok,
        items.len() == 2 && bytes_of(items[0]) is Err ==> pair_of(JsonTree::Array(items)) == Err::<
            (Seq<u8>, Seq<u8>),
            ErrorView,
        >(bytes_of(items[0])->Err_0),
        items.len() == 2 && bytes_of(items[0]) is Ok && bytes_of(items[1]) is Err ==> pair_of(
            JsonTree::Array(items),
        ) == Err::<(Seq<u8>, Seq<u8>), ErrorView>(bytes_of(items[1])->Err_0),
        !(t is Array) || t->Array_0.len() != 2 ==> pair_of(t) == Err::<
            (Seq<u8>, Seq<u8>),
            ErrorView,
        >(plain(ErrorKind::Protocol, "expected a [field, value] pair"@)),
{
}

/// A value is told by its kind, so no two kinds are told alike.
pub proof fn kinds_are_told_apart(
    b: bool,
    s: Seq<char>,
    items: Seq<JsonTree>,
    m: Map<Seq<char>, JsonTree>,
)
    ensures
        kind_words(JsonTree::Null) == "null"@,
        kind_words(JsonTree::Bool(b)) == "a boolean"@,
        kind_words(JsonTree::Number(s)) == "a number"@,
        kind_words(JsonTree::Text(s)) == "a string"@,
        kind_words(JsonTree::Array(items)) == "an array"@,
        kind_words(JsonTree::Object(m)) == "an object"@,
{
}

/// A list that must hold something is refused by its name.
pub proof fn an_empty_list_is_refused_by_name(name: Seq<char>)
    ensures
        must_not_be_empty(name).kind == ErrorKind::InvalidArgument,
        must_not_be_empty(name).message == "`"@ + name + "` must not be empty"@,
        must_not_be_empty(name).code is None,
{
}

/// What two calls have to do with one another: bytes that were sent as a list are read
/// back from it.
pub proof fn sent_bytes_are_read_back(
    bytes: &[u8],
    j: Json,
    r: Result<Vec<u8>>,
    values: &[Vec<u8>],
    name: &str,
    k: Json,
    s: Result<Vec<Vec<u8>>>,
    i: int,
)
    ensures
        call_ensures(byte_list, (bytes,), j) && call_ensures(decode_byte_list, (&j,), r) ==> r is Ok
            && r->Ok_0@ == bytes@,
        call_ensures(byte_lists, (values, name), Ok(k)) && call_ensures(decode_byte_lists, (&k,), s)
            ==> s is Ok && s->Ok_0@.len() == values@.len() && (0 <= i < values@.len()
            ==> s->Ok_0@[i]@ == values@[i]@),
{
    bytes_round_trip(bytes@);
    byte_strings_round_trip(byte_strings(values@));
    if call_ensures(byte_lists, (values, name), Ok(k)) && call_ensures(
        decode_byte_lists,
        (&k,),
        s,
    ) {
        assert(byte_strings(s->Ok_0@) == byte_strings(values@));
        assert(byte_strings(s->Ok_0@).len() == s->Ok_0@.len());
        if 0 <= i < values@.len() {
            assert(byte_strings(s->Ok_0@)[i] == byte_strings(values@)[i]);
        }
    }
}

} // verus!
