//! The cache: values with TTLs and counters, plus lists, sets, hashes and
//! streams.
//!
//! Values are bytes throughout, never strings: the server stores opaque bytes,
//! and a client that spoke only text would corrupt anything that is not valid
//! UTF-8. The `_text` helpers exist for the common case and say what encoding
//! they impose.
//!
//! A key holds one type at a time. Using the wrong family on a key is an error,
//! never a silent conversion. A collection that becomes empty deletes its key,
//! and changing a collection never resets the key's TTL.
//!
//! Each operation is a method that returns the frame to write, and a `_reply`
//! that takes the answer.

use crate::client::Client;
#[allow(unused_imports)]
use crate::client::{
    answered, carries, declines, envelope, legible, model_view, reply_view, response_result, sends,
    ClientView,
};
#[allow(unused_imports)]
use crate::codec;
use crate::decode;
use crate::decode::Decode;
use crate::error::{Error, ErrorKind, Result};
#[allow(unused_imports)]
use crate::error::{plain, ErrorView};
use crate::frame::Frame;
#[allow(unused_imports)]
use crate::frame::Tag;
use crate::json::{Json, JsonTree, Object};
#[allow(unused_imports)]
use crate::json::{member, number_tree, size_tree, texts_tree, trees, wrapped};
use crate::options::Duration;
#[allow(unused_imports)]
use crate::options::bound_of;
use crate::response::Response;
#[allow(unused_imports)]
use crate::response::{expected, typed, typed_single, ResponseView};
use crate::text;
use crate::wire::{byte_list, byte_lists, decode_byte_list, decode_byte_lists, decode_pair};
#[allow(unused_imports)]
use crate::wire::{
    byte_strings, byte_strings_of, byte_strings_tree, bytes_of, bytes_tree, collected,
    must_not_be_empty, pair_of,
};
use vstd::hash_map::StringHashMap;
use vstd::prelude::*;
#[allow(unused_imports)]
use vstd::utf8::{decode_utf8, encode_utf8, valid_utf8};

verus! {

/// One live key in a namespace.
#[derive(Debug, Clone, PartialEq, Eq)]
pub struct CacheKeyInfo {
    /// The key's name.
    pub key: String,
    /// Milliseconds until it expires, or `None` when it does not.
    pub ttl_ms: Option<i64>,
    /// How many bytes the value occupies.
    pub bytes: i64,
}

/// What a [`CacheKeyInfo`] holds.
#[verifier::ext_equal]
pub struct CacheKeyInfoView {
    pub key: Seq<char>,
    pub ttl_ms: Option<i64>,
    pub bytes: i64,
}

impl Decode for CacheKeyInfo {
    type V = CacheKeyInfoView;

    open spec fn decoded(t: JsonTree) -> Option<CacheKeyInfoView> {
        let key = decode::required::<String>(t, 0, "key"@);
        let ttl_ms = decode::or_absent::<Option<i64>>(t, 1, "ttl_ms"@, None);
        let bytes = decode::or_absent::<i64>(t, 2, "bytes"@, 0);
        if decode::is_record(t, 3) && key is Some && ttl_ms is Some && bytes is Some {
            Some(CacheKeyInfoView { key: key->0, ttl_ms: ttl_ms->0, bytes: bytes->0 })
        } else {
            None
        }
    }

    open spec fn model(&self) -> CacheKeyInfoView {
        CacheKeyInfoView { key: self.key@, ttl_ms: self.ttl_ms.model(), bytes: self.bytes }
    }

    fn decode(j: &Json) -> (r: Option<CacheKeyInfo>) {
        if !decode::check_record(j, 3) {
            return None;
        }
        let key = decode::take::<String>(j, 0, "key")?;
        let ttl_ms = decode::take_or::<Option<i64>>(j, 1, "ttl_ms", None)?;
        let bytes = decode::take_or::<i64>(j, 2, "bytes", 0)?;
        Some(CacheKeyInfo { key, ttl_ms, bytes })
    }
}

/// One `(field, value)` entry of a hash or a stream.
///
/// Fields are arbitrary bytes and need not be UTF-8, which is why this is a
/// pair rather than a map key.
#[derive(Debug, PartialEq, Eq)]
pub struct CachePair {
    /// The field name, as bytes.
    pub field: Vec<u8>,
    /// The value, as bytes.
    pub value: Vec<u8>,
}

/// What a [`CachePair`] holds.
#[verifier::ext_equal]
pub struct CachePairView {
    pub field: Seq<u8>,
    pub value: Seq<u8>,
}

impl View for CachePair {
    type V = CachePairView;

    open spec fn view(&self) -> CachePairView {
        CachePairView { field: self.field@, value: self.value@ }
    }
}

/// What a list of pairs holds.
pub open spec fn pair_views(pairs: Seq<CachePair>) -> Seq<CachePairView> {
    Seq::new(pairs.len(), |i: int| pairs[i]@)
}

/// Pairs from text, encoded UTF-8.
pub open spec fn text_pairs(entries: Seq<(&str, &str)>) -> Seq<CachePairView> {
    Seq::new(
        entries.len(),
        |i: int|
            CachePairView { field: encode_utf8(entries[i].0@), value: encode_utf8(entries[i].1@) },
    )
}

/// The text that bytes encode, when they are valid UTF-8.
pub open spec fn utf8_text(bytes: Seq<u8>) -> Option<Seq<char>> {
    if valid_utf8(bytes) {
        Some(decode_utf8(bytes))
    } else {
        None
    }
}

/// A pair on the wire.
pub open spec fn pair_tree(p: CachePairView) -> JsonTree {
    JsonTree::Array(seq![bytes_tree(p.field), bytes_tree(p.value)])
}

/// Pairs on the wire.
pub open spec fn pairs_tree(pairs: Seq<CachePairView>) -> JsonTree {
    JsonTree::Array(Seq::new(pairs.len(), |i: int| pair_tree(pairs[i])))
}

/// A pair comes back from the wire as it was, byte for byte.
pub proof fn pairs_round_trip(p: CachePairView)
    ensures
        pair_of(pair_tree(p)) == Ok::<(Seq<u8>, Seq<u8>), ErrorView>((p.field, p.value)),
{
    crate::wire::bytes_round_trip(p.field);
    crate::wire::bytes_round_trip(p.value);
}

/// Text put into a pair reads back as the same text.
pub proof fn text_pairs_read_back(entries: Seq<(&str, &str)>, index: int)
    requires
        0 <= index < entries.len(),
    ensures
        utf8_text(text_pairs(entries)[index].field) == Some(entries[index].0@),
        utf8_text(text_pairs(entries)[index].value) == Some(entries[index].1@),
{
    broadcast use {vstd::utf8::encode_utf8_valid_utf8, vstd::utf8::encode_utf8_decode_utf8};
}

impl CachePair {
    /// A pair from any two byte strings.
    pub fn new(field: &[u8], value: &[u8]) -> (p: CachePair)
        ensures
            p@ == (CachePairView { field: field@, value: value@ }),
    {
        CachePair {
            field: vstd::slice::slice_to_vec(field),
            value: vstd::slice::slice_to_vec(value),
        }
    }

    /// Pairs from text, encoded UTF-8.
    pub fn from_text(entries: &[(&str, &str)]) -> (r: Vec<CachePair>)
        ensures
            pair_views(r@) == text_pairs(entries@),
    {
        let mut out: Vec<CachePair> = Vec::new();
        let mut i: usize = 0;
        while i < entries.len()
            invariant
                i <= entries@.len(),
                out@.len() == i,
                forall|k: int| 0 <= k < i ==> (#[trigger] out@[k])@ == text_pairs(entries@)[k],
            decreases entries@.len() - i,
        {
            let e = entries[i];
            out.push(CachePair::new(e.0.as_bytes(), e.1.as_bytes()));
            i = i + 1;
        }
        assert(pair_views(out@) =~= text_pairs(entries@));
        out
    }

    /// The field as text, when it is valid UTF-8.
    pub fn field_text(&self) -> (r: Option<&str>)
        ensures
            utf8_text(self@.field) == (match r { Some(s) => Some(s@), None => None::<Seq<char>> }),
    {
        text::from_utf8(self.field.as_slice())
    }

    /// The value as text, when it is valid UTF-8.
    pub fn value_text(&self) -> (r: Option<&str>)
        ensures
            utf8_text(self@.value) == (match r { Some(s) => Some(s@), None => None::<Seq<char>> }),
    {
        text::from_utf8(self.value.as_slice())
    }

    /// The pair on the wire.
    pub fn to_wire(&self) -> (j: Json)
        ensures
            j@ == pair_tree(self@),
    {
        let mut out: Vec<Json> = Vec::new();
        out.push(byte_list(self.field.as_slice()));
        out.push(byte_list(self.value.as_slice()));
        assert(trees(out@) =~= pair_tree(self@)->Array_0);
        Json::array(out)
    }
}

impl Clone for CachePair {
    fn clone(&self) -> (p: CachePair)
        ensures
            p@ == self@,
    {
        CachePair::new(self.field.as_slice(), self.value.as_slice())
    }
}

fn wire_pairs(pairs: &[CachePair]) -> (j: Json)
    ensures
        j@ == pairs_tree(pair_views(pairs@)),
{
    let mut out: Vec<Json> = Vec::new();
    let mut i: usize = 0;
    while i < pairs.len()
        invariant
            i <= pairs@.len(),
            out@.len() == i,
            forall|k: int| 0 <= k < i ==> #[trigger] out@[k].tree() == pair_tree(pairs@[k]@),
        decreases pairs@.len() - i,
    {
        out.push(pairs[i].to_wire());
        i = i + 1;
    }
    assert(trees(out@) =~= pairs_tree(pair_views(pairs@))->Array_0);
    Json::array(out)
}

/// One entry of a stream.
#[derive(Debug, PartialEq, Eq)]
pub struct StreamEntry {
    /// The entry's `<ms>-<seq>` id.
    pub id: String,
    /// Its fields, in the order the server returned them.
    pub fields: Vec<CachePair>,
}

/// What a [`StreamEntry`] holds.
#[verifier::ext_equal]
pub struct StreamEntryView {
    pub id: Seq<char>,
    pub fields: Seq<CachePairView>,
}

impl View for StreamEntry {
    type V = StreamEntryView;

    open spec fn view(&self) -> StreamEntryView {
        StreamEntryView { id: self.id@, fields: pair_views(self.fields@) }
    }
}

/// What a list of entries holds.
pub open spec fn entry_views(entries: Seq<StreamEntry>) -> Seq<StreamEntryView> {
    Seq::new(entries.len(), |i: int| entries[i]@)
}

/// Fields as text, by name. Where two fields have one name, the later stays.
pub open spec fn text_map(fields: Seq<CachePairView>) -> Map<Seq<char>, Seq<char>>
    decreases fields.len(),
{
    if fields.len() == 0 {
        Map::empty()
    } else {
        text_map(fields.drop_last()).insert(
            text::lossy_text(fields.last().field),
            text::lossy_text(fields.last().value),
        )
    }
}

impl StreamEntry {
    /// The fields as text. Wrong for binary payloads, where
    /// [`StreamEntry::fields`] stays authoritative.
    pub fn text(&self) -> (m: StringHashMap<String>)
        ensures
            crate::sql::texts_of(m@) == text_map(self@.fields),
    {
        let ghost fields = self@.fields;
        let mut m: StringHashMap<String> = StringHashMap::new();
        let mut i: usize = 0;
        assert(crate::sql::texts_of(m@) =~= text_map(fields.take(0)));
        while i < self.fields.len()
            invariant
                i <= self.fields@.len(),
                fields == self@.fields,
                crate::sql::texts_of(m@) == text_map(fields.take(i as int)),
            decreases self.fields@.len() - i,
        {
            let ghost before = m@;
            let p = &self.fields[i];
            assert(fields[i as int] == p@);
            let name = text::from_utf8_lossy(p.field.as_slice());
            let value = text::from_utf8_lossy(p.value.as_slice());
            let ghost (k, v) = (name@, value@);
            m.insert(name, value);
            assert(crate::sql::texts_of(m@) =~= crate::sql::texts_of(before).insert(k, v));
            assert(fields.take(i + 1).drop_last() =~= fields.take(i as int));
            i = i + 1;
        }
        assert(fields.take(i as int) =~= fields);
        m
    }
}

impl Clone for StreamEntry {
    fn clone(&self) -> (e: StreamEntry)
        ensures
            e@ == self@,
    {
        let mut fields: Vec<CachePair> = Vec::new();
        let mut i: usize = 0;
        while i < self.fields.len()
            invariant
                i <= self.fields@.len(),
                fields@.len() == i,
                forall|k: int| 0 <= k < i ==> (#[trigger] fields@[k])@ == self.fields@[k]@,
            decreases self.fields@.len() - i,
        {
            fields.push(self.fields[i].clone());
            i = i + 1;
        }
        assert(pair_views(fields@) =~= pair_views(self.fields@));
        StreamEntry { id: self.id.clone(), fields }
    }
}

/// `{"namespace": …, "key": …}`, which every keyed cache operation starts from.
pub open spec fn key_members(namespace: Seq<char>, key: Seq<char>) -> Map<Seq<char>, JsonTree> {
    Map::<Seq<char>, JsonTree>::empty().insert("namespace"@, JsonTree::Text(namespace)).insert(
        "key"@,
        JsonTree::Text(key),
    )
}

/// Milliseconds on the wire, no more than an `i64` holds.
pub open spec fn millis_tree(d: Duration) -> JsonTree {
    number_tree(
        if d@ / 1_000_000 > i64::MAX {
            i64::MAX as int
        } else {
            (d@ / 1_000_000) as int
        },
    )
}

/// A time to live on the wire: none, and one without length, is `null`.
pub open spec fn ttl_tree(ttl: Option<Duration>) -> JsonTree {
    match bound_of(ttl) {
        Some(d) => millis_tree(d),
        None => JsonTree::Null,
    }
}

/// A text on the wire, or `null`.
pub open spec fn text_tree(s: Option<&str>) -> JsonTree {
    match s {
        Some(t) => JsonTree::Text(t@),
        None => JsonTree::Null,
    }
}

/// The id asked for a new entry on the wire: an empty one is none.
pub open spec fn entry_id_tree(id: Option<&str>) -> JsonTree {
    match id {
        Some(s) => if s@.len() == 0 {
            JsonTree::Null
        } else {
            JsonTree::Text(s@)
        },
        None => JsonTree::Null,
    }
}

/// A cache operation.
pub open spec fn cache_op(variant: Seq<char>, body: Map<Seq<char>, JsonTree>) -> JsonTree {
    wrapped("Cache"@, wrapped(variant, JsonTree::Object(body)))
}

/// `{"namespace": …, "key": …}`, which every keyed cache operation starts from.
pub fn ns_key(namespace: &str, key: &str) -> (o: Object)
    ensures
        o@ == key_members(namespace@, key@),
{
    Object::new().with("namespace", Json::text(namespace)).with("key", Json::text(key))
}

fn millis(d: Duration) -> (j: Json)
    ensures
        j@ == millis_tree(d),
{
    let ms: u128 = d.as_millis();
    if ms > 0x7fff_ffff_ffff_ffffu128 {
        Json::signed(i64::MAX)
    } else {
        Json::signed(ms as i64)
    }
}

/// A time to live on the wire.
pub fn ttl_value(ttl: Option<Duration>) -> (j: Json)
    ensures
        j@ == ttl_tree(ttl),
{
    match crate::options::bounded(ttl) {
        Some(d) => millis(d),
        None => Json::Null,
    }
}

/// A cache operation.
pub fn op(variant: &str, body: Object) -> (j: Json)
    ensures
        j@ == cache_op(variant@, body@),
{
    Json::wrap("Cache", Json::wrap(variant, Json::Object(body)))
}

/// What an optional byte string is.
pub open spec fn value_view(r: Result<Option<Vec<u8>>>) -> std::result::Result<
    Option<Seq<u8>>,
    ErrorView,
> {
    match r {
        Ok(Some(b)) => Ok(Some(b@)),
        Ok(None) => Ok(None),
        Err(e) => Err(e@),
    }
}

/// What a list of byte strings is.
pub open spec fn values_view(r: Result<Vec<Vec<u8>>>) -> std::result::Result<
    Seq<Seq<u8>>,
    ErrorView,
> {
    match r {
        Ok(v) => Ok(byte_strings(v@)),
        Err(e) => Err(e@),
    }
}

/// What a list of pairs is.
pub open spec fn pairs_view(r: Result<Vec<CachePair>>) -> std::result::Result<
    Seq<CachePairView>,
    ErrorView,
> {
    match r {
        Ok(v) => Ok(pair_views(v@)),
        Err(e) => Err(e@),
    }
}

/// What a list of stream entries is.
pub open spec fn entries_view(r: Result<Vec<StreamEntry>>) -> std::result::Result<
    Seq<StreamEntryView>,
    ErrorView,
> {
    match r {
        Ok(v) => Ok(entry_views(v@)),
        Err(e) => Err(e@),
    }
}

/// What a `CacheValue` answer means: a null payload is a miss.
pub open spec fn value_meaning(r: ResponseView, what: Seq<char>) -> std::result::Result<
    Option<Seq<u8>>,
    ErrorView,
> {
    match expected(r, "CacheValue"@, what) {
        Err(e) => Err(e),
        Ok(data) => if data is Null {
            Ok(None)
        } else {
            match bytes_of(data) {
                Ok(b) => Ok(Some(b)),
                Err(e) => Err(e),
            }
        },
    }
}

/// A miss is told apart from a stored empty value.
pub proof fn a_miss_is_not_an_empty_value(r: ResponseView, what: Seq<char>)
    requires
        r.kind == "CacheValue"@,
    ensures
        r.data == JsonTree::Null ==> value_meaning(r, what) == Ok::<Option<Seq<u8>>, ErrorView>(None),
        r.data == bytes_tree(Seq::empty()) ==> value_meaning(r, what) == Ok::<
            Option<Seq<u8>>,
            ErrorView,
        >(Some(Seq::empty())),
{
    crate::wire::bytes_round_trip(Seq::empty());
}

/// A stored value is read back as it was sent, byte for byte.
pub proof fn a_value_reads_back(r: ResponseView, what: Seq<char>, value: Seq<u8>)
    requires
        r.kind == "CacheValue"@,
        r.data == bytes_tree(value),
    ensures
        value_meaning(r, what) == Ok::<Option<Seq<u8>>, ErrorView>(Some(value)),
{
    crate::wire::bytes_round_trip(value);
}

/// The operation that stores a value.
pub open spec fn set_op(
    namespace: Seq<char>,
    key: Seq<char>,
    value: Seq<u8>,
    ttl: Option<Duration>,
) -> JsonTree {
    cache_op(
        "Set"@,
        key_members(namespace, key)
            .insert("value"@, bytes_tree(value))
            .insert("ttl_ms"@, ttl_tree(ttl)),
    )
}

proof fn set_op_is_legible(
    namespace: Seq<char>,
    key: Seq<char>,
    value: Seq<u8>,
    ttl: Option<Duration>,
)
    ensures
        legible(set_op(namespace, key, value, ttl)),
{
    reveal_strlit("Cache");
    reveal_strlit("Set");
    reveal_strlit("namespace");
    reveal_strlit("key");
    reveal_strlit("value");
    reveal_strlit("ttl_ms");
    codec::names_no_number("Cache"@);
    codec::names_no_number("Set"@);
    codec::names_no_number("namespace"@);
    codec::names_no_number("key"@);
    codec::names_no_number("value"@);
    codec::names_no_number("ttl_ms"@);
    let n = (codec::NESTING - 3) as nat;
    let none = Map::<Seq<char>, JsonTree>::empty();
    let named = none.insert("namespace"@, JsonTree::Text(namespace));
    let body = key_members(namespace, key);
    codec::readable_when_empty(n);
    codec::readable_with(none, "namespace"@, JsonTree::Text(namespace), n);
    codec::readable_with(named, "key"@, JsonTree::Text(key), n);
    codec::readable_array(bytes_tree(value)->Array_0, (n - 1) as nat);
    codec::readable_with(body, "value"@, bytes_tree(value), n);
    codec::readable_with(body.insert("value"@, bytes_tree(value)), "ttl_ms"@, ttl_tree(ttl), n);
    let whole = JsonTree::Object(
        body.insert("value"@, bytes_tree(value)).insert("ttl_ms"@, ttl_tree(ttl)),
    );
    codec::readable_when_empty(n + 1);
    codec::readable_with(none, "Set"@, whole, n + 1);
    codec::readable_when_empty(n + 2);
    codec::readable_with(none, "Cache"@, wrapped("Set"@, whole), n + 2);
}

/// Whoever reads the request that stores a value finds the value in it, byte for
/// byte, whether or not it is text.
pub proof fn a_stored_value_is_sent_byte_for_byte(
    before: ClientView,
    after: ClientView,
    namespace: Seq<char>,
    key: Seq<char>,
    value: Seq<u8>,
    ttl: Option<Duration>,
    r: Result<Vec<u8>>,
)
    requires
        sends(before, after, set_op(namespace, key, value, ttl), r),
        r is Ok,
    ensures
        carries(
            r->Ok_0@,
            Tag::Request,
            envelope(after, set_op(namespace, key, value, ttl)),
        ),
        member(set_op(namespace, key, value, ttl)->Object_0["Cache"@]->Object_0["Set"@], "value"@)
            == Some(bytes_tree(value)),
        bytes_of(bytes_tree(value)) == Ok::<Seq<u8>, ErrorView>(value),
{
    set_op_is_legible(namespace, key, value, ttl);
    reveal_strlit("value");
    reveal_strlit("ttl_ms");
    assert("value"@.len() != "ttl_ms"@.len());
    crate::wire::bytes_round_trip(value);
}

/// Reads a `CacheValue`, where a null payload is a miss.
pub fn cache_value(response: &Response, what: &str) -> (r: Result<Option<Vec<u8>>>)
    ensures
        value_view(r) == value_meaning(response@, what@),
{
    match response.expect("CacheValue", what) {
        Ok(Json::Null) => Ok(None),
        Ok(data) => match decode_byte_list(data) {
            Ok(b) => Ok(Some(b)),
            Err(e) => Err(e),
        },
        Err(e) => Err(e),
    }
}

/// A member of a `Json` payload, or `null`.
pub open spec fn member_or_null(t: JsonTree, name: Seq<char>) -> JsonTree {
    match member(t, name) {
        Some(x) => x,
        None => JsonTree::Null,
    }
}

/// What an answer with byte strings in this member means.
pub open spec fn values_meaning(r: ResponseView, what: Seq<char>, name: Seq<char>) -> std::result::Result<
    Seq<Seq<u8>>,
    ErrorView,
> {
    match expected(r, "Json"@, what) {
        Err(e) => Err(e),
        Ok(data) => byte_strings_of(member_or_null(data, name)),
    }
}

/// Reads the byte strings in a member of a `Json` payload.
pub fn cache_values(response: &Response, what: &str, name: &str) -> (r: Result<Vec<Vec<u8>>>)
    ensures
        values_view(r) == values_meaning(response@, what@, name@),
{
    match response.expect("Json", what) {
        Ok(data) => match data.get(name) {
            Some(x) => decode_byte_lists(x),
            None => decode_byte_lists(&Json::Null),
        },
        Err(e) => Err(e),
    }
}

/// The pair that an item is.
pub open spec fn pair_at(index: int, item: JsonTree) -> std::result::Result<
    CachePairView,
    ErrorView,
> {
    match pair_of(item) {
        Ok(p) => Ok(CachePairView { field: p.0, value: p.1 }),
        Err(e) => Err(e),
    }
}

/// The pairs that a list of items is.
pub open spec fn pairs_of(items: Seq<JsonTree>) -> std::result::Result<
    Seq<CachePairView>,
    ErrorView,
> {
    collected(items, |i: int, x: JsonTree| pair_at(i, x))
}

fn decode_pairs(items: &Vec<Json>) -> (r: Result<Vec<CachePair>>)
    ensures
        pairs_view(r) == pairs_of(trees(items@)),
{
    let ghost t = trees(items@);
    let ghost read = |i: int, x: JsonTree| pair_at(i, x);
    let mut out: Vec<CachePair> = Vec::new();
    let mut i: usize = 0;
    assert(pair_views(out@) =~= Seq::<CachePairView>::empty());
    while i < items.len()
        invariant
            i <= items@.len(),
            t == trees(items@),
            read == (|i: int, x: JsonTree| pair_at(i, x)),
            collected(t.take(i as int), read) == Ok::<Seq<CachePairView>, ErrorView>(
                pair_views(out@),
            ),
        decreases items@.len() - i,
    {
        assert(t[i as int] == items@[i as int]@);
        proof {
            crate::wire::collected_step(t, read, i as int);
        }
        match decode_pair(&items[i]) {
            Ok((field, value)) => {
                let ghost before = pair_views(out@);
                let p = CachePair { field, value };
                out.push(p);
                assert(pair_views(out@) =~= before.push(p@));
            },
            Err(e) => {
                proof {
                    crate::wire::collected_prefix_fails(t, read, i + 1);
                }
                return Err(e);
            },
        }
        i = i + 1;
    }
    assert(t.take(i as int) =~= t);
    Ok(out)
}

/// What the answer with all fields of a hash means.
pub open spec fn hash_meaning(r: ResponseView) -> std::result::Result<
    Seq<CachePairView>,
    ErrorView,
> {
    match expected(r, "Json"@, "HGetAll"@) {
        Err(e) => Err(e),
        Ok(data) => match member(data, "entries"@) {
            Some(JsonTree::Array(items)) => pairs_of(items),
            _ => Err(plain(ErrorKind::Protocol, "malformed HGetAll payload: no entries"@)),
        },
    }
}

/// Reads all fields of a hash.
pub fn hash_entries(response: &Response) -> (r: Result<Vec<CachePair>>)
    ensures
        pairs_view(r) == hash_meaning(response@),
{
    let data = match response.expect("Json", "HGetAll") {
        Ok(data) => data,
        Err(e) => {
            return Err(e);
        },
    };
    match data.get("entries") {
        Some(x) => match x.as_array() {
            Some(items) => decode_pairs(items),
            None => Err(Error::protocol("malformed HGetAll payload: no entries")),
        },
        None => Err(Error::protocol("malformed HGetAll payload: no entries")),
    }
}

/// An entry of a stream before its pairs are read.
pub struct WireEntry {
    pub id: String,
    pub fields: Vec<Json>,
}

/// What a [`WireEntry`] holds.
#[verifier::ext_equal]
pub struct WireEntryView {
    pub id: Seq<char>,
    pub fields: Seq<JsonTree>,
}

impl Decode for WireEntry {
    type V = WireEntryView;

    open spec fn decoded(t: JsonTree) -> Option<WireEntryView> {
        let id = decode::or_absent::<String>(t, 0, "id"@, Seq::empty());
        let fields = decode::or_absent::<Vec<Json>>(t, 1, "fields"@, Seq::empty());
        if decode::is_record(t, 2) && id is Some && fields is Some {
            Some(WireEntryView { id: id->0, fields: fields->0 })
        } else {
            None
        }
    }

    open spec fn model(&self) -> WireEntryView {
        WireEntryView { id: self.id@, fields: self.fields.model() }
    }

    fn decode(j: &Json) -> (r: Option<WireEntry>) {
        if !decode::check_record(j, 2) {
            return None;
        }
        let none: Vec<Json> = Vec::new();
        assert(none.model() =~= Seq::<JsonTree>::empty());
        let id = decode::take_or::<String>(j, 0, "id", String::new())?;
        let fields = decode::take_or::<Vec<Json>>(j, 1, "fields", none)?;
        Some(WireEntry { id, fields })
    }
}

/// The stream entries that decoded entries are: the first pair that cannot be
/// read decides.
pub open spec fn stream_of(entries: Seq<WireEntryView>) -> std::result::Result<
    Seq<StreamEntryView>,
    ErrorView,
>
    decreases entries.len(),
{
    if entries.len() == 0 {
        Ok(Seq::empty())
    } else {
        match stream_of(entries.drop_last()) {
            Err(e) => Err(e),
            Ok(head) => match pairs_of(entries.last().fields) {
                Err(e) => Err(e),
                Ok(fields) => Ok(head.push(StreamEntryView { id: entries.last().id, fields })),
            },
        }
    }
}

proof fn stream_prefix_fails(entries: Seq<WireEntryView>, n: int)
    requires
        0 <= n <= entries.len(),
        stream_of(entries.take(n)) is Err,
    ensures
        stream_of(entries) == stream_of(entries.take(n)),
    decreases entries.len(),
{
    if n < entries.len() {
        assert(entries.drop_last().take(n) =~= entries.take(n));
        stream_prefix_fails(entries.drop_last(), n);
    } else {
        assert(entries.take(n) =~= entries);
    }
}

/// What an answer with stream entries means.
pub open spec fn stream_meaning(r: ResponseView, what: Seq<char>) -> std::result::Result<
    Seq<StreamEntryView>,
    ErrorView,
> {
    match typed_single::<Vec<WireEntry>>(r, what, "entries"@, Seq::empty()) {
        Err(e) => Err(e),
        Ok(entries) => stream_of(entries),
    }
}

/// Reads stream entries.
pub fn stream_entries(response: &Response, what: &str) -> (r: Result<Vec<StreamEntry>>)
    ensures
        entries_view(r) == stream_meaning(response@, what@),
{
    let none: Vec<WireEntry> = Vec::new();
    assert(none.model() =~= Seq::<WireEntryView>::empty());
    let entries: Vec<WireEntry> = match response.decode_single(what, "entries", none) {
        Ok(entries) => entries,
        Err(e) => {
            return Err(e);
        },
    };
    let ghost t = entries.model();
    let mut out: Vec<StreamEntry> = Vec::new();
    let mut i: usize = 0;
    assert(entry_views(out@) =~= Seq::<StreamEntryView>::empty());
    assert(t.take(0) =~= Seq::<WireEntryView>::empty());
    while i < entries.len()
        invariant
            i <= entries@.len(),
            t == entries.model(),
            stream_meaning(response@, what@) == stream_of(t),
            stream_of(t.take(i as int)) == Ok::<Seq<StreamEntryView>, ErrorView>(entry_views(out@)),
        decreases entries@.len() - i,
    {
        let entry = &entries[i];
        assert(t[i as int] == entry.model());
        assert(t.take(i + 1).drop_last() =~= t.take(i as int));
        assert(trees(entry.fields@) =~= entry.model().fields);
        match decode_pairs(&entry.fields) {
            Ok(fields) => {
                let ghost before = entry_views(out@);
                let e = StreamEntry { id: entry.id.clone(), fields };
                out.push(e);
                assert(entry_views(out@) =~= before.push(e@));
            },
            Err(e) => {
                proof {
                    stream_prefix_fails(t, i + 1);
                }
                return Err(e);
            },
        }
        i = i + 1;
    }
    assert(t.take(i as int) =~= t);
    Ok(out)
}

/// A remaining time to live: a negative one is none.
pub open spec fn remaining_ttl(ms: Option<i64>) -> Option<int> {
    match ms {
        Some(ms) => if ms >= 0 {
            Some(ms * 1_000_000)
        } else {
            None
        },
        None => None,
    }
}

/// What the answer with a remaining time to live means, in nanoseconds.
pub open spec fn ttl_meaning(r: ResponseView) -> std::result::Result<Option<int>, ErrorView> {
    match typed_single::<Option<i64>>(r, "Ttl"@, "ttl_ms"@, None) {
        Err(e) => Err(e),
        Ok(ms) => Ok(remaining_ttl(ms)),
    }
}

/// What an optional time is, in nanoseconds.
pub open spec fn ttl_view(r: Result<Option<Duration>>) -> std::result::Result<
    Option<int>,
    ErrorView,
> {
    match r {
        Ok(Some(d)) => Ok(Some(d@ as int)),
        Ok(None) => Ok(None),
        Err(e) => Err(e@),
    }
}

/// Reads a remaining time to live.
pub fn remaining(response: &Response) -> (r: Result<Option<Duration>>)
    ensures
        ttl_view(r) == ttl_meaning(response@),
{
    match response.decode_single::<Option<i64>>("Ttl", "ttl_ms", None) {
        Ok(Some(ms)) => if ms >= 0 {
            Ok(Some(Duration::from_millis(ms as u64)))
        } else {
            Ok(None)
        },
        Ok(None) => Ok(None),
        Err(e) => Err(e),
    }
}

impl Client {
    /// A liveness check routed through the cache module. Any response is the
    /// answer.
    ///
    /// Unlike [`Client::ping`], which never reaches a module, this proves
    /// authentication, routing and dispatch all work.
    pub fn cache_ping(&mut self) -> (r: Result<Vec<u8>>)
        requires
            old(self)@.request_counter < u64::MAX,
        ensures
            sends(old(self)@, final(self)@, wrapped("Cache"@, JsonTree::Text("Ping"@)), r),
    {
        self.send(Json::wrap("Cache", Json::text("Ping")))
    }

    /// Read a value. `None` is a miss — which is how a miss is told apart from
    /// a stored empty value.
    pub fn cache_get(&mut self, namespace: &str, key: &str) -> (r: Result<Vec<u8>>)
        requires
            old(self)@.request_counter < u64::MAX,
        ensures
            sends(old(self)@, final(self)@, cache_op("Get"@, key_members(namespace@, key@)), r),
    {
        self.send(op("Get", ns_key(namespace, key)))
    }

    /// Take the answer to [`Client::cache_get`].
    pub fn cache_get_reply(&mut self, reply: Result<Frame>) -> (r: Result<Option<Vec<u8>>>)
        ensures
            answered(
                old(self)@,
                final(self)@,
                reply_view(reply),
                |x: ResponseView| value_meaning(x, "Get"@),
                value_view(r),
            ),
    {
        let response = self.reply(reply)?;
        self.keep(cache_value(&response, "Get"))
    }

    /// Store a value with no expiry. Any response is the answer.
    pub fn cache_set(&mut self, namespace: &str, key: &str, value: &[u8]) -> (r: Result<Vec<u8>>)
        requires
            old(self)@.request_counter < u64::MAX,
        ensures
            sends(old(self)@, final(self)@, set_op(namespace@, key@, value@, None), r),
    {
        self.cache_set_ttl(namespace, key, value, None)
    }

    /// Store a value, expiring after `ttl`. `None` means no expiry. Any response is
    /// the answer.
    pub fn cache_set_ttl(
        &mut self,
        namespace: &str,
        key: &str,
        value: &[u8],
        ttl: Option<Duration>,
    ) -> (r: Result<Vec<u8>>)
        requires
            old(self)@.request_counter < u64::MAX,
        ensures
            sends(old(self)@, final(self)@, set_op(namespace@, key@, value@, ttl), r),
    {
        self.send(
            op(
                "Set",
                ns_key(namespace, key)
                    .with("value", byte_list(value))
                    .with("ttl_ms", ttl_value(ttl)),
            ),
        )
    }

    /// Store a value only if the key is absent, reporting whether it was
    /// written. The primitive behind a distributed lock.
    pub fn cache_set_nx(
        &mut self,
        namespace: &str,
        key: &str,
        value: &[u8],
        ttl: Option<Duration>,
    ) -> (r: Result<Vec<u8>>)
        requires
            old(self)@.request_counter < u64::MAX,
        ensures
            sends(
                old(self)@,
                final(self)@,
                cache_op(
                    "SetNx"@,
                    key_members(namespace@, key@)
                        .insert("value"@, bytes_tree(value@))
                        .insert("ttl_ms"@, ttl_tree(ttl)),
                ),
                r,
            ),
    {
        self.send(
            op(
                "SetNx",
                ns_key(namespace, key)
                    .with("value", byte_list(value))
                    .with("ttl_ms", ttl_value(ttl)),
            ),
        )
    }

    /// Take the answer to [`Client::cache_set_nx`].
    pub fn cache_set_nx_reply(&mut self, reply: Result<Frame>) -> (r: Result<bool>)
        ensures
            answered(
                old(self)@,
                final(self)@,
                reply_view(reply),
                |x: ResponseView| typed_single::<bool>(x, "SetNx"@, "set"@, false),
                model_view(r),
            ),
    {
        let response = self.reply(reply)?;
        self.keep(response.decode_single("SetNx", "set", false))
    }

    /// Delete a key, reporting whether it was there. Deleting an absent key is
    /// not an error.
    pub fn cache_delete(&mut self, namespace: &str, key: &str) -> (r: Result<Vec<u8>>)
        requires
            old(self)@.request_counter < u64::MAX,
        ensures
            sends(old(self)@, final(self)@, cache_op("Delete"@, key_members(namespace@, key@)), r),
    {
        self.send(op("Delete", ns_key(namespace, key)))
    }

    /// Take the answer to [`Client::cache_delete`].
    pub fn cache_delete_reply(&mut self, reply: Result<Frame>) -> (r: Result<bool>)
        ensures
            answered(
                old(self)@,
                final(self)@,
                reply_view(reply),
                |x: ResponseView| typed_single::<bool>(x, "Delete"@, "deleted"@, false),
                model_view(r),
            ),
    {
        let response = self.reply(reply)?;
        self.keep(response.decode_single("Delete", "deleted", false))
    }

    /// Whether the key is present and unexpired.
    pub fn cache_exists(&mut self, namespace: &str, key: &str) -> (r: Result<Vec<u8>>)
        requires
            old(self)@.request_counter < u64::MAX,
        ensures
            sends(old(self)@, final(self)@, cache_op("Exists"@, key_members(namespace@, key@)), r),
    {
        self.send(op("Exists", ns_key(namespace, key)))
    }

    /// Take the answer to [`Client::cache_exists`].
    pub fn cache_exists_reply(&mut self, reply: Result<Frame>) -> (r: Result<bool>)
        ensures
            answered(
                old(self)@,
                final(self)@,
                reply_view(reply),
                |x: ResponseView| typed_single::<bool>(x, "Exists"@, "exists"@, false),
                model_view(r),
            ),
    {
        let response = self.reply(reply)?;
        self.keep(response.decode_single("Exists", "exists", false))
    }

    /// How long until the key expires.
    ///
    /// `None` means the key is missing **or** has no expiry; use
    /// [`Client::cache_exists`] to tell those apart.
    pub fn cache_ttl(&mut self, namespace: &str, key: &str) -> (r: Result<Vec<u8>>)
        requires
            old(self)@.request_counter < u64::MAX,
        ensures
            sends(old(self)@, final(self)@, cache_op("Ttl"@, key_members(namespace@, key@)), r),
    {
        self.send(op("Ttl", ns_key(namespace, key)))
    }

    /// Take the answer to [`Client::cache_ttl`].
    pub fn cache_ttl_reply(&mut self, reply: Result<Frame>) -> (r: Result<Option<Duration>>)
        ensures
            answered(
                old(self)@,
                final(self)@,
                reply_view(reply),
                |x: ResponseView| ttl_meaning(x),
                ttl_view(r),
            ),
    {
        let response = self.reply(reply)?;
        self.keep(remaining(&response))
    }

    /// Set or replace a key's TTL. `false` when the key does not exist.
    pub fn cache_expire(
        &mut self,
        namespace: &str,
        key: &str,
        ttl: Duration,
    ) -> (r: Result<Vec<u8>>)
        requires
            old(self)@.request_counter < u64::MAX,
        ensures
            sends(
                old(self)@,
                final(self)@,
                cache_op(
                    "Expire"@,
                    key_members(namespace@, key@).insert("ttl_ms"@, millis_tree(ttl)),
                ),
                r,
            ),
    {
        self.send(op("Expire", ns_key(namespace, key).with("ttl_ms", millis(ttl))))
    }

    /// Take the answer to [`Client::cache_expire`].
    pub fn cache_expire_reply(&mut self, reply: Result<Frame>) -> (r: Result<bool>)
        ensures
            answered(
                old(self)@,
                final(self)@,
                reply_view(reply),
                |x: ResponseView| typed_single::<bool>(x, "Expire"@, "updated"@, false),
                model_view(r),
            ),
    {
        let response = self.reply(reply)?;
        self.keep(response.decode_single("Expire", "updated", false))
    }

    /// Remove a key's TTL, making it permanent. `false` when it had none.
    pub fn cache_persist(&mut self, namespace: &str, key: &str) -> (r: Result<Vec<u8>>)
        requires
            old(self)@.request_counter < u64::MAX,
        ensures
            sends(old(self)@, final(self)@, cache_op("Persist"@, key_members(namespace@, key@)), r),
    {
        self.send(op("Persist", ns_key(namespace, key)))
    }

    /// Take the answer to [`Client::cache_persist`].
    pub fn cache_persist_reply(&mut self, reply: Result<Frame>) -> (r: Result<bool>)
        ensures
            answered(
                old(self)@,
                final(self)@,
                reply_view(reply),
                |x: ResponseView| typed_single::<bool>(x, "Persist"@, "persisted"@, false),
                model_view(r),
            ),
    {
        let response = self.reply(reply)?;
        self.keep(response.decode_single("Persist", "persisted", false))
    }

    /// Add to a counter and read the new value. A missing key starts at zero; a
    /// key holding something that is not a number is an error, not a
    /// conversion.
    pub fn cache_incr(&mut self, namespace: &str, key: &str, by: i64) -> (r: Result<Vec<u8>>)
        requires
            old(self)@.request_counter < u64::MAX,
        ensures
            sends(
                old(self)@,
                final(self)@,
                cache_op(
                    "Incr"@,
                    key_members(namespace@, key@).insert("by"@, number_tree(by as int)),
                ),
                r,
            ),
    {
        self.send(op("Incr", ns_key(namespace, key).with("by", Json::signed(by))))
    }

    /// Take the answer to [`Client::cache_incr`].
    pub fn cache_incr_reply(&mut self, reply: Result<Frame>) -> (r: Result<i64>)
        ensures
            answered(
                old(self)@,
                final(self)@,
                reply_view(reply),
                |x: ResponseView| typed_single::<i64>(x, "Incr"@, "value"@, 0),
                model_view(r),
            ),
    {
        let response = self.reply(reply)?;
        self.keep(response.decode_single("Incr", "value", 0i64))
    }

    /// Delete every key in a namespace, returning how many went.
    pub fn cache_clear_namespace(&mut self, namespace: &str) -> (r: Result<Vec<u8>>)
        requires
            old(self)@.request_counter < u64::MAX,
        ensures
            sends(
                old(self)@,
                final(self)@,
                cache_op(
                    "ClearNamespace"@,
                    Map::<Seq<char>, JsonTree>::empty()
                        .insert("namespace"@, JsonTree::Text(namespace@)),
                ),
                r,
            ),
    {
        self.send(op("ClearNamespace", Object::new().with("namespace", Json::text(namespace))))
    }

    /// Take the answer to [`Client::cache_clear_namespace`].
    pub fn cache_clear_namespace_reply(&mut self, reply: Result<Frame>) -> (r: Result<i64>)
        ensures
            answered(
                old(self)@,
                final(self)@,
                reply_view(reply),
                |x: ResponseView| typed_single::<i64>(x, "ClearNamespace"@, "cleared"@, 0),
                model_view(r),
            ),
    {
        let response = self.reply(reply)?;
        self.keep(response.decode_single("ClearNamespace", "cleared", 0i64))
    }

    /// List live keys in a namespace.
    ///
    /// `pattern` is a simple glob where `*` matches any run of characters
    /// (`"user:*"`, `"*:session"`); `None` lists everything. `limit` of `None`
    /// leaves the cap to the server.
    pub fn cache_keys(
        &mut self,
        namespace: &str,
        pattern: Option<&str>,
        limit: Option<usize>,
    ) -> (r: Result<Vec<u8>>)
        requires
            old(self)@.request_counter < u64::MAX,
        ensures
            sends(
                old(self)@,
                final(self)@,
                cache_op(
                    "Keys"@,
                    Map::<Seq<char>, JsonTree>::empty()
                        .insert("namespace"@, JsonTree::Text(namespace@))
                        .insert("pattern"@, text_tree(pattern))
                        .insert("limit"@, size_tree(limit)),
                ),
                r,
            ),
    {
        self.send(
            op(
                "Keys",
                Object::new().with("namespace", Json::text(namespace)).with(
                    "pattern",
                    Json::text_or_null(pattern),
                ).with("limit", Json::size_or_null(limit)),
            ),
        )
    }

    /// Take the answer to [`Client::cache_keys`].
    pub fn cache_keys_reply(&mut self, reply: Result<Frame>) -> (r: Result<Vec<CacheKeyInfo>>)
        ensures
            answered(
                old(self)@,
                final(self)@,
                reply_view(reply),
                |x: ResponseView|
                    typed_single::<Vec<CacheKeyInfo>>(x, "Keys"@, "keys"@, Seq::empty()),
                model_view(r),
            ),
    {
        let response = self.reply(reply)?;
        let none: Vec<CacheKeyInfo> = Vec::new();
        assert(none.model() =~= Seq::<CacheKeyInfoView>::empty());
        self.keep(response.decode_single("Keys", "keys", none))
    }

    // -- lists ---------------------------------------------------------------

    /// Prepend elements, returning the list's new length.
    pub fn cache_lpush(
        &mut self,
        namespace: &str,
        key: &str,
        values: &[Vec<u8>],
    ) -> (r: Result<Vec<u8>>)
        requires
            old(self)@.request_counter < u64::MAX,
        ensures
            if values@.len() == 0 {
                declines(old(self)@, final(self)@, must_not_be_empty("values"@), r)
            } else {
                sends(
                    old(self)@,
                    final(self)@,
                    cache_op(
                        "LPush"@,
                        key_members(namespace@, key@).insert(
                            "values"@,
                            byte_strings_tree(byte_strings(values@)),
                        ),
                    ),
                    r,
                )
            },
    {
        match byte_lists(values, "values") {
            Ok(list) => self.send(op("LPush", ns_key(namespace, key).with("values", list))),
            Err(e) => Err(e),
        }
    }

    /// Take the answer to [`Client::cache_lpush`].
    pub fn cache_lpush_reply(&mut self, reply: Result<Frame>) -> (r: Result<i64>)
        ensures
            answered(
                old(self)@,
                final(self)@,
                reply_view(reply),
                |x: ResponseView| typed_single::<i64>(x, "LPush"@, "length"@, 0),
                model_view(r),
            ),
    {
        let response = self.reply(reply)?;
        self.keep(response.decode_single("LPush", "length", 0i64))
    }

    /// Append elements, returning the list's new length.
    pub fn cache_rpush(
        &mut self,
        namespace: &str,
        key: &str,
        values: &[Vec<u8>],
    ) -> (r: Result<Vec<u8>>)
        requires
            old(self)@.request_counter < u64::MAX,
        ensures
            if values@.len() == 0 {
                declines(old(self)@, final(self)@, must_not_be_empty("values"@), r)
            } else {
                sends(
                    old(self)@,
                    final(self)@,
                    cache_op(
                        "RPush"@,
                        key_members(namespace@, key@).insert(
                            "values"@,
                            byte_strings_tree(byte_strings(values@)),
                        ),
                    ),
                    r,
                )
            },
    {
        match byte_lists(values, "values") {
            Ok(list) => self.send(op("RPush", ns_key(namespace, key).with("values", list))),
            Err(e) => Err(e),
        }
    }

    /// Take the answer to [`Client::cache_rpush`].
    pub fn cache_rpush_reply(&mut self, reply: Result<Frame>) -> (r: Result<i64>)
        ensures
            answered(
                old(self)@,
                final(self)@,
                reply_view(reply),
                |x: ResponseView| typed_single::<i64>(x, "RPush"@, "length"@, 0),
                model_view(r),
            ),
    {
        let response = self.reply(reply)?;
        self.keep(response.decode_single("RPush", "length", 0i64))
    }

    /// Remove and return the first element. `None` when the list is empty or
    /// missing.
    pub fn cache_lpop(&mut self, namespace: &str, key: &str) -> (r: Result<Vec<u8>>)
        requires
            old(self)@.request_counter < u64::MAX,
        ensures
            sends(old(self)@, final(self)@, cache_op("LPop"@, key_members(namespace@, key@)), r),
    {
        self.send(op("LPop", ns_key(namespace, key)))
    }

    /// Take the answer to [`Client::cache_lpop`].
    pub fn cache_lpop_reply(&mut self, reply: Result<Frame>) -> (r: Result<Option<Vec<u8>>>)
        ensures
            answered(
                old(self)@,
                final(self)@,
                reply_view(reply),
                |x: ResponseView| value_meaning(x, "LPop"@),
                value_view(r),
            ),
    {
        let response = self.reply(reply)?;
        self.keep(cache_value(&response, "LPop"))
    }

    /// Remove and return the last element.
    pub fn cache_rpop(&mut self, namespace: &str, key: &str) -> (r: Result<Vec<u8>>)
        requires
            old(self)@.request_counter < u64::MAX,
        ensures
            sends(old(self)@, final(self)@, cache_op("RPop"@, key_members(namespace@, key@)), r),
    {
        self.send(op("RPop", ns_key(namespace, key)))
    }

    /// Take the answer to [`Client::cache_rpop`].
    pub fn cache_rpop_reply(&mut self, reply: Result<Frame>) -> (r: Result<Option<Vec<u8>>>)
        ensures
            answered(
                old(self)@,
                final(self)@,
                reply_view(reply),
                |x: ResponseView| value_meaning(x, "RPop"@),
                value_view(r),
            ),
    {
        let response = self.reply(reply)?;
        self.keep(cache_value(&response, "RPop"))
    }

    /// Read an inclusive index range. Negative indices count from the end
    /// (`-1` is the last element) and out-of-range bounds are clamped.
    pub fn cache_lrange(
        &mut self,
        namespace: &str,
        key: &str,
        start: i64,
        stop: i64,
    ) -> (r: Result<Vec<u8>>)
        requires
            old(self)@.request_counter < u64::MAX,
        ensures
            sends(
                old(self)@,
                final(self)@,
                cache_op(
                    "LRange"@,
                    key_members(namespace@, key@)
                        .insert("start"@, number_tree(start as int))
                        .insert("stop"@, number_tree(stop as int)),
                ),
                r,
            ),
    {
        self.send(
            op(
                "LRange",
                ns_key(namespace, key)
                    .with("start", Json::signed(start))
                    .with("stop", Json::signed(stop)),
            ),
        )
    }

    /// Take the answer to [`Client::cache_lrange`].
    pub fn cache_lrange_reply(&mut self, reply: Result<Frame>) -> (r: Result<Vec<Vec<u8>>>)
        ensures
            answered(
                old(self)@,
                final(self)@,
                reply_view(reply),
                |x: ResponseView| values_meaning(x, "LRange"@, "values"@),
                values_view(r),
            ),
    {
        let response = self.reply(reply)?;
        self.keep(cache_values(&response, "LRange", "values"))
    }

    /// How many elements the list holds; zero when the key is missing.
    pub fn cache_llen(&mut self, namespace: &str, key: &str) -> (r: Result<Vec<u8>>)
        requires
            old(self)@.request_counter < u64::MAX,
        ensures
            sends(old(self)@, final(self)@, cache_op("LLen"@, key_members(namespace@, key@)), r),
    {
        self.send(op("LLen", ns_key(namespace, key)))
    }

    /// Take the answer to [`Client::cache_llen`].
    pub fn cache_llen_reply(&mut self, reply: Result<Frame>) -> (r: Result<i64>)
        ensures
            answered(
                old(self)@,
                final(self)@,
                reply_view(reply),
                |x: ResponseView| typed_single::<i64>(x, "LLen"@, "length"@, 0),
                model_view(r),
            ),
    {
        let response = self.reply(reply)?;
        self.keep(response.decode_single("LLen", "length", 0i64))
    }

    /// One element by index; negative counts from the end. `None` when the
    /// index is out of range.
    pub fn cache_lindex(&mut self, namespace: &str, key: &str, index: i64) -> (r: Result<Vec<u8>>)
        requires
            old(self)@.request_counter < u64::MAX,
        ensures
            sends(
                old(self)@,
                final(self)@,
                cache_op(
                    "LIndex"@,
                    key_members(namespace@, key@).insert("index"@, number_tree(index as int)),
                ),
                r,
            ),
    {
        self.send(op("LIndex", ns_key(namespace, key).with("index", Json::signed(index))))
    }

    /// Take the answer to [`Client::cache_lindex`].
    pub fn cache_lindex_reply(&mut self, reply: Result<Frame>) -> (r: Result<Option<Vec<u8>>>)
        ensures
            answered(
                old(self)@,
                final(self)@,
                reply_view(reply),
                |x: ResponseView| value_meaning(x, "LIndex"@),
                value_view(r),
            ),
    {
        let response = self.reply(reply)?;
        self.keep(cache_value(&response, "LIndex"))
    }

    // -- sets ----------------------------------------------------------------

    /// Add members, returning how many were new.
    pub fn cache_sadd(
        &mut self,
        namespace: &str,
        key: &str,
        members: &[Vec<u8>],
    ) -> (r: Result<Vec<u8>>)
        requires
            old(self)@.request_counter < u64::MAX,
        ensures
            if members@.len() == 0 {
                declines(old(self)@, final(self)@, must_not_be_empty("members"@), r)
            } else {
                sends(
                    old(self)@,
                    final(self)@,
                    cache_op(
                        "SAdd"@,
                        key_members(namespace@, key@).insert(
                            "members"@,
                            byte_strings_tree(byte_strings(members@)),
                        ),
                    ),
                    r,
                )
            },
    {
        match byte_lists(members, "members") {
            Ok(list) => self.send(op("SAdd", ns_key(namespace, key).with("members", list))),
            Err(e) => Err(e),
        }
    }

    /// Take the answer to [`Client::cache_sadd`].
    pub fn cache_sadd_reply(&mut self, reply: Result<Frame>) -> (r: Result<i64>)
        ensures
            answered(
                old(self)@,
                final(self)@,
                reply_view(reply),
                |x: ResponseView| typed_single::<i64>(x, "SAdd"@, "added"@, 0),
                model_view(r),
            ),
    {
        let response = self.reply(reply)?;
        self.keep(response.decode_single("SAdd", "added", 0i64))
    }

    /// Remove members, returning how many were there.
    pub fn cache_srem(
        &mut self,
        namespace: &str,
        key: &str,
        members: &[Vec<u8>],
    ) -> (r: Result<Vec<u8>>)
        requires
            old(self)@.request_counter < u64::MAX,
        ensures
            if members@.len() == 0 {
                declines(old(self)@, final(self)@, must_not_be_empty("members"@), r)
            } else {
                sends(
                    old(self)@,
                    final(self)@,
                    cache_op(
                        "SRem"@,
                        key_members(namespace@, key@).insert(
                            "members"@,
                            byte_strings_tree(byte_strings(members@)),
                        ),
                    ),
                    r,
                )
            },
    {
        match byte_lists(members, "members") {
            Ok(list) => self.send(op("SRem", ns_key(namespace, key).with("members", list))),
            Err(e) => Err(e),
        }
    }

    /// Take the answer to [`Client::cache_srem`].
    pub fn cache_srem_reply(&mut self, reply: Result<Frame>) -> (r: Result<i64>)
        ensures
            answered(
                old(self)@,
                final(self)@,
                reply_view(reply),
                |x: ResponseView| typed_single::<i64>(x, "SRem"@, "removed"@, 0),
                model_view(r),
            ),
    {
        let response = self.reply(reply)?;
        self.keep(response.decode_single("SRem", "removed", 0i64))
    }

    /// Whether a member is in the set.
    pub fn cache_sismember(
        &mut self,
        namespace: &str,
        key: &str,
        member: &[u8],
    ) -> (r: Result<Vec<u8>>)
        requires
            old(self)@.request_counter < u64::MAX,
        ensures
            sends(
                old(self)@,
                final(self)@,
                cache_op(
                    "SIsMember"@,
                    key_members(namespace@, key@).insert("member"@, bytes_tree(member@)),
                ),
                r,
            ),
    {
        self.send(op("SIsMember", ns_key(namespace, key).with("member", byte_list(member))))
    }

    /// Take the answer to [`Client::cache_sismember`].
    pub fn cache_sismember_reply(&mut self, reply: Result<Frame>) -> (r: Result<bool>)
        ensures
            answered(
                old(self)@,
                final(self)@,
                reply_view(reply),
                |x: ResponseView| typed_single::<bool>(x, "SIsMember"@, "is_member"@, false),
                model_view(r),
            ),
    {
        let response = self.reply(reply)?;
        self.keep(response.decode_single("SIsMember", "is_member", false))
    }

    /// How many members the set holds; zero when the key is missing.
    pub fn cache_scard(&mut self, namespace: &str, key: &str) -> (r: Result<Vec<u8>>)
        requires
            old(self)@.request_counter < u64::MAX,
        ensures
            sends(old(self)@, final(self)@, cache_op("SCard"@, key_members(namespace@, key@)), r),
    {
        self.send(op("SCard", ns_key(namespace, key)))
    }

    /// Take the answer to [`Client::cache_scard`].
    pub fn cache_scard_reply(&mut self, reply: Result<Frame>) -> (r: Result<i64>)
        ensures
            answered(
                old(self)@,
                final(self)@,
                reply_view(reply),
                |x: ResponseView| typed_single::<i64>(x, "SCard"@, "cardinality"@, 0),
                model_view(r),
            ),
    {
        let response = self.reply(reply)?;
        self.keep(response.decode_single("SCard", "cardinality", 0i64))
    }

    /// Every member, in ascending byte order.
    pub fn cache_smembers(&mut self, namespace: &str, key: &str) -> (r: Result<Vec<u8>>)
        requires
            old(self)@.request_counter < u64::MAX,
        ensures
            sends(
                old(self)@,
                final(self)@,
                cache_op("SMembers"@, key_members(namespace@, key@)),
                r,
            ),
    {
        self.send(op("SMembers", ns_key(namespace, key)))
    }

    /// Take the answer to [`Client::cache_smembers`].
    pub fn cache_smembers_reply(&mut self, reply: Result<Frame>) -> (r: Result<Vec<Vec<u8>>>)
        ensures
            answered(
                old(self)@,
                final(self)@,
                reply_view(reply),
                |x: ResponseView| values_meaning(x, "SMembers"@, "members"@),
                values_view(r),
            ),
    {
        let response = self.reply(reply)?;
        self.keep(cache_values(&response, "SMembers", "members"))
    }

    // -- hashes --------------------------------------------------------------

    /// Set fields, returning how many were created rather than overwritten.
    pub fn cache_hset(
        &mut self,
        namespace: &str,
        key: &str,
        entries: &[CachePair],
    ) -> (r: Result<Vec<u8>>)
        requires
            old(self)@.request_counter < u64::MAX,
        ensures
            if entries@.len() == 0 {
                declines(old(self)@, final(self)@, must_not_be_empty("entries"@), r)
            } else {
                sends(
                    old(self)@,
                    final(self)@,
                    cache_op(
                        "HSet"@,
                        key_members(namespace@, key@)
                            .insert("entries"@, pairs_tree(pair_views(entries@))),
                    ),
                    r,
                )
            },
    {
        if entries.len() == 0 {
            return Err(Error::invalid(text::join3("`", "entries", "` must not be empty").as_str()));
        }
        self.send(op("HSet", ns_key(namespace, key).with("entries", wire_pairs(entries))))
    }

    /// Take the answer to [`Client::cache_hset`].
    pub fn cache_hset_reply(&mut self, reply: Result<Frame>) -> (r: Result<i64>)
        ensures
            answered(
                old(self)@,
                final(self)@,
                reply_view(reply),
                |x: ResponseView| typed_single::<i64>(x, "HSet"@, "created"@, 0),
                model_view(r),
            ),
    {
        let response = self.reply(reply)?;
        self.keep(response.decode_single("HSet", "created", 0i64))
    }

    /// Set text fields, encoded UTF-8. The answer is that to
    /// [`Client::cache_hset`].
    pub fn cache_hset_text(
        &mut self,
        namespace: &str,
        key: &str,
        entries: &[(&str, &str)],
    ) -> (r: Result<Vec<u8>>)
        requires
            old(self)@.request_counter < u64::MAX,
        ensures
            if entries@.len() == 0 {
                declines(old(self)@, final(self)@, must_not_be_empty("entries"@), r)
            } else {
                sends(
                    old(self)@,
                    final(self)@,
                    cache_op(
                        "HSet"@,
                        key_members(namespace@, key@)
                            .insert("entries"@, pairs_tree(text_pairs(entries@))),
                    ),
                    r,
                )
            },
    {
        let pairs = CachePair::from_text(entries);
        assert(pair_views(pairs@).len() == entries@.len());
        self.cache_hset(namespace, key, pairs.as_slice())
    }

    /// Read one field. `None` when the field or the key is absent.
    pub fn cache_hget(&mut self, namespace: &str, key: &str, field: &[u8]) -> (r: Result<Vec<u8>>)
        requires
            old(self)@.request_counter < u64::MAX,
        ensures
            sends(
                old(self)@,
                final(self)@,
                cache_op(
                    "HGet"@,
                    key_members(namespace@, key@).insert("field"@, bytes_tree(field@)),
                ),
                r,
            ),
    {
        self.send(op("HGet", ns_key(namespace, key).with("field", byte_list(field))))
    }

    /// Take the answer to [`Client::cache_hget`].
    pub fn cache_hget_reply(&mut self, reply: Result<Frame>) -> (r: Result<Option<Vec<u8>>>)
        ensures
            answered(
                old(self)@,
                final(self)@,
                reply_view(reply),
                |x: ResponseView| value_meaning(x, "HGet"@),
                value_view(r),
            ),
    {
        let response = self.reply(reply)?;
        self.keep(cache_value(&response, "HGet"))
    }

    /// Delete fields, returning how many were there.
    pub fn cache_hdel(
        &mut self,
        namespace: &str,
        key: &str,
        fields: &[Vec<u8>],
    ) -> (r: Result<Vec<u8>>)
        requires
            old(self)@.request_counter < u64::MAX,
        ensures
            if fields@.len() == 0 {
                declines(old(self)@, final(self)@, must_not_be_empty("fields"@), r)
            } else {
                sends(
                    old(self)@,
                    final(self)@,
                    cache_op(
                        "HDel"@,
                        key_members(namespace@, key@).insert(
                            "fields"@,
                            byte_strings_tree(byte_strings(fields@)),
                        ),
                    ),
                    r,
                )
            },
    {
        match byte_lists(fields, "fields") {
            Ok(list) => self.send(op("HDel", ns_key(namespace, key).with("fields", list))),
            Err(e) => Err(e),
        }
    }

    /// Take the answer to [`Client::cache_hdel`].
    pub fn cache_hdel_reply(&mut self, reply: Result<Frame>) -> (r: Result<i64>)
        ensures
            answered(
                old(self)@,
                final(self)@,
                reply_view(reply),
                |x: ResponseView| typed_single::<i64>(x, "HDel"@, "deleted"@, 0),
                model_view(r),
            ),
    {
        let response = self.reply(reply)?;
        self.keep(response.decode_single("HDel", "deleted", 0i64))
    }

    /// Every field and value, in ascending field order.
    pub fn cache_hgetall(&mut self, namespace: &str, key: &str) -> (r: Result<Vec<u8>>)
        requires
            old(self)@.request_counter < u64::MAX,
        ensures
            sends(old(self)@, final(self)@, cache_op("HGetAll"@, key_members(namespace@, key@)), r),
    {
        self.send(op("HGetAll", ns_key(namespace, key)))
    }

    /// Take the answer to [`Client::cache_hgetall`].
    pub fn cache_hgetall_reply(&mut self, reply: Result<Frame>) -> (r: Result<Vec<CachePair>>)
        ensures
            answered(
                old(self)@,
                final(self)@,
                reply_view(reply),
                |x: ResponseView| hash_meaning(x),
                pairs_view(r),
            ),
    {
        let response = self.reply(reply)?;
        self.keep(hash_entries(&response))
    }

    /// Whether a field exists in the hash.
    pub fn cache_hexists(
        &mut self,
        namespace: &str,
        key: &str,
        field: &[u8],
    ) -> (r: Result<Vec<u8>>)
        requires
            old(self)@.request_counter < u64::MAX,
        ensures
            sends(
                old(self)@,
                final(self)@,
                cache_op(
                    "HExists"@,
                    key_members(namespace@, key@).insert("field"@, bytes_tree(field@)),
                ),
                r,
            ),
    {
        self.send(op("HExists", ns_key(namespace, key).with("field", byte_list(field))))
    }

    /// Take the answer to [`Client::cache_hexists`].
    pub fn cache_hexists_reply(&mut self, reply: Result<Frame>) -> (r: Result<bool>)
        ensures
            answered(
                old(self)@,
                final(self)@,
                reply_view(reply),
                |x: ResponseView| typed_single::<bool>(x, "HExists"@, "exists"@, false),
                model_view(r),
            ),
    {
        let response = self.reply(reply)?;
        self.keep(response.decode_single("HExists", "exists", false))
    }

    /// How many fields the hash holds; zero when the key is missing.
    pub fn cache_hlen(&mut self, namespace: &str, key: &str) -> (r: Result<Vec<u8>>)
        requires
            old(self)@.request_counter < u64::MAX,
        ensures
            sends(old(self)@, final(self)@, cache_op("HLen"@, key_members(namespace@, key@)), r),
    {
        self.send(op("HLen", ns_key(namespace, key)))
    }

    /// Take the answer to [`Client::cache_hlen`].
    pub fn cache_hlen_reply(&mut self, reply: Result<Frame>) -> (r: Result<i64>)
        ensures
            answered(
                old(self)@,
                final(self)@,
                reply_view(reply),
                |x: ResponseView| typed_single::<i64>(x, "HLen"@, "length"@, 0),
                model_view(r),
            ),
    {
        let response = self.reply(reply)?;
        self.keep(response.decode_single("HLen", "length", 0i64))
    }

    // -- streams -------------------------------------------------------------

    /// Append an entry, returning the id it was given.
    ///
    /// `id` is `None` or `"*"` to generate one, `"<ms>"` or `"<ms>-*"` to fix
    /// the millisecond, or `"<ms>-<seq>"` for an exact id. Ids must increase.
    pub fn cache_xadd(
        &mut self,
        namespace: &str,
        key: &str,
        fields: &[CachePair],
        id: Option<&str>,
    ) -> (r: Result<Vec<u8>>)
        requires
            old(self)@.request_counter < u64::MAX,
        ensures
            if fields@.len() == 0 {
                declines(old(self)@, final(self)@, must_not_be_empty("fields"@), r)
            } else {
                sends(
                    old(self)@,
                    final(self)@,
                    cache_op(
                        "XAdd"@,
                        key_members(namespace@, key@).insert("fields"@, pairs_tree(pair_views(fields@))).insert(
                            "id"@,
                            entry_id_tree(id),
                        ),
                    ),
                    r,
                )
            },
    {
        if fields.len() == 0 {
            return Err(Error::invalid(text::join3("`", "fields", "` must not be empty").as_str()));
        }
        let id = match id {
            Some(s) => if s.is_empty() {
                Json::Null
            } else {
                Json::text(s)
            },
            None => Json::Null,
        };
        self.send(
            op("XAdd", ns_key(namespace, key).with("fields", wire_pairs(fields)).with("id", id)),
        )
    }

    /// Take the answer to [`Client::cache_xadd`].
    pub fn cache_xadd_reply(&mut self, reply: Result<Frame>) -> (r: Result<String>)
        ensures
            answered(
                old(self)@,
                final(self)@,
                reply_view(reply),
                |x: ResponseView| typed_single::<String>(x, "XAdd"@, "id"@, Seq::empty()),
                model_view(r),
            ),
    {
        let response = self.reply(reply)?;
        self.keep(response.decode_single("XAdd", "id", String::new()))
    }

    /// Append an entry whose fields are text, encoded UTF-8. The answer is that
    /// to [`Client::cache_xadd`].
    pub fn cache_xadd_text(
        &mut self,
        namespace: &str,
        key: &str,
        fields: &[(&str, &str)],
        id: Option<&str>,
    ) -> (r: Result<Vec<u8>>)
        requires
            old(self)@.request_counter < u64::MAX,
        ensures
            if fields@.len() == 0 {
                declines(old(self)@, final(self)@, must_not_be_empty("fields"@), r)
            } else {
                sends(
                    old(self)@,
                    final(self)@,
                    cache_op(
                        "XAdd"@,
                        key_members(namespace@, key@).insert("fields"@, pairs_tree(text_pairs(fields@))).insert(
                            "id"@,
                            entry_id_tree(id),
                        ),
                    ),
                    r,
                )
            },
    {
        let pairs = CachePair::from_text(fields);
        assert(pair_views(pairs@).len() == fields@.len());
        self.cache_xadd(namespace, key, pairs.as_slice(), id)
    }

    /// How many entries the stream holds; zero when the key is missing.
    pub fn cache_xlen(&mut self, namespace: &str, key: &str) -> (r: Result<Vec<u8>>)
        requires
            old(self)@.request_counter < u64::MAX,
        ensures
            sends(old(self)@, final(self)@, cache_op("XLen"@, key_members(namespace@, key@)), r),
    {
        self.send(op("XLen", ns_key(namespace, key)))
    }

    /// Take the answer to [`Client::cache_xlen`].
    pub fn cache_xlen_reply(&mut self, reply: Result<Frame>) -> (r: Result<i64>)
        ensures
            answered(
                old(self)@,
                final(self)@,
                reply_view(reply),
                |x: ResponseView| typed_single::<i64>(x, "XLen"@, "length"@, 0),
                model_view(r),
            ),
    {
        let response = self.reply(reply)?;
        self.keep(response.decode_single("XLen", "length", 0i64))
    }

    /// Read entries whose id falls in an inclusive range. `"-"` and `"+"` are
    /// the smallest and largest ids; a bare `"<ms>"` spans that millisecond.
    pub fn cache_xrange(
        &mut self,
        namespace: &str,
        key: &str,
        start: &str,
        end: &str,
        count: Option<usize>,
    ) -> (r: Result<Vec<u8>>)
        requires
            old(self)@.request_counter < u64::MAX,
        ensures
            sends(
                old(self)@,
                final(self)@,
                cache_op(
                    "XRange"@,
                    key_members(namespace@, key@)
                        .insert("start"@, JsonTree::Text(start@))
                        .insert("end"@, JsonTree::Text(end@))
                        .insert("count"@, size_tree(count)),
                ),
                r,
            ),
    {
        self.send(
            op(
                "XRange",
                ns_key(namespace, key)
                    .with("start", Json::text(start))
                    .with("end", Json::text(end))
                    .with("count", Json::size_or_null(count)),
            ),
        )
    }

    /// Take the answer to [`Client::cache_xrange`].
    pub fn cache_xrange_reply(&mut self, reply: Result<Frame>) -> (r: Result<Vec<StreamEntry>>)
        ensures
            answered(
                old(self)@,
                final(self)@,
                reply_view(reply),
                |x: ResponseView| stream_meaning(x, "XRange"@),
                entries_view(r),
            ),
    {
        let response = self.reply(reply)?;
        self.keep(stream_entries(&response, "XRange"))
    }

    /// Read entries newer than `after` — the non-blocking poll. Pass `"$"` for
    /// "only entries added from now on". This never blocks.
    pub fn cache_xread(
        &mut self,
        namespace: &str,
        key: &str,
        after: &str,
        count: Option<usize>,
    ) -> (r: Result<Vec<u8>>)
        requires
            old(self)@.request_counter < u64::MAX,
        ensures
            sends(
                old(self)@,
                final(self)@,
                cache_op(
                    "XRead"@,
                    key_members(namespace@, key@)
                        .insert("after"@, JsonTree::Text(after@))
                        .insert("count"@, size_tree(count)),
                ),
                r,
            ),
    {
        self.send(
            op(
                "XRead",
                ns_key(namespace, key)
                    .with("after", Json::text(after))
                    .with("count", Json::size_or_null(count)),
            ),
        )
    }

    /// Take the answer to [`Client::cache_xread`].
    pub fn cache_xread_reply(&mut self, reply: Result<Frame>) -> (r: Result<Vec<StreamEntry>>)
        ensures
            answered(
                old(self)@,
                final(self)@,
                reply_view(reply),
                |x: ResponseView| stream_meaning(x, "XRead"@),
                entries_view(r),
            ),
    {
        let response = self.reply(reply)?;
        self.keep(stream_entries(&response, "XRead"))
    }

    /// Delete entries by exact id, returning how many were there.
    pub fn cache_xdel(&mut self, namespace: &str, key: &str, ids: &[&str]) -> (r: Result<Vec<u8>>)
        requires
            old(self)@.request_counter < u64::MAX,
        ensures
            if ids@.len() == 0 {
                declines(old(self)@, final(self)@, must_not_be_empty("ids"@), r)
            } else {
                sends(
                    old(self)@,
                    final(self)@,
                    cache_op(
                        "XDel"@,
                        key_members(namespace@, key@).insert("ids"@, texts_tree(ids@)),
                    ),
                    r,
                )
            },
    {
        if ids.len() == 0 {
            return Err(Error::invalid(text::join3("`", "ids", "` must not be empty").as_str()));
        }
        self.send(op("XDel", ns_key(namespace, key).with("ids", Json::texts(ids))))
    }

    /// Take the answer to [`Client::cache_xdel`].
    pub fn cache_xdel_reply(&mut self, reply: Result<Frame>) -> (r: Result<i64>)
        ensures
            answered(
                old(self)@,
                final(self)@,
                reply_view(reply),
                |x: ResponseView| typed_single::<i64>(x, "XDel"@, "deleted"@, 0),
                model_view(r),
            ),
    {
        let response = self.reply(reply)?;
        self.keep(response.decode_single("XDel", "deleted", 0i64))
    }

    /// Cap the stream by evicting its oldest entries, returning how many went.
    pub fn cache_xtrim(
        &mut self,
        namespace: &str,
        key: &str,
        max_len: usize,
    ) -> (r: Result<Vec<u8>>)
        requires
            old(self)@.request_counter < u64::MAX,
        ensures
            sends(
                old(self)@,
                final(self)@,
                cache_op(
                    "XTrim"@,
                    key_members(namespace@, key@).insert("max_len"@, number_tree(max_len as int)),
                ),
                r,
            ),
    {
        self.send(
            op("XTrim", ns_key(namespace, key).with("max_len", Json::unsigned(max_len as u64))),
        )
    }

    /// Take the answer to [`Client::cache_xtrim`].
    pub fn cache_xtrim_reply(&mut self, reply: Result<Frame>) -> (r: Result<i64>)
        ensures
            answered(
                old(self)@,
                final(self)@,
                reply_view(reply),
                |x: ResponseView| typed_single::<i64>(x, "XTrim"@, "trimmed"@, 0),
                model_view(r),
            ),
    {
        let response = self.reply(reply)?;
        self.keep(response.decode_single("XTrim", "trimmed", 0i64))
    }
}

/// A cache key info holds what was sent under the name of each field, lists whole and
/// in order.
pub proof fn cache_key_info_reads_back(m: Map<Seq<char>, JsonTree>, x: CacheKeyInfo)
    requires
        m.dom().contains("key"@),
        m["key"@] == JsonTree::Text(x.key@),
        m.dom().contains("ttl_ms"@),
        m["ttl_ms"@]
            == (match x.ttl_ms {
                Some(y) => JsonTree::Number(crate::text::integer(y as int)),
                None => JsonTree::Null,
            }),
        m.dom().contains("bytes"@),
        m["bytes"@] == JsonTree::Number(crate::text::integer(x.bytes as int)),
    ensures
        CacheKeyInfo::decoded(JsonTree::Object(m)) == Some(x.model()),
        x.model() == (CacheKeyInfoView {
            key: x.key@,
            ttl_ms: x.ttl_ms,
            bytes: x.bytes,
        }),
{
    if let Some(y) = x.ttl_ms {
        crate::text::decimal_reads_back(y as int);
    }
    crate::text::decimal_reads_back(x.bytes as int);
    assert(x.model() =~= (CacheKeyInfoView {
        key: x.key@,
        ttl_ms: x.ttl_ms,
        bytes: x.bytes,
    }));
}

/// A cache key info takes each field from the member of that name alone. A field that was
/// not sent has its default, and one of another kind refuses the whole.
pub proof fn cache_key_info_takes_each_field_by_its_name(m: Map<Seq<char>, JsonTree>)
    ensures
        CacheKeyInfo::decoded(JsonTree::Object(m)) matches Some(v) ==> {
            &&& String::decoded(m["key"@]) == Some(v.key)
            &&& if m.dom().contains("ttl_ms"@) {
                Option::<i64>::decoded(m["ttl_ms"@]) == Some(v.ttl_ms)
            } else {
                v.ttl_ms is None
            }
            &&& if m.dom().contains("bytes"@) {
                i64::decoded(m["bytes"@]) == Some(v.bytes)
            } else {
                v.bytes == 0
            }
        },
        CacheKeyInfo::decoded(JsonTree::Object(m)) is Some <==> {
            &&& m.dom().contains("key"@) && String::decoded(m["key"@]) is Some
            &&& m.dom().contains("ttl_ms"@) ==> Option::<i64>::decoded(m["ttl_ms"@]) is Some
            &&& m.dom().contains("bytes"@) ==> i64::decoded(m["bytes"@]) is Some
        },
{
}

/// A cache key info written as a list reads as the object that names each item by its place.
/// Too long a list is refused, and so is any other kind of value.
pub proof fn cache_key_info_takes_each_item_in_its_place(
    items: Seq<JsonTree>,
    m: Map<Seq<char>, JsonTree>,
    t: JsonTree,
)
    requires
        m.dom().contains("key"@) <==> 0 < items.len(),
        0 < items.len() ==> m["key"@] == items[0],
        m.dom().contains("ttl_ms"@) <==> 1 < items.len(),
        1 < items.len() ==> m["ttl_ms"@] == items[1],
        m.dom().contains("bytes"@) <==> 2 < items.len(),
        2 < items.len() ==> m["bytes"@] == items[2],
    ensures
        items.len() <= 3 ==> CacheKeyInfo::decoded(JsonTree::Array(items))
            == CacheKeyInfo::decoded(JsonTree::Object(m)),
        items.len() > 3 ==> CacheKeyInfo::decoded(JsonTree::Array(items)) is None,
        !(t is Object) && !(t is Array) ==> CacheKeyInfo::decoded(t) is None,
{
}

/// A wire entry holds what was sent under the name of each field, lists whole and
/// in order.
pub proof fn wire_entry_reads_back(m: Map<Seq<char>, JsonTree>, x: WireEntry)
    requires
        m.dom().contains("id"@),
        m["id"@] == JsonTree::Text(x.id@),
        m.dom().contains("fields"@),
        m["fields"@] == JsonTree::Array(Seq::new(x.fields@.len(), |i: int| x.fields@[i]@)),
    ensures
        WireEntry::decoded(JsonTree::Object(m)) == Some(x.model()),
        x.model() == (WireEntryView {
            id: x.id@,
            fields: Seq::new(x.fields@.len(), |i: int| x.fields@[i]@),
        }),
{
    decode::lists_read_back(
        JsonTree::Array(Seq::new(x.fields@.len(), |i: int| x.fields@[i]@))->Array_0,
        x.fields,
    );
    assert(x.fields.model() =~= Seq::new(x.fields@.len(), |i: int| x.fields@[i]@));
    assert(x.model() =~= (WireEntryView {
        id: x.id@,
        fields: Seq::new(x.fields@.len(), |i: int| x.fields@[i]@),
    }));
}

/// A wire entry takes each field from the member of that name alone. A field that was
/// not sent has its default, and one of another kind refuses the whole.
pub proof fn wire_entry_takes_each_field_by_its_name(m: Map<Seq<char>, JsonTree>)
    ensures
        WireEntry::decoded(JsonTree::Object(m)) matches Some(v) ==> {
            &&& if m.dom().contains("id"@) {
                String::decoded(m["id"@]) == Some(v.id)
            } else {
                v.id.len() == 0
            }
            &&& if m.dom().contains("fields"@) {
                Vec::<Json>::decoded(m["fields"@]) == Some(v.fields)
            } else {
                v.fields.len() == 0
            }
        },
        WireEntry::decoded(JsonTree::Object(m)) is Some <==> {
            &&& m.dom().contains("id"@) ==> String::decoded(m["id"@]) is Some
            &&& m.dom().contains("fields"@) ==> Vec::<Json>::decoded(m["fields"@]) is Some
        },
{
}

/// A wire entry written as a list reads as the object that names each item by its place.
/// Too long a list is refused, and so is any other kind of value.
pub proof fn wire_entry_takes_each_item_in_its_place(
    items: Seq<JsonTree>,
    m: Map<Seq<char>, JsonTree>,
    t: JsonTree,
)
    requires
        m.dom().contains("id"@) <==> 0 < items.len(),
        0 < items.len() ==> m["id"@] == items[0],
        m.dom().contains("fields"@) <==> 1 < items.len(),
        1 < items.len() ==> m["fields"@] == items[1],
    ensures
        items.len() <= 2 ==> WireEntry::decoded(JsonTree::Array(items))
            == WireEntry::decoded(JsonTree::Object(m)),
        items.len() > 2 ==> WireEntry::decoded(JsonTree::Array(items)) is None,
        !(t is Object) && !(t is Array) ==> WireEntry::decoded(t) is None,
{
}

/// A request of this kind is sent under its own name alone.
pub proof fn a_cache_request_is_sent_under_its_name(
    variant: Seq<char>,
    body: Map<Seq<char>, JsonTree>,
)
    ensures
        cache_op(variant, body) == JsonTree::Object(
            map!["Cache"@ => JsonTree::Object(map![variant => JsonTree::Object(body)])],
        ),
{
    crate::json::a_wrapped_value_is_the_only_member(variant, JsonTree::Object(body), variant);
    crate::json::a_wrapped_value_is_the_only_member(
        "Cache"@,
        wrapped(variant, JsonTree::Object(body)),
        "Cache"@,
    );
}

/// What a cache call gives or takes is seen whole and in order.
pub proof fn cache_values_are_seen_whole(
    p: CachePair,
    pairs: Vec<CachePair>,
    entry: StreamEntry,
    entries: Vec<StreamEntry>,
    values: Vec<Vec<u8>>,
    bytes: Vec<u8>,
    e: Error,
    d: Duration,
    i: int,
)
    ensures
        p@.field == p.field@,
        p@.value == p.value@,
        pair_views(pairs@).len() == pairs@.len(),
        0 <= i < pairs@.len() ==> pair_views(pairs@)[i] == pairs@[i]@,
        entry@.id == entry.id@,
        entry@.fields == pair_views(entry.fields@),
        entry_views(entries@).len() == entries@.len(),
        0 <= i < entries@.len() ==> entry_views(entries@)[i] == entries@[i]@,
        value_view(Ok(Some(bytes))) == Ok::<Option<Seq<u8>>, ErrorView>(Some(bytes@)),
        value_view(Ok(None)) == Ok::<Option<Seq<u8>>, ErrorView>(None),
        value_view(Err(e)) == Err::<Option<Seq<u8>>, ErrorView>(e@),
        values_view(Ok(values)) == Ok::<Seq<Seq<u8>>, ErrorView>(byte_strings(values@)),
        values_view(Err(e)) == Err::<Seq<Seq<u8>>, ErrorView>(e@),
        pairs_view(Ok(pairs)) == Ok::<Seq<CachePairView>, ErrorView>(pair_views(pairs@)),
        pairs_view(Err(e)) == Err::<Seq<CachePairView>, ErrorView>(e@),
        entries_view(Ok(entries)) == Ok::<Seq<StreamEntryView>, ErrorView>(entry_views(entries@)),
        entries_view(Err(e)) == Err::<Seq<StreamEntryView>, ErrorView>(e@),
        ttl_view(Ok(Some(d))) == Ok::<Option<int>, ErrorView>(Some(d@ as int)),
        ttl_view(Ok(None)) == Ok::<Option<int>, ErrorView>(None),
        ttl_view(Err(e)) == Err::<Option<int>, ErrorView>(e@),
{
}

/// Pairs are sent as lists of two, the field first, all of them in order.
pub proof fn pairs_are_sent_field_first(
    pairs: Seq<CachePairView>,
    entries: Seq<(&str, &str)>,
    i: int,
)
    ensures
        pairs_tree(pairs) is Array,
        pairs_tree(pairs)->Array_0.len() == pairs.len(),
        0 <= i < pairs.len() ==> pairs_tree(pairs)->Array_0[i] == JsonTree::Array(
            seq![bytes_tree(pairs[i].field), bytes_tree(pairs[i].value)],
        ),
        text_pairs(entries).len() == entries.len(),
        0 <= i < entries.len() ==> text_pairs(entries)[i].field == encode_utf8(entries[i].0@),
        0 <= i < entries.len() ==> text_pairs(entries)[i].value == encode_utf8(entries[i].1@),
{
}

/// Bytes are text exactly when they are valid, and then they are the text they encode.
pub proof fn valid_bytes_are_their_text(bytes: Seq<u8>)
    ensures
        valid_utf8(bytes) ==> utf8_text(bytes) == Some(decode_utf8(bytes)),
        !valid_utf8(bytes) ==> utf8_text(bytes) is None,
{
}

/// The fields of an entry as texts: the last of those with the same name stands.
pub proof fn the_last_field_of_a_name_stands(fields: Seq<CachePairView>, p: CachePairView)
    ensures
        text_map(Seq::empty()) == Map::<Seq<char>, Seq<char>>::empty(),
        text_map(fields.push(p)) == text_map(fields).insert(
            text::lossy_text(p.field),
            text::lossy_text(p.value),
        ),
{
    assert(fields.push(p).drop_last() =~= fields);
}

/// A key is named with its namespace.
pub proof fn a_key_is_named_with_its_namespace(namespace: Seq<char>, key: Seq<char>)
    ensures
        key_members(namespace, key) == map![
            "namespace"@ => JsonTree::Text(namespace),
            "key"@ => JsonTree::Text(key),
        ],
{
    assert(key_members(namespace, key) =~= map![
        "namespace"@ => JsonTree::Text(namespace),
        "key"@ => JsonTree::Text(key),
    ]);
}

/// A time to live is sent in whole milliseconds, rounded down, and no longer one than
/// can be sent. No time at all is none.
pub proof fn a_time_to_live_is_sent_in_milliseconds(d: Duration, ms: i64, rest: nat)
    requires
        ms >= 0,
        rest < 1_000_000,
    ensures
        d@ == ms as nat * 1_000_000 + rest ==> millis_tree(d) == JsonTree::Number(
            text::integer(ms as int),
        ),
        d@ > i64::MAX as nat * 1_000_000 + 999_999 ==> millis_tree(d) == JsonTree::Number(
            text::integer(i64::MAX as int),
        ),
        d@ > 0 ==> ttl_tree(Some(d)) == millis_tree(d),
        d@ == 0 ==> ttl_tree(Some(d)) == JsonTree::Null,
        ttl_tree(None) == JsonTree::Null,
{
    assert((ms as nat * 1_000_000 + rest) / 1_000_000 == ms as nat);
}

/// An optional text is sent as it is or as null, and an empty entry id as null too.
pub proof fn optional_texts_are_sent_as_they_are(s: &str)
    ensures
        text_tree(Some(s)) == JsonTree::Text(s@),
        text_tree(None) == JsonTree::Null,
        s@.len() > 0 ==> entry_id_tree(Some(s)) == JsonTree::Text(s@),
        s@.len() == 0 ==> entry_id_tree(Some(s)) == JsonTree::Null,
        entry_id_tree(None) == JsonTree::Null,
{
}

/// A value is set under its key with its bytes and its time to live.
pub proof fn a_value_is_set_under_its_key(
    namespace: Seq<char>,
    key: Seq<char>,
    value: Seq<u8>,
    ttl: Option<Duration>,
)
    ensures
        set_op(namespace, key, value, ttl) == JsonTree::Object(
            map![
                "Cache"@ => JsonTree::Object(
                    map![
                        "Set"@ => JsonTree::Object(
                            map![
                                "namespace"@ => JsonTree::Text(namespace),
                                "key"@ => JsonTree::Text(key),
                                "value"@ => bytes_tree(value),
                                "ttl_ms"@ => ttl_tree(ttl),
                            ],
                        ),
                    ],
                ),
            ],
        ),
{
    let body = map![
        "namespace"@ => JsonTree::Text(namespace),
        "key"@ => JsonTree::Text(key),
        "value"@ => bytes_tree(value),
        "ttl_ms"@ => ttl_tree(ttl),
    ];
    assert(key_members(namespace, key).insert("value"@, bytes_tree(value)).insert(
        "ttl_ms"@,
        ttl_tree(ttl),
    ) =~= body);
    a_cache_request_is_sent_under_its_name("Set"@, body);
}

/// A value that was found is the bytes that were sent, and null is no value.
pub proof fn a_found_value_is_the_bytes_that_were_sent(
    r: ResponseView,
    what: Seq<char>,
    bytes: Seq<u8>,
)
    ensures
        r.kind == "CacheValue"@ && r.data == bytes_tree(bytes) ==> value_meaning(r, what) == Ok::<
            Option<Seq<u8>>,
            ErrorView,
        >(Some(bytes)),
        r.kind == "CacheValue"@ && r.data is Null ==> value_meaning(r, what) == Ok::<
            Option<Seq<u8>>,
            ErrorView,
        >(None),
        r.kind == "CacheValue"@ && !(r.data is Null) ==> (bytes_of(r.data) matches Err(e)
            ==> value_meaning(r, what) == Err::<Option<Seq<u8>>, ErrorView>(e)),
        r.kind != "CacheValue"@ ==> value_meaning(r, what) == Err::<Option<Seq<u8>>, ErrorView>(
            expected(r, "CacheValue"@, what)->Err_0,
        ),
{
    crate::wire::bytes_round_trip(bytes);
}

/// A list of values is read from the member of its name, all of them in order.
pub proof fn values_are_read_from_their_member(
    r: ResponseView,
    what: Seq<char>,
    name: Seq<char>,
    m: Map<Seq<char>, JsonTree>,
    values: Seq<Seq<u8>>,
)
    ensures
        r.kind == "Json"@ && r.data == JsonTree::Object(
            m.insert(name, byte_strings_tree(values)),
        ) ==> values_meaning(r, what, name) == Ok::<Seq<Seq<u8>>, ErrorView>(values),
        r.kind == "Json"@ && r.data == JsonTree::Object(m) && m.dom().contains(name)
            ==> values_meaning(r, what, name) == byte_strings_of(m[name]),
        r.kind == "Json"@ && r.data == JsonTree::Object(m) && !m.dom().contains(name)
            ==> values_meaning(r, what, name) is Err,
        r.kind == "Json"@ && !(r.data is Object) ==> values_meaning(r, what, name) is Err,
        r.kind != "Json"@ ==> values_meaning(r, what, name) == Err::<Seq<Seq<u8>>, ErrorView>(
            expected(r, "Json"@, what)->Err_0,
        ),
{
    crate::wire::byte_strings_round_trip(values);
}

/// Pairs are read whole: every pair in its place, the field first.
pub proof fn pairs_are_read_in_order(items: Seq<JsonTree>, pairs: Seq<CachePairView>)
    ensures
        pairs_of(items) matches Ok(found) ==> {
            &&& found.len() == items.len()
            &&& forall|i: int|
                0 <= i < items.len() ==> pair_of(#[trigger] items[i]) == Ok::<
                    (Seq<u8>, Seq<u8>),
                    ErrorView,
                >((found[i].field, found[i].value))
        },
        (forall|i: int| 0 <= i < items.len() ==> pair_of(#[trigger] items[i]) is Ok) ==> pairs_of(
            items,
        ) is Ok,
        pairs_of(pairs_tree(pairs)->Array_0) == Ok::<Seq<CachePairView>, ErrorView>(pairs),
{
    let read = |i: int, x: JsonTree| pair_at(i, x);
    crate::wire::lists_are_read_whole(items, read);
    if pairs_of(items) is Ok {
        let found = pairs_of(items)->Ok_0;
        assert forall|i: int| 0 <= i < items.len() implies pair_of(#[trigger] items[i]) == Ok::<
            (Seq<u8>, Seq<u8>),
            ErrorView,
        >((found[i].field, found[i].value)) by {
            assert(read(i, items[i]) == Ok::<CachePairView, ErrorView>(found[i]));
        }
    }
    if forall|i: int| 0 <= i < items.len() ==> pair_of(#[trigger] items[i]) is Ok {
        assert forall|i: int| 0 <= i < items.len() implies #[trigger] read(i, items[i]) is Ok by {
            assert(pair_of(items[i]) is Ok);
        }
    }
    let sent = pairs_tree(pairs)->Array_0;
    crate::wire::lists_are_read_whole(sent, read);
    assert forall|i: int| 0 <= i < sent.len() implies #[trigger] read(i, sent[i]) == Ok::<
        CachePairView,
        ErrorView,
    >(pairs[i]) by {
        pairs_round_trip(pairs[i]);
    }
    assert(collected(sent, read) is Ok);
    let back = collected(sent, read)->Ok_0;
    assert forall|i: int| 0 <= i < pairs.len() implies back[i] == pairs[i] by {
        assert(read(i, sent[i]) == Ok::<CachePairView, ErrorView>(pairs[i]));
    }
    assert(back =~= pairs);
}

/// A hash is read from its entries, all of them in order.
pub proof fn a_hash_is_read_from_its_entries(
    r: ResponseView,
    m: Map<Seq<char>, JsonTree>,
    items: Seq<JsonTree>,
)
    ensures
        r.kind == "Json"@ && r.data == JsonTree::Object(
            m.insert("entries"@, JsonTree::Array(items)),
        ) ==> hash_meaning(r) == pairs_of(items),
        r.kind == "Json"@ && r.data == JsonTree::Object(m) && (!m.dom().contains("entries"@) || !(
        m["entries"@] is Array)) ==> hash_meaning(r) == Err::<Seq<CachePairView>, ErrorView>(
            plain(ErrorKind::Protocol, "malformed HGetAll payload: no entries"@),
        ),
        r.kind == "Json"@ && !(r.data is Object) ==> hash_meaning(r) == Err::<
            Seq<CachePairView>,
            ErrorView,
        >(plain(ErrorKind::Protocol, "malformed HGetAll payload: no entries"@)),
        r.kind != "Json"@ ==> hash_meaning(r) == Err::<Seq<CachePairView>, ErrorView>(
            expected(r, "Json"@, "HGetAll"@)->Err_0,
        ),
{
}

/// A stream is read whole: every entry in its place under its own id, with its own
/// fields.
pub proof fn a_stream_is_read_entry_by_entry(entries: Seq<WireEntryView>)
    ensures
        stream_of(entries) matches Ok(found) ==> {
            &&& found.len() == entries.len()
            &&& forall|i: int|
                #![trigger entries[i]]
                #![trigger found[i]]
                0 <= i < entries.len() ==> found[i].id == entries[i].id && pairs_of(
                    entries[i].fields,
                ) == Ok::<Seq<CachePairView>, ErrorView>(found[i].fields)
        },
        (forall|i: int| 0 <= i < entries.len() ==> pairs_of((#[trigger] entries[i]).fields) is Ok)
            ==> stream_of(entries) is Ok,
    decreases entries.len(),
{
    if entries.len() > 0 {
        let head = entries.drop_last();
        a_stream_is_read_entry_by_entry(head);
        assert forall|i: int| 0 <= i < head.len() implies head[i] == entries[i] by {}
        if stream_of(entries) is Ok {
            let found = stream_of(entries)->Ok_0;
            let before = stream_of(head)->Ok_0;
            assert forall|i: int|
                #![trigger entries[i]]
                #![trigger found[i]]
                0 <= i < entries.len() implies found[i].id == entries[i].id && pairs_of(
                entries[i].fields,
            ) == Ok::<Seq<CachePairView>, ErrorView>(found[i].fields) by {
                if i < head.len() {
                    assert(found[i] == before[i]);
                    assert(head[i] == entries[i]);
                }
            }
        }
        if forall|i: int|
            0 <= i < entries.len() ==> pairs_of((#[trigger] entries[i]).fields) is Ok {
            assert forall|i: int| 0 <= i < head.len() implies pairs_of((#[trigger] head[i]).fields)
                is Ok by {
                assert(head[i] == entries[i]);
            }
            assert(pairs_of(entries[entries.len() - 1].fields) is Ok);
        }
    }
}

/// A stream is refused for its first entry that cannot be read.
pub proof fn a_stream_is_refused_for_its_first_fault(entries: Seq<WireEntryView>, at: int)
    requires
        0 <= at < entries.len(),
        forall|i: int| 0 <= i < at ==> pairs_of((#[trigger] entries[i]).fields) is Ok,
        pairs_of(entries[at].fields) is Err,
    ensures
        stream_of(entries) == Err::<Seq<StreamEntryView>, ErrorView>(
            pairs_of(entries[at].fields)->Err_0,
        ),
{
    let head = entries.take(at);
    let upto = entries.take(at + 1);
    assert forall|i: int| 0 <= i < head.len() implies pairs_of((#[trigger] head[i]).fields)
        is Ok by {
        assert(head[i] == entries[i]);
    }
    a_stream_is_read_entry_by_entry(head);
    assert(upto.drop_last() =~= head);
    assert(upto.last() == entries[at]);
    stream_prefix_fails(entries, at + 1);
}

/// What a stream and a time to live answer.
pub proof fn stream_and_time_answers_are_these(
    r: ResponseView,
    what: Seq<char>,
    entries: Seq<WireEntryView>,
    ms: i64,
)
    ensures
        typed_single::<Vec<WireEntry>>(r, what, "entries"@, Seq::empty()) == Ok::<
            Seq<WireEntryView>,
            ErrorView,
        >(entries) ==> stream_meaning(r, what) == stream_of(entries),
        typed_single::<Vec<WireEntry>>(r, what, "entries"@, Seq::empty()) matches Err(e)
            ==> stream_meaning(r, what) == Err::<Seq<StreamEntryView>, ErrorView>(e),
        typed_single::<Option<i64>>(r, "Ttl"@, "ttl_ms"@, None) == Ok::<Option<i64>, ErrorView>(
            Some(ms),
        ) ==> ttl_meaning(r) == Ok::<Option<int>, ErrorView>(
            if ms < 0 {
                None
            } else {
                Some(ms * 1_000_000)
            },
        ),
        typed_single::<Option<i64>>(r, "Ttl"@, "ttl_ms"@, None) == Ok::<Option<i64>, ErrorView>(
            None,
        ) ==> ttl_meaning(r) == Ok::<Option<int>, ErrorView>(None),
        typed_single::<Option<i64>>(r, "Ttl"@, "ttl_ms"@, None) matches Err(e) ==> ttl_meaning(r)
            == Err::<Option<int>, ErrorView>(e),
{
}

/// What is sent by `cache_ping`.
pub proof fn cache_ping_is_sent_as_it_was_asked(c: &mut Client, r: Result<Vec<u8>>)
    ensures
        call_ensures(Client::cache_ping, (c,), r) ==> sends(
            old(c)@,
            final(c)@,
            JsonTree::Object(map!["Cache"@ => JsonTree::Text("Ping"@)]),
            r,
        ),
{
    crate::json::a_wrapped_value_is_the_only_member(
        "Cache"@,
        JsonTree::Text("Ping"@),
        "Cache"@,
    );
}

/// What is sent by `cache_get`, `cache_delete`, `cache_exists`, `cache_ttl`,
/// `cache_persist`, `cache_lpop`, `cache_rpop`, `cache_llen`, `cache_scard`,
/// `cache_smembers`, `cache_hgetall`, `cache_hlen`, `cache_xlen`.
pub proof fn cache_get_and_its_like_are_sent_as_they_were_asked(
    c: &mut Client,
    namespace: &str,
    key: &str,
    r: Result<Vec<u8>>,
)
    ensures
        call_ensures(Client::cache_get, (c, namespace, key), r) ==> sends(
            old(c)@,
            final(c)@,
            JsonTree::Object(
                map![
                    "Cache"@ => JsonTree::Object(
                        map![
                            "Get"@ => JsonTree::Object(
                                map![
                                    "namespace"@ => JsonTree::Text(namespace@),
                                    "key"@ => JsonTree::Text(key@),
                                ],
                            ),
                        ],
                    ),
                ],
            ),
            r,
        ),
        call_ensures(Client::cache_delete, (c, namespace, key), r) ==> sends(
            old(c)@,
            final(c)@,
            JsonTree::Object(
                map![
                    "Cache"@ => JsonTree::Object(
                        map![
                            "Delete"@ => JsonTree::Object(
                                map![
                                    "namespace"@ => JsonTree::Text(namespace@),
                                    "key"@ => JsonTree::Text(key@),
                                ],
                            ),
                        ],
                    ),
                ],
            ),
            r,
        ),
        call_ensures(Client::cache_exists, (c, namespace, key), r) ==> sends(
            old(c)@,
            final(c)@,
            JsonTree::Object(
                map![
                    "Cache"@ => JsonTree::Object(
                        map![
                            "Exists"@ => JsonTree::Object(
                                map![
                                    "namespace"@ => JsonTree::Text(namespace@),
                                    "key"@ => JsonTree::Text(key@),
                                ],
                            ),
                        ],
                    ),
                ],
            ),
            r,
        ),
        call_ensures(Client::cache_ttl, (c, namespace, key), r) ==> sends(
            old(c)@,
            final(c)@,
            JsonTree::Object(
                map![
                    "Cache"@ => JsonTree::Object(
                        map![
                            "Ttl"@ => JsonTree::Object(
                                map![
                                    "namespace"@ => JsonTree::Text(namespace@),
                                    "key"@ => JsonTree::Text(key@),
                                ],
                            ),
                        ],
                    ),
                ],
            ),
            r,
        ),
        call_ensures(Client::cache_persist, (c, namespace, key), r) ==> sends(
            old(c)@,
            final(c)@,
            JsonTree::Object(
                map![
                    "Cache"@ => JsonTree::Object(
                        map![
                            "Persist"@ => JsonTree::Object(
                                map![
                                    "namespace"@ => JsonTree::Text(namespace@),
                                    "key"@ => JsonTree::Text(key@),
                                ],
                            ),
                        ],
                    ),
                ],
            ),
            r,
        ),
        call_ensures(Client::cache_lpop, (c, namespace, key), r) ==> sends(
            old(c)@,
            final(c)@,
            JsonTree::Object(
                map![
                    "Cache"@ => JsonTree::Object(
                        map![
                            "LPop"@ => JsonTree::Object(
                                map![
                                    "namespace"@ => JsonTree::Text(namespace@),
                                    "key"@ => JsonTree::Text(key@),
                                ],
                            ),
                        ],
                    ),
                ],
            ),
            r,
        ),
        call_ensures(Client::cache_rpop, (c, namespace, key), r) ==> sends(
            old(c)@,
            final(c)@,
            JsonTree::Object(
                map![
                    "Cache"@ => JsonTree::Object(
                        map![
                            "RPop"@ => JsonTree::Object(
                                map![
                                    "namespace"@ => JsonTree::Text(namespace@),
                                    "key"@ => JsonTree::Text(key@),
                                ],
                            ),
                        ],
                    ),
                ],
            ),
            r,
        ),
        call_ensures(Client::cache_llen, (c, namespace, key), r) ==> sends(
            old(c)@,
            final(c)@,
            JsonTree::Object(
                map![
                    "Cache"@ => JsonTree::Object(
                        map![
                            "LLen"@ => JsonTree::Object(
                                map![
                                    "namespace"@ => JsonTree::Text(namespace@),
                                    "key"@ => JsonTree::Text(key@),
                                ],
                            ),
                        ],
                    ),
                ],
            ),
            r,
        ),
        call_ensures(Client::cache_scard, (c, namespace, key), r) ==> sends(
            old(c)@,
            final(c)@,
            JsonTree::Object(
                map![
                    "Cache"@ => JsonTree::Object(
                        map![
                            "SCard"@ => JsonTree::Object(
                                map![
                                    "namespace"@ => JsonTree::Text(namespace@),
                                    "key"@ => JsonTree::Text(key@),
                                ],
                            ),
                        ],
                    ),
                ],
            ),
            r,
        ),
        call_ensures(Client::cache_smembers, (c, namespace, key), r) ==> sends(
            old(c)@,
            final(c)@,
            JsonTree::Object(
                map![
                    "Cache"@ => JsonTree::Object(
                        map![
                            "SMembers"@ => JsonTree::Object(
                                map![
                                    "namespace"@ => JsonTree::Text(namespace@),
                                    "key"@ => JsonTree::Text(key@),
                                ],
                            ),
                        ],
                    ),
                ],
            ),
            r,
        ),
        call_ensures(Client::cache_hgetall, (c, namespace, key), r) ==> sends(
            old(c)@,
            final(c)@,
            JsonTree::Object(
                map![
                    "Cache"@ => JsonTree::Object(
                        map![
                            "HGetAll"@ => JsonTree::Object(
                                map![
                                    "namespace"@ => JsonTree::Text(namespace@),
                                    "key"@ => JsonTree::Text(key@),
                                ],
                            ),
                        ],
                    ),
                ],
            ),
            r,
        ),
        call_ensures(Client::cache_hlen, (c, namespace, key), r) ==> sends(
            old(c)@,
            final(c)@,
            JsonTree::Object(
                map![
                    "Cache"@ => JsonTree::Object(
                        map![
                            "HLen"@ => JsonTree::Object(
                                map![
                                    "namespace"@ => JsonTree::Text(namespace@),
                                    "key"@ => JsonTree::Text(key@),
                                ],
                            ),
                        ],
                    ),
                ],
            ),
            r,
        ),
        call_ensures(Client::cache_xlen, (c, namespace, key), r) ==> sends(
            old(c)@,
            final(c)@,
            JsonTree::Object(
                map![
                    "Cache"@ => JsonTree::Object(
                        map![
                            "XLen"@ => JsonTree::Object(
                                map![
                                    "namespace"@ => JsonTree::Text(namespace@),
                                    "key"@ => JsonTree::Text(key@),
                                ],
                            ),
                        ],
                    ),
                ],
            ),
            r,
        ),
{
    assert(key_members(namespace@, key@) =~= map![
        "namespace"@ => JsonTree::Text(namespace@),
        "key"@ => JsonTree::Text(key@),
    ]);
    a_cache_request_is_sent_under_its_name(
        "Get"@,
        map!["namespace"@ => JsonTree::Text(namespace@), "key"@ => JsonTree::Text(key@)],
    );
    a_cache_request_is_sent_under_its_name(
        "Delete"@,
        map!["namespace"@ => JsonTree::Text(namespace@), "key"@ => JsonTree::Text(key@)],
    );
    a_cache_request_is_sent_under_its_name(
        "Exists"@,
        map!["namespace"@ => JsonTree::Text(namespace@), "key"@ => JsonTree::Text(key@)],
    );
    a_cache_request_is_sent_under_its_name(
        "Ttl"@,
        map!["namespace"@ => JsonTree::Text(namespace@), "key"@ => JsonTree::Text(key@)],
    );
    a_cache_request_is_sent_under_its_name(
        "Persist"@,
        map!["namespace"@ => JsonTree::Text(namespace@), "key"@ => JsonTree::Text(key@)],
    );
    a_cache_request_is_sent_under_its_name(
        "LPop"@,
        map!["namespace"@ => JsonTree::Text(namespace@), "key"@ => JsonTree::Text(key@)],
    );
    a_cache_request_is_sent_under_its_name(
        "RPop"@,
        map!["namespace"@ => JsonTree::Text(namespace@), "key"@ => JsonTree::Text(key@)],
    );
    a_cache_request_is_sent_under_its_name(
        "LLen"@,
        map!["namespace"@ => JsonTree::Text(namespace@), "key"@ => JsonTree::Text(key@)],
    );
    a_cache_request_is_sent_under_its_name(
        "SCard"@,
        map!["namespace"@ => JsonTree::Text(namespace@), "key"@ => JsonTree::Text(key@)],
    );
    a_cache_request_is_sent_under_its_name(
        "SMembers"@,
        map!["namespace"@ => JsonTree::Text(namespace@), "key"@ => JsonTree::Text(key@)],
    );
    a_cache_request_is_sent_under_its_name(
        "HGetAll"@,
        map!["namespace"@ => JsonTree::Text(namespace@), "key"@ => JsonTree::Text(key@)],
    );
    a_cache_request_is_sent_under_its_name(
        "HLen"@,
        map!["namespace"@ => JsonTree::Text(namespace@), "key"@ => JsonTree::Text(key@)],
    );
    a_cache_request_is_sent_under_its_name(
        "XLen"@,
        map!["namespace"@ => JsonTree::Text(namespace@), "key"@ => JsonTree::Text(key@)],
    );
}

/// What is sent by `cache_set`.
pub proof fn cache_set_is_sent_as_it_was_asked(
    c: &mut Client,
    namespace: &str,
    key: &str,
    value: &[u8],
    r: Result<Vec<u8>>,
)
    ensures
        call_ensures(Client::cache_set, (c, namespace, key, value), r) ==> sends(
            old(c)@,
            final(c)@,
            JsonTree::Object(
                map![
                    "Cache"@ => JsonTree::Object(
                        map![
                            "Set"@ => JsonTree::Object(
                                map![
                                    "namespace"@ => JsonTree::Text(namespace@),
                                    "key"@ => JsonTree::Text(key@),
                                    "value"@ => bytes_tree(value@),
                                    "ttl_ms"@ => ttl_tree(None),
                                ],
                            ),
                        ],
                    ),
                ],
            ),
            r,
        ),
{
    a_value_is_set_under_its_key(namespace@, key@, value@, None);
}

/// What is sent by `cache_set_ttl`, `cache_set_nx`.
pub proof fn cache_set_ttl_and_its_like_are_sent_as_they_were_asked(
    c: &mut Client,
    namespace: &str,
    key: &str,
    value: &[u8],
    ttl: Option<Duration>,
    r: Result<Vec<u8>>,
)
    ensures
        call_ensures(Client::cache_set_ttl, (c, namespace, key, value, ttl), r) ==> sends(
            old(c)@,
            final(c)@,
            JsonTree::Object(
                map![
                    "Cache"@ => JsonTree::Object(
                        map![
                            "Set"@ => JsonTree::Object(
                                map![
                                    "namespace"@ => JsonTree::Text(namespace@),
                                    "key"@ => JsonTree::Text(key@),
                                    "value"@ => bytes_tree(value@),
                                    "ttl_ms"@ => ttl_tree(ttl),
                                ],
                            ),
                        ],
                    ),
                ],
            ),
            r,
        ),
        call_ensures(Client::cache_set_nx, (c, namespace, key, value, ttl), r) ==> sends(
            old(c)@,
            final(c)@,
            JsonTree::Object(
                map![
                    "Cache"@ => JsonTree::Object(
                        map![
                            "SetNx"@ => JsonTree::Object(
                                map![
                                    "namespace"@ => JsonTree::Text(namespace@),
                                    "key"@ => JsonTree::Text(key@),
                                    "value"@ => bytes_tree(value@),
                                    "ttl_ms"@ => ttl_tree(ttl),
                                ],
                            ),
                        ],
                    ),
                ],
            ),
            r,
        ),
{
    a_value_is_set_under_its_key(namespace@, key@, value@, ttl);
    assert(key_members(namespace@, key@)
        .insert("value"@, bytes_tree(value@))
        .insert("ttl_ms"@, ttl_tree(ttl)) =~= map![
        "namespace"@ => JsonTree::Text(namespace@),
        "key"@ => JsonTree::Text(key@),
        "value"@ => bytes_tree(value@),
        "ttl_ms"@ => ttl_tree(ttl),
    ]);
    a_cache_request_is_sent_under_its_name(
        "SetNx"@,
        map![
            "namespace"@ => JsonTree::Text(namespace@),
            "key"@ => JsonTree::Text(key@),
            "value"@ => bytes_tree(value@),
            "ttl_ms"@ => ttl_tree(ttl),
        ],
    );
}

/// What is sent by `cache_expire`.
pub proof fn cache_expire_is_sent_as_it_was_asked(
    c: &mut Client,
    namespace: &str,
    key: &str,
    ttl: Duration,
    r: Result<Vec<u8>>,
)
    ensures
        call_ensures(Client::cache_expire, (c, namespace, key, ttl), r) ==> sends(
            old(c)@,
            final(c)@,
            JsonTree::Object(
                map![
                    "Cache"@ => JsonTree::Object(
                        map![
                            "Expire"@ => JsonTree::Object(
                                map![
                                    "namespace"@ => JsonTree::Text(namespace@),
                                    "key"@ => JsonTree::Text(key@),
                                    "ttl_ms"@ => millis_tree(ttl),
                                ],
                            ),
                        ],
                    ),
                ],
            ),
            r,
        ),
{
    assert(key_members(namespace@, key@).insert("ttl_ms"@, millis_tree(ttl)) =~= map![
        "namespace"@ => JsonTree::Text(namespace@),
        "key"@ => JsonTree::Text(key@),
        "ttl_ms"@ => millis_tree(ttl),
    ]);
    a_cache_request_is_sent_under_its_name(
        "Expire"@,
        map![
            "namespace"@ => JsonTree::Text(namespace@),
            "key"@ => JsonTree::Text(key@),
            "ttl_ms"@ => millis_tree(ttl),
        ],
    );
}

/// What is sent by `cache_incr`.
pub proof fn cache_incr_is_sent_as_it_was_asked(
    c: &mut Client,
    namespace: &str,
    key: &str,
    by: i64,
    r: Result<Vec<u8>>,
)
    ensures
        call_ensures(Client::cache_incr, (c, namespace, key, by), r) ==> sends(
            old(c)@,
            final(c)@,
            JsonTree::Object(
                map![
                    "Cache"@ => JsonTree::Object(
                        map![
                            "Incr"@ => JsonTree::Object(
                                map![
                                    "namespace"@ => JsonTree::Text(namespace@),
                                    "key"@ => JsonTree::Text(key@),
                                    "by"@ => number_tree(by as int),
                                ],
                            ),
                        ],
                    ),
                ],
            ),
            r,
        ),
{
    assert(key_members(namespace@, key@).insert("by"@, number_tree(by as int)) =~= map![
        "namespace"@ => JsonTree::Text(namespace@),
        "key"@ => JsonTree::Text(key@),
        "by"@ => number_tree(by as int),
    ]);
    a_cache_request_is_sent_under_its_name(
        "Incr"@,
        map![
            "namespace"@ => JsonTree::Text(namespace@),
            "key"@ => JsonTree::Text(key@),
            "by"@ => number_tree(by as int),
        ],
    );
}

/// What is sent by `cache_clear_namespace`.
pub proof fn cache_clear_namespace_is_sent_as_it_was_asked(
    c: &mut Client,
    namespace: &str,
    r: Result<Vec<u8>>,
)
    ensures
        call_ensures(Client::cache_clear_namespace, (c, namespace), r) ==> sends(
            old(c)@,
            final(c)@,
            JsonTree::Object(
                map![
                    "Cache"@ => JsonTree::Object(
                        map![
                            "ClearNamespace"@ => JsonTree::Object(
                                map!["namespace"@ => JsonTree::Text(namespace@)],
                            ),
                        ],
                    ),
                ],
            ),
            r,
        ),
{
    assert(Map::<Seq<char>, JsonTree>::empty()
        .insert("namespace"@, JsonTree::Text(namespace@)) =~= map![
        "namespace"@ => JsonTree::Text(namespace@),
    ]);
    a_cache_request_is_sent_under_its_name(
        "ClearNamespace"@,
        map!["namespace"@ => JsonTree::Text(namespace@)],
    );
}

/// What is sent by `cache_keys`.
pub proof fn cache_keys_is_sent_as_it_was_asked(
    c: &mut Client,
    namespace: &str,
    pattern: Option<&str>,
    limit: Option<usize>,
    r: Result<Vec<u8>>,
)
    ensures
        call_ensures(Client::cache_keys, (c, namespace, pattern, limit), r) ==> sends(
            old(c)@,
            final(c)@,
            JsonTree::Object(
                map![
                    "Cache"@ => JsonTree::Object(
                        map![
                            "Keys"@ => JsonTree::Object(
                                map![
                                    "namespace"@ => JsonTree::Text(namespace@),
                                    "pattern"@ => text_tree(pattern),
                                    "limit"@ => size_tree(limit),
                                ],
                            ),
                        ],
                    ),
                ],
            ),
            r,
        ),
{
    assert(Map::<Seq<char>, JsonTree>::empty()
        .insert("namespace"@, JsonTree::Text(namespace@))
        .insert("pattern"@, text_tree(pattern))
        .insert("limit"@, size_tree(limit)) =~= map![
        "namespace"@ => JsonTree::Text(namespace@),
        "pattern"@ => text_tree(pattern),
        "limit"@ => size_tree(limit),
    ]);
    a_cache_request_is_sent_under_its_name(
        "Keys"@,
        map![
            "namespace"@ => JsonTree::Text(namespace@),
            "pattern"@ => text_tree(pattern),
            "limit"@ => size_tree(limit),
        ],
    );
}

/// What is sent by `cache_lpush`, `cache_rpush`.
pub proof fn cache_lpush_and_its_like_are_sent_as_they_were_asked(
    c: &mut Client,
    namespace: &str,
    key: &str,
    values: &[Vec<u8>],
    r: Result<Vec<u8>>,
)
    ensures
        call_ensures(Client::cache_lpush, (c, namespace, key, values), r)
            && values@.len() == 0 ==> declines(
                old(c)@,
                final(c)@,
                must_not_be_empty("values"@),
                r,
            ),
        call_ensures(Client::cache_lpush, (c, namespace, key, values), r)
            && values@.len() > 0 ==> sends(
            old(c)@,
            final(c)@,
            JsonTree::Object(
                map![
                    "Cache"@ => JsonTree::Object(
                        map![
                            "LPush"@ => JsonTree::Object(
                                map![
                                    "namespace"@ => JsonTree::Text(namespace@),
                                    "key"@ => JsonTree::Text(key@),
                                    "values"@ => byte_strings_tree(byte_strings(values@)),
                                ],
                            ),
                        ],
                    ),
                ],
            ),
            r,
        ),
        call_ensures(Client::cache_rpush, (c, namespace, key, values), r)
            && values@.len() == 0 ==> declines(
                old(c)@,
                final(c)@,
                must_not_be_empty("values"@),
                r,
            ),
        call_ensures(Client::cache_rpush, (c, namespace, key, values), r)
            && values@.len() > 0 ==> sends(
            old(c)@,
            final(c)@,
            JsonTree::Object(
                map![
                    "Cache"@ => JsonTree::Object(
                        map![
                            "RPush"@ => JsonTree::Object(
                                map![
                                    "namespace"@ => JsonTree::Text(namespace@),
                                    "key"@ => JsonTree::Text(key@),
                                    "values"@ => byte_strings_tree(byte_strings(values@)),
                                ],
                            ),
                        ],
                    ),
                ],
            ),
            r,
        ),
{
    assert(key_members(namespace@, key@)
        .insert("values"@, byte_strings_tree(byte_strings(values@))) =~= map![
        "namespace"@ => JsonTree::Text(namespace@),
        "key"@ => JsonTree::Text(key@),
        "values"@ => byte_strings_tree(byte_strings(values@)),
    ]);
    a_cache_request_is_sent_under_its_name(
        "LPush"@,
        map![
            "namespace"@ => JsonTree::Text(namespace@),
            "key"@ => JsonTree::Text(key@),
            "values"@ => byte_strings_tree(byte_strings(values@)),
        ],
    );
    a_cache_request_is_sent_under_its_name(
        "RPush"@,
        map![
            "namespace"@ => JsonTree::Text(namespace@),
            "key"@ => JsonTree::Text(key@),
            "values"@ => byte_strings_tree(byte_strings(values@)),
        ],
    );
}

/// What is sent by `cache_lrange`.
pub proof fn cache_lrange_is_sent_as_it_was_asked(
    c: &mut Client,
    namespace: &str,
    key: &str,
    start: i64,
    stop: i64,
    r: Result<Vec<u8>>,
)
    ensures
        call_ensures(Client::cache_lrange, (c, namespace, key, start, stop), r) ==> sends(
            old(c)@,
            final(c)@,
            JsonTree::Object(
                map![
                    "Cache"@ => JsonTree::Object(
                        map![
                            "LRange"@ => JsonTree::Object(
                                map![
                                    "namespace"@ => JsonTree::Text(namespace@),
                                    "key"@ => JsonTree::Text(key@),
                                    "start"@ => number_tree(start as int),
                                    "stop"@ => number_tree(stop as int),
                                ],
                            ),
                        ],
                    ),
                ],
            ),
            r,
        ),
{
    assert(key_members(namespace@, key@)
        .insert("start"@, number_tree(start as int))
        .insert("stop"@, number_tree(stop as int)) =~= map![
        "namespace"@ => JsonTree::Text(namespace@),
        "key"@ => JsonTree::Text(key@),
        "start"@ => number_tree(start as int),
        "stop"@ => number_tree(stop as int),
    ]);
    a_cache_request_is_sent_under_its_name(
        "LRange"@,
        map![
            "namespace"@ => JsonTree::Text(namespace@),
            "key"@ => JsonTree::Text(key@),
            "start"@ => number_tree(start as int),
            "stop"@ => number_tree(stop as int),
        ],
    );
}

/// What is sent by `cache_lindex`.
pub proof fn cache_lindex_is_sent_as_it_was_asked(
    c: &mut Client,
    namespace: &str,
    key: &str,
    index: i64,
    r: Result<Vec<u8>>,
)
    ensures
        call_ensures(Client::cache_lindex, (c, namespace, key, index), r) ==> sends(
            old(c)@,
            final(c)@,
            JsonTree::Object(
                map![
                    "Cache"@ => JsonTree::Object(
                        map![
                            "LIndex"@ => JsonTree::Object(
                                map![
                                    "namespace"@ => JsonTree::Text(namespace@),
                                    "key"@ => JsonTree::Text(key@),
                                    "index"@ => number_tree(index as int),
                                ],
                            ),
                        ],
                    ),
                ],
            ),
            r,
        ),
{
    assert(key_members(namespace@, key@).insert("index"@, number_tree(index as int)) =~= map![
        "namespace"@ => JsonTree::Text(namespace@),
        "key"@ => JsonTree::Text(key@),
        "index"@ => number_tree(index as int),
    ]);
    a_cache_request_is_sent_under_its_name(
        "LIndex"@,
        map![
            "namespace"@ => JsonTree::Text(namespace@),
            "key"@ => JsonTree::Text(key@),
            "index"@ => number_tree(index as int),
        ],
    );
}

/// What is sent by `cache_sadd`, `cache_srem`.
pub proof fn cache_sadd_and_its_like_are_sent_as_they_were_asked(
    c: &mut Client,
    namespace: &str,
    key: &str,
    members: &[Vec<u8>],
    r: Result<Vec<u8>>,
)
    ensures
        call_ensures(Client::cache_sadd, (c, namespace, key, members), r)
            && members@.len() == 0 ==> declines(
                old(c)@,
                final(c)@,
                must_not_be_empty("members"@),
                r,
            ),
        call_ensures(Client::cache_sadd, (c, namespace, key, members), r)
            && members@.len() > 0 ==> sends(
            old(c)@,
            final(c)@,
            JsonTree::Object(
                map![
                    "Cache"@ => JsonTree::Object(
                        map![
                            "SAdd"@ => JsonTree::Object(
                                map![
                                    "namespace"@ => JsonTree::Text(namespace@),
                                    "key"@ => JsonTree::Text(key@),
                                    "members"@ => byte_strings_tree(byte_strings(members@)),
                                ],
                            ),
                        ],
                    ),
                ],
            ),
            r,
        ),
        call_ensures(Client::cache_srem, (c, namespace, key, members), r)
            && members@.len() == 0 ==> declines(
                old(c)@,
                final(c)@,
                must_not_be_empty("members"@),
                r,
            ),
        call_ensures(Client::cache_srem, (c, namespace, key, members), r)
            && members@.len() > 0 ==> sends(
            old(c)@,
            final(c)@,
            JsonTree::Object(
                map![
                    "Cache"@ => JsonTree::Object(
                        map![
                            "SRem"@ => JsonTree::Object(
                                map![
                                    "namespace"@ => JsonTree::Text(namespace@),
                                    "key"@ => JsonTree::Text(key@),
                                    "members"@ => byte_strings_tree(byte_strings(members@)),
                                ],
                            ),
                        ],
                    ),
                ],
            ),
            r,
        ),
{
    assert(key_members(namespace@, key@)
        .insert("members"@, byte_strings_tree(byte_strings(members@))) =~= map![
        "namespace"@ => JsonTree::Text(namespace@),
        "key"@ => JsonTree::Text(key@),
        "members"@ => byte_strings_tree(byte_strings(members@)),
    ]);
    a_cache_request_is_sent_under_its_name(
        "SAdd"@,
        map![
            "namespace"@ => JsonTree::Text(namespace@),
            "key"@ => JsonTree::Text(key@),
            "members"@ => byte_strings_tree(byte_strings(members@)),
        ],
    );
    a_cache_request_is_sent_under_its_name(
        "SRem"@,
        map![
            "namespace"@ => JsonTree::Text(namespace@),
            "key"@ => JsonTree::Text(key@),
            "members"@ => byte_strings_tree(byte_strings(members@)),
        ],
    );
}

/// What is sent by `cache_sismember`.
pub proof fn cache_sismember_is_sent_as_it_was_asked(
    c: &mut Client,
    namespace: &str,
    key: &str,
    member: &[u8],
    r: Result<Vec<u8>>,
)
    ensures
        call_ensures(Client::cache_sismember, (c, namespace, key, member), r) ==> sends(
            old(c)@,
            final(c)@,
            JsonTree::Object(
                map![
                    "Cache"@ => JsonTree::Object(
                        map![
                            "SIsMember"@ => JsonTree::Object(
                                map![
                                    "namespace"@ => JsonTree::Text(namespace@),
                                    "key"@ => JsonTree::Text(key@),
                                    "member"@ => bytes_tree(member@),
                                ],
                            ),
                        ],
                    ),
                ],
            ),
            r,
        ),
{
    assert(key_members(namespace@, key@).insert("member"@, bytes_tree(member@)) =~= map![
        "namespace"@ => JsonTree::Text(namespace@),
        "key"@ => JsonTree::Text(key@),
        "member"@ => bytes_tree(member@),
    ]);
    a_cache_request_is_sent_under_its_name(
        "SIsMember"@,
        map![
            "namespace"@ => JsonTree::Text(namespace@),
            "key"@ => JsonTree::Text(key@),
            "member"@ => bytes_tree(member@),
        ],
    );
}

/// What is sent by `cache_hset`.
pub proof fn cache_hset_is_sent_as_it_was_asked(
    c: &mut Client,
    namespace: &str,
    key: &str,
    entries: &[CachePair],
    r: Result<Vec<u8>>,
)
    ensures
        call_ensures(Client::cache_hset, (c, namespace, key, entries), r)
            && entries@.len() == 0 ==> declines(
                old(c)@,
                final(c)@,
                must_not_be_empty("entries"@),
                r,
            ),
        call_ensures(Client::cache_hset, (c, namespace, key, entries), r)
            && entries@.len() > 0 ==> sends(
            old(c)@,
            final(c)@,
            JsonTree::Object(
                map![
                    "Cache"@ => JsonTree::Object(
                        map![
                            "HSet"@ => JsonTree::Object(
                                map![
                                    "namespace"@ => JsonTree::Text(namespace@),
                                    "key"@ => JsonTree::Text(key@),
                                    "entries"@ => pairs_tree(pair_views(entries@)),
                                ],
                            ),
                        ],
                    ),
                ],
            ),
            r,
        ),
{
    assert(key_members(namespace@, key@)
        .insert("entries"@, pairs_tree(pair_views(entries@))) =~= map![
        "namespace"@ => JsonTree::Text(namespace@),
        "key"@ => JsonTree::Text(key@),
        "entries"@ => pairs_tree(pair_views(entries@)),
    ]);
    a_cache_request_is_sent_under_its_name(
        "HSet"@,
        map![
            "namespace"@ => JsonTree::Text(namespace@),
            "key"@ => JsonTree::Text(key@),
            "entries"@ => pairs_tree(pair_views(entries@)),
        ],
    );
}

/// What is sent by `cache_hset_text`.
pub proof fn cache_hset_text_is_sent_as_it_was_asked(
    c: &mut Client,
    namespace: &str,
    key: &str,
    entries: &[(&str, &str)],
    r: Result<Vec<u8>>,
)
    ensures
        call_ensures(Client::cache_hset_text, (c, namespace, key, entries), r)
            && entries@.len() == 0 ==> declines(
                old(c)@,
                final(c)@,
                must_not_be_empty("entries"@),
                r,
            ),
        call_ensures(Client::cache_hset_text, (c, namespace, key, entries), r)
            && entries@.len() > 0 ==> sends(
            old(c)@,
            final(c)@,
            JsonTree::Object(
                map![
                    "Cache"@ => JsonTree::Object(
                        map![
                            "HSet"@ => JsonTree::Object(
                                map![
                                    "namespace"@ => JsonTree::Text(namespace@),
                                    "key"@ => JsonTree::Text(key@),
                                    "entries"@ => pairs_tree(text_pairs(entries@)),
                                ],
                            ),
                        ],
                    ),
                ],
            ),
            r,
        ),
{
    assert(key_members(namespace@, key@)
        .insert("entries"@, pairs_tree(text_pairs(entries@))) =~= map![
        "namespace"@ => JsonTree::Text(namespace@),
        "key"@ => JsonTree::Text(key@),
        "entries"@ => pairs_tree(text_pairs(entries@)),
    ]);
    a_cache_request_is_sent_under_its_name(
        "HSet"@,
        map![
            "namespace"@ => JsonTree::Text(namespace@),
            "key"@ => JsonTree::Text(key@),
            "entries"@ => pairs_tree(text_pairs(entries@)),
        ],
    );
}

/// What is sent by `cache_hget`, `cache_hexists`.
pub proof fn cache_hget_and_its_like_are_sent_as_they_were_asked(
    c: &mut Client,
    namespace: &str,
    key: &str,
    field: &[u8],
    r: Result<Vec<u8>>,
)
    ensures
        call_ensures(Client::cache_hget, (c, namespace, key, field), r) ==> sends(
            old(c)@,
            final(c)@,
            JsonTree::Object(
                map![
                    "Cache"@ => JsonTree::Object(
                        map![
                            "HGet"@ => JsonTree::Object(
                                map![
                                    "namespace"@ => JsonTree::Text(namespace@),
                                    "key"@ => JsonTree::Text(key@),
                                    "field"@ => bytes_tree(field@),
                                ],
                            ),
                        ],
                    ),
                ],
            ),
            r,
        ),
        call_ensures(Client::cache_hexists, (c, namespace, key, field), r) ==> sends(
            old(c)@,
            final(c)@,
            JsonTree::Object(
                map![
                    "Cache"@ => JsonTree::Object(
                        map![
                            "HExists"@ => JsonTree::Object(
                                map![
                                    "namespace"@ => JsonTree::Text(namespace@),
                                    "key"@ => JsonTree::Text(key@),
                                    "field"@ => bytes_tree(field@),
                                ],
                            ),
                        ],
                    ),
                ],
            ),
            r,
        ),
{
    assert(key_members(namespace@, key@).insert("field"@, bytes_tree(field@)) =~= map![
        "namespace"@ => JsonTree::Text(namespace@),
        "key"@ => JsonTree::Text(key@),
        "field"@ => bytes_tree(field@),
    ]);
    a_cache_request_is_sent_under_its_name(
        "HGet"@,
        map![
            "namespace"@ => JsonTree::Text(namespace@),
            "key"@ => JsonTree::Text(key@),
            "field"@ => bytes_tree(field@),
        ],
    );
    a_cache_request_is_sent_under_its_name(
        "HExists"@,
        map![
            "namespace"@ => JsonTree::Text(namespace@),
            "key"@ => JsonTree::Text(key@),
            "field"@ => bytes_tree(field@),
        ],
    );
}

/// What is sent by `cache_hdel`.
pub proof fn cache_hdel_is_sent_as_it_was_asked(
    c: &mut Client,
    namespace: &str,
    key: &str,
    fields: &[Vec<u8>],
    r: Result<Vec<u8>>,
)
    ensures
        call_ensures(Client::cache_hdel, (c, namespace, key, fields), r)
            && fields@.len() == 0 ==> declines(
                old(c)@,
                final(c)@,
                must_not_be_empty("fields"@),
                r,
            ),
        call_ensures(Client::cache_hdel, (c, namespace, key, fields), r)
            && fields@.len() > 0 ==> sends(
            old(c)@,
            final(c)@,
            JsonTree::Object(
                map![
                    "Cache"@ => JsonTree::Object(
                        map![
                            "HDel"@ => JsonTree::Object(
                                map![
                                    "namespace"@ => JsonTree::Text(namespace@),
                                    "key"@ => JsonTree::Text(key@),
                                    "fields"@ => byte_strings_tree(byte_strings(fields@)),
                                ],
                            ),
                        ],
                    ),
                ],
            ),
            r,
        ),
{
    assert(key_members(namespace@, key@)
        .insert("fields"@, byte_strings_tree(byte_strings(fields@))) =~= map![
        "namespace"@ => JsonTree::Text(namespace@),
        "key"@ => JsonTree::Text(key@),
        "fields"@ => byte_strings_tree(byte_strings(fields@)),
    ]);
    a_cache_request_is_sent_under_its_name(
        "HDel"@,
        map![
            "namespace"@ => JsonTree::Text(namespace@),
            "key"@ => JsonTree::Text(key@),
            "fields"@ => byte_strings_tree(byte_strings(fields@)),
        ],
    );
}

/// What is sent by `cache_xadd`.
pub proof fn cache_xadd_is_sent_as_it_was_asked(
    c: &mut Client,
    namespace: &str,
    key: &str,
    fields: &[CachePair],
    id: Option<&str>,
    r: Result<Vec<u8>>,
)
    ensures
        call_ensures(Client::cache_xadd, (c, namespace, key, fields, id), r)
            && fields@.len() == 0 ==> declines(
                old(c)@,
                final(c)@,
                must_not_be_empty("fields"@),
                r,
            ),
        call_ensures(Client::cache_xadd, (c, namespace, key, fields, id), r)
            && fields@.len() > 0 ==> sends(
            old(c)@,
            final(c)@,
            JsonTree::Object(
                map![
                    "Cache"@ => JsonTree::Object(
                        map![
                            "XAdd"@ => JsonTree::Object(
                                map![
                                    "namespace"@ => JsonTree::Text(namespace@),
                                    "key"@ => JsonTree::Text(key@),
                                    "fields"@ => pairs_tree(pair_views(fields@)),
                                    "id"@ => entry_id_tree(id),
                                ],
                            ),
                        ],
                    ),
                ],
            ),
            r,
        ),
{
    assert(key_members(namespace@, key@)
        .insert("fields"@, pairs_tree(pair_views(fields@)))
        .insert("id"@, entry_id_tree(id)) =~= map![
        "namespace"@ => JsonTree::Text(namespace@),
        "key"@ => JsonTree::Text(key@),
        "fields"@ => pairs_tree(pair_views(fields@)),
        "id"@ => entry_id_tree(id),
    ]);
    a_cache_request_is_sent_under_its_name(
        "XAdd"@,
        map![
            "namespace"@ => JsonTree::Text(namespace@),
            "key"@ => JsonTree::Text(key@),
            "fields"@ => pairs_tree(pair_views(fields@)),
            "id"@ => entry_id_tree(id),
        ],
    );
}

/// What is sent by `cache_xadd_text`.
pub proof fn cache_xadd_text_is_sent_as_it_was_asked(
    c: &mut Client,
    namespace: &str,
    key: &str,
    fields: &[(&str, &str)],
    id: Option<&str>,
    r: Result<Vec<u8>>,
)
    ensures
        call_ensures(Client::cache_xadd_text, (c, namespace, key, fields, id), r)
            && fields@.len() == 0 ==> declines(
                old(c)@,
                final(c)@,
                must_not_be_empty("fields"@),
                r,
            ),
        call_ensures(Client::cache_xadd_text, (c, namespace, key, fields, id), r)
            && fields@.len() > 0 ==> sends(
            old(c)@,
            final(c)@,
            JsonTree::Object(
                map![
                    "Cache"@ => JsonTree::Object(
                        map![
                            "XAdd"@ => JsonTree::Object(
                                map![
                                    "namespace"@ => JsonTree::Text(namespace@),
                                    "key"@ => JsonTree::Text(key@),
                                    "fields"@ => pairs_tree(text_pairs(fields@)),
                                    "id"@ => entry_id_tree(id),
                                ],
                            ),
                        ],
                    ),
                ],
            ),
            r,
        ),
{
    assert(key_members(namespace@, key@)
        .insert("fields"@, pairs_tree(text_pairs(fields@)))
        .insert("id"@, entry_id_tree(id)) =~= map![
        "namespace"@ => JsonTree::Text(namespace@),
        "key"@ => JsonTree::Text(key@),
        "fields"@ => pairs_tree(text_pairs(fields@)),
        "id"@ => entry_id_tree(id),
    ]);
    a_cache_request_is_sent_under_its_name(
        "XAdd"@,
        map![
            "namespace"@ => JsonTree::Text(namespace@),
            "key"@ => JsonTree::Text(key@),
            "fields"@ => pairs_tree(text_pairs(fields@)),
            "id"@ => entry_id_tree(id),
        ],
    );
}

/// What is sent by `cache_xrange`.
pub proof fn cache_xrange_is_sent_as_it_was_asked(
    c: &mut Client,
    namespace: &str,
    key: &str,
    start: &str,
    end: &str,
    count: Option<usize>,
    r: Result<Vec<u8>>,
)
    ensures
        call_ensures(Client::cache_xrange, (c, namespace, key, start, end, count), r) ==> sends(
            old(c)@,
            final(c)@,
            JsonTree::Object(
                map![
                    "Cache"@ => JsonTree::Object(
                        map![
                            "XRange"@ => JsonTree::Object(
                                map![
                                    "namespace"@ => JsonTree::Text(namespace@),
                                    "key"@ => JsonTree::Text(key@),
                                    "start"@ => JsonTree::Text(start@),
                                    "end"@ => JsonTree::Text(end@),
                                    "count"@ => size_tree(count),
                                ],
                            ),
                        ],
                    ),
                ],
            ),
            r,
        ),
{
    assert(key_members(namespace@, key@)
        .insert("start"@, JsonTree::Text(start@))
        .insert("end"@, JsonTree::Text(end@))
        .insert("count"@, size_tree(count)) =~= map![
        "namespace"@ => JsonTree::Text(namespace@),
        "key"@ => JsonTree::Text(key@),
        "start"@ => JsonTree::Text(start@),
        "end"@ => JsonTree::Text(end@),
        "count"@ => size_tree(count),
    ]);
    a_cache_request_is_sent_under_its_name(
        "XRange"@,
        map![
            "namespace"@ => JsonTree::Text(namespace@),
            "key"@ => JsonTree::Text(key@),
            "start"@ => JsonTree::Text(start@),
            "end"@ => JsonTree::Text(end@),
            "count"@ => size_tree(count),
        ],
    );
}

/// What is sent by `cache_xread`.
pub proof fn cache_xread_is_sent_as_it_was_asked(
    c: &mut Client,
    namespace: &str,
    key: &str,
    after: &str,
    count: Option<usize>,
    r: Result<Vec<u8>>,
)
    ensures
        call_ensures(Client::cache_xread, (c, namespace, key, after, count), r) ==> sends(
            old(c)@,
            final(c)@,
            JsonTree::Object(
                map![
                    "Cache"@ => JsonTree::Object(
                        map![
                            "XRead"@ => JsonTree::Object(
                                map![
                                    "namespace"@ => JsonTree::Text(namespace@),
                                    "key"@ => JsonTree::Text(key@),
                                    "after"@ => JsonTree::Text(after@),
                                    "count"@ => size_tree(count),
                                ],
                            ),
                        ],
                    ),
                ],
            ),
            r,
        ),
{
    assert(key_members(namespace@, key@)
        .insert("after"@, JsonTree::Text(after@))
        .insert("count"@, size_tree(count)) =~= map![
        "namespace"@ => JsonTree::Text(namespace@),
        "key"@ => JsonTree::Text(key@),
        "after"@ => JsonTree::Text(after@),
        "count"@ => size_tree(count),
    ]);
    a_cache_request_is_sent_under_its_name(
        "XRead"@,
        map![
            "namespace"@ => JsonTree::Text(namespace@),
            "key"@ => JsonTree::Text(key@),
            "after"@ => JsonTree::Text(after@),
            "count"@ => size_tree(count),
        ],
    );
}

/// What is sent by `cache_xdel`.
pub proof fn cache_xdel_is_sent_as_it_was_asked(
    c: &mut Client,
    namespace: &str,
    key: &str,
    ids: &[&str],
    r: Result<Vec<u8>>,
)
    ensures
        call_ensures(Client::cache_xdel, (c, namespace, key, ids), r)
            && ids@.len() == 0 ==> declines(old(c)@, final(c)@, must_not_be_empty("ids"@), r),
        call_ensures(Client::cache_xdel, (c, namespace, key, ids), r) && ids@.len() > 0 ==> sends(
            old(c)@,
            final(c)@,
            JsonTree::Object(
                map![
                    "Cache"@ => JsonTree::Object(
                        map![
                            "XDel"@ => JsonTree::Object(
                                map![
                                    "namespace"@ => JsonTree::Text(namespace@),
                                    "key"@ => JsonTree::Text(key@),
                                    "ids"@ => texts_tree(ids@),
                                ],
                            ),
                        ],
                    ),
                ],
            ),
            r,
        ),
{
    assert(key_members(namespace@, key@).insert("ids"@, texts_tree(ids@)) =~= map![
        "namespace"@ => JsonTree::Text(namespace@),
        "key"@ => JsonTree::Text(key@),
        "ids"@ => texts_tree(ids@),
    ]);
    a_cache_request_is_sent_under_its_name(
        "XDel"@,
        map![
            "namespace"@ => JsonTree::Text(namespace@),
            "key"@ => JsonTree::Text(key@),
            "ids"@ => texts_tree(ids@),
        ],
    );
}

/// What is sent by `cache_xtrim`.
pub proof fn cache_xtrim_is_sent_as_it_was_asked(
    c: &mut Client,
    namespace: &str,
    key: &str,
    max_len: usize,
    r: Result<Vec<u8>>,
)
    ensures
        call_ensures(Client::cache_xtrim, (c, namespace, key, max_len), r) ==> sends(
            old(c)@,
            final(c)@,
            JsonTree::Object(
                map![
                    "Cache"@ => JsonTree::Object(
                        map![
                            "XTrim"@ => JsonTree::Object(
                                map![
                                    "namespace"@ => JsonTree::Text(namespace@),
                                    "key"@ => JsonTree::Text(key@),
                                    "max_len"@ => number_tree(max_len as int),
                                ],
                            ),
                        ],
                    ),
                ],
            ),
            r,
        ),
{
    assert(key_members(namespace@, key@).insert("max_len"@, number_tree(max_len as int)) =~= map![
        "namespace"@ => JsonTree::Text(namespace@),
        "key"@ => JsonTree::Text(key@),
        "max_len"@ => number_tree(max_len as int),
    ]);
    a_cache_request_is_sent_under_its_name(
        "XTrim"@,
        map![
            "namespace"@ => JsonTree::Text(namespace@),
            "key"@ => JsonTree::Text(key@),
            "max_len"@ => number_tree(max_len as int),
        ],
    );
}

/// What the answer is to `cache_get_reply`, `cache_lpop_reply`, `cache_rpop_reply`,
/// `cache_lindex_reply`, `cache_hget_reply`. Without a response the failure stands.
pub proof fn cache_get_and_its_like_are_answered_by_their_responses(
    c: &mut Client,
    reply: Result<Frame>,
    r: Result<Option<Vec<u8>>>,
)
    ensures
        call_ensures(Client::cache_get_reply, (c, reply), r)
            ==> (response_result(reply_view(reply)) matches Ok(x)
                ==> value_view(r) == value_meaning(x, "Get"@)),
        call_ensures(Client::cache_lpop_reply, (c, reply), r)
            ==> (response_result(reply_view(reply)) matches Ok(x)
                ==> value_view(r) == value_meaning(x, "LPop"@)),
        call_ensures(Client::cache_rpop_reply, (c, reply), r)
            ==> (response_result(reply_view(reply)) matches Ok(x)
                ==> value_view(r) == value_meaning(x, "RPop"@)),
        call_ensures(Client::cache_lindex_reply, (c, reply), r)
            ==> (response_result(reply_view(reply)) matches Ok(x)
                ==> value_view(r) == value_meaning(x, "LIndex"@)),
        call_ensures(Client::cache_hget_reply, (c, reply), r)
            ==> (response_result(reply_view(reply)) matches Ok(x)
                ==> value_view(r) == value_meaning(x, "HGet"@)),
        call_ensures(Client::cache_get_reply, (c, reply), r)
            || call_ensures(Client::cache_lpop_reply, (c, reply), r)
            || call_ensures(Client::cache_rpop_reply, (c, reply), r)
            || call_ensures(Client::cache_lindex_reply, (c, reply), r)
            || call_ensures(Client::cache_hget_reply, (c, reply), r)
            ==> (response_result(reply_view(reply)) matches Err(e) ==> r is Err && r->Err_0@ == e),
{
}

/// What the answer is to `cache_set_nx_reply`, `cache_delete_reply`,
/// `cache_exists_reply`, `cache_expire_reply`, `cache_persist_reply`,
/// `cache_sismember_reply`, `cache_hexists_reply`. Without a response the failure
/// stands.
pub proof fn cache_set_nx_and_its_like_are_answered_by_their_responses(
    c: &mut Client,
    reply: Result<Frame>,
    r: Result<bool>,
)
    ensures
        call_ensures(Client::cache_set_nx_reply, (c, reply), r)
            ==> (response_result(reply_view(reply)) matches Ok(x)
                ==> model_view(r) == typed_single::<bool>(x, "SetNx"@, "set"@, false)),
        call_ensures(Client::cache_delete_reply, (c, reply), r)
            ==> (response_result(reply_view(reply)) matches Ok(x)
                ==> model_view(r) == typed_single::<bool>(x, "Delete"@, "deleted"@, false)),
        call_ensures(Client::cache_exists_reply, (c, reply), r)
            ==> (response_result(reply_view(reply)) matches Ok(x)
                ==> model_view(r) == typed_single::<bool>(x, "Exists"@, "exists"@, false)),
        call_ensures(Client::cache_expire_reply, (c, reply), r)
            ==> (response_result(reply_view(reply)) matches Ok(x)
                ==> model_view(r) == typed_single::<bool>(x, "Expire"@, "updated"@, false)),
        call_ensures(Client::cache_persist_reply, (c, reply), r)
            ==> (response_result(reply_view(reply)) matches Ok(x)
                ==> model_view(r) == typed_single::<bool>(x, "Persist"@, "persisted"@, false)),
        call_ensures(Client::cache_sismember_reply, (c, reply), r)
            ==> (response_result(reply_view(reply)) matches Ok(x)
                ==> model_view(r) == typed_single::<bool>(x, "SIsMember"@, "is_member"@, false)),
        call_ensures(Client::cache_hexists_reply, (c, reply), r)
            ==> (response_result(reply_view(reply)) matches Ok(x)
                ==> model_view(r) == typed_single::<bool>(x, "HExists"@, "exists"@, false)),
        call_ensures(Client::cache_set_nx_reply, (c, reply), r)
            || call_ensures(Client::cache_delete_reply, (c, reply), r)
            || call_ensures(Client::cache_exists_reply, (c, reply), r)
            || call_ensures(Client::cache_expire_reply, (c, reply), r)
            || call_ensures(Client::cache_persist_reply, (c, reply), r)
            || call_ensures(Client::cache_sismember_reply, (c, reply), r)
            || call_ensures(Client::cache_hexists_reply, (c, reply), r)
            ==> (response_result(reply_view(reply)) matches Err(e) ==> r is Err && r->Err_0@ == e),
{
}

/// What the answer is to `cache_ttl_reply`. Without a response the failure stands.
pub proof fn cache_ttl_is_answered_by_its_response(
    c: &mut Client,
    reply: Result<Frame>,
    r: Result<Option<Duration>>,
)
    ensures
        call_ensures(Client::cache_ttl_reply, (c, reply), r)
            ==> (response_result(reply_view(reply)) matches Ok(x)
                ==> ttl_view(r) == ttl_meaning(x)),
        call_ensures(Client::cache_ttl_reply, (c, reply), r)
            ==> (response_result(reply_view(reply)) matches Err(e) ==> r is Err && r->Err_0@ == e),
{
}

/// What the answer is to `cache_incr_reply`, `cache_clear_namespace_reply`,
/// `cache_lpush_reply`, `cache_rpush_reply`, `cache_llen_reply`, `cache_sadd_reply`,
/// `cache_srem_reply`, `cache_scard_reply`, `cache_hset_reply`, `cache_hdel_reply`,
/// `cache_hlen_reply`, `cache_xlen_reply`, `cache_xdel_reply`, `cache_xtrim_reply`.
/// Without a response the failure stands.
pub proof fn cache_incr_and_its_like_are_answered_by_their_responses(
    c: &mut Client,
    reply: Result<Frame>,
    r: Result<i64>,
)
    ensures
        call_ensures(Client::cache_incr_reply, (c, reply), r)
            ==> (response_result(reply_view(reply)) matches Ok(x)
                ==> model_view(r) == typed_single::<i64>(x, "Incr"@, "value"@, 0)),
        call_ensures(Client::cache_clear_namespace_reply, (c, reply), r)
            ==> (response_result(reply_view(reply)) matches Ok(x)
                ==> model_view(r) == typed_single::<i64>(x, "ClearNamespace"@, "cleared"@, 0)),
        call_ensures(Client::cache_lpush_reply, (c, reply), r)
            ==> (response_result(reply_view(reply)) matches Ok(x)
                ==> model_view(r) == typed_single::<i64>(x, "LPush"@, "length"@, 0)),
        call_ensures(Client::cache_rpush_reply, (c, reply), r)
            ==> (response_result(reply_view(reply)) matches Ok(x)
                ==> model_view(r) == typed_single::<i64>(x, "RPush"@, "length"@, 0)),
        call_ensures(Client::cache_llen_reply, (c, reply), r)
            ==> (response_result(reply_view(reply)) matches Ok(x)
                ==> model_view(r) == typed_single::<i64>(x, "LLen"@, "length"@, 0)),
        call_ensures(Client::cache_sadd_reply, (c, reply), r)
            ==> (response_result(reply_view(reply)) matches Ok(x)
                ==> model_view(r) == typed_single::<i64>(x, "SAdd"@, "added"@, 0)),
        call_ensures(Client::cache_srem_reply, (c, reply), r)
            ==> (response_result(reply_view(reply)) matches Ok(x)
                ==> model_view(r) == typed_single::<i64>(x, "SRem"@, "removed"@, 0)),
        call_ensures(Client::cache_scard_reply, (c, reply), r)
            ==> (response_result(reply_view(reply)) matches Ok(x)
                ==> model_view(r) == typed_single::<i64>(x, "SCard"@, "cardinality"@, 0)),
        call_ensures(Client::cache_hset_reply, (c, reply), r)
            ==> (response_result(reply_view(reply)) matches Ok(x)
                ==> model_view(r) == typed_single::<i64>(x, "HSet"@, "created"@, 0)),
        call_ensures(Client::cache_hdel_reply, (c, reply), r)
            ==> (response_result(reply_view(reply)) matches Ok(x)
                ==> model_view(r) == typed_single::<i64>(x, "HDel"@, "deleted"@, 0)),
        call_ensures(Client::cache_hlen_reply, (c, reply), r)
            ==> (response_result(reply_view(reply)) matches Ok(x)
                ==> model_view(r) == typed_single::<i64>(x, "HLen"@, "length"@, 0)),
        call_ensures(Client::cache_xlen_reply, (c, reply), r)
            ==> (response_result(reply_view(reply)) matches Ok(x)
                ==> model_view(r) == typed_single::<i64>(x, "XLen"@, "length"@, 0)),
        call_ensures(Client::cache_xdel_reply, (c, reply), r)
            ==> (response_result(reply_view(reply)) matches Ok(x)
                ==> model_view(r) == typed_single::<i64>(x, "XDel"@, "deleted"@, 0)),
        call_ensures(Client::cache_xtrim_reply, (c, reply), r)
            ==> (response_result(reply_view(reply)) matches Ok(x)
                ==> model_view(r) == typed_single::<i64>(x, "XTrim"@, "trimmed"@, 0)),
        call_ensures(Client::cache_incr_reply, (c, reply), r)
            || call_ensures(Client::cache_clear_namespace_reply, (c, reply), r)
            || call_ensures(Client::cache_lpush_reply, (c, reply), r)
            || call_ensures(Client::cache_rpush_reply, (c, reply), r)
            || call_ensures(Client::cache_llen_reply, (c, reply), r)
            || call_ensures(Client::cache_sadd_reply, (c, reply), r)
            || call_ensures(Client::cache_srem_reply, (c, reply), r)
            || call_ensures(Client::cache_scard_reply, (c, reply), r)
            || call_ensures(Client::cache_hset_reply, (c, reply), r)
            || call_ensures(Client::cache_hdel_reply, (c, reply), r)
            || call_ensures(Client::cache_hlen_reply, (c, reply), r)
            || call_ensures(Client::cache_xlen_reply, (c, reply), r)
            || call_ensures(Client::cache_xdel_reply, (c, reply), r)
            || call_ensures(Client::cache_xtrim_reply, (c, reply), r)
            ==> (response_result(reply_view(reply)) matches Err(e) ==> r is Err && r->Err_0@ == e),
{
}

/// What the answer is to `cache_keys_reply`. Without a response the failure stands.
pub proof fn cache_keys_is_answered_by_its_response(
    c: &mut Client,
    reply: Result<Frame>,
    r: Result<Vec<CacheKeyInfo>>,
)
    ensures
        call_ensures(Client::cache_keys_reply, (c, reply), r)
            ==> (response_result(reply_view(reply)) matches Ok(x)
                ==> model_view(r) == typed_single::<Vec<CacheKeyInfo>>(
                x,
                "Keys"@,
                "keys"@,
                Seq::empty(),
            )),
        call_ensures(Client::cache_keys_reply, (c, reply), r)
            ==> (response_result(reply_view(reply)) matches Err(e) ==> r is Err && r->Err_0@ == e),
{
}

/// What the answer is to `cache_lrange_reply`, `cache_smembers_reply`. Without a
/// response the failure stands.
pub proof fn cache_lrange_and_its_like_are_answered_by_their_responses(
    c: &mut Client,
    reply: Result<Frame>,
    r: Result<Vec<Vec<u8>>>,
)
    ensures
        call_ensures(Client::cache_lrange_reply, (c, reply), r)
            ==> (response_result(reply_view(reply)) matches Ok(x)
                ==> values_view(r) == values_meaning(x, "LRange"@, "values"@)),
        call_ensures(Client::cache_smembers_reply, (c, reply), r)
            ==> (response_result(reply_view(reply)) matches Ok(x)
                ==> values_view(r) == values_meaning(x, "SMembers"@, "members"@)),
        call_ensures(Client::cache_lrange_reply, (c, reply), r)
            || call_ensures(Client::cache_smembers_reply, (c, reply), r)
            ==> (response_result(reply_view(reply)) matches Err(e) ==> r is Err && r->Err_0@ == e),
{
}

/// What the answer is to `cache_hgetall_reply`. Without a response the failure stands.
pub proof fn cache_hgetall_is_answered_by_its_response(
    c: &mut Client,
    reply: Result<Frame>,
    r: Result<Vec<CachePair>>,
)
    ensures
        call_ensures(Client::cache_hgetall_reply, (c, reply), r)
            ==> (response_result(reply_view(reply)) matches Ok(x)
                ==> pairs_view(r) == hash_meaning(x)),
        call_ensures(Client::cache_hgetall_reply, (c, reply), r)
            ==> (response_result(reply_view(reply)) matches Err(e) ==> r is Err && r->Err_0@ == e),
{
}

/// What the answer is to `cache_xadd_reply`. Without a response the failure stands.
pub proof fn cache_xadd_is_answered_by_its_response(
    c: &mut Client,
    reply: Result<Frame>,
    r: Result<String>,
)
    ensures
        call_ensures(Client::cache_xadd_reply, (c, reply), r)
            ==> (response_result(reply_view(reply)) matches Ok(x)
                ==> model_view(r) == typed_single::<String>(x, "XAdd"@, "id"@, Seq::empty())),
        call_ensures(Client::cache_xadd_reply, (c, reply), r)
            ==> (response_result(reply_view(reply)) matches Err(e) ==> r is Err && r->Err_0@ == e),
{
}

/// What the answer is to `cache_xrange_reply`, `cache_xread_reply`. Without a response
/// the failure stands.
pub proof fn cache_xrange_and_its_like_are_answered_by_their_responses(
    c: &mut Client,
    reply: Result<Frame>,
    r: Result<Vec<StreamEntry>>,
)
    ensures
        call_ensures(Client::cache_xrange_reply, (c, reply), r)
            ==> (response_result(reply_view(reply)) matches Ok(x)
                ==> entries_view(r) == stream_meaning(x, "XRange"@)),
        call_ensures(Client::cache_xread_reply, (c, reply), r)
            ==> (response_result(reply_view(reply)) matches Ok(x)
                ==> entries_view(r) == stream_meaning(x, "XRead"@)),
        call_ensures(Client::cache_xrange_reply, (c, reply), r)
            || call_ensures(Client::cache_xread_reply, (c, reply), r)
            ==> (response_result(reply_view(reply)) matches Err(e) ==> r is Err && r->Err_0@ == e),
{
}

/// What pairs are made of, and what they tell as text.
pub proof fn pairs_are_made_of_fields_and_values(
    field: &[u8],
    value: &[u8],
    p: CachePair,
    entries: &[(&str, &str)],
    pairs: Vec<CachePair>,
    i: int,
    s: Option<&str>,
    j: Json,
)
    ensures
        call_ensures(CachePair::new, (field, value), p) ==> p.field@ == field@ && p.value@ == value@,
        call_ensures(CachePair::from_text, (entries,), pairs) ==> pairs@.len() == entries@.len(),
        call_ensures(CachePair::from_text, (entries,), pairs) && 0 <= i < entries@.len()
            ==> pairs@[i].field@ == encode_utf8(entries@[i].0@) && pairs@[i].value@ == encode_utf8(
            entries@[i].1@,
        ),
        call_ensures(CachePair::field_text, (&p,), s) ==> (s is Some <==> valid_utf8(p.field@)),
        call_ensures(CachePair::field_text, (&p,), s) ==> (s matches Some(t) ==> t@ == decode_utf8(
            p.field@,
        )),
        call_ensures(CachePair::value_text, (&p,), s) ==> (s is Some <==> valid_utf8(p.value@)),
        call_ensures(CachePair::value_text, (&p,), s) ==> (s matches Some(t) ==> t@ == decode_utf8(
            p.value@,
        )),
        call_ensures(CachePair::to_wire, (&p,), j) ==> j@ == JsonTree::Array(
            seq![bytes_tree(p.field@), bytes_tree(p.value@)],
        ),
{
    if call_ensures(CachePair::new, (field, value), p) {
        assert(p@.field == field@ && p@.value == value@);
    }
    if call_ensures(CachePair::from_text, (entries,), pairs) {
        assert(pair_views(pairs@).len() == text_pairs(entries@).len());
        if 0 <= i < entries@.len() {
            assert(pair_views(pairs@)[i] == text_pairs(entries@)[i]);
            assert(pairs@[i]@.field == pairs@[i].field@);
        }
    }
}

} // verus!
