//! Documents: collections, filters, updates, indexes and aggregation.
//!
//! Each operation is a method that returns the frame to write, and a `_reply`
//! that takes the answer. Where an operation has none, any response is the
//! answer: see [`Client::reply`].

use crate::client::Client;
#[allow(unused_imports)]
use crate::client::{answered, declines, model_view, reply_view, response_result, sends};
use crate::decode;
use crate::decode::{Decode, WRONG_SHAPE};
use crate::error::{Error, ErrorKind, Result};
#[allow(unused_imports)]
use crate::error::{plain, ErrorView};
use crate::frame::Frame;
use crate::json::{wire_list, Json, JsonTree, Object, OnWire};
#[allow(unused_imports)]
use crate::json::{no_members, number_tree, texts_tree, trees, wire_views, wrapped};
use crate::response::Response;
#[allow(unused_imports)]
use crate::response::{expected, typed, typed_single, ResponseView};
use vstd::prelude::*;

verus! {

/// One JSON document as the server stores it. Every stored document carries an
/// `_id`, whether the caller chose it or the server did.
pub type Document = Object;

/// A query predicate.
///
/// Field paths use dot notation (`"address.city"`) into nested objects. A
/// document that lacks the path never matches — including for
/// [`DocumentFilter::ne`].
///
/// This is not MongoDB's query language: there is no `or`, no `not` and no
/// regular expression, because the server implements none of them.
#[derive(Debug, PartialEq)]
pub struct DocumentFilter(Json);

/// The predicate that compares a field with a value.
pub open spec fn field_filter_tree(
    variant: Seq<char>,
    field: Seq<char>,
    value: JsonTree,
) -> JsonTree {
    wrapped(
        variant,
        JsonTree::Object(no_members().insert("field"@, JsonTree::Text(field)).insert("value"@, value)),
    )
}

fn field_filter(variant: &str, field: &str, value: Json) -> (f: DocumentFilter)
    ensures
        f@ == field_filter_tree(variant@, field@, value@),
{
    DocumentFilter(
        Json::wrap(
            variant,
            Json::Object(Object::new().with("field", Json::text(field)).with("value", value)),
        ),
    )
}

impl DocumentFilter {
    /// The predicate on the wire.
    pub closed spec fn spec_wire(&self) -> JsonTree {
        self.0@
    }

    /// The predicate on the wire.
    pub fn wire(&self) -> (j: Json)
        ensures
            j@ == self@,
    {
        self.0.clone()
    }
}

impl View for DocumentFilter {
    type V = JsonTree;

    open spec fn view(&self) -> JsonTree {
        self.spec_wire()
    }
}

impl Clone for DocumentFilter {
    fn clone(&self) -> (r: DocumentFilter)
        ensures
            r@ == self@,
    {
        DocumentFilter(self.0.clone())
    }
}

impl OnWire for DocumentFilter {
    fn to_json(&self) -> (j: Json) {
        self.wire()
    }
}

impl DocumentFilter {
    /// Match every document. Say this on purpose: there is no filter that means
    /// it by accident.
    pub fn all() -> (f: DocumentFilter)
        ensures
            f@ == JsonTree::Text("All"@),
    {
        DocumentFilter(Json::text("All"))
    }

    /// The field equals this value.
    pub fn eq(field: &str, value: Json) -> (f: DocumentFilter)
        ensures
            f@ == field_filter_tree("Eq"@, field@, value@),
    {
        field_filter("Eq", field, value)
    }

    /// The field exists and does not equal this value.
    pub fn ne(field: &str, value: Json) -> (f: DocumentFilter)
        ensures
            f@ == field_filter_tree("Ne"@, field@, value@),
    {
        field_filter("Ne", field, value)
    }

    /// The field is greater than this value.
    pub fn gt(field: &str, value: Json) -> (f: DocumentFilter)
        ensures
            f@ == field_filter_tree("Gt"@, field@, value@),
    {
        field_filter("Gt", field, value)
    }

    /// The field is greater than or equal to this value.
    pub fn gte(field: &str, value: Json) -> (f: DocumentFilter)
        ensures
            f@ == field_filter_tree("Gte"@, field@, value@),
    {
        field_filter("Gte", field, value)
    }

    /// The field is less than this value.
    pub fn lt(field: &str, value: Json) -> (f: DocumentFilter)
        ensures
            f@ == field_filter_tree("Lt"@, field@, value@),
    {
        field_filter("Lt", field, value)
    }

    /// The field is less than or equal to this value.
    pub fn lte(field: &str, value: Json) -> (f: DocumentFilter)
        ensures
            f@ == field_filter_tree("Lte"@, field@, value@),
    {
        field_filter("Lte", field, value)
    }

    /// A string field holds this substring, or an array field holds this
    /// element.
    pub fn contains(field: &str, value: Json) -> (f: DocumentFilter)
        ensures
            f@ == field_filter_tree("Contains"@, field@, value@),
    {
        field_filter("Contains", field, value)
    }

    /// The field equals one of these values.
    pub fn is_in(field: &str, values: Vec<Json>) -> (f: DocumentFilter)
        ensures
            f@ == wrapped(
                "In"@,
                JsonTree::Object(
                    no_members().insert("field"@, JsonTree::Text(field@)).insert(
                        "values"@,
                        JsonTree::Array(trees(values@)),
                    ),
                ),
            ),
    {
        DocumentFilter(
            Json::wrap(
                "In",
                Json::Object(
                    Object::new().with("field", Json::text(field)).with(
                        "values",
                        Json::array(values),
                    ),
                ),
            ),
        )
    }

    /// Every one of these filters holds. With none given it matches
    /// everything, which is what the server does with an empty `And`.
    pub fn and(filters: &[DocumentFilter]) -> (f: DocumentFilter)
        ensures
            f@ == wrapped("And"@, JsonTree::Array(wire_views(filters@))),
    {
        DocumentFilter(Json::wrap("And", wire_list(filters)))
    }
}

/// Field changes applied to one document: `set` overwrites the value at a dot
/// path, `inc` adds a number to it. Every `set` happens before every `inc`.
///
/// `inc` never converts: incrementing a field that holds a string, a boolean,
/// null, an array or an object is an error on the server. A missing field
/// increments from zero, and a negative delta is how you subtract.
#[derive(Debug, PartialEq)]
pub struct DocumentUpdate {
    /// Dot path to its new value.
    pub set: Object,
    /// Dot path to a numeric delta.
    pub inc: Object,
}

/// What a [`DocumentUpdate`] holds.
#[verifier::ext_equal]
pub struct DocumentUpdateView {
    pub set: Map<Seq<char>, JsonTree>,
    pub inc: Map<Seq<char>, JsonTree>,
}

impl View for DocumentUpdate {
    type V = DocumentUpdateView;

    open spec fn view(&self) -> DocumentUpdateView {
        DocumentUpdateView { set: self.set@, inc: self.inc@ }
    }
}

/// An update that changes nothing.
pub open spec fn changes_nothing(u: DocumentUpdateView) -> bool {
    u.set == no_members() && u.inc == no_members()
}

/// An update on the wire: a half without changes is left out.
pub open spec fn update_tree(u: DocumentUpdateView) -> JsonTree {
    let set = if u.set == no_members() {
        no_members()
    } else {
        no_members().insert("set"@, JsonTree::Object(u.set))
    };
    JsonTree::Object(
        if u.inc == no_members() {
            set
        } else {
            set.insert("inc"@, JsonTree::Object(u.inc))
        },
    )
}

/// The refusal of an update that changes nothing.
pub open spec fn empty_update() -> ErrorView {
    plain(ErrorKind::InvalidArgument, "an update must set or increment at least one field"@)
}

impl DocumentUpdate {
    /// An update that changes nothing yet.
    pub fn new() -> (u: DocumentUpdate)
        ensures
            u@ == (DocumentUpdateView { set: no_members(), inc: no_members() }),
    {
        DocumentUpdate { set: Object::new(), inc: Object::new() }
    }

    /// Overwrite the value at a dot path.
    pub fn set(self, path: &str, value: Json) -> (u: DocumentUpdate)
        ensures
            u@ == (DocumentUpdateView { set: self@.set.insert(path@, value@), ..self@ }),
    {
        DocumentUpdate { set: self.set.with(path, value), inc: self.inc }
    }

    /// Add a number to the value at a dot path.
    pub fn inc(self, path: &str, delta: Json) -> (u: DocumentUpdate)
        ensures
            u@ == (DocumentUpdateView { inc: self@.inc.insert(path@, delta@), ..self@ }),
    {
        DocumentUpdate { set: self.set, inc: self.inc.with(path, delta) }
    }

    /// Whether the update changes nothing.
    pub fn is_empty(&self) -> (b: bool)
        ensures
            b == changes_nothing(self@),
    {
        self.set.is_empty() && self.inc.is_empty()
    }

    /// The update on the wire.
    pub fn wire(&self) -> (j: Json)
        ensures
            j@ == update_tree(self@),
    {
        let mut out = Object::new();
        if !self.set.is_empty() {
            out = out.with("set", Json::Object(self.set.clone()));
        }
        if !self.inc.is_empty() {
            out = out.with("inc", Json::Object(self.inc.clone()));
        }
        Json::Object(out)
    }
}

impl Default for DocumentUpdate {
    fn default() -> (u: DocumentUpdate)
        ensures
            u@ == (DocumentUpdateView { set: no_members(), inc: no_members() }),
    {
        DocumentUpdate::new()
    }
}

impl Clone for DocumentUpdate {
    fn clone(&self) -> (u: DocumentUpdate)
        ensures
            u@ == self@,
    {
        DocumentUpdate { set: self.set.clone(), inc: self.inc.clone() }
    }
}

/// An update is sent without the half it does not use.
pub proof fn an_update_omits_the_half_it_does_not_use(u: DocumentUpdateView)
    ensures
        crate::json::member(update_tree(u), "set"@) is Some <==> u.set != no_members(),
        crate::json::member(update_tree(u), "inc"@) is Some <==> u.inc != no_members(),
{
    reveal_strlit("set");
    reveal_strlit("inc");
    assert("set"@[0] != "inc"@[0]);
}

/// How [`AggregateStage::group`] derives a group key.
#[derive(Debug, PartialEq)]
pub struct GroupKey(Json);

impl GroupKey {
    /// The group key on the wire.
    pub closed spec fn spec_wire(&self) -> JsonTree {
        self.0@
    }

    /// The group key on the wire.
    pub fn wire(&self) -> (j: Json)
        ensures
            j@ == self@,
    {
        self.0.clone()
    }
}

impl View for GroupKey {
    type V = JsonTree;

    open spec fn view(&self) -> JsonTree {
        self.spec_wire()
    }
}

impl Clone for GroupKey {
    fn clone(&self) -> (r: GroupKey)
        ensures
            r@ == self@,
    {
        GroupKey(self.0.clone())
    }
}

impl GroupKey {
    /// Group by the value at a dot path. A document that lacks the path groups
    /// under null rather than being dropped.
    pub fn field(path: &str) -> (k: GroupKey)
        ensures
            k@ == wrapped("Field"@, JsonTree::Text(path@)),
    {
        GroupKey(Json::wrap("Field", Json::text(path)))
    }

    /// Put the whole collection in one group under this constant — how a
    /// collection-wide total is expressed.
    pub fn constant(value: Json) -> (k: GroupKey)
        ensures
            k@ == wrapped("Constant"@, value@),
    {
        GroupKey(Json::wrap("Constant", value))
    }
}

/// One reduction inside a group stage.
#[derive(Debug, PartialEq)]
pub struct AccumulatorOp(Json);

impl AccumulatorOp {
    /// The reduction on the wire.
    pub closed spec fn spec_wire(&self) -> JsonTree {
        self.0@
    }

    /// The reduction on the wire.
    pub fn wire(&self) -> (j: Json)
        ensures
            j@ == self@,
    {
        self.0.clone()
    }
}

impl View for AccumulatorOp {
    type V = JsonTree;

    open spec fn view(&self) -> JsonTree {
        self.spec_wire()
    }
}

impl Clone for AccumulatorOp {
    fn clone(&self) -> (r: AccumulatorOp)
        ensures
            r@ == self@,
    {
        AccumulatorOp(self.0.clone())
    }
}

impl AccumulatorOp {
    /// Total the numeric values at a field. Documents where it is missing or
    /// not a number are ignored, so an absent field never contributes a zero.
    pub fn sum(field: &str) -> (a: AccumulatorOp)
        ensures
            a@ == wrapped("Sum"@, JsonTree::Text(field@)),
    {
        AccumulatorOp(Json::wrap("Sum", Json::text(field)))
    }

    /// Average the numeric values at a field.
    pub fn avg(field: &str) -> (a: AccumulatorOp)
        ensures
            a@ == wrapped("Avg"@, JsonTree::Text(field@)),
    {
        AccumulatorOp(Json::wrap("Avg", Json::text(field)))
    }

    /// The smallest value at a field.
    pub fn min(field: &str) -> (a: AccumulatorOp)
        ensures
            a@ == wrapped("Min"@, JsonTree::Text(field@)),
    {
        AccumulatorOp(Json::wrap("Min", Json::text(field)))
    }

    /// The largest value at a field.
    pub fn max(field: &str) -> (a: AccumulatorOp)
        ensures
            a@ == wrapped("Max"@, JsonTree::Text(field@)),
    {
        AccumulatorOp(Json::wrap("Max", Json::text(field)))
    }

    /// Count documents. It takes no field because it counts documents, not
    /// values.
    pub fn count() -> (a: AccumulatorOp)
        ensures
            a@ == JsonTree::Text("Count"@),
    {
        AccumulatorOp(Json::text("Count"))
    }
}

/// An accumulator and the field it writes into the grouped document.
///
/// `output` must not be `_id` — that holds the group key — and must not repeat
/// within one group stage.
#[derive(Debug, PartialEq)]
pub struct GroupAccumulator {
    /// The field the result is written to.
    pub output: String,
    /// The reduction to apply.
    pub op: AccumulatorOp,
}

impl View for GroupAccumulator {
    type V = JsonTree;

    open spec fn view(&self) -> JsonTree {
        JsonTree::Object(
            no_members().insert("output"@, JsonTree::Text(self.output@)).insert("op"@, self.op@),
        )
    }
}

impl GroupAccumulator {
    /// An accumulator writing into `output`.
    pub fn new(output: &str, op: AccumulatorOp) -> (a: GroupAccumulator)
        ensures
            a.output@ == output@,
            a.op == op,
    {
        GroupAccumulator { output: output.to_owned(), op }
    }

    /// The accumulator on the wire.
    pub fn wire(&self) -> (j: Json)
        ensures
            j@ == self@,
    {
        Json::Object(
            Object::new().with("output", Json::text(self.output.as_str())).with(
                "op",
                self.op.wire(),
            ),
        )
    }
}

impl Clone for GroupAccumulator {
    fn clone(&self) -> (r: GroupAccumulator)
        ensures
            r@ == self@,
    {
        GroupAccumulator { output: self.output.clone(), op: self.op.clone() }
    }
}

impl OnWire for GroupAccumulator {
    fn to_json(&self) -> (j: Json) {
        self.wire()
    }
}

/// One sort key. After a group stage the addressable fields are `_id` and the
/// accumulator outputs, not the original document's fields.
#[derive(Debug, PartialEq)]
pub struct SortKey {
    /// The field to sort on.
    pub field: String,
    /// Largest first when true.
    pub descending: bool,
}

impl View for SortKey {
    type V = JsonTree;

    open spec fn view(&self) -> JsonTree {
        JsonTree::Object(
            no_members().insert("field"@, JsonTree::Text(self.field@)).insert(
                "descending"@,
                JsonTree::Bool(self.descending),
            ),
        )
    }
}

impl SortKey {
    /// Smallest first.
    pub fn ascending(field: &str) -> (k: SortKey)
        ensures
            k.field@ == field@,
            !k.descending,
    {
        SortKey { field: field.to_owned(), descending: false }
    }

    /// Largest first.
    pub fn descending(field: &str) -> (k: SortKey)
        ensures
            k.field@ == field@,
            k.descending,
    {
        SortKey { field: field.to_owned(), descending: true }
    }

    /// The sort key on the wire.
    pub fn wire(&self) -> (j: Json)
        ensures
            j@ == self@,
    {
        Json::Object(
            Object::new().with("field", Json::text(self.field.as_str())).with(
                "descending",
                Json::Bool(self.descending),
            ),
        )
    }
}

impl Clone for SortKey {
    fn clone(&self) -> (r: SortKey)
        ensures
            r@ == self@,
    {
        SortKey { field: self.field.clone(), descending: self.descending }
    }
}

impl OnWire for SortKey {
    fn to_json(&self) -> (j: Json) {
        self.wire()
    }
}

/// One stage of an aggregation pipeline.
///
/// Stages apply in the order given, and the order is meaning rather than
/// style: a match before a group filters documents, after it filters groups.
#[derive(Debug, PartialEq)]
pub struct AggregateStage(Json);

impl AggregateStage {
    /// The stage on the wire.
    pub closed spec fn spec_wire(&self) -> JsonTree {
        self.0@
    }

    /// The stage on the wire.
    pub fn wire(&self) -> (j: Json)
        ensures
            j@ == self@,
    {
        self.0.clone()
    }
}

impl View for AggregateStage {
    type V = JsonTree;

    open spec fn view(&self) -> JsonTree {
        self.spec_wire()
    }
}

impl Clone for AggregateStage {
    fn clone(&self) -> (r: AggregateStage)
        ensures
            r@ == self@,
    {
        AggregateStage(self.0.clone())
    }
}

impl OnWire for AggregateStage {
    fn to_json(&self) -> (j: Json) {
        self.wire()
    }
}

impl AggregateStage {
    /// Filter with the same matcher [`Client::document_find`] uses.
    pub fn filter(filter: &DocumentFilter) -> (s: AggregateStage)
        ensures
            s@ == wrapped("Match"@, filter@),
    {
        AggregateStage(Json::wrap("Match", filter.wire()))
    }

    /// Group by a key and apply accumulators.
    pub fn group(by: &GroupKey, accumulators: &[GroupAccumulator]) -> (s: AggregateStage)
        ensures
            s@ == wrapped(
                "Group"@,
                JsonTree::Object(
                    no_members().insert("by"@, by@).insert(
                        "accumulators"@,
                        JsonTree::Array(wire_views(accumulators@)),
                    ),
                ),
            ),
    {
        AggregateStage(
            Json::wrap(
                "Group",
                Json::Object(
                    Object::new().with("by", by.wire()).with(
                        "accumulators",
                        wire_list(accumulators),
                    ),
                ),
            ),
        )
    }

    /// Order the documents.
    pub fn sort(keys: &[SortKey]) -> (s: AggregateStage)
        ensures
            s@ == wrapped("Sort"@, JsonTree::Array(wire_views(keys@))),
    {
        AggregateStage(Json::wrap("Sort", wire_list(keys)))
    }

    /// Drop the first `n` documents.
    pub fn skip(n: usize) -> (s: AggregateStage)
        ensures
            s@ == wrapped("Skip"@, number_tree(n as int)),
    {
        AggregateStage(Json::wrap("Skip", Json::unsigned(n as u64)))
    }

    /// Keep at most `n` documents.
    pub fn limit(n: usize) -> (s: AggregateStage)
        ensures
            s@ == wrapped("Limit"@, number_tree(n as int)),
    {
        AggregateStage(Json::wrap("Limit", Json::unsigned(n as u64)))
    }

    /// Keep (`kept` true) or drop (`kept` false) these top-level fields.
    /// Nested projection is refused by the server.
    pub fn project(fields: &[&str], kept: bool) -> (s: AggregateStage)
        ensures
            s@ == wrapped(
                "Project"@,
                JsonTree::Object(
                    no_members().insert("fields"@, texts_tree(fields@)).insert(
                        "include"@,
                        JsonTree::Bool(kept),
                    ),
                ),
            ),
    {
        AggregateStage(
            Json::wrap(
                "Project",
                Json::Object(
                    Object::new().with("fields", Json::texts(fields)).with(
                        "include",
                        Json::Bool(kept),
                    ),
                ),
            ),
        )
    }

    /// Replace the documents with one that holds the input count under `field`.
    pub fn count(field: &str) -> (s: AggregateStage)
        ensures
            s@ == wrapped("Count"@, wrapped("field"@, JsonTree::Text(field@))),
    {
        AggregateStage(Json::wrap("Count", Json::wrap("field", Json::text(field))))
    }
}

/// One secondary index on a collection.
#[derive(Debug, Clone, PartialEq, Eq)]
pub struct DocumentIndex {
    /// The index's name.
    pub name: String,
    /// The field it indexes.
    pub field: String,
    /// Whether it enforces uniqueness.
    pub unique: bool,
}

/// What a [`DocumentIndex`] holds.
#[verifier::ext_equal]
pub struct DocumentIndexView {
    pub name: Seq<char>,
    pub field: Seq<char>,
    pub unique: bool,
}

impl Decode for DocumentIndex {
    type V = DocumentIndexView;

    open spec fn decoded(t: JsonTree) -> Option<DocumentIndexView> {
        let name = decode::required::<String>(t, 0, "index_name"@);
        let field = decode::or_absent::<String>(t, 1, "field"@, Seq::empty());
        let unique = decode::or_absent::<bool>(t, 2, "unique"@, false);
        if decode::is_record(t, 3) && name is Some && field is Some && unique is Some {
            Some(
                DocumentIndexView {
                    name: name->0,
                    field: field->0,
                    unique: unique->0,
                },
            )
        } else {
            None
        }
    }

    open spec fn model(&self) -> DocumentIndexView {
        DocumentIndexView {
            name: self.name.model(),
            field: self.field.model(),
            unique: self.unique.model(),
        }
    }

    fn decode(j: &Json) -> (r: Option<DocumentIndex>) {
        if !decode::check_record(j, 3) {
            return None;
        }
        let name = decode::take::<String>(j, 0, "index_name")?;
        let field = decode::take_or::<String>(j, 1, "field", String::new())?;
        let unique = decode::take_or::<bool>(j, 2, "unique", false)?;
        Some(DocumentIndex { name, field, unique })
    }
}

/// What [`Client::document_analyze`] measured.
#[derive(Debug, Clone, PartialEq, Eq)]
pub struct DocumentStats {
    /// The collection that was analyzed.
    pub collection: String,
    /// How many documents it holds.
    pub document_count: i64,
    /// How many fields carry a secondary index.
    pub indexed_fields: i64,
}

/// What a [`DocumentStats`] holds.
#[verifier::ext_equal]
pub struct DocumentStatsView {
    pub collection: Seq<char>,
    pub document_count: i64,
    pub indexed_fields: i64,
}

impl Decode for DocumentStats {
    type V = DocumentStatsView;

    open spec fn decoded(t: JsonTree) -> Option<DocumentStatsView> {
        let collection = decode::required::<String>(t, 0, "analyzed"@);
        let document_count = decode::or_absent::<i64>(t, 1, "document_count"@, 0);
        let indexed_fields = decode::or_absent::<i64>(t, 2, "indexed_fields"@, 0);
        if decode::is_record(t, 3) && collection is Some && document_count is Some
            && indexed_fields is Some {
            Some(
                DocumentStatsView {
                    collection: collection->0,
                    document_count: document_count->0,
                    indexed_fields: indexed_fields->0,
                },
            )
        } else {
            None
        }
    }

    open spec fn model(&self) -> DocumentStatsView {
        DocumentStatsView {
            collection: self.collection.model(),
            document_count: self.document_count.model(),
            indexed_fields: self.indexed_fields.model(),
        }
    }

    fn decode(j: &Json) -> (r: Option<DocumentStats>) {
        if !decode::check_record(j, 3) {
            return None;
        }
        let collection = decode::take::<String>(j, 0, "analyzed")?;
        let document_count = decode::take_or::<i64>(j, 1, "document_count", 0)?;
        let indexed_fields = decode::take_or::<i64>(j, 2, "indexed_fields", 0)?;
        Some(DocumentStats { collection, document_count, indexed_fields })
    }
}

/// What [`Client::document_update_many`] changed.
///
/// `matched` counts the documents the filter selected; `modified` counts those
/// whose contents actually changed, so rewriting a document to the value it
/// already held is matched but not modified.
#[derive(Debug, Clone, Copy, PartialEq, Eq)]
pub struct UpdateCounts {
    /// How many documents the filter selected.
    pub matched: i64,
    /// How many of those actually changed.
    pub modified: i64,
}

/// What a [`UpdateCounts`] holds.
#[verifier::ext_equal]
pub struct UpdateCountsView {
    pub matched: i64,
    pub modified: i64,
}

impl Decode for UpdateCounts {
    type V = UpdateCountsView;

    open spec fn decoded(t: JsonTree) -> Option<UpdateCountsView> {
        let matched = decode::or_absent::<i64>(t, 0, "matched"@, 0);
        let modified = decode::or_absent::<i64>(t, 1, "modified"@, 0);
        if decode::is_record(t, 2) && matched is Some && modified is Some {
            Some(
                UpdateCountsView {
                    matched: matched->0,
                    modified: modified->0,
                },
            )
        } else {
            None
        }
    }

    open spec fn model(&self) -> UpdateCountsView {
        UpdateCountsView {
            matched: self.matched.model(),
            modified: self.modified.model(),
        }
    }

    fn decode(j: &Json) -> (r: Option<UpdateCounts>) {
        if !decode::check_record(j, 2) {
            return None;
        }
        let matched = decode::take_or::<i64>(j, 0, "matched", 0)?;
        let modified = decode::take_or::<i64>(j, 1, "modified", 0)?;
        Some(UpdateCounts { matched, modified })
    }
}

impl Default for UpdateCounts {
    fn default() -> (c: UpdateCounts)
        ensures
            c.matched == 0,
            c.modified == 0,
    {
        UpdateCounts { matched: 0, modified: 0 }
    }
}

/// What the update of one document did.
#[derive(Debug, Clone, PartialEq, Eq)]
pub struct UpdateOne {
    /// Whether a document was changed.
    pub updated: bool,
    /// Whether the document was created.
    pub inserted: bool,
}

/// What a [`UpdateOne`] holds.
#[verifier::ext_equal]
pub struct UpdateOneView {
    pub updated: bool,
    pub inserted: bool,
}

impl Decode for UpdateOne {
    type V = UpdateOneView;

    open spec fn decoded(t: JsonTree) -> Option<UpdateOneView> {
        let updated = decode::or_absent::<bool>(t, 0, "updated"@, false);
        let inserted = decode::or_absent::<bool>(t, 1, "inserted"@, false);
        if decode::is_record(t, 2) && updated is Some && inserted is Some {
            Some(
                UpdateOneView {
                    updated: updated->0,
                    inserted: inserted->0,
                },
            )
        } else {
            None
        }
    }

    open spec fn model(&self) -> UpdateOneView {
        UpdateOneView {
            updated: self.updated.model(),
            inserted: self.inserted.model(),
        }
    }

    fn decode(j: &Json) -> (r: Option<UpdateOne>) {
        if !decode::check_record(j, 2) {
            return None;
        }
        let updated = decode::take_or::<bool>(j, 0, "updated", false)?;
        let inserted = decode::take_or::<bool>(j, 1, "inserted", false)?;
        Some(UpdateOne { updated, inserted })
    }
}

/// A document operation.
pub open spec fn document_op(variant: Seq<char>, body: Map<Seq<char>, JsonTree>) -> JsonTree {
    wrapped("Document"@, wrapped(variant, JsonTree::Object(body)))
}

fn op(variant: &str, body: Object) -> (j: Json)
    ensures
        j@ == document_op(variant@, body@),
{
    Json::wrap("Document", Json::wrap(variant, Json::Object(body)))
}

/// What an answer with documents means.
pub open spec fn documents_meaning(r: ResponseView, what: Seq<char>) -> std::result::Result<
    Seq<Map<Seq<char>, JsonTree>>,
    ErrorView,
> {
    match expected(r, "Documents"@, what) {
        Err(e) => Err(e),
        Ok(data) => match Vec::<Document>::decoded(data) {
            Some(x) => Ok(x),
            None => Err(
                plain(
                    ErrorKind::Protocol,
                    "malformed Documents payload from "@ + what + ": "@ + WRONG_SHAPE@,
                ),
            ),
        },
    }
}

/// Reads the documents that answer a request.
pub fn documents_of(response: &Response, what: &str) -> (r: Result<Vec<Document>>)
    ensures
        model_view(r) == documents_meaning(response@, what@),
{
    match response.expect("Documents", what) {
        Ok(data) => match Vec::<Document>::decode(data) {
            Some(x) => Ok(x),
            None => {
                let mut message = "malformed Documents payload from ".to_owned();
                message.append(what);
                message.append(": ");
                message.append(WRONG_SHAPE);
                Err(Error::protocol(message.as_str()))
            },
        },
        Err(e) => Err(e),
    }
}

/// The first documents of a list, at most so many.
pub open spec fn at_most<T>(found: Seq<T>, limit: nat) -> Seq<T> {
    if found.len() <= limit {
        found
    } else {
        found.take(limit as int)
    }
}

/// What the answer to a limited search means: no more documents than the limit,
/// whatever the server sent.
pub open spec fn limited_meaning(r: ResponseView, limit: nat) -> std::result::Result<
    Seq<Map<Seq<char>, JsonTree>>,
    ErrorView,
> {
    match documents_meaning(r, "Find"@) {
        Err(e) => Err(e),
        Ok(found) => Ok(at_most(found, limit)),
    }
}

/// Reads the documents that answer a limited search.
pub fn limited_documents(response: &Response, limit: usize) -> (r: Result<Vec<Document>>)
    ensures
        model_view(r) == limited_meaning(response@, limit as nat),
        r is Ok ==> r->Ok_0@.len() <= limit,
{
    match documents_of(response, "Find") {
        Ok(found) => {
            let mut found = found;
            let ghost all = found.model();
            found.truncate(limit);
            assert(found.model() =~= at_most(all, limit as nat));
            Ok(found)
        },
        Err(e) => Err(e),
    }
}

/// What the answer to a fetch means: the first document, if there is one.
pub open spec fn get_meaning(r: ResponseView) -> std::result::Result<
    Option<Map<Seq<char>, JsonTree>>,
    ErrorView,
> {
    match documents_meaning(r, "Get"@) {
        Err(e) => Err(e),
        Ok(documents) => if documents.len() == 0 {
            Ok(None)
        } else {
            Ok(Some(documents[0]))
        },
    }
}

/// Reads the document that answers a fetch.
pub fn first_document(response: &Response) -> (r: Result<Option<Document>>)
    ensures
        model_view(r) == get_meaning(response@),
{
    match documents_of(response, "Get") {
        Ok(documents) => {
            let mut documents = documents;
            let ghost all = documents.model();
            if documents.len() == 0 {
                Ok(None)
            } else {
                assert(all[0] == documents@[0].model());
                Ok(Some(documents.remove(0)))
            }
        },
        Err(e) => Err(e),
    }
}

/// What the answer to an insertion means: the id of the new document.
pub open spec fn insert_meaning(r: ResponseView) -> std::result::Result<Seq<char>, ErrorView> {
    match typed_single::<String>(r, "Insert"@, "id"@, Seq::empty()) {
        Err(e) => Err(e),
        Ok(id) => if id.len() == 0 {
            Err(plain(ErrorKind::Protocol, "Insert answered with no document id"@))
        } else {
            Ok(id)
        },
    }
}

/// Reads the id of a document that was inserted.
pub fn inserted_id(response: &Response) -> (r: Result<String>)
    ensures
        model_view(r) == insert_meaning(response@),
{
    match response.decode_single("Insert", "id", String::new()) {
        Ok(id) => if id.as_str().is_empty() {
            Err(Error::protocol("Insert answered with no document id"))
        } else {
            Ok(id)
        },
        Err(e) => Err(e),
    }
}

/// The refusal of a document that is not an object.
pub open spec fn not_a_document() -> ErrorView {
    plain(
        ErrorKind::InvalidArgument,
        "a document must encode to a JSON object, not a scalar or an array"@,
    )
}

/// The members of an insertion.
pub open spec fn insert_members(collection: Seq<char>, id: JsonTree, document: JsonTree) -> Map<
    Seq<char>,
    JsonTree,
> {
    no_members().insert("collection"@, JsonTree::Text(collection)).insert("id"@, id).insert(
        "document"@,
        document,
    )
}

/// The members of a search.
pub open spec fn find_members(collection: Seq<char>, filter: JsonTree, limit: JsonTree) -> Map<
    Seq<char>,
    JsonTree,
> {
    no_members().insert("collection"@, JsonTree::Text(collection)).insert("filter"@, filter).insert(
        "limit"@,
        limit,
    )
}

/// The members of an update of one document.
pub open spec fn update_one_members(
    collection: Seq<char>,
    id: Seq<char>,
    update: DocumentUpdateView,
    upsert: bool,
) -> Map<Seq<char>, JsonTree> {
    no_members().insert("collection"@, JsonTree::Text(collection)).insert(
        "id"@,
        JsonTree::Text(id),
    ).insert("update"@, update_tree(update)).insert("upsert"@, JsonTree::Bool(upsert))
}

impl Client {
    /// Create a collection.
    pub fn document_create_collection(&mut self, collection: &str) -> (r: Result<Vec<u8>>)
        requires
            old(self)@.request_counter < u64::MAX,
        ensures
            sends(
                old(self)@,
                final(self)@,
                document_op(
                    "CreateCollection"@,
                    no_members().insert("collection"@, JsonTree::Text(collection@)),
                ),
                r,
            ),
    {
        self.send(op("CreateCollection", Object::new().with("collection", Json::text(collection))))
    }

    /// Drop a collection with its documents and indexes. Dropping one that does
    /// not exist is an error.
    pub fn document_drop_collection(&mut self, collection: &str) -> (r: Result<Vec<u8>>)
        requires
            old(self)@.request_counter < u64::MAX,
        ensures
            sends(
                old(self)@,
                final(self)@,
                document_op(
                    "DropCollection"@,
                    no_members().insert("collection"@, JsonTree::Text(collection@)),
                ),
                r,
            ),
    {
        self.send(op("DropCollection", Object::new().with("collection", Json::text(collection))))
    }

    /// Name every collection in the database.
    pub fn document_list_collections(&mut self) -> (r: Result<Vec<u8>>)
        requires
            old(self)@.request_counter < u64::MAX,
        ensures
            sends(
                old(self)@,
                final(self)@,
                wrapped("Document"@, JsonTree::Text("ListCollections"@)),
                r,
            ),
    {
        self.send(Json::wrap("Document", Json::text("ListCollections")))
    }

    /// Take the answer to [`Client::document_list_collections`].
    pub fn document_list_collections_reply(
        &mut self,
        reply: Result<Frame>,
    ) -> (r: Result<Vec<String>>)
        ensures
            answered(
                old(self)@,
                final(self)@,
                reply_view(reply),
                |x: ResponseView|
                    typed_single::<Vec<String>>(
                        x,
                        "ListCollections"@,
                        "collections"@,
                        Seq::empty(),
                    ),
                model_view(r),
            ),
    {
        let response = self.reply(reply)?;
        let none: Vec<String> = Vec::new();
        assert(none.model() =~= Seq::<Seq<char>>::empty());
        self.keep(response.decode_single("ListCollections", "collections", none))
    }

    /// Insert a document under an id the server generates, and return that id.
    pub fn document_insert(&mut self, collection: &str, document: Json) -> (r: Result<Vec<u8>>)
        requires
            old(self)@.request_counter < u64::MAX,
        ensures
            if document@ is Object {
                sends(
                    old(self)@,
                    final(self)@,
                    document_op("Insert"@, insert_members(collection@, JsonTree::Null, document@)),
                    r,
                )
            } else {
                declines(old(self)@, final(self)@, not_a_document(), r)
            },
    {
        self.document_insert_inner(collection, Json::Null, document)
    }

    /// Take the answer to [`Client::document_insert`] or
    /// [`Client::document_insert_with_id`].
    pub fn document_insert_reply(&mut self, reply: Result<Frame>) -> (r: Result<String>)
        ensures
            answered(
                old(self)@,
                final(self)@,
                reply_view(reply),
                |x: ResponseView| insert_meaning(x),
                model_view(r),
            ),
    {
        let response = self.reply(reply)?;
        self.keep(inserted_id(&response))
    }

    /// Insert a document under an id you choose. Inserting over an existing id
    /// is an error rather than an overwrite — see [`Client::document_upsert_one`].
    pub fn document_insert_with_id(
        &mut self,
        collection: &str,
        id: &str,
        document: Json,
    ) -> (r: Result<Vec<u8>>)
        requires
            old(self)@.request_counter < u64::MAX,
        ensures
            if document@ is Object {
                sends(
                    old(self)@,
                    final(self)@,
                    document_op(
                        "Insert"@,
                        insert_members(collection@, JsonTree::Text(id@), document@),
                    ),
                    r,
                )
            } else {
                declines(old(self)@, final(self)@, not_a_document(), r)
            },
    {
        self.document_insert_inner(collection, Json::text(id), document)
    }

    /// Insert a document under this id, or under a generated one for `null`.
    fn document_insert_inner(
        &mut self,
        collection: &str,
        id: Json,
        document: Json,
    ) -> (r: Result<Vec<u8>>)
        requires
            old(self)@.request_counter < u64::MAX,
        ensures
            if document@ is Object {
                sends(
                    old(self)@,
                    final(self)@,
                    document_op("Insert"@, insert_members(collection@, id@, document@)),
                    r,
                )
            } else {
                declines(old(self)@, final(self)@, not_a_document(), r)
            },
    {
        match &document {
            Json::Object(_) => {},
            _ => {
                return Err(
                    Error::invalid(
                        "a document must encode to a JSON object, not a scalar or an array",
                    ),
                );
            },
        }
        self.send(
            op(
                "Insert",
                Object::new()
                    .with("collection", Json::text(collection))
                    .with("id", id)
                    .with("document", document),
            ),
        )
    }

    /// Fetch one document by id. `None` when there is no such document, which
    /// is how an absent document is told apart from a stored empty one.
    pub fn document_get(&mut self, collection: &str, id: &str) -> (r: Result<Vec<u8>>)
        requires
            old(self)@.request_counter < u64::MAX,
        ensures
            sends(
                old(self)@,
                final(self)@,
                document_op(
                    "Get"@,
                    no_members()
                        .insert("collection"@, JsonTree::Text(collection@))
                        .insert("id"@, JsonTree::Text(id@)),
                ),
                r,
            ),
    {
        self.send(
            op(
                "Get",
                Object::new().with("collection", Json::text(collection)).with("id", Json::text(id)),
            ),
        )
    }

    /// Take the answer to [`Client::document_get`].
    pub fn document_get_reply(&mut self, reply: Result<Frame>) -> (r: Result<Option<Document>>)
        ensures
            answered(
                old(self)@,
                final(self)@,
                reply_view(reply),
                |x: ResponseView| get_meaning(x),
                model_view(r),
            ),
    {
        let response = self.reply(reply)?;
        self.keep(first_document(&response))
    }

    /// Every document matching a filter.
    pub fn document_find(
        &mut self,
        collection: &str,
        filter: &DocumentFilter,
    ) -> (r: Result<Vec<u8>>)
        requires
            old(self)@.request_counter < u64::MAX,
        ensures
            sends(
                old(self)@,
                final(self)@,
                document_op("Find"@, find_members(collection@, filter@, JsonTree::Null)),
                r,
            ),
    {
        self.document_find_inner(collection, filter, Json::Null)
    }

    /// Take the answer to [`Client::document_find`].
    pub fn document_find_reply(&mut self, reply: Result<Frame>) -> (r: Result<Vec<Document>>)
        ensures
            answered(
                old(self)@,
                final(self)@,
                reply_view(reply),
                |x: ResponseView| documents_meaning(x, "Find"@),
                model_view(r),
            ),
    {
        let response = self.reply(reply)?;
        self.keep(documents_of(&response, "Find"))
    }

    /// At most `limit` documents matching a filter.
    pub fn document_find_limit(
        &mut self,
        collection: &str,
        filter: &DocumentFilter,
        limit: usize,
    ) -> (r: Result<Vec<u8>>)
        requires
            old(self)@.request_counter < u64::MAX,
        ensures
            sends(
                old(self)@,
                final(self)@,
                document_op(
                    "Find"@,
                    find_members(collection@, filter@, number_tree(limit as int)),
                ),
                r,
            ),
    {
        self.document_find_inner(collection, filter, Json::unsigned(limit as u64))
    }

    /// Take the answer to [`Client::document_find_limit`] with this limit. A
    /// server that sends more documents than it was asked for does not make the
    /// list longer.
    pub fn document_find_limit_reply(&mut self, limit: usize, reply: Result<Frame>) -> (r: Result<
        Vec<Document>,
    >)
        ensures
            answered(
                old(self)@,
                final(self)@,
                reply_view(reply),
                |x: ResponseView| limited_meaning(x, limit as nat),
                model_view(r),
            ),
            r is Ok ==> r->Ok_0@.len() <= limit,
    {
        let response = self.reply(reply)?;
        self.keep(limited_documents(&response, limit))
    }

    /// Documents matching a filter, with this limit.
    fn document_find_inner(
        &mut self,
        collection: &str,
        filter: &DocumentFilter,
        limit: Json,
    ) -> (r: Result<Vec<u8>>)
        requires
            old(self)@.request_counter < u64::MAX,
        ensures
            sends(
                old(self)@,
                final(self)@,
                document_op("Find"@, find_members(collection@, filter@, limit@)),
                r,
            ),
    {
        self.send(
            op(
                "Find",
                Object::new()
                    .with("collection", Json::text(collection))
                    .with("filter", filter.wire())
                    .with("limit", limit),
            ),
        )
    }

    /// Set fields on an existing document. A missing id is an error: this is
    /// not an upsert, and `_id` cannot be set.
    pub fn document_update(
        &mut self,
        collection: &str,
        id: &str,
        set: &Object,
    ) -> (r: Result<Vec<u8>>)
        requires
            old(self)@.request_counter < u64::MAX,
        ensures
            sends(
                old(self)@,
                final(self)@,
                document_op(
                    "Update"@,
                    no_members()
                        .insert("collection"@, JsonTree::Text(collection@))
                        .insert("id"@, JsonTree::Text(id@))
                        .insert("set"@, JsonTree::Object(set@)),
                ),
                r,
            ),
    {
        self.send(
            op(
                "Update",
                Object::new()
                    .with("collection", Json::text(collection))
                    .with("id", Json::text(id))
                    .with("set", Json::Object(set.clone())),
            ),
        )
    }

    /// Apply an update to one document by id. A missing id is an error; use
    /// [`Client::document_upsert_one`] to create instead.
    pub fn document_update_one(
        &mut self,
        collection: &str,
        id: &str,
        update: &DocumentUpdate,
    ) -> (r: Result<Vec<u8>>)
        requires
            old(self)@.request_counter < u64::MAX,
        ensures
            if changes_nothing(update@) {
                declines(old(self)@, final(self)@, empty_update(), r)
            } else {
                sends(
                    old(self)@,
                    final(self)@,
                    document_op("UpdateOne"@, update_one_members(collection@, id@, update@, false)),
                    r,
                )
            },
    {
        self.update_one(collection, id, update, false)
    }

    /// Take the answer to [`Client::document_update_one`].
    pub fn document_update_one_reply(&mut self, reply: Result<Frame>) -> (r: Result<UpdateOne>)
        ensures
            answered(
                old(self)@,
                final(self)@,
                reply_view(reply),
                |x: ResponseView| typed::<UpdateOne>(x, "UpdateOne"@),
                model_view(r),
            ),
    {
        let response = self.reply(reply)?;
        self.keep(response.decode("UpdateOne"))
    }

    /// Apply an update to one document by id, creating it from the update when
    /// it does not exist. Returns whether it was created.
    pub fn document_upsert_one(
        &mut self,
        collection: &str,
        id: &str,
        update: &DocumentUpdate,
    ) -> (r: Result<Vec<u8>>)
        requires
            old(self)@.request_counter < u64::MAX,
        ensures
            if changes_nothing(update@) {
                declines(old(self)@, final(self)@, empty_update(), r)
            } else {
                sends(
                    old(self)@,
                    final(self)@,
                    document_op("UpdateOne"@, update_one_members(collection@, id@, update@, true)),
                    r,
                )
            },
    {
        self.update_one(collection, id, update, true)
    }

    /// Take the answer to [`Client::document_upsert_one`]: whether the document
    /// was created.
    pub fn document_upsert_one_reply(&mut self, reply: Result<Frame>) -> (r: Result<bool>)
        ensures
            answered(
                old(self)@,
                final(self)@,
                reply_view(reply),
                |x: ResponseView| upsert_meaning(x),
                model_view(r),
            ),
    {
        let response = self.reply(reply)?;
        self.keep(upserted(&response))
    }

    /// Apply an update to one document by id.
    fn update_one(
        &mut self,
        collection: &str,
        id: &str,
        update: &DocumentUpdate,
        upsert: bool,
    ) -> (r: Result<Vec<u8>>)
        requires
            old(self)@.request_counter < u64::MAX,
        ensures
            if changes_nothing(update@) {
                declines(old(self)@, final(self)@, empty_update(), r)
            } else {
                sends(
                    old(self)@,
                    final(self)@,
                    document_op(
                        "UpdateOne"@,
                        update_one_members(collection@, id@, update@, upsert),
                    ),
                    r,
                )
            },
    {
        if update.is_empty() {
            return Err(Error::invalid("an update must set or increment at least one field"));
        }
        self.send(
            op(
                "UpdateOne",
                Object::new().with("collection", Json::text(collection)).with("id", Json::text(id)).with(
                    "update",
                    update.wire(),
                ).with("upsert", Json::Bool(upsert)),
            ),
        )
    }

    /// Apply an update to every document matching a filter. Never an upsert: a
    /// filter that matches nothing changes nothing, and that is not an error.
    pub fn document_update_many(
        &mut self,
        collection: &str,
        filter: &DocumentFilter,
        update: &DocumentUpdate,
    ) -> (r: Result<Vec<u8>>)
        requires
            old(self)@.request_counter < u64::MAX,
        ensures
            if changes_nothing(update@) {
                declines(old(self)@, final(self)@, empty_update(), r)
            } else {
                sends(
                    old(self)@,
                    final(self)@,
                    document_op(
                        "UpdateMany"@,
                        no_members()
                            .insert("collection"@, JsonTree::Text(collection@))
                            .insert("filter"@, filter@)
                            .insert("update"@, update_tree(update@)),
                    ),
                    r,
                )
            },
    {
        if update.is_empty() {
            return Err(Error::invalid("an update must set or increment at least one field"));
        }
        self.send(
            op(
                "UpdateMany",
                Object::new().with("collection", Json::text(collection)).with("filter", filter.wire()).with(
                    "update",
                    update.wire(),
                ),
            ),
        )
    }

    /// Take the answer to [`Client::document_update_many`].
    pub fn document_update_many_reply(&mut self, reply: Result<Frame>) -> (r: Result<UpdateCounts>)
        ensures
            answered(
                old(self)@,
                final(self)@,
                reply_view(reply),
                |x: ResponseView| typed::<UpdateCounts>(x, "UpdateMany"@),
                model_view(r),
            ),
    {
        let response = self.reply(reply)?;
        self.keep(response.decode("UpdateMany"))
    }

    /// Delete one document by id. Deleting an absent document is not an error.
    pub fn document_delete(&mut self, collection: &str, id: &str) -> (r: Result<Vec<u8>>)
        requires
            old(self)@.request_counter < u64::MAX,
        ensures
            sends(
                old(self)@,
                final(self)@,
                document_op(
                    "Delete"@,
                    no_members()
                        .insert("collection"@, JsonTree::Text(collection@))
                        .insert("id"@, JsonTree::Text(id@)),
                ),
                r,
            ),
    {
        self.send(
            op(
                "Delete",
                Object::new().with("collection", Json::text(collection)).with("id", Json::text(id)),
            ),
        )
    }

    /// Build a secondary index on a top-level field. A unique index over a
    /// collection that already holds duplicates is refused before anything is
    /// written.
    pub fn document_create_index(
        &mut self,
        collection: &str,
        index_name: &str,
        field: &str,
        unique: bool,
    ) -> (r: Result<Vec<u8>>)
        requires
            old(self)@.request_counter < u64::MAX,
        ensures
            sends(
                old(self)@,
                final(self)@,
                document_op(
                    "CreateIndex"@,
                    no_members()
                        .insert("collection"@, JsonTree::Text(collection@))
                        .insert("index_name"@, JsonTree::Text(index_name@))
                        .insert("field"@, JsonTree::Text(field@))
                        .insert("unique"@, JsonTree::Bool(unique)),
                ),
                r,
            ),
    {
        self.send(
            op(
                "CreateIndex",
                Object::new()
                    .with("collection", Json::text(collection))
                    .with("index_name", Json::text(index_name))
                    .with("field", Json::text(field))
                    .with("unique", Json::Bool(unique)),
            ),
        )
    }

    /// Remove a named index.
    pub fn document_drop_index(
        &mut self,
        collection: &str,
        index_name: &str,
    ) -> (r: Result<Vec<u8>>)
        requires
            old(self)@.request_counter < u64::MAX,
        ensures
            sends(
                old(self)@,
                final(self)@,
                document_op(
                    "DropIndex"@,
                    no_members()
                        .insert("collection"@, JsonTree::Text(collection@))
                        .insert("index_name"@, JsonTree::Text(index_name@)),
                ),
                r,
            ),
    {
        self.send(
            op(
                "DropIndex",
                Object::new()
                    .with("collection", Json::text(collection))
                    .with("index_name", Json::text(index_name)),
            ),
        )
    }

    /// List a collection's indexes.
    pub fn document_list_indexes(&mut self, collection: &str) -> (r: Result<Vec<u8>>)
        requires
            old(self)@.request_counter < u64::MAX,
        ensures
            sends(
                old(self)@,
                final(self)@,
                document_op(
                    "ListIndexes"@,
                    no_members().insert("collection"@, JsonTree::Text(collection@)),
                ),
                r,
            ),
    {
        self.send(op("ListIndexes", Object::new().with("collection", Json::text(collection))))
    }

    /// Take the answer to [`Client::document_list_indexes`].
    pub fn document_list_indexes_reply(
        &mut self,
        reply: Result<Frame>,
    ) -> (r: Result<Vec<DocumentIndex>>)
        ensures
            answered(
                old(self)@,
                final(self)@,
                reply_view(reply),
                |x: ResponseView|
                    typed_single::<Vec<DocumentIndex>>(x, "ListIndexes"@, "indexes"@, Seq::empty()),
                model_view(r),
            ),
    {
        let response = self.reply(reply)?;
        let none: Vec<DocumentIndex> = Vec::new();
        assert(none.model() =~= Seq::<DocumentIndexView>::empty());
        self.keep(response.decode_single("ListIndexes", "indexes", none))
    }

    /// Collect the statistics the planner uses to choose between an index
    /// lookup and a scan.
    pub fn document_analyze(&mut self, collection: &str) -> (r: Result<Vec<u8>>)
        requires
            old(self)@.request_counter < u64::MAX,
        ensures
            sends(
                old(self)@,
                final(self)@,
                document_op(
                    "Analyze"@,
                    no_members().insert("collection"@, JsonTree::Text(collection@)),
                ),
                r,
            ),
    {
        self.send(op("Analyze", Object::new().with("collection", Json::text(collection))))
    }

    /// Take the answer to [`Client::document_analyze`].
    pub fn document_analyze_reply(&mut self, reply: Result<Frame>) -> (r: Result<DocumentStats>)
        ensures
            answered(
                old(self)@,
                final(self)@,
                reply_view(reply),
                |x: ResponseView| typed::<DocumentStats>(x, "Analyze"@),
                model_view(r),
            ),
    {
        let response = self.reply(reply)?;
        self.keep(response.decode("Analyze"))
    }

    /// Run an aggregation pipeline. An empty pipeline returns the collection
    /// unchanged.
    pub fn document_aggregate(
        &mut self,
        collection: &str,
        pipeline: &[AggregateStage],
    ) -> (r: Result<Vec<u8>>)
        requires
            old(self)@.request_counter < u64::MAX,
        ensures
            sends(
                old(self)@,
                final(self)@,
                document_op(
                    "Aggregate"@,
                    no_members()
                        .insert("collection"@, JsonTree::Text(collection@))
                        .insert("pipeline"@, JsonTree::Array(wire_views(pipeline@))),
                ),
                r,
            ),
    {
        self.send(
            op(
                "Aggregate",
                Object::new()
                    .with("collection", Json::text(collection))
                    .with("pipeline", wire_list(pipeline)),
            ),
        )
    }

    /// Take the answer to [`Client::document_aggregate`].
    pub fn document_aggregate_reply(&mut self, reply: Result<Frame>) -> (r: Result<Vec<Document>>)
        ensures
            answered(
                old(self)@,
                final(self)@,
                reply_view(reply),
                |x: ResponseView| documents_meaning(x, "Aggregate"@),
                model_view(r),
            ),
    {
        let response = self.reply(reply)?;
        self.keep(documents_of(&response, "Aggregate"))
    }
}

/// What the answer to an upsert means: whether the document was created.
pub open spec fn upsert_meaning(r: ResponseView) -> std::result::Result<bool, ErrorView> {
    match typed::<UpdateOne>(r, "UpdateOne"@) {
        Err(e) => Err(e),
        Ok(u) => Ok(u.inserted),
    }
}

/// Reads whether an upsert created its document.
pub fn upserted(response: &Response) -> (r: Result<bool>)
    ensures
        model_view(r) == upsert_meaning(response@),
{
    match response.decode::<UpdateOne>("UpdateOne") {
        Ok(u) => Ok(u.inserted),
        Err(e) => Err(e),
    }
}

/// A document index holds what was sent under the name of each field, lists whole and
/// in order.
pub proof fn document_index_reads_back(m: Map<Seq<char>, JsonTree>, x: DocumentIndex)
    requires
        m.dom().contains("index_name"@),
        m["index_name"@] == JsonTree::Text(x.name@),
        m.dom().contains("field"@),
        m["field"@] == JsonTree::Text(x.field@),
        m.dom().contains("unique"@),
        m["unique"@] == JsonTree::Bool(x.unique),
    ensures
        DocumentIndex::decoded(JsonTree::Object(m)) == Some(x.model()),
        x.model() == (DocumentIndexView {
            name: x.name@,
            field: x.field@,
            unique: x.unique,
        }),
{
    assert(x.model() =~= (DocumentIndexView {
        name: x.name@,
        field: x.field@,
        unique: x.unique,
    }));
}

/// A document index takes each field from the member of that name alone. A field that was
/// not sent has its default, and one of another kind refuses the whole.
pub proof fn document_index_takes_each_field_by_its_name(m: Map<Seq<char>, JsonTree>)
    ensures
        DocumentIndex::decoded(JsonTree::Object(m)) matches Some(v) ==> {
            &&& String::decoded(m["index_name"@]) == Some(v.name)
            &&& if m.dom().contains("field"@) {
                String::decoded(m["field"@]) == Some(v.field)
            } else {
                v.field.len() == 0
            }
            &&& if m.dom().contains("unique"@) {
                bool::decoded(m["unique"@]) == Some(v.unique)
            } else {
                v.unique == false
            }
        },
        DocumentIndex::decoded(JsonTree::Object(m)) is Some <==> {
            &&& m.dom().contains("index_name"@) && String::decoded(m["index_name"@]) is Some
            &&& m.dom().contains("field"@) ==> String::decoded(m["field"@]) is Some
            &&& m.dom().contains("unique"@) ==> bool::decoded(m["unique"@]) is Some
        },
{
}

/// A document index written as a list reads as the object that names each item by its place.
/// Too long a list is refused, and so is any other kind of value.
pub proof fn document_index_takes_each_item_in_its_place(
    items: Seq<JsonTree>,
    m: Map<Seq<char>, JsonTree>,
    t: JsonTree,
)
    requires
        m.dom().contains("index_name"@) <==> 0 < items.len(),
        0 < items.len() ==> m["index_name"@] == items[0],
        m.dom().contains("field"@) <==> 1 < items.len(),
        1 < items.len() ==> m["field"@] == items[1],
        m.dom().contains("unique"@) <==> 2 < items.len(),
        2 < items.len() ==> m["unique"@] == items[2],
    ensures
        items.len() <= 3 ==> DocumentIndex::decoded(JsonTree::Array(items))
            == DocumentIndex::decoded(JsonTree::Object(m)),
        items.len() > 3 ==> DocumentIndex::decoded(JsonTree::Array(items)) is None,
        !(t is Object) && !(t is Array) ==> DocumentIndex::decoded(t) is None,
{
}

/// A collection analysis holds what was sent under the name of each field, lists whole and
/// in order.
pub proof fn document_stats_reads_back(m: Map<Seq<char>, JsonTree>, x: DocumentStats)
    requires
        m.dom().contains("analyzed"@),
        m["analyzed"@] == JsonTree::Text(x.collection@),
        m.dom().contains("document_count"@),
        m["document_count"@] == JsonTree::Number(crate::text::integer(x.document_count as int)),
        m.dom().contains("indexed_fields"@),
        m["indexed_fields"@] == JsonTree::Number(crate::text::integer(x.indexed_fields as int)),
    ensures
        DocumentStats::decoded(JsonTree::Object(m)) == Some(x.model()),
        x.model() == (DocumentStatsView {
            collection: x.collection@,
            document_count: x.document_count,
            indexed_fields: x.indexed_fields,
        }),
{
    crate::text::decimal_reads_back(x.document_count as int);
    crate::text::decimal_reads_back(x.indexed_fields as int);
    assert(x.model() =~= (DocumentStatsView {
        collection: x.collection@,
        document_count: x.document_count,
        indexed_fields: x.indexed_fields,
    }));
}

/// A collection analysis takes each field from the member of that name alone. A field that was
/// not sent has its default, and one of another kind refuses the whole.
pub proof fn document_stats_takes_each_field_by_its_name(m: Map<Seq<char>, JsonTree>)
    ensures
        DocumentStats::decoded(JsonTree::Object(m)) matches Some(v) ==> {
            &&& String::decoded(m["analyzed"@]) == Some(v.collection)
            &&& if m.dom().contains("document_count"@) {
                i64::decoded(m["document_count"@]) == Some(v.document_count)
            } else {
                v.document_count == 0
            }
            &&& if m.dom().contains("indexed_fields"@) {
                i64::decoded(m["indexed_fields"@]) == Some(v.indexed_fields)
            } else {
                v.indexed_fields == 0
            }
        },
        DocumentStats::decoded(JsonTree::Object(m)) is Some <==> {
            &&& m.dom().contains("analyzed"@) && String::decoded(m["analyzed"@]) is Some
            &&& m.dom().contains("document_count"@)
                ==> i64::decoded(m["document_count"@]) is Some
            &&& m.dom().contains("indexed_fields"@)
                ==> i64::decoded(m["indexed_fields"@]) is Some
        },
{
}

/// A collection analysis written as a list reads as the object that names each item by its place.
/// Too long a list is refused, and so is any other kind of value.
pub proof fn document_stats_takes_each_item_in_its_place(
    items: Seq<JsonTree>,
    m: Map<Seq<char>, JsonTree>,
    t: JsonTree,
)
    requires
        m.dom().contains("analyzed"@) <==> 0 < items.len(),
        0 < items.len() ==> m["analyzed"@] == items[0],
        m.dom().contains("document_count"@) <==> 1 < items.len(),
        1 < items.len() ==> m["document_count"@] == items[1],
        m.dom().contains("indexed_fields"@) <==> 2 < items.len(),
        2 < items.len() ==> m["indexed_fields"@] == items[2],
    ensures
        items.len() <= 3 ==> DocumentStats::decoded(JsonTree::Array(items))
            == DocumentStats::decoded(JsonTree::Object(m)),
        items.len() > 3 ==> DocumentStats::decoded(JsonTree::Array(items)) is None,
        !(t is Object) && !(t is Array) ==> DocumentStats::decoded(t) is None,
{
}

/// A count of an update holds what was sent under the name of each field, lists whole and
/// in order.
pub proof fn update_counts_reads_back(m: Map<Seq<char>, JsonTree>, x: UpdateCounts)
    requires
        m.dom().contains("matched"@),
        m["matched"@] == JsonTree::Number(crate::text::integer(x.matched as int)),
        m.dom().contains("modified"@),
        m["modified"@] == JsonTree::Number(crate::text::integer(x.modified as int)),
    ensures
        UpdateCounts::decoded(JsonTree::Object(m)) == Some(x.model()),
        x.model() == (UpdateCountsView {
            matched: x.matched,
            modified: x.modified,
        }),
{
    crate::text::decimal_reads_back(x.matched as int);
    crate::text::decimal_reads_back(x.modified as int);
    assert(x.model() =~= (UpdateCountsView {
        matched: x.matched,
        modified: x.modified,
    }));
}

/// A count of an update takes each field from the member of that name alone. A field that was
/// not sent has its default, and one of another kind refuses the whole.
pub proof fn update_counts_takes_each_field_by_its_name(m: Map<Seq<char>, JsonTree>)
    ensures
        UpdateCounts::decoded(JsonTree::Object(m)) matches Some(v) ==> {
            &&& if m.dom().contains("matched"@) {
                i64::decoded(m["matched"@]) == Some(v.matched)
            } else {
                v.matched == 0
            }
            &&& if m.dom().contains("modified"@) {
                i64::decoded(m["modified"@]) == Some(v.modified)
            } else {
                v.modified == 0
            }
        },
        UpdateCounts::decoded(JsonTree::Object(m)) is Some <==> {
            &&& m.dom().contains("matched"@) ==> i64::decoded(m["matched"@]) is Some
            &&& m.dom().contains("modified"@) ==> i64::decoded(m["modified"@]) is Some
        },
{
}

/// A count of an update written as a list reads as the object that names each item by its place.
/// Too long a list is refused, and so is any other kind of value.
pub proof fn update_counts_takes_each_item_in_its_place(
    items: Seq<JsonTree>,
    m: Map<Seq<char>, JsonTree>,
    t: JsonTree,
)
    requires
        m.dom().contains("matched"@) <==> 0 < items.len(),
        0 < items.len() ==> m["matched"@] == items[0],
        m.dom().contains("modified"@) <==> 1 < items.len(),
        1 < items.len() ==> m["modified"@] == items[1],
    ensures
        items.len() <= 2 ==> UpdateCounts::decoded(JsonTree::Array(items))
            == UpdateCounts::decoded(JsonTree::Object(m)),
        items.len() > 2 ==> UpdateCounts::decoded(JsonTree::Array(items)) is None,
        !(t is Object) && !(t is Array) ==> UpdateCounts::decoded(t) is None,
{
}

/// A single update holds what was sent under the name of each field, lists whole and
/// in order.
pub proof fn update_one_reads_back(m: Map<Seq<char>, JsonTree>, x: UpdateOne)
    requires
        m.dom().contains("updated"@),
        m["updated"@] == JsonTree::Bool(x.updated),
        m.dom().contains("inserted"@),
        m["inserted"@] == JsonTree::Bool(x.inserted),
    ensures
        UpdateOne::decoded(JsonTree::Object(m)) == Some(x.model()),
        x.model() == (UpdateOneView {
            updated: x.updated,
            inserted: x.inserted,
        }),
{
    assert(x.model() =~= (UpdateOneView {
        updated: x.updated,
        inserted: x.inserted,
    }));
}

/// A single update takes each field from the member of that name alone. A field that was
/// not sent has its default, and one of another kind refuses the whole.
pub proof fn update_one_takes_each_field_by_its_name(m: Map<Seq<char>, JsonTree>)
    ensures
        UpdateOne::decoded(JsonTree::Object(m)) matches Some(v) ==> {
            &&& if m.dom().contains("updated"@) {
                bool::decoded(m["updated"@]) == Some(v.updated)
            } else {
                v.updated == false
            }
            &&& if m.dom().contains("inserted"@) {
                bool::decoded(m["inserted"@]) == Some(v.inserted)
            } else {
                v.inserted == false
            }
        },
        UpdateOne::decoded(JsonTree::Object(m)) is Some <==> {
            &&& m.dom().contains("updated"@) ==> bool::decoded(m["updated"@]) is Some
            &&& m.dom().contains("inserted"@) ==> bool::decoded(m["inserted"@]) is Some
        },
{
}

/// A single update written as a list reads as the object that names each item by its place.
/// Too long a list is refused, and so is any other kind of value.
pub proof fn update_one_takes_each_item_in_its_place(
    items: Seq<JsonTree>,
    m: Map<Seq<char>, JsonTree>,
    t: JsonTree,
)
    requires
        m.dom().contains("updated"@) <==> 0 < items.len(),
        0 < items.len() ==> m["updated"@] == items[0],
        m.dom().contains("inserted"@) <==> 1 < items.len(),
        1 < items.len() ==> m["inserted"@] == items[1],
    ensures
        items.len() <= 2 ==> UpdateOne::decoded(JsonTree::Array(items))
            == UpdateOne::decoded(JsonTree::Object(m)),
        items.len() > 2 ==> UpdateOne::decoded(JsonTree::Array(items)) is None,
        !(t is Object) && !(t is Array) ==> UpdateOne::decoded(t) is None,
{
}

/// A request of this kind is sent under its own name alone.
pub proof fn a_document_request_is_sent_under_its_name(
    variant: Seq<char>,
    body: Map<Seq<char>, JsonTree>,
)
    ensures
        document_op(variant, body) == JsonTree::Object(
            map!["Document"@ => JsonTree::Object(map![variant => JsonTree::Object(body)])],
        ),
{
    crate::json::a_wrapped_value_is_the_only_member(variant, JsonTree::Object(body), variant);
    crate::json::a_wrapped_value_is_the_only_member(
        "Document"@,
        wrapped(variant, JsonTree::Object(body)),
        "Document"@,
    );
}

/// What is sent for a filter, a key, a reduction and a stage is what it was made of.
proof fn builders_are_sent_as_they_were_made(
    filter: DocumentFilter,
    key: GroupKey,
    op: AccumulatorOp,
    stage: AggregateStage,
)
    ensures
        filter@ == filter.0@,
        key@ == key.0@,
        op@ == op.0@,
        stage@ == stage.0@,
{
}

/// A filter on a field is sent under the name of its test, with the field and the
/// value.
pub proof fn a_field_filter_names_its_field(
    variant: Seq<char>,
    field: Seq<char>,
    value: JsonTree,
)
    ensures
        field_filter_tree(variant, field, value) == JsonTree::Object(
            map![
                variant => JsonTree::Object(
                    map!["field"@ => JsonTree::Text(field), "value"@ => value],
                ),
            ],
        ),
{
    let body = map!["field"@ => JsonTree::Text(field), "value"@ => value];
    assert(no_members().insert("field"@, JsonTree::Text(field)).insert("value"@, value) =~= body);
    crate::json::a_wrapped_value_is_the_only_member(variant, JsonTree::Object(body), variant);
}

/// A reduction is sent with the field it writes, and a sort key with its field and its
/// order.
pub proof fn reductions_and_sort_keys_name_their_fields(a: GroupAccumulator, k: SortKey)
    ensures
        a@ == JsonTree::Object(
            map!["output"@ => JsonTree::Text(a.output@), "op"@ => a.op@],
        ),
        k@ == JsonTree::Object(
            map![
                "field"@ => JsonTree::Text(k.field@),
                "descending"@ => JsonTree::Bool(k.descending),
            ],
        ),
{
    assert(a@->Object_0 =~= map!["output"@ => JsonTree::Text(a.output@), "op"@ => a.op@]);
    assert(k@->Object_0 =~= map![
        "field"@ => JsonTree::Text(k.field@),
        "descending"@ => JsonTree::Bool(k.descending),
    ]);
}

/// An update is sent with each half that it uses, whole, and changes nothing exactly
/// when it uses neither.
pub proof fn an_update_is_sent_with_the_halves_it_uses(u: DocumentUpdate)
    ensures
        u@.set == u.set@,
        u@.inc == u.inc@,
        changes_nothing(u@) <==> u.set@ == Map::<Seq<char>, JsonTree>::empty() && u.inc@ == Map::<
            Seq<char>,
            JsonTree,
        >::empty(),
        update_tree(u@) is Object,
        update_tree(u@)->Object_0.dom().contains("set"@) <==> u.set@ != Map::<
            Seq<char>,
            JsonTree,
        >::empty(),
        update_tree(u@)->Object_0.dom().contains("inc"@) <==> u.inc@ != Map::<
            Seq<char>,
            JsonTree,
        >::empty(),
        u.set@ != Map::<Seq<char>, JsonTree>::empty() ==> update_tree(u@)->Object_0["set"@]
            == JsonTree::Object(u.set@),
        u.inc@ != Map::<Seq<char>, JsonTree>::empty() ==> update_tree(u@)->Object_0["inc"@]
            == JsonTree::Object(u.inc@),
        forall|name: Seq<char>| #[trigger]
            update_tree(u@)->Object_0.dom().contains(name) ==> name == "set"@ || name == "inc"@,
        empty_update().kind == ErrorKind::InvalidArgument,
        empty_update().message == "an update must set or increment at least one field"@,
{
    reveal_strlit("set");
    reveal_strlit("inc");
    assert("set"@[0] != "inc"@[0]);
}

/// What a document request names.
pub proof fn document_requests_name_their_parts(
    collection: Seq<char>,
    id: JsonTree,
    document: JsonTree,
    filter: JsonTree,
    limit: JsonTree,
    name: Seq<char>,
    update: DocumentUpdateView,
    upsert: bool,
)
    ensures
        insert_members(collection, id, document) == map![
            "collection"@ => JsonTree::Text(collection),
            "id"@ => id,
            "document"@ => document,
        ],
        find_members(collection, filter, limit) == map![
            "collection"@ => JsonTree::Text(collection),
            "filter"@ => filter,
            "limit"@ => limit,
        ],
        update_one_members(collection, name, update, upsert) == map![
            "collection"@ => JsonTree::Text(collection),
            "id"@ => JsonTree::Text(name),
            "update"@ => update_tree(update),
            "upsert"@ => JsonTree::Bool(upsert),
        ],
{
    assert(insert_members(collection, id, document) =~= map![
        "collection"@ => JsonTree::Text(collection),
        "id"@ => id,
        "document"@ => document,
    ]);
    assert(find_members(collection, filter, limit) =~= map![
        "collection"@ => JsonTree::Text(collection),
        "filter"@ => filter,
        "limit"@ => limit,
    ]);
    assert(update_one_members(collection, name, update, upsert) =~= map![
        "collection"@ => JsonTree::Text(collection),
        "id"@ => JsonTree::Text(name),
        "update"@ => update_tree(update),
        "upsert"@ => JsonTree::Bool(upsert),
    ]);
}

/// A list of documents is read whole and in order, and one that is malformed is refused
/// by the name of the request.
pub proof fn documents_are_read_in_order(
    r: ResponseView,
    what: Seq<char>,
    items: Seq<JsonTree>,
    i: int,
)
    ensures
        r.kind == "Documents"@ && r.data == JsonTree::Array(items) ==> {
            &&& documents_meaning(r, what) is Ok <==> forall|k: int|
                0 <= k < items.len() ==> (#[trigger] items[k]) is Object
            &&& documents_meaning(r, what) matches Ok(found) ==> found.len() == items.len() && (0
                <= i < items.len() ==> items[i] == JsonTree::Object(found[i]))
        },
        r.kind == "Documents"@ && !(r.data is Array) ==> documents_meaning(r, what) is Err,
        r.kind == "Documents"@ ==> (documents_meaning(r, what) matches Err(e) ==> e == plain(
            ErrorKind::Protocol,
            "malformed Documents payload from "@ + what + ": "@
                + "a field is missing or has the wrong type"@,
        )),
        r.kind != "Documents"@ ==> documents_meaning(r, what) is Err,
        r.kind != "Documents"@ ==> documents_meaning(r, what)->Err_0 == expected(
            r,
            "Documents"@,
            what,
        )->Err_0,
{
    if r.kind == "Documents"@ && r.data == JsonTree::Array(items) {
        if documents_meaning(r, what) is Ok {
            let found = documents_meaning(r, what)->Ok_0;
            assert(Vec::<Document>::decoded(r.data) == Some(found));
            assert forall|k: int| 0 <= k < items.len() implies (#[trigger] items[k])
                is Object by {
                assert(Object::decoded(items[k]) is Some);
            }
            if 0 <= i < items.len() {
                assert(Object::decoded(items[i]) == Some(found[i]));
            }
        }
        if forall|k: int| 0 <= k < items.len() ==> (#[trigger] items[k]) is Object {
            assert forall|k: int| 0 <= k < items.len() implies Object::decoded(#[trigger] items[k])
                is Some by {
                assert(items[k] is Object);
            }
            assert(Vec::<Document>::decoded(r.data) is Some);
        }
    }
}

/// No more documents are given than were asked for: the first of those found, in order.
pub proof fn no_more_are_given_than_asked_for<T>(found: Seq<T>, limit: nat, i: int)
    ensures
        at_most(found, limit).len() <= limit,
        at_most(found, limit).len() == found.len() || at_most(found, limit).len() == limit,
        at_most(found, limit).is_prefix_of(found),
        found.len() <= limit ==> at_most(found, limit) == found,
{
}

/// What a find, a get, an insert and an upsert answer.
pub proof fn document_answers_are_these(r: ResponseView, limit: nat)
    ensures
        documents_meaning(r, "Find"@) matches Ok(found) ==> limited_meaning(r, limit) == Ok::<
            Seq<Map<Seq<char>, JsonTree>>,
            ErrorView,
        >(at_most(found, limit)),
        documents_meaning(r, "Find"@) matches Err(e) ==> limited_meaning(r, limit) == Err::<
            Seq<Map<Seq<char>, JsonTree>>,
            ErrorView,
        >(e),
        documents_meaning(r, "Get"@) matches Ok(found) ==> get_meaning(r) == Ok::<
            Option<Map<Seq<char>, JsonTree>>,
            ErrorView,
        >(
            if found.len() > 0 {
                Some(found[0])
            } else {
                None
            },
        ),
        documents_meaning(r, "Get"@) matches Err(e) ==> get_meaning(r) == Err::<
            Option<Map<Seq<char>, JsonTree>>,
            ErrorView,
        >(e),
        typed_single::<String>(r, "Insert"@, "id"@, Seq::empty()) matches Ok(id) ==> insert_meaning(
            r,
        ) == if id.len() > 0 {
            Ok::<Seq<char>, ErrorView>(id)
        } else {
            Err(plain(ErrorKind::Protocol, "Insert answered with no document id"@))
        },
        typed_single::<String>(r, "Insert"@, "id"@, Seq::empty()) matches Err(e) ==> insert_meaning(
            r,
        ) == Err::<Seq<char>, ErrorView>(e),
        typed::<UpdateOne>(r, "UpdateOne"@) matches Ok(u) ==> upsert_meaning(r) == Ok::<
            bool,
            ErrorView,
        >(u.inserted),
        typed::<UpdateOne>(r, "UpdateOne"@) matches Err(e) ==> upsert_meaning(r) == Err::<
            bool,
            ErrorView,
        >(e),
        not_a_document().kind == ErrorKind::InvalidArgument,
        not_a_document().message
            == "a document must encode to a JSON object, not a scalar or an array"@,
{
}

/// What is sent by `document_create_collection`, `document_drop_collection`,
/// `document_list_indexes`, `document_analyze`.
pub proof fn document_create_collection_and_its_like_are_sent_as_they_were_asked(
    c: &mut Client,
    collection: &str,
    r: Result<Vec<u8>>,
)
    ensures
        call_ensures(Client::document_create_collection, (c, collection), r) ==> sends(
            old(c)@,
            final(c)@,
            JsonTree::Object(
                map![
                    "Document"@ => JsonTree::Object(
                        map![
                            "CreateCollection"@ => JsonTree::Object(
                                map!["collection"@ => JsonTree::Text(collection@)],
                            ),
                        ],
                    ),
                ],
            ),
            r,
        ),
        call_ensures(Client::document_drop_collection, (c, collection), r) ==> sends(
            old(c)@,
            final(c)@,
            JsonTree::Object(
                map![
                    "Document"@ => JsonTree::Object(
                        map![
                            "DropCollection"@ => JsonTree::Object(
                                map!["collection"@ => JsonTree::Text(collection@)],
                            ),
                        ],
                    ),
                ],
            ),
            r,
        ),
        call_ensures(Client::document_list_indexes, (c, collection), r) ==> sends(
            old(c)@,
            final(c)@,
            JsonTree::Object(
                map![
                    "Document"@ => JsonTree::Object(
                        map![
                            "ListIndexes"@ => JsonTree::Object(
                                map!["collection"@ => JsonTree::Text(collection@)],
                            ),
                        ],
                    ),
                ],
            ),
            r,
        ),
        call_ensures(Client::document_analyze, (c, collection), r) ==> sends(
            old(c)@,
            final(c)@,
            JsonTree::Object(
                map![
                    "Document"@ => JsonTree::Object(
                        map![
                            "Analyze"@ => JsonTree::Object(
                                map!["collection"@ => JsonTree::Text(collection@)],
                            ),
                        ],
                    ),
                ],
            ),
            r,
        ),
{
    assert(Map::<Seq<char>, JsonTree>::empty()
        .insert("collection"@, JsonTree::Text(collection@)) =~= map![
        "collection"@ => JsonTree::Text(collection@),
    ]);
    a_document_request_is_sent_under_its_name(
        "CreateCollection"@,
        map!["collection"@ => JsonTree::Text(collection@)],
    );
    a_document_request_is_sent_under_its_name(
        "DropCollection"@,
        map!["collection"@ => JsonTree::Text(collection@)],
    );
    a_document_request_is_sent_under_its_name(
        "ListIndexes"@,
        map!["collection"@ => JsonTree::Text(collection@)],
    );
    a_document_request_is_sent_under_its_name(
        "Analyze"@,
        map!["collection"@ => JsonTree::Text(collection@)],
    );
}

/// What is sent by `document_list_collections`.
pub proof fn document_list_collections_is_sent_as_it_was_asked(
    c: &mut Client,
    r: Result<Vec<u8>>,
)
    ensures
        call_ensures(Client::document_list_collections, (c,), r) ==> sends(
            old(c)@,
            final(c)@,
            JsonTree::Object(map!["Document"@ => JsonTree::Text("ListCollections"@)]),
            r,
        ),
{
    crate::json::a_wrapped_value_is_the_only_member(
        "Document"@,
        JsonTree::Text("ListCollections"@),
        "Document"@,
    );
}

/// What is sent by `document_insert`.
pub proof fn document_insert_is_sent_as_it_was_asked(
    c: &mut Client,
    collection: &str,
    document: Json,
    r: Result<Vec<u8>>,
)
    ensures
        call_ensures(Client::document_insert, (c, collection, document), r)
            && document@ is Object ==> sends(
            old(c)@,
            final(c)@,
            JsonTree::Object(
                map![
                    "Document"@ => JsonTree::Object(
                        map![
                            "Insert"@ => JsonTree::Object(
                                map![
                                    "collection"@ => JsonTree::Text(collection@),
                                    "id"@ => JsonTree::Null,
                                    "document"@ => document@,
                                ],
                            ),
                        ],
                    ),
                ],
            ),
            r,
        ),
        call_ensures(Client::document_insert, (c, collection, document), r)
            && !(document@ is Object) ==> declines(old(c)@, final(c)@, not_a_document(), r),
{
    assert(insert_members(collection@, JsonTree::Null, document@) =~= map![
        "collection"@ => JsonTree::Text(collection@),
        "id"@ => JsonTree::Null,
        "document"@ => document@,
    ]);
    a_document_request_is_sent_under_its_name(
        "Insert"@,
        map![
            "collection"@ => JsonTree::Text(collection@),
            "id"@ => JsonTree::Null,
            "document"@ => document@,
        ],
    );
}

/// What is sent by `document_insert_with_id`.
pub proof fn document_insert_with_id_is_sent_as_it_was_asked(
    c: &mut Client,
    collection: &str,
    id: &str,
    document: Json,
    r: Result<Vec<u8>>,
)
    ensures
        call_ensures(Client::document_insert_with_id, (c, collection, id, document), r)
            && document@ is Object ==> sends(
            old(c)@,
            final(c)@,
            JsonTree::Object(
                map![
                    "Document"@ => JsonTree::Object(
                        map![
                            "Insert"@ => JsonTree::Object(
                                map![
                                    "collection"@ => JsonTree::Text(collection@),
                                    "id"@ => JsonTree::Text(id@),
                                    "document"@ => document@,
                                ],
                            ),
                        ],
                    ),
                ],
            ),
            r,
        ),
        call_ensures(Client::document_insert_with_id, (c, collection, id, document), r)
            && !(document@ is Object) ==> declines(old(c)@, final(c)@, not_a_document(), r),
{
    assert(insert_members(collection@, JsonTree::Text(id@), document@) =~= map![
        "collection"@ => JsonTree::Text(collection@),
        "id"@ => JsonTree::Text(id@),
        "document"@ => document@,
    ]);
    a_document_request_is_sent_under_its_name(
        "Insert"@,
        map![
            "collection"@ => JsonTree::Text(collection@),
            "id"@ => JsonTree::Text(id@),
            "document"@ => document@,
        ],
    );
}

/// What is sent by `document_get`, `document_delete`.
pub proof fn document_get_and_its_like_are_sent_as_they_were_asked(
    c: &mut Client,
    collection: &str,
    id: &str,
    r: Result<Vec<u8>>,
)
    ensures
        call_ensures(Client::document_get, (c, collection, id), r) ==> sends(
            old(c)@,
            final(c)@,
            JsonTree::Object(
                map![
                    "Document"@ => JsonTree::Object(
                        map![
                            "Get"@ => JsonTree::Object(
                                map![
                                    "collection"@ => JsonTree::Text(collection@),
                                    "id"@ => JsonTree::Text(id@),
                                ],
                            ),
                        ],
                    ),
                ],
            ),
            r,
        ),
        call_ensures(Client::document_delete, (c, collection, id), r) ==> sends(
            old(c)@,
            final(c)@,
            JsonTree::Object(
                map![
                    "Document"@ => JsonTree::Object(
                        map![
                            "Delete"@ => JsonTree::Object(
                                map![
                                    "collection"@ => JsonTree::Text(collection@),
                                    "id"@ => JsonTree::Text(id@),
                                ],
                            ),
                        ],
                    ),
                ],
            ),
            r,
        ),
{
    assert(Map::<Seq<char>, JsonTree>::empty()
        .insert("collection"@, JsonTree::Text(collection@))
        .insert("id"@, JsonTree::Text(id@)) =~= map![
        "collection"@ => JsonTree::Text(collection@),
        "id"@ => JsonTree::Text(id@),
    ]);
    a_document_request_is_sent_under_its_name(
        "Get"@,
        map!["collection"@ => JsonTree::Text(collection@), "id"@ => JsonTree::Text(id@)],
    );
    a_document_request_is_sent_under_its_name(
        "Delete"@,
        map!["collection"@ => JsonTree::Text(collection@), "id"@ => JsonTree::Text(id@)],
    );
}

/// What is sent by `document_find`.
pub proof fn document_find_is_sent_as_it_was_asked(
    c: &mut Client,
    collection: &str,
    filter: &DocumentFilter,
    r: Result<Vec<u8>>,
)
    ensures
        call_ensures(Client::document_find, (c, collection, filter), r) ==> sends(
            old(c)@,
            final(c)@,
            JsonTree::Object(
                map![
                    "Document"@ => JsonTree::Object(
                        map![
                            "Find"@ => JsonTree::Object(
                                map![
                                    "collection"@ => JsonTree::Text(collection@),
                                    "filter"@ => filter@,
                                    "limit"@ => JsonTree::Null,
                                ],
                            ),
                        ],
                    ),
                ],
            ),
            r,
        ),
{
    assert(find_members(collection@, filter@, JsonTree::Null) =~= map![
        "collection"@ => JsonTree::Text(collection@),
        "filter"@ => filter@,
        "limit"@ => JsonTree::Null,
    ]);
    a_document_request_is_sent_under_its_name(
        "Find"@,
        map![
            "collection"@ => JsonTree::Text(collection@),
            "filter"@ => filter@,
            "limit"@ => JsonTree::Null,
        ],
    );
}

/// What is sent by `document_find_limit`.
pub proof fn document_find_limit_is_sent_as_it_was_asked(
    c: &mut Client,
    collection: &str,
    filter: &DocumentFilter,
    limit: usize,
    r: Result<Vec<u8>>,
)
    ensures
        call_ensures(Client::document_find_limit, (c, collection, filter, limit), r) ==> sends(
            old(c)@,
            final(c)@,
            JsonTree::Object(
                map![
                    "Document"@ => JsonTree::Object(
                        map![
                            "Find"@ => JsonTree::Object(
                                map![
                                    "collection"@ => JsonTree::Text(collection@),
                                    "filter"@ => filter@,
                                    "limit"@ => number_tree(limit as int),
                                ],
                            ),
                        ],
                    ),
                ],
            ),
            r,
        ),
{
    assert(find_members(collection@, filter@, number_tree(limit as int)) =~= map![
        "collection"@ => JsonTree::Text(collection@),
        "filter"@ => filter@,
        "limit"@ => number_tree(limit as int),
    ]);
    a_document_request_is_sent_under_its_name(
        "Find"@,
        map![
            "collection"@ => JsonTree::Text(collection@),
            "filter"@ => filter@,
            "limit"@ => number_tree(limit as int),
        ],
    );
}

/// What is sent by `document_update`.
pub proof fn document_update_is_sent_as_it_was_asked(
    c: &mut Client,
    collection: &str,
    id: &str,
    set: &Object,
    r: Result<Vec<u8>>,
)
    ensures
        call_ensures(Client::document_update, (c, collection, id, set), r) ==> sends(
            old(c)@,
            final(c)@,
            JsonTree::Object(
                map![
                    "Document"@ => JsonTree::Object(
                        map![
                            "Update"@ => JsonTree::Object(
                                map![
                                    "collection"@ => JsonTree::Text(collection@),
                                    "id"@ => JsonTree::Text(id@),
                                    "set"@ => JsonTree::Object(set@),
                                ],
                            ),
                        ],
                    ),
                ],
            ),
            r,
        ),
{
    assert(Map::<Seq<char>, JsonTree>::empty()
        .insert("collection"@, JsonTree::Text(collection@))
        .insert("id"@, JsonTree::Text(id@))
        .insert("set"@, JsonTree::Object(set@)) =~= map![
        "collection"@ => JsonTree::Text(collection@),
        "id"@ => JsonTree::Text(id@),
        "set"@ => JsonTree::Object(set@),
    ]);
    a_document_request_is_sent_under_its_name(
        "Update"@,
        map![
            "collection"@ => JsonTree::Text(collection@),
            "id"@ => JsonTree::Text(id@),
            "set"@ => JsonTree::Object(set@),
        ],
    );
}

/// What is sent by `document_update_one`, `document_upsert_one`.
pub proof fn document_update_one_and_its_like_are_sent_as_they_were_asked(
    c: &mut Client,
    collection: &str,
    id: &str,
    update: &DocumentUpdate,
    r: Result<Vec<u8>>,
)
    ensures
        call_ensures(Client::document_update_one, (c, collection, id, update), r)
            && changes_nothing(update@) ==> declines(old(c)@, final(c)@, empty_update(), r),
        call_ensures(Client::document_update_one, (c, collection, id, update), r)
            && !changes_nothing(update@) ==> sends(
            old(c)@,
            final(c)@,
            JsonTree::Object(
                map![
                    "Document"@ => JsonTree::Object(
                        map![
                            "UpdateOne"@ => JsonTree::Object(
                                map![
                                    "collection"@ => JsonTree::Text(collection@),
                                    "id"@ => JsonTree::Text(id@),
                                    "update"@ => update_tree(update@),
                                    "upsert"@ => JsonTree::Bool(false),
                                ],
                            ),
                        ],
                    ),
                ],
            ),
            r,
        ),
        call_ensures(Client::document_upsert_one, (c, collection, id, update), r)
            && changes_nothing(update@) ==> declines(old(c)@, final(c)@, empty_update(), r),
        call_ensures(Client::document_upsert_one, (c, collection, id, update), r)
            && !changes_nothing(update@) ==> sends(
            old(c)@,
            final(c)@,
            JsonTree::Object(
                map![
                    "Document"@ => JsonTree::Object(
                        map![
                            "UpdateOne"@ => JsonTree::Object(
                                map![
                                    "collection"@ => JsonTree::Text(collection@),
                                    "id"@ => JsonTree::Text(id@),
                                    "update"@ => update_tree(update@),
                                    "upsert"@ => JsonTree::Bool(true),
                                ],
                            ),
                        ],
                    ),
                ],
            ),
            r,
        ),
{
    assert(update_one_members(collection@, id@, update@, false) =~= map![
        "collection"@ => JsonTree::Text(collection@),
        "id"@ => JsonTree::Text(id@),
        "update"@ => update_tree(update@),
        "upsert"@ => JsonTree::Bool(false),
    ]);
    a_document_request_is_sent_under_its_name(
        "UpdateOne"@,
        map![
            "collection"@ => JsonTree::Text(collection@),
            "id"@ => JsonTree::Text(id@),
            "update"@ => update_tree(update@),
            "upsert"@ => JsonTree::Bool(false),
        ],
    );
    assert(update_one_members(collection@, id@, update@, true) =~= map![
        "collection"@ => JsonTree::Text(collection@),
        "id"@ => JsonTree::Text(id@),
        "update"@ => update_tree(update@),
        "upsert"@ => JsonTree::Bool(true),
    ]);
    a_document_request_is_sent_under_its_name(
        "UpdateOne"@,
        map![
            "collection"@ => JsonTree::Text(collection@),
            "id"@ => JsonTree::Text(id@),
            "update"@ => update_tree(update@),
            "upsert"@ => JsonTree::Bool(true),
        ],
    );
}

/// What is sent by `document_update_many`.
pub proof fn document_update_many_is_sent_as_it_was_asked(
    c: &mut Client,
    collection: &str,
    filter: &DocumentFilter,
    update: &DocumentUpdate,
    r: Result<Vec<u8>>,
)
    ensures
        call_ensures(Client::document_update_many, (c, collection, filter, update), r)
            && changes_nothing(update@) ==> declines(old(c)@, final(c)@, empty_update(), r),
        call_ensures(Client::document_update_many, (c, collection, filter, update), r)
            && !changes_nothing(update@) ==> sends(
            old(c)@,
            final(c)@,
            JsonTree::Object(
                map![
                    "Document"@ => JsonTree::Object(
                        map![
                            "UpdateMany"@ => JsonTree::Object(
                                map![
                                    "collection"@ => JsonTree::Text(collection@),
                                    "filter"@ => filter@,
                                    "update"@ => update_tree(update@),
                                ],
                            ),
                        ],
                    ),
                ],
            ),
            r,
        ),
{
    assert(Map::<Seq<char>, JsonTree>::empty()
        .insert("collection"@, JsonTree::Text(collection@))
        .insert("filter"@, filter@)
        .insert("update"@, update_tree(update@)) =~= map![
        "collection"@ => JsonTree::Text(collection@),
        "filter"@ => filter@,
        "update"@ => update_tree(update@),
    ]);
    a_document_request_is_sent_under_its_name(
        "UpdateMany"@,
        map![
            "collection"@ => JsonTree::Text(collection@),
            "filter"@ => filter@,
            "update"@ => update_tree(update@),
        ],
    );
}

/// What is sent by `document_create_index`.
pub proof fn document_create_index_is_sent_as_it_was_asked(
    c: &mut Client,
    collection: &str,
    index_name: &str,
    field: &str,
    unique: bool,
    r: Result<Vec<u8>>,
)
    ensures
        call_ensures(Client::document_create_index, (c, collection, index_name, field, unique), r)
            ==> sends(
            old(c)@,
            final(c)@,
            JsonTree::Object(
                map![
                    "Document"@ => JsonTree::Object(
                        map![
                            "CreateIndex"@ => JsonTree::Object(
                                map![
                                    "collection"@ => JsonTree::Text(collection@),
                                    "index_name"@ => JsonTree::Text(index_name@),
                                    "field"@ => JsonTree::Text(field@),
                                    "unique"@ => JsonTree::Bool(unique),
                                ],
                            ),
                        ],
                    ),
                ],
            ),
            r,
        ),
{
    assert(Map::<Seq<char>, JsonTree>::empty()
        .insert("collection"@, JsonTree::Text(collection@))
        .insert("index_name"@, JsonTree::Text(index_name@))
        .insert("field"@, JsonTree::Text(field@))
        .insert("unique"@, JsonTree::Bool(unique)) =~= map![
        "collection"@ => JsonTree::Text(collection@),
        "index_name"@ => JsonTree::Text(index_name@),
        "field"@ => JsonTree::Text(field@),
        "unique"@ => JsonTree::Bool(unique),
    ]);
    a_document_request_is_sent_under_its_name(
        "CreateIndex"@,
        map![
            "collection"@ => JsonTree::Text(collection@),
            "index_name"@ => JsonTree::Text(index_name@),
            "field"@ => JsonTree::Text(field@),
            "unique"@ => JsonTree::Bool(unique),
        ],
    );
}

/// What is sent by `document_drop_index`.
pub proof fn document_drop_index_is_sent_as_it_was_asked(
    c: &mut Client,
    collection: &str,
    index_name: &str,
    r: Result<Vec<u8>>,
)
    ensures
        call_ensures(Client::document_drop_index, (c, collection, index_name), r) ==> sends(
            old(c)@,
            final(c)@,
            JsonTree::Object(
                map![
                    "Document"@ => JsonTree::Object(
                        map![
                            "DropIndex"@ => JsonTree::Object(
                                map![
                                    "collection"@ => JsonTree::Text(collection@),
                                    "index_name"@ => JsonTree::Text(index_name@),
                                ],
                            ),
                        ],
                    ),
                ],
            ),
            r,
        ),
{
    assert(Map::<Seq<char>, JsonTree>::empty()
        .insert("collection"@, JsonTree::Text(collection@))
        .insert("index_name"@, JsonTree::Text(index_name@)) =~= map![
        "collection"@ => JsonTree::Text(collection@),
        "index_name"@ => JsonTree::Text(index_name@),
    ]);
    a_document_request_is_sent_under_its_name(
        "DropIndex"@,
        map![
            "collection"@ => JsonTree::Text(collection@),
            "index_name"@ => JsonTree::Text(index_name@),
        ],
    );
}

/// What is sent by `document_aggregate`.
pub proof fn document_aggregate_is_sent_as_it_was_asked(
    c: &mut Client,
    collection: &str,
    pipeline: &[AggregateStage],
    r: Result<Vec<u8>>,
)
    ensures
        call_ensures(Client::document_aggregate, (c, collection, pipeline), r) ==> sends(
            old(c)@,
            final(c)@,
            JsonTree::Object(
                map![
                    "Document"@ => JsonTree::Object(
                        map![
                            "Aggregate"@ => JsonTree::Object(
                                map![
                                    "collection"@ => JsonTree::Text(collection@),
                                    "pipeline"@ => JsonTree::Array(wire_views(pipeline@)),
                                ],
                            ),
                        ],
                    ),
                ],
            ),
            r,
        ),
{
    assert(Map::<Seq<char>, JsonTree>::empty()
        .insert("collection"@, JsonTree::Text(collection@))
        .insert("pipeline"@, JsonTree::Array(wire_views(pipeline@))) =~= map![
        "collection"@ => JsonTree::Text(collection@),
        "pipeline"@ => JsonTree::Array(wire_views(pipeline@)),
    ]);
    a_document_request_is_sent_under_its_name(
        "Aggregate"@,
        map![
            "collection"@ => JsonTree::Text(collection@),
            "pipeline"@ => JsonTree::Array(wire_views(pipeline@)),
        ],
    );
}

/// What the answer is to `document_list_collections_reply`. Without a response the
/// failure stands.
pub proof fn document_list_collections_is_answered_by_its_response(
    c: &mut Client,
    reply: Result<Frame>,
    r: Result<Vec<String>>,
)
    ensures
        call_ensures(Client::document_list_collections_reply, (c, reply), r)
            ==> (response_result(reply_view(reply)) matches Ok(x)
                ==> model_view(r) == typed_single::<Vec<String>>(
                x,
                "ListCollections"@,
                "collections"@,
                Seq::empty(),
            )),
        call_ensures(Client::document_list_collections_reply, (c, reply), r)
            ==> (response_result(reply_view(reply)) matches Err(e) ==> r is Err && r->Err_0@ == e),
{
}

/// What the answer is to `document_insert_reply`. Without a response the failure
/// stands.
pub proof fn document_insert_is_answered_by_its_response(
    c: &mut Client,
    reply: Result<Frame>,
    r: Result<String>,
)
    ensures
        call_ensures(Client::document_insert_reply, (c, reply), r)
            ==> (response_result(reply_view(reply)) matches Ok(x)
                ==> model_view(r) == insert_meaning(x)),
        call_ensures(Client::document_insert_reply, (c, reply), r)
            ==> (response_result(reply_view(reply)) matches Err(e) ==> r is Err && r->Err_0@ == e),
{
}

/// What the answer is to `document_get_reply`. Without a response the failure stands.
pub proof fn document_get_is_answered_by_its_response(
    c: &mut Client,
    reply: Result<Frame>,
    r: Result<Option<Document>>,
)
    ensures
        call_ensures(Client::document_get_reply, (c, reply), r)
            ==> (response_result(reply_view(reply)) matches Ok(x)
                ==> model_view(r) == get_meaning(x)),
        call_ensures(Client::document_get_reply, (c, reply), r)
            ==> (response_result(reply_view(reply)) matches Err(e) ==> r is Err && r->Err_0@ == e),
{
}

/// What the answer is to `document_find_reply`, `document_aggregate_reply`. Without a
/// response the failure stands.
pub proof fn document_find_and_its_like_are_answered_by_their_responses(
    c: &mut Client,
    reply: Result<Frame>,
    r: Result<Vec<Document>>,
)
    ensures
        call_ensures(Client::document_find_reply, (c, reply), r)
            ==> (response_result(reply_view(reply)) matches Ok(x)
                ==> model_view(r) == documents_meaning(x, "Find"@)),
        call_ensures(Client::document_aggregate_reply, (c, reply), r)
            ==> (response_result(reply_view(reply)) matches Ok(x)
                ==> model_view(r) == documents_meaning(x, "Aggregate"@)),
        call_ensures(Client::document_find_reply, (c, reply), r)
            || call_ensures(Client::document_aggregate_reply, (c, reply), r)
            ==> (response_result(reply_view(reply)) matches Err(e) ==> r is Err && r->Err_0@ == e),
{
}

/// What the answer is to `document_find_limit_reply`. Without a response the failure
/// stands.
pub proof fn document_find_limit_is_answered_by_its_response(
    c: &mut Client,
    limit: usize,
    reply: Result<Frame>,
    r: Result<Vec<Document>>,
)
    ensures
        call_ensures(Client::document_find_limit_reply, (c, limit, reply), r)
            ==> (response_result(reply_view(reply)) matches Ok(x)
                ==> model_view(r) == limited_meaning(x, limit as nat)),
        call_ensures(Client::document_find_limit_reply, (c, limit, reply), r)
            ==> (response_result(reply_view(reply)) matches Err(e) ==> r is Err && r->Err_0@ == e),
{
}

/// What the answer is to `document_update_one_reply`. Without a response the failure
/// stands.
pub proof fn document_update_one_is_answered_by_its_response(
    c: &mut Client,
    reply: Result<Frame>,
    r: Result<UpdateOne>,
)
    ensures
        call_ensures(Client::document_update_one_reply, (c, reply), r)
            ==> (response_result(reply_view(reply)) matches Ok(x)
                ==> model_view(r) == typed::<UpdateOne>(x, "UpdateOne"@)),
        call_ensures(Client::document_update_one_reply, (c, reply), r)
            ==> (response_result(reply_view(reply)) matches Err(e) ==> r is Err && r->Err_0@ == e),
{
}

/// What the answer is to `document_upsert_one_reply`. Without a response the failure
/// stands.
pub proof fn document_upsert_one_is_answered_by_its_response(
    c: &mut Client,
    reply: Result<Frame>,
    r: Result<bool>,
)
    ensures
        call_ensures(Client::document_upsert_one_reply, (c, reply), r)
            ==> (response_result(reply_view(reply)) matches Ok(x)
                ==> model_view(r) == upsert_meaning(x)),
        call_ensures(Client::document_upsert_one_reply, (c, reply), r)
            ==> (response_result(reply_view(reply)) matches Err(e) ==> r is Err && r->Err_0@ == e),
{
}

/// What the answer is to `document_update_many_reply`. Without a response the failure
/// stands.
pub proof fn document_update_many_is_answered_by_its_response(
    c: &mut Client,
    reply: Result<Frame>,
    r: Result<UpdateCounts>,
)
    ensures
        call_ensures(Client::document_update_many_reply, (c, reply), r)
            ==> (response_result(reply_view(reply)) matches Ok(x)
                ==> model_view(r) == typed::<UpdateCounts>(x, "UpdateMany"@)),
        call_ensures(Client::document_update_many_reply, (c, reply), r)
            ==> (response_result(reply_view(reply)) matches Err(e) ==> r is Err && r->Err_0@ == e),
{
}

/// What the answer is to `document_list_indexes_reply`. Without a response the failure
/// stands.
pub proof fn document_list_indexes_is_answered_by_its_response(
    c: &mut Client,
    reply: Result<Frame>,
    r: Result<Vec<DocumentIndex>>,
)
    ensures
        call_ensures(Client::document_list_indexes_reply, (c, reply), r)
            ==> (response_result(reply_view(reply)) matches Ok(x)
                ==> model_view(r) == typed_single::<Vec<DocumentIndex>>(
                x,
                "ListIndexes"@,
                "indexes"@,
                Seq::empty(),
            )),
        call_ensures(Client::document_list_indexes_reply, (c, reply), r)
            ==> (response_result(reply_view(reply)) matches Err(e) ==> r is Err && r->Err_0@ == e),
{
}

/// What the answer is to `document_analyze_reply`. Without a response the failure
/// stands.
pub proof fn document_analyze_is_answered_by_its_response(
    c: &mut Client,
    reply: Result<Frame>,
    r: Result<DocumentStats>,
)
    ensures
        call_ensures(Client::document_analyze_reply, (c, reply), r)
            ==> (response_result(reply_view(reply)) matches Ok(x)
                ==> model_view(r) == typed::<DocumentStats>(x, "Analyze"@)),
        call_ensures(Client::document_analyze_reply, (c, reply), r)
            ==> (response_result(reply_view(reply)) matches Err(e) ==> r is Err && r->Err_0@ == e),
{
}

/// What the filters on one field are sent as: each under its own name, with the field
/// and the value.
pub proof fn filters_on_a_field_are_sent_by_name(field: &str, value: Json, f: DocumentFilter)
    ensures
        call_ensures(DocumentFilter::eq, (field, value), f) ==> f@ == JsonTree::Object(
            map![
                "Eq"@ => JsonTree::Object(
                    map!["field"@ => JsonTree::Text(field@), "value"@ => value@],
                ),
            ],
        ),
        call_ensures(DocumentFilter::ne, (field, value), f) ==> f@ == JsonTree::Object(
            map![
                "Ne"@ => JsonTree::Object(
                    map!["field"@ => JsonTree::Text(field@), "value"@ => value@],
                ),
            ],
        ),
        call_ensures(DocumentFilter::gt, (field, value), f) ==> f@ == JsonTree::Object(
            map![
                "Gt"@ => JsonTree::Object(
                    map!["field"@ => JsonTree::Text(field@), "value"@ => value@],
                ),
            ],
        ),
        call_ensures(DocumentFilter::gte, (field, value), f) ==> f@ == JsonTree::Object(
            map![
                "Gte"@ => JsonTree::Object(
                    map!["field"@ => JsonTree::Text(field@), "value"@ => value@],
                ),
            ],
        ),
        call_ensures(DocumentFilter::lt, (field, value), f) ==> f@ == JsonTree::Object(
            map![
                "Lt"@ => JsonTree::Object(
                    map!["field"@ => JsonTree::Text(field@), "value"@ => value@],
                ),
            ],
        ),
        call_ensures(DocumentFilter::lte, (field, value), f) ==> f@ == JsonTree::Object(
            map![
                "Lte"@ => JsonTree::Object(
                    map!["field"@ => JsonTree::Text(field@), "value"@ => value@],
                ),
            ],
        ),
        call_ensures(DocumentFilter::contains, (field, value), f) ==> f@ == JsonTree::Object(
            map![
                "Contains"@ => JsonTree::Object(
                    map!["field"@ => JsonTree::Text(field@), "value"@ => value@],
                ),
            ],
        ),
{
    a_field_filter_names_its_field("Eq"@, field@, value@);
    a_field_filter_names_its_field("Ne"@, field@, value@);
    a_field_filter_names_its_field("Gt"@, field@, value@);
    a_field_filter_names_its_field("Gte"@, field@, value@);
    a_field_filter_names_its_field("Lt"@, field@, value@);
    a_field_filter_names_its_field("Lte"@, field@, value@);
    a_field_filter_names_its_field("Contains"@, field@, value@);
}

/// What the other filters are sent as.
pub proof fn other_filters_are_sent_by_name(
    field: &str,
    values: Vec<Json>,
    filters: &[DocumentFilter],
    f: DocumentFilter,
    i: int,
)
    ensures
        call_ensures(DocumentFilter::all, (), f) ==> f@ == JsonTree::Text("All"@),
        call_ensures(DocumentFilter::is_in, (field, values), f) ==> f@ == JsonTree::Object(
            map![
                "In"@ => JsonTree::Object(
                    map![
                        "field"@ => JsonTree::Text(field@),
                        "values"@ => JsonTree::Array(trees(values@)),
                    ],
                ),
            ],
        ),
        call_ensures(DocumentFilter::and, (filters,), f) ==> f@ == JsonTree::Object(
            map!["And"@ => JsonTree::Array(wire_views(filters@))],
        ),
        0 <= i < filters@.len() ==> wire_views(filters@)[i] == filters@[i]@,
{
    let body = map![
        "field"@ => JsonTree::Text(field@),
        "values"@ => JsonTree::Array(trees(values@)),
    ];
    assert(no_members().insert("field"@, JsonTree::Text(field@)).insert(
        "values"@,
        JsonTree::Array(trees(values@)),
    ) =~= body);
    crate::json::a_wrapped_value_is_the_only_member("In"@, JsonTree::Object(body), "In"@);
    crate::json::a_wrapped_value_is_the_only_member(
        "And"@,
        JsonTree::Array(wire_views(filters@)),
        "And"@,
    );
}

/// What an update holds after each step of building it.
pub proof fn an_update_grows_step_by_step(
    u: DocumentUpdate,
    path: &str,
    value: Json,
    v: DocumentUpdate,
    b: bool,
)
    ensures
        call_ensures(DocumentUpdate::new, (), v) ==> v.set@ == no_members() && v.inc@
            == no_members(),
        call_ensures(DocumentUpdate::set, (u, path, value), v) ==> v.set@ == u.set@.insert(
            path@,
            value@,
        ) && v.inc@ == u.inc@,
        call_ensures(DocumentUpdate::inc, (u, path, value), v) ==> v.inc@ == u.inc@.insert(
            path@,
            value@,
        ) && v.set@ == u.set@,
        call_ensures(DocumentUpdate::is_empty, (&u,), b) ==> (b <==> u.set@ == no_members()
            && u.inc@ == no_members()),
{
    if call_ensures(DocumentUpdate::new, (), v) {
        assert(v@.set == no_members() && v@.inc == no_members());
    }
    if call_ensures(DocumentUpdate::set, (u, path, value), v) {
        assert(v@.set == u@.set.insert(path@, value@) && v@.inc == u@.inc);
    }
    if call_ensures(DocumentUpdate::inc, (u, path, value), v) {
        assert(v@.inc == u@.inc.insert(path@, value@) && v@.set == u@.set);
    }
}

/// What keys and reductions are sent as.
pub proof fn keys_and_reductions_are_sent_by_name(
    path: &str,
    value: Json,
    k: GroupKey,
    op: AccumulatorOp,
    given: AccumulatorOp,
    a: GroupAccumulator,
    s: SortKey,
)
    ensures
        call_ensures(GroupKey::field, (path,), k) ==> k@ == JsonTree::Object(
            map!["Field"@ => JsonTree::Text(path@)],
        ),
        call_ensures(GroupKey::constant, (value,), k) ==> k@ == JsonTree::Object(
            map!["Constant"@ => value@],
        ),
        call_ensures(AccumulatorOp::sum, (path,), op) ==> op@ == JsonTree::Object(
            map!["Sum"@ => JsonTree::Text(path@)],
        ),
        call_ensures(AccumulatorOp::avg, (path,), op) ==> op@ == JsonTree::Object(
            map!["Avg"@ => JsonTree::Text(path@)],
        ),
        call_ensures(AccumulatorOp::min, (path,), op) ==> op@ == JsonTree::Object(
            map!["Min"@ => JsonTree::Text(path@)],
        ),
        call_ensures(AccumulatorOp::max, (path,), op) ==> op@ == JsonTree::Object(
            map!["Max"@ => JsonTree::Text(path@)],
        ),
        call_ensures(AccumulatorOp::count, (), op) ==> op@ == JsonTree::Text("Count"@),
        call_ensures(GroupAccumulator::new, (path, given), a) ==> a.output@ == path@ && a.op
            == given,
        call_ensures(SortKey::ascending, (path,), s) ==> s.field@ == path@ && !s.descending,
        call_ensures(SortKey::descending, (path,), s) ==> s.field@ == path@ && s.descending,
{
    crate::json::a_wrapped_value_is_the_only_member("Field"@, JsonTree::Text(path@), "Field"@);
    crate::json::a_wrapped_value_is_the_only_member("Constant"@, value@, "Constant"@);
    crate::json::a_wrapped_value_is_the_only_member("Sum"@, JsonTree::Text(path@), "Sum"@);
    crate::json::a_wrapped_value_is_the_only_member("Avg"@, JsonTree::Text(path@), "Avg"@);
    crate::json::a_wrapped_value_is_the_only_member("Min"@, JsonTree::Text(path@), "Min"@);
    crate::json::a_wrapped_value_is_the_only_member("Max"@, JsonTree::Text(path@), "Max"@);
}

/// What the stages of a pipeline are sent as.
pub proof fn stages_are_sent_by_name(
    filter: &DocumentFilter,
    by: &GroupKey,
    accumulators: &[GroupAccumulator],
    keys: &[SortKey],
    n: usize,
    fields: &[&str],
    kept: bool,
    field: &str,
    s: AggregateStage,
)
    ensures
        call_ensures(AggregateStage::filter, (filter,), s) ==> s@ == JsonTree::Object(
            map!["Match"@ => filter@],
        ),
        call_ensures(AggregateStage::group, (by, accumulators), s) ==> s@ == JsonTree::Object(
            map![
                "Group"@ => JsonTree::Object(
                    map![
                        "by"@ => by@,
                        "accumulators"@ => JsonTree::Array(wire_views(accumulators@)),
                    ],
                ),
            ],
        ),
        call_ensures(AggregateStage::sort, (keys,), s) ==> s@ == JsonTree::Object(
            map!["Sort"@ => JsonTree::Array(wire_views(keys@))],
        ),
        call_ensures(AggregateStage::skip, (n,), s) ==> s@ == JsonTree::Object(
            map!["Skip"@ => number_tree(n as int)],
        ),
        call_ensures(AggregateStage::limit, (n,), s) ==> s@ == JsonTree::Object(
            map!["Limit"@ => number_tree(n as int)],
        ),
        call_ensures(AggregateStage::project, (fields, kept), s) ==> s@ == JsonTree::Object(
            map![
                "Project"@ => JsonTree::Object(
                    map!["fields"@ => texts_tree(fields@), "include"@ => JsonTree::Bool(kept)],
                ),
            ],
        ),
        call_ensures(AggregateStage::count, (field,), s) ==> s@ == JsonTree::Object(
            map!["Count"@ => JsonTree::Object(map!["field"@ => JsonTree::Text(field@)])],
        ),
{
    let group = map![
        "by"@ => by@,
        "accumulators"@ => JsonTree::Array(wire_views(accumulators@)),
    ];
    assert(no_members().insert("by"@, by@).insert(
        "accumulators"@,
        JsonTree::Array(wire_views(accumulators@)),
    ) =~= group);
    let shown = map!["fields"@ => texts_tree(fields@), "include"@ => JsonTree::Bool(kept)];
    assert(no_members().insert("fields"@, texts_tree(fields@)).insert(
        "include"@,
        JsonTree::Bool(kept),
    ) =~= shown);
    let counted = JsonTree::Object(map!["field"@ => JsonTree::Text(field@)]);
    crate::json::a_wrapped_value_is_the_only_member("Match"@, filter@, "Match"@);
    crate::json::a_wrapped_value_is_the_only_member("Group"@, JsonTree::Object(group), "Group"@);
    crate::json::a_wrapped_value_is_the_only_member(
        "Sort"@,
        JsonTree::Array(wire_views(keys@)),
        "Sort"@,
    );
    crate::json::a_wrapped_value_is_the_only_member("Skip"@, number_tree(n as int), "Skip"@);
    crate::json::a_wrapped_value_is_the_only_member("Limit"@, number_tree(n as int), "Limit"@);
    crate::json::a_wrapped_value_is_the_only_member(
        "Project"@,
        JsonTree::Object(shown),
        "Project"@,
    );
    crate::json::a_wrapped_value_is_the_only_member("field"@, JsonTree::Text(field@), "field"@);
    crate::json::a_wrapped_value_is_the_only_member("Count"@, counted, "Count"@);
}

} // verus!
