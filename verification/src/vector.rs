//! Vectors: fixed-dimension collections, similarity search and metadata
//! filters.
//!
//! Each operation is a method that returns the frame to write, and a `_reply`
//! that takes the answer. Where an operation has none, any response is the
//! answer: see [`Client::reply`].

use crate::client::Client;
#[allow(unused_imports)]
use crate::client::{answered, model_view, reply_view, response_result, sends};
use crate::decode;
use crate::decode::Decode;
#[allow(unused_imports)]
use crate::error::ErrorView;
use crate::error::Result;
use crate::frame::Frame;
use crate::json::{Json, JsonTree, Number, Object};
#[allow(unused_imports)]
use crate::json::{no_members, number_tree, optional_members, positive_tree, put_members, trees, wrapped};
use crate::params::Float;
#[allow(unused_imports)]
use crate::params::float_tree;
#[allow(unused_imports)]
use crate::response::{typed, typed_single, ResponseView};
use crate::text;
use vstd::prelude::*;

verus! {

/// How a collection measures closeness. Fixed when the collection is created.
#[derive(Debug, Clone, Copy, PartialEq, Eq, Structural)]
pub enum VectorMetric {
    /// Cosine similarity: higher is closer.
    Cosine,
    /// Dot product: higher is closer.
    Dot,
    /// Squared Euclidean distance, **returned negated** so that higher is still
    /// closer. An l2 score is therefore `<= 0`, and `-0.02` is nearer than
    /// `-196.0`. See [`VectorHit::score`].
    L2,
}

/// The server's spelling of it.
pub open spec fn metric_name(x: VectorMetric) -> Seq<char> {
    match x {
        VectorMetric::Cosine => "cosine"@,
        VectorMetric::Dot => "dot"@,
        VectorMetric::L2 => "l2"@,
    }
}

impl Default for VectorMetric {
    fn default() -> (x: VectorMetric)
        ensures
            x == VectorMetric::Cosine,
    {
        VectorMetric::Cosine
    }
}

impl VectorMetric {
    /// The server's spelling of it.
    pub fn name(self) -> (s: &'static str)
        ensures
            s@ == metric_name(self),
    {
        match self {
            VectorMetric::Cosine => "cosine",
            VectorMetric::Dot => "dot",
            VectorMetric::L2 => "l2",
        }
    }

    /// Its form on the wire.
    pub fn wire(self) -> (j: Json)
        ensures
            j@ == JsonTree::Text(metric_name(self)),
    {
        Json::text(self.name())
    }
}

impl Decode for VectorMetric {
    type V = VectorMetric;

    open spec fn decoded(t: JsonTree) -> Option<VectorMetric> {
        match decode::unit_name(t) {
            Some(s) => if s == "cosine"@ {
                Some(VectorMetric::Cosine)
            } else if s == "dot"@ {
                Some(VectorMetric::Dot)
            } else if s == "l2"@ {
                Some(VectorMetric::L2)
            } else {
                None
            },
            None => None,
        }
    }

    open spec fn model(&self) -> VectorMetric {
        *self
    }

    fn decode(j: &Json) -> (r: Option<VectorMetric>) {
        let s = decode::read_unit_name(j)?;
        if text::same(s, "cosine") {
            Some(VectorMetric::Cosine)
        } else if text::same(s, "dot") {
            Some(VectorMetric::Dot)
        } else if text::same(s, "l2") {
            Some(VectorMetric::L2)
        } else {
            None
        }
    }
}

/// What is written for it is read back as itself.
pub proof fn metric_name_reads_back(x: VectorMetric)
    ensures
        VectorMetric::decoded(JsonTree::Text(metric_name(x))) == Some(x),
{
    reveal_strlit("cosine");
    reveal_strlit("dot");
    reveal_strlit("l2");
    assert("cosine"@.len() != "dot"@.len());
    assert("cosine"@.len() != "l2"@.len());
    assert("dot"@.len() != "l2"@.len());
}

/// How the search index stores vectors in memory.
///
/// This is an index-level choice only: the durable records always keep full
/// precision, so [`Client::vector_get`] returns byte-identical values either way.
#[derive(Debug, Clone, Copy, PartialEq, Eq, Structural)]
pub enum VectorQuantization {
    /// Full 32-bit float vectors in the index. The default.
    Unquantized,
    /// `int8`-quantized vectors in the index, roughly four times smaller, with
    /// candidates re-ranked against the durable full-precision vectors.
    Int8,
}

/// The server's spelling of it.
pub open spec fn quantization_name(x: VectorQuantization) -> Seq<char> {
    match x {
        VectorQuantization::Unquantized => "none"@,
        VectorQuantization::Int8 => "int8"@,
    }
}

impl Default for VectorQuantization {
    fn default() -> (x: VectorQuantization)
        ensures
            x == VectorQuantization::Unquantized,
    {
        VectorQuantization::Unquantized
    }
}

impl VectorQuantization {
    /// The server's spelling of it.
    pub fn name(self) -> (s: &'static str)
        ensures
            s@ == quantization_name(self),
    {
        match self {
            VectorQuantization::Unquantized => "none",
            VectorQuantization::Int8 => "int8",
        }
    }

    /// Its form on the wire.
    pub fn wire(self) -> (j: Json)
        ensures
            j@ == JsonTree::Text(quantization_name(self)),
    {
        Json::text(self.name())
    }
}

impl Decode for VectorQuantization {
    type V = VectorQuantization;

    open spec fn decoded(t: JsonTree) -> Option<VectorQuantization> {
        match decode::unit_name(t) {
            Some(s) => if s == "none"@ {
                Some(VectorQuantization::Unquantized)
            } else if s == "int8"@ {
                Some(VectorQuantization::Int8)
            } else {
                None
            },
            None => None,
        }
    }

    open spec fn model(&self) -> VectorQuantization {
        *self
    }

    fn decode(j: &Json) -> (r: Option<VectorQuantization>) {
        let s = decode::read_unit_name(j)?;
        if text::same(s, "none") {
            Some(VectorQuantization::Unquantized)
        } else if text::same(s, "int8") {
            Some(VectorQuantization::Int8)
        } else {
            None
        }
    }
}

/// What is written for it is read back as itself.
pub proof fn quantization_name_reads_back(x: VectorQuantization)
    ensures
        VectorQuantization::decoded(JsonTree::Text(quantization_name(x))) == Some(x),
{
    reveal_strlit("none");
    reveal_strlit("int8");
    assert("none"@[0] != "int8"@[0]);
}

/// One stored vector and its metadata.
#[derive(Debug, Clone, PartialEq)]
pub struct VectorItem {
    /// The vector's id.
    pub id: String,
    /// The vector itself.
    pub vector: Vec<Number>,
    /// Metadata stored alongside it.
    pub metadata: Object,
}

/// What a [`VectorItem`] holds.
#[verifier::ext_equal]
pub struct VectorItemView {
    pub id: Seq<char>,
    pub vector: Seq<Seq<char>>,
    pub metadata: Map<Seq<char>, JsonTree>,
}

impl Decode for VectorItem {
    type V = VectorItemView;

    open spec fn decoded(t: JsonTree) -> Option<VectorItemView> {
        let id = decode::required::<String>(t, 0, "id"@);
        let vector = decode::or_null::<Vec<Number>>(t, 1, "vector"@, Seq::empty());
        let metadata = decode::or_null::<Object>(t, 2, "metadata"@, no_members());
        if decode::is_record(t, 3) && id is Some && vector is Some && metadata is Some {
            Some(
                VectorItemView {
                    id: id->0,
                    vector: vector->0,
                    metadata: metadata->0,
                },
            )
        } else {
            None
        }
    }

    open spec fn model(&self) -> VectorItemView {
        VectorItemView {
            id: self.id.model(),
            vector: self.vector.model(),
            metadata: self.metadata.model(),
        }
    }

    fn decode(j: &Json) -> (r: Option<VectorItem>) {
        if !decode::check_record(j, 3) {
            return None;
        }
        let id = decode::take::<String>(j, 0, "id")?;
        let no_vector: Vec<Number> = Vec::new();
        assert(no_vector.model() =~= Seq::<Seq<char>>::empty());
        let vector = decode::take_or_null::<Vec<Number>>(j, 1, "vector", no_vector)?;
        let metadata = decode::take_or_null::<Object>(j, 2, "metadata", Object::new())?;
        Some(VectorItem { id, vector, metadata })
    }
}

/// One search result.
///
/// The score is a similarity, never a distance: **higher is closer under every
/// metric**, and results come back best first. Sorting these ascending, or
/// reading the score as a distance, inverts an l2 ranking while a "is the
/// expected id in the top k" check still passes.
#[derive(Debug, Clone, PartialEq)]
pub struct VectorHit {
    /// The matching vector's id.
    pub id: String,
    /// Its similarity to the query vector.
    pub score: Number,
    /// Its metadata.
    pub metadata: Object,
}

/// What a [`VectorHit`] holds.
#[verifier::ext_equal]
pub struct VectorHitView {
    pub id: Seq<char>,
    pub score: Seq<char>,
    pub metadata: Map<Seq<char>, JsonTree>,
}

impl Decode for VectorHit {
    type V = VectorHitView;

    open spec fn decoded(t: JsonTree) -> Option<VectorHitView> {
        let id = decode::required::<String>(t, 0, "id"@);
        let score = decode::or_absent::<Number>(t, 1, "score"@, "0.0"@);
        let metadata = decode::or_null::<Object>(t, 2, "metadata"@, no_members());
        if decode::is_record(t, 3) && id is Some && score is Some && metadata is Some {
            Some(
                VectorHitView {
                    id: id->0,
                    score: score->0,
                    metadata: metadata->0,
                },
            )
        } else {
            None
        }
    }

    open spec fn model(&self) -> VectorHitView {
        VectorHitView {
            id: self.id.model(),
            score: self.score.model(),
            metadata: self.metadata.model(),
        }
    }

    fn decode(j: &Json) -> (r: Option<VectorHit>) {
        if !decode::check_record(j, 3) {
            return None;
        }
        let id = decode::take::<String>(j, 0, "id")?;
        let no_score = decode::zero();
        let score = decode::take_or::<Number>(j, 1, "score", no_score)?;
        let metadata = decode::take_or_null::<Object>(j, 2, "metadata", Object::new())?;
        Some(VectorHit { id, score, metadata })
    }
}

/// A search's hits, and which path answered it.
#[derive(Debug, Clone, PartialEq)]
pub struct VectorSearchResult {
    /// The hits, best first.
    pub results: Vec<VectorHit>,
    /// `"flat"` for the exact scan a small collection gets, `"hnsw"` or
    /// `"hnsw-int8"` for the approximate index.
    pub index: String,
}

/// What a [`VectorSearchResult`] holds.
#[verifier::ext_equal]
pub struct VectorSearchResultView {
    pub results: Seq<VectorHitView>,
    pub index: Seq<char>,
}

impl Decode for VectorSearchResult {
    type V = VectorSearchResultView;

    open spec fn decoded(t: JsonTree) -> Option<VectorSearchResultView> {
        let results = decode::or_null::<Vec<VectorHit>>(t, 0, "results"@, Seq::empty());
        let index = decode::or_absent::<String>(t, 1, "index"@, Seq::empty());
        if decode::is_record(t, 2) && results is Some && index is Some {
            Some(
                VectorSearchResultView {
                    results: results->0,
                    index: index->0,
                },
            )
        } else {
            None
        }
    }

    open spec fn model(&self) -> VectorSearchResultView {
        VectorSearchResultView {
            results: self.results.model(),
            index: self.index.model(),
        }
    }

    fn decode(j: &Json) -> (r: Option<VectorSearchResult>) {
        if !decode::check_record(j, 2) {
            return None;
        }
        let no_results: Vec<VectorHit> = Vec::new();
        assert(no_results.model() =~= Seq::<VectorHitView>::empty());
        let results = decode::take_or_null::<Vec<VectorHit>>(j, 0, "results", no_results)?;
        let index = decode::take_or::<String>(j, 1, "index", String::new())?;
        Some(VectorSearchResult { results, index })
    }
}

/// One entry of [`Client::vector_list_collections`].
#[derive(Debug, Clone, PartialEq, Eq)]
pub struct VectorCollectionSummary {
    /// The collection's name.
    pub name: String,
    /// The length every vector in it must have.
    pub dimension: usize,
    /// The metric searches rank by.
    pub metric: VectorMetric,
}

/// What a [`VectorCollectionSummary`] holds.
#[verifier::ext_equal]
pub struct VectorCollectionSummaryView {
    pub name: Seq<char>,
    pub dimension: usize,
    pub metric: VectorMetric,
}

impl Decode for VectorCollectionSummary {
    type V = VectorCollectionSummaryView;

    open spec fn decoded(t: JsonTree) -> Option<VectorCollectionSummaryView> {
        let name = decode::required::<String>(t, 0, "name"@);
        let dimension = decode::or_absent::<usize>(t, 1, "dimension"@, 0);
        let metric = decode::or_absent::<VectorMetric>(t, 2, "metric"@, VectorMetric::Cosine);
        if decode::is_record(t, 3) && name is Some && dimension is Some && metric is Some {
            Some(
                VectorCollectionSummaryView {
                    name: name->0,
                    dimension: dimension->0,
                    metric: metric->0,
                },
            )
        } else {
            None
        }
    }

    open spec fn model(&self) -> VectorCollectionSummaryView {
        VectorCollectionSummaryView {
            name: self.name.model(),
            dimension: self.dimension.model(),
            metric: self.metric.model(),
        }
    }

    fn decode(j: &Json) -> (r: Option<VectorCollectionSummary>) {
        if !decode::check_record(j, 3) {
            return None;
        }
        let name = decode::take::<String>(j, 0, "name")?;
        let dimension = decode::take_or::<usize>(j, 1, "dimension", 0)?;
        let metric = decode::take_or::<VectorMetric>(j, 2, "metric", VectorMetric::Cosine)?;
        Some(VectorCollectionSummary { name, dimension, metric })
    }
}

/// A collection's metadata and its live vector count.
#[derive(Debug, Clone, PartialEq, Eq)]
pub struct VectorCollectionInfo {
    /// The collection's name.
    pub collection: String,
    /// The length every vector in it must have.
    pub dimension: usize,
    /// The metric searches rank by.
    pub metric: VectorMetric,
    /// How many vectors are stored.
    pub count: i64,
    /// The index quantization the collection was created with.
    pub quantization: VectorQuantization,
}

/// What a [`VectorCollectionInfo`] holds.
#[verifier::ext_equal]
pub struct VectorCollectionInfoView {
    pub collection: Seq<char>,
    pub dimension: usize,
    pub metric: VectorMetric,
    pub count: i64,
    pub quantization: VectorQuantization,
}

impl Decode for VectorCollectionInfo {
    type V = VectorCollectionInfoView;

    open spec fn decoded(t: JsonTree) -> Option<VectorCollectionInfoView> {
        let collection = decode::required::<String>(t, 0, "collection"@);
        let dimension = decode::or_absent::<usize>(t, 1, "dimension"@, 0);
        let metric = decode::or_absent::<VectorMetric>(t, 2, "metric"@, VectorMetric::Cosine);
        let count = decode::or_absent::<i64>(t, 3, "count"@, 0);
        let quantization = decode::or_absent::<VectorQuantization>(
            t,
            4,
            "quantization"@,
            VectorQuantization::Unquantized,
        );
        if decode::is_record(t, 5) && collection is Some && dimension is Some && metric is Some
            && count is Some && quantization is Some {
            Some(
                VectorCollectionInfoView {
                    collection: collection->0,
                    dimension: dimension->0,
                    metric: metric->0,
                    count: count->0,
                    quantization: quantization->0,
                },
            )
        } else {
            None
        }
    }

    open spec fn model(&self) -> VectorCollectionInfoView {
        VectorCollectionInfoView {
            collection: self.collection.model(),
            dimension: self.dimension.model(),
            metric: self.metric.model(),
            count: self.count.model(),
            quantization: self.quantization.model(),
        }
    }

    fn decode(j: &Json) -> (r: Option<VectorCollectionInfo>) {
        if !decode::check_record(j, 5) {
            return None;
        }
        let collection = decode::take::<String>(j, 0, "collection")?;
        let dimension = decode::take_or::<usize>(j, 1, "dimension", 0)?;
        let metric = decode::take_or::<VectorMetric>(j, 2, "metric", VectorMetric::Cosine)?;
        let count = decode::take_or::<i64>(j, 3, "count", 0)?;
        let quantization = decode::take_or::<VectorQuantization>(
            j,
            4,
            "quantization",
            VectorQuantization::Unquantized,
        )?;
        Some(VectorCollectionInfo { collection, dimension, metric, count, quantization })
    }
}

/// One page of [`Client::vector_list_vectors`].
#[derive(Debug, Clone, PartialEq)]
pub struct VectorPage {
    /// The collection's name.
    pub collection: String,
    /// How many vectors are on this page.
    pub count: usize,
    /// This page's vectors.
    pub vectors: Vec<VectorItem>,
    /// Whether more vectors remain past this page.
    pub truncated: bool,
    /// The collection's full count.
    pub total: i64,
}

/// What a [`VectorPage`] holds.
#[verifier::ext_equal]
pub struct VectorPageView {
    pub collection: Seq<char>,
    pub count: usize,
    pub vectors: Seq<VectorItemView>,
    pub truncated: bool,
    pub total: i64,
}

impl Decode for VectorPage {
    type V = VectorPageView;

    open spec fn decoded(t: JsonTree) -> Option<VectorPageView> {
        let collection = decode::required::<String>(t, 0, "collection"@);
        let count = decode::or_absent::<usize>(t, 1, "count"@, 0);
        let vectors = decode::or_null::<Vec<VectorItem>>(t, 2, "vectors"@, Seq::empty());
        let truncated = decode::or_absent::<bool>(t, 3, "truncated"@, false);
        let total = decode::or_absent::<i64>(t, 4, "total"@, 0);
        if decode::is_record(t, 5) && collection is Some && count is Some && vectors is Some
            && truncated is Some && total is Some {
            Some(
                VectorPageView {
                    collection: collection->0,
                    count: count->0,
                    vectors: vectors->0,
                    truncated: truncated->0,
                    total: total->0,
                },
            )
        } else {
            None
        }
    }

    open spec fn model(&self) -> VectorPageView {
        VectorPageView {
            collection: self.collection.model(),
            count: self.count.model(),
            vectors: self.vectors.model(),
            truncated: self.truncated.model(),
            total: self.total.model(),
        }
    }

    fn decode(j: &Json) -> (r: Option<VectorPage>) {
        if !decode::check_record(j, 5) {
            return None;
        }
        let collection = decode::take::<String>(j, 0, "collection")?;
        let count = decode::take_or::<usize>(j, 1, "count", 0)?;
        let no_vectors: Vec<VectorItem> = Vec::new();
        assert(no_vectors.model() =~= Seq::<VectorItemView>::empty());
        let vectors = decode::take_or_null::<Vec<VectorItem>>(j, 2, "vectors", no_vectors)?;
        let truncated = decode::take_or::<bool>(j, 3, "truncated", false)?;
        let total = decode::take_or::<i64>(j, 4, "total", 0)?;
        Some(VectorPage { collection, count, vectors, truncated, total })
    }
}

/// A vector operation.
pub open spec fn vector_op(variant: Seq<char>, body: Map<Seq<char>, JsonTree>) -> JsonTree {
    wrapped("Vector"@, wrapped(variant, JsonTree::Object(body)))
}

fn op(variant: &str, body: Object) -> (j: Json)
    ensures
        j@ == vector_op(variant@, body@),
{
    Json::wrap("Vector", Json::wrap(variant, Json::Object(body)))
}

/// A vector on the wire.
pub open spec fn vector_tree(vector: Seq<Float>) -> JsonTree {
    JsonTree::Array(Seq::new(vector.len(), |i: int| float_tree(vector[i]@)))
}

fn wire_vector(vector: &[Float]) -> (j: Json)
    ensures
        j@ == vector_tree(vector@),
{
    let mut out: Vec<Json> = Vec::new();
    let mut i: usize = 0;
    while i < vector.len()
        invariant
            i <= vector@.len(),
            out@.len() == i,
            forall|k: int| 0 <= k < i ==> #[trigger] out@[k].tree() == float_tree(vector@[k]@),
        decreases vector@.len() - i,
    {
        out.push(vector[i].wire());
        i = i + 1;
    }
    assert(trees(out@) =~= vector_tree(vector@)->Array_0);
    Json::array(out)
}

/// A metadata filter on the wire: an empty one is none.
pub open spec fn filter_tree(filter: Map<Seq<char>, JsonTree>) -> JsonTree {
    if filter == no_members() {
        JsonTree::Null
    } else {
        JsonTree::Object(filter)
    }
}

/// The members of a search.
pub open spec fn search_members(
    collection: Seq<char>,
    vector: JsonTree,
    top_k: usize,
    filter: JsonTree,
) -> Map<Seq<char>, JsonTree> {
    no_members().insert("collection"@, JsonTree::Text(collection)).insert("vector"@, vector).insert(
        "top_k"@,
        number_tree(top_k as int),
    ).insert("filter"@, filter)
}

/// The members of the creation of a collection.
pub open spec fn create_members(
    collection: Seq<char>,
    dimension: usize,
    metric: VectorMetric,
    quantization: VectorQuantization,
) -> Map<Seq<char>, JsonTree> {
    no_members().insert("collection"@, JsonTree::Text(collection)).insert(
        "dimension"@,
        number_tree(dimension as int),
    ).insert("metric"@, JsonTree::Text(metric_name(metric))).insert(
        "quantization"@,
        JsonTree::Text(quantization_name(quantization)),
    )
}

impl Client {
    /// Create a collection. The dimension and metric are fixed for its
    /// lifetime.
    pub fn vector_create_collection(
        &mut self,
        collection: &str,
        dimension: usize,
        metric: VectorMetric,
    ) -> (r: Result<Vec<u8>>)
        requires
            old(self)@.request_counter < u64::MAX,
        ensures
            sends(
                old(self)@,
                final(self)@,
                vector_op(
                    "CreateCollection"@,
                    create_members(collection@, dimension, metric, VectorQuantization::Unquantized),
                ),
                r,
            ),
    {
        self.vector_create_collection_quantized(
            collection,
            dimension,
            metric,
            VectorQuantization::Unquantized,
        )
    }

    /// Create a collection with an explicit index quantization.
    pub fn vector_create_collection_quantized(
        &mut self,
        collection: &str,
        dimension: usize,
        metric: VectorMetric,
        quantization: VectorQuantization,
    ) -> (r: Result<Vec<u8>>)
        requires
            old(self)@.request_counter < u64::MAX,
        ensures
            sends(
                old(self)@,
                final(self)@,
                vector_op(
                    "CreateCollection"@,
                    create_members(collection@, dimension, metric, quantization),
                ),
                r,
            ),
    {
        self.send(
            op(
                "CreateCollection",
                Object::new().with("collection", Json::text(collection)).with(
                    "dimension",
                    Json::unsigned(dimension as u64),
                ).with("metric", metric.wire()).with("quantization", quantization.wire()),
            ),
        )
    }

    /// Drop a collection and every vector in it. Dropping one that does not
    /// exist is an error.
    pub fn vector_drop_collection(&mut self, collection: &str) -> (r: Result<Vec<u8>>)
        requires
            old(self)@.request_counter < u64::MAX,
        ensures
            sends(
                old(self)@,
                final(self)@,
                vector_op(
                    "DropCollection"@,
                    no_members().insert("collection"@, JsonTree::Text(collection@)),
                ),
                r,
            ),
    {
        self.send(op("DropCollection", Object::new().with("collection", Json::text(collection))))
    }

    /// Describe every vector collection in the database.
    pub fn vector_list_collections(&mut self) -> (r: Result<Vec<u8>>)
        requires
            old(self)@.request_counter < u64::MAX,
        ensures
            sends(
                old(self)@,
                final(self)@,
                wrapped("Vector"@, JsonTree::Text("ListCollections"@)),
                r,
            ),
    {
        self.send(Json::wrap("Vector", Json::text("ListCollections")))
    }

    /// Take the answer to [`Client::vector_list_collections`].
    pub fn vector_list_collections_reply(
        &mut self,
        reply: Result<Frame>,
    ) -> (r: Result<Vec<VectorCollectionSummary>>)
        ensures
            answered(
                old(self)@,
                final(self)@,
                reply_view(reply),
                |x: ResponseView|
                    typed_single::<Vec<VectorCollectionSummary>>(
                        x,
                        "ListCollections"@,
                        "details"@,
                        Seq::empty(),
                    ),
                model_view(r),
            ),
    {
        let response = self.reply(reply)?;
        let none: Vec<VectorCollectionSummary> = Vec::new();
        assert(none.model() =~= Seq::<VectorCollectionSummaryView>::empty());
        self.keep(response.decode_single("ListCollections", "details", none))
    }

    /// Read one collection's metadata and live count.
    pub fn vector_describe_collection(&mut self, collection: &str) -> (r: Result<Vec<u8>>)
        requires
            old(self)@.request_counter < u64::MAX,
        ensures
            sends(
                old(self)@,
                final(self)@,
                vector_op(
                    "DescribeCollection"@,
                    no_members().insert("collection"@, JsonTree::Text(collection@)),
                ),
                r,
            ),
    {
        self.send(
            op("DescribeCollection", Object::new().with("collection", Json::text(collection))),
        )
    }

    /// Take the answer to [`Client::vector_describe_collection`].
    pub fn vector_describe_collection_reply(
        &mut self,
        reply: Result<Frame>,
    ) -> (r: Result<VectorCollectionInfo>)
        ensures
            answered(
                old(self)@,
                final(self)@,
                reply_view(reply),
                |x: ResponseView| typed::<VectorCollectionInfo>(x, "DescribeCollection"@),
                model_view(r),
            ),
    {
        let response = self.reply(reply)?;
        self.keep(response.decode("DescribeCollection"))
    }

    /// Store a vector under an id, replacing whatever was there.
    ///
    /// The vector's length must equal the collection's dimension; a mismatch is
    /// refused rather than padded or truncated.
    pub fn vector_upsert(
        &mut self,
        collection: &str,
        id: &str,
        vector: &[Float],
        metadata: Option<&Object>,
    ) -> (r: Result<Vec<u8>>)
        requires
            old(self)@.request_counter < u64::MAX,
        ensures
            sends(
                old(self)@,
                final(self)@,
                vector_op(
                    "Upsert"@,
                    no_members()
                        .insert("collection"@, JsonTree::Text(collection@))
                        .insert("id"@, JsonTree::Text(id@))
                        .insert("vector"@, vector_tree(vector@))
                        .insert("metadata"@, optional_members(metadata)),
                ),
                r,
            ),
    {
        self.send(
            op(
                "Upsert",
                Object::new()
                    .with("collection", Json::text(collection))
                    .with("id", Json::text(id))
                    .with("vector", wire_vector(vector))
                    .with("metadata", Json::object_or_null(metadata)),
            ),
        )
    }

    /// Fetch one stored vector. `None` when there is no such id.
    pub fn vector_get(&mut self, collection: &str, id: &str) -> (r: Result<Vec<u8>>)
        requires
            old(self)@.request_counter < u64::MAX,
        ensures
            sends(
                old(self)@,
                final(self)@,
                vector_op(
                    "Get"@,
                    no_members()
                        .insert("collection"@, JsonTree::Text(collection@))
                        .insert("id"@, JsonTree::Text(id@)),
                ),
                r,
            ),
    {
        self.send(
            op(
                "Get",
                Object::new().with("collection", Json::text(collection)).with("id", Json::text(id)),
            ),
        )
    }

    /// Take the answer to [`Client::vector_get`].
    pub fn vector_get_reply(&mut self, reply: Result<Frame>) -> (r: Result<Option<VectorItem>>)
        ensures
            answered(
                old(self)@,
                final(self)@,
                reply_view(reply),
                |x: ResponseView| typed::<Option<VectorItem>>(x, "Get"@),
                model_view(r),
            ),
    {
        let response = self.reply(reply)?;
        self.keep(response.decode("Get"))
    }

    /// Delete one vector. Deleting an absent id is not an error; a missing
    /// collection is.
    pub fn vector_delete(&mut self, collection: &str, id: &str) -> (r: Result<Vec<u8>>)
        requires
            old(self)@.request_counter < u64::MAX,
        ensures
            sends(
                old(self)@,
                final(self)@,
                vector_op(
                    "Delete"@,
                    no_members()
                        .insert("collection"@, JsonTree::Text(collection@))
                        .insert("id"@, JsonTree::Text(id@)),
                ),
                r,
            ),
    {
        self.send(
            op(
                "Delete",
                Object::new().with("collection", Json::text(collection)).with("id", Json::text(id)),
            ),
        )
    }

    /// The `top_k` nearest vectors to a query vector.
    ///
    /// `top_k` must be between 1 and 1000, and the query vector's length must
    /// equal the collection's dimension. The server refuses anything else.
    pub fn vector_search(
        &mut self,
        collection: &str,
        vector: &[Float],
        top_k: usize,
    ) -> (r: Result<Vec<u8>>)
        requires
            old(self)@.request_counter < u64::MAX,
        ensures
            sends(
                old(self)@,
                final(self)@,
                vector_op(
                    "Search"@,
                    search_members(collection@, vector_tree(vector@), top_k, JsonTree::Null),
                ),
                r,
            ),
    {
        let none = Object::new();
        self.vector_search_filtered(collection, vector, top_k, &none)
    }

    /// Take the answer to [`Client::vector_search`] or
    /// [`Client::vector_search_filtered`].
    pub fn vector_search_reply(&mut self, reply: Result<Frame>) -> (r: Result<VectorSearchResult>)
        ensures
            answered(
                old(self)@,
                final(self)@,
                reply_view(reply),
                |x: ResponseView| typed::<VectorSearchResult>(x, "Search"@),
                model_view(r),
            ),
    {
        let response = self.reply(reply)?;
        self.keep(response.decode("Search"))
    }

    /// A search restricted to vectors whose metadata matches every entry of
    /// `filter`.
    ///
    /// Exact equality on top-level fields only: the server implements no ranges
    /// and no nesting here. An empty filter means no filtering.
    pub fn vector_search_filtered(
        &mut self,
        collection: &str,
        vector: &[Float],
        top_k: usize,
        filter: &Object,
    ) -> (r: Result<Vec<u8>>)
        requires
            old(self)@.request_counter < u64::MAX,
        ensures
            sends(
                old(self)@,
                final(self)@,
                vector_op(
                    "Search"@,
                    search_members(collection@, vector_tree(vector@), top_k, filter_tree(filter@)),
                ),
                r,
            ),
    {
        let chosen = if filter.is_empty() {
            Json::Null
        } else {
            Json::Object(filter.clone())
        };
        self.send(
            op(
                "Search",
                Object::new().with("collection", Json::text(collection)).with(
                    "vector",
                    wire_vector(vector),
                ).with("top_k", Json::unsigned(top_k as u64)).with("filter", chosen),
            ),
        )
    }

    /// One page of a collection's vectors, ordered by id.
    ///
    /// `limit` of `None` asks for the server's default (500, capped at 1000);
    /// `offset` skips that many.
    pub fn vector_list_vectors(
        &mut self,
        collection: &str,
        limit: Option<usize>,
        offset: Option<usize>,
    ) -> (r: Result<Vec<u8>>)
        requires
            old(self)@.request_counter < u64::MAX,
        ensures
            sends(
                old(self)@,
                final(self)@,
                vector_op(
                    "ListVectors"@,
                    put_members(
                        put_members(
                            no_members().insert("collection"@, JsonTree::Text(collection@)),
                            "limit"@,
                            positive_tree(limit),
                        ),
                        "offset"@,
                        positive_tree(offset),
                    ),
                ),
                r,
            ),
    {
        self.send(
            op(
                "ListVectors",
                crate::json::put(
                    crate::json::put(
                        Object::new().with("collection", Json::text(collection)),
                        "limit",
                        Json::positive(limit),
                    ),
                    "offset",
                    Json::positive(offset),
                ),
            ),
        )
    }

    /// Take the answer to [`Client::vector_list_vectors`].
    pub fn vector_list_vectors_reply(&mut self, reply: Result<Frame>) -> (r: Result<VectorPage>)
        ensures
            answered(
                old(self)@,
                final(self)@,
                reply_view(reply),
                |x: ResponseView| typed::<VectorPage>(x, "ListVectors"@),
                model_view(r),
            ),
    {
        let response = self.reply(reply)?;
        self.keep(response.decode("ListVectors"))
    }
}

/// A vector item holds what was sent under the name of each field, lists whole and
/// in order.
pub proof fn vector_item_reads_back(m: Map<Seq<char>, JsonTree>, x: VectorItem)
    requires
        m.dom().contains("id"@),
        m["id"@] == JsonTree::Text(x.id@),
        m.dom().contains("vector"@),
        m["vector"@]
            == JsonTree::Array(Seq::new(x.vector@.len(), |i: int| JsonTree::Number(x.vector@[i]@))),
        m.dom().contains("metadata"@),
        m["metadata"@] == JsonTree::Object(x.metadata@),
    ensures
        VectorItem::decoded(JsonTree::Object(m)) == Some(x.model()),
        x.model() == (VectorItemView {
            id: x.id@,
            vector: Seq::new(x.vector@.len(), |i: int| x.vector@[i]@),
            metadata: x.metadata@,
        }),
{
    decode::lists_read_back(
        JsonTree::Array(
            Seq::new(x.vector@.len(), |i: int| JsonTree::Number(x.vector@[i]@)),
        )->Array_0,
        x.vector,
    );
    assert(x.vector.model() =~= Seq::new(x.vector@.len(), |i: int| x.vector@[i]@));
    assert(x.model() =~= (VectorItemView {
        id: x.id@,
        vector: Seq::new(x.vector@.len(), |i: int| x.vector@[i]@),
        metadata: x.metadata@,
    }));
}

/// A vector item takes each field from the member of that name alone. A field that was
/// not sent has its default, and one of another kind refuses the whole.
pub proof fn vector_item_takes_each_field_by_its_name(m: Map<Seq<char>, JsonTree>)
    ensures
        VectorItem::decoded(JsonTree::Object(m)) matches Some(v) ==> {
            &&& String::decoded(m["id"@]) == Some(v.id)
            &&& if m.dom().contains("vector"@) && !(m["vector"@] is Null) {
                Vec::<Number>::decoded(m["vector"@]) == Some(v.vector)
            } else {
                v.vector.len() == 0
            }
            &&& if m.dom().contains("metadata"@) && !(m["metadata"@] is Null) {
                Object::decoded(m["metadata"@]) == Some(v.metadata)
            } else {
                v.metadata == no_members()
            }
        },
        VectorItem::decoded(JsonTree::Object(m)) is Some <==> {
            &&& m.dom().contains("id"@) && String::decoded(m["id"@]) is Some
            &&& m.dom().contains("vector"@) && !(m["vector"@] is Null)
                ==> Vec::<Number>::decoded(m["vector"@]) is Some
            &&& m.dom().contains("metadata"@) && !(m["metadata"@] is Null)
                ==> Object::decoded(m["metadata"@]) is Some
        },
{
}

/// A vector item written as a list reads as the object that names each item by its place.
/// Too long a list is refused, and so is any other kind of value.
pub proof fn vector_item_takes_each_item_in_its_place(
    items: Seq<JsonTree>,
    m: Map<Seq<char>, JsonTree>,
    t: JsonTree,
)
    requires
        m.dom().contains("id"@) <==> 0 < items.len(),
        0 < items.len() ==> m["id"@] == items[0],
        m.dom().contains("vector"@) <==> 1 < items.len(),
        1 < items.len() ==> m["vector"@] == items[1],
        m.dom().contains("metadata"@) <==> 2 < items.len(),
        2 < items.len() ==> m["metadata"@] == items[2],
    ensures
        items.len() <= 3 ==> VectorItem::decoded(JsonTree::Array(items))
            == VectorItem::decoded(JsonTree::Object(m)),
        items.len() > 3 ==> VectorItem::decoded(JsonTree::Array(items)) is None,
        !(t is Object) && !(t is Array) ==> VectorItem::decoded(t) is None,
{
}

/// A vector hit holds what was sent under the name of each field, lists whole and
/// in order.
pub proof fn vector_hit_reads_back(m: Map<Seq<char>, JsonTree>, x: VectorHit)
    requires
        m.dom().contains("id"@),
        m["id"@] == JsonTree::Text(x.id@),
        m.dom().contains("score"@),
        m["score"@] == JsonTree::Number(x.score@),
        m.dom().contains("metadata"@),
        m["metadata"@] == JsonTree::Object(x.metadata@),
    ensures
        VectorHit::decoded(JsonTree::Object(m)) == Some(x.model()),
        x.model() == (VectorHitView {
            id: x.id@,
            score: x.score@,
            metadata: x.metadata@,
        }),
{
    assert(x.model() =~= (VectorHitView {
        id: x.id@,
        score: x.score@,
        metadata: x.metadata@,
    }));
}

/// A vector hit takes each field from the member of that name alone. A field that was
/// not sent has its default, and one of another kind refuses the whole.
pub proof fn vector_hit_takes_each_field_by_its_name(m: Map<Seq<char>, JsonTree>)
    ensures
        VectorHit::decoded(JsonTree::Object(m)) matches Some(v) ==> {
            &&& String::decoded(m["id"@]) == Some(v.id)
            &&& if m.dom().contains("score"@) {
                Number::decoded(m["score"@]) == Some(v.score)
            } else {
                v.score == "0.0"@
            }
            &&& if m.dom().contains("metadata"@) && !(m["metadata"@] is Null) {
                Object::decoded(m["metadata"@]) == Some(v.metadata)
            } else {
                v.metadata == no_members()
            }
        },
        VectorHit::decoded(JsonTree::Object(m)) is Some <==> {
            &&& m.dom().contains("id"@) && String::decoded(m["id"@]) is Some
            &&& m.dom().contains("score"@) ==> Number::decoded(m["score"@]) is Some
            &&& m.dom().contains("metadata"@) && !(m["metadata"@] is Null)
                ==> Object::decoded(m["metadata"@]) is Some
        },
{
}

/// A vector hit written as a list reads as the object that names each item by its place.
/// Too long a list is refused, and so is any other kind of value.
pub proof fn vector_hit_takes_each_item_in_its_place(
    items: Seq<JsonTree>,
    m: Map<Seq<char>, JsonTree>,
    t: JsonTree,
)
    requires
        m.dom().contains("id"@) <==> 0 < items.len(),
        0 < items.len() ==> m["id"@] == items[0],
        m.dom().contains("score"@) <==> 1 < items.len(),
        1 < items.len() ==> m["score"@] == items[1],
        m.dom().contains("metadata"@) <==> 2 < items.len(),
        2 < items.len() ==> m["metadata"@] == items[2],
    ensures
        items.len() <= 3 ==> VectorHit::decoded(JsonTree::Array(items))
            == VectorHit::decoded(JsonTree::Object(m)),
        items.len() > 3 ==> VectorHit::decoded(JsonTree::Array(items)) is None,
        !(t is Object) && !(t is Array) ==> VectorHit::decoded(t) is None,
{
}

/// A vector search result holds what was sent under the name of each field, lists whole and
/// in order.
pub proof fn vector_search_result_reads_back(m: Map<Seq<char>, JsonTree>, x: VectorSearchResult)
    requires
        m.dom().contains("results"@),
        m["results"@] is Array,
        m["results"@]->Array_0.len() == x.results@.len(),
        forall|i: int| 0 <= i < x.results@.len()
            ==> VectorHit::decoded(#[trigger] m["results"@]->Array_0[i])
                == Some(x.results@[i].model()),
        m.dom().contains("index"@),
        m["index"@] == JsonTree::Text(x.index@),
    ensures
        VectorSearchResult::decoded(JsonTree::Object(m)) == Some(x.model()),
        x.model() == (VectorSearchResultView {
            results: Seq::new(x.results@.len(), |i: int| x.results@[i].model()),
            index: x.index@,
        }),
{
    decode::lists_read_back(m["results"@]->Array_0, x.results);
    assert(x.results.model() =~= Seq::new(x.results@.len(), |i: int| x.results@[i].model()));
    assert(x.model() =~= (VectorSearchResultView {
        results: Seq::new(x.results@.len(), |i: int| x.results@[i].model()),
        index: x.index@,
    }));
}

/// A vector search result takes each field from the member of that name alone. A field that was
/// not sent has its default, and one of another kind refuses the whole.
pub proof fn vector_search_result_takes_each_field_by_its_name(m: Map<Seq<char>, JsonTree>)
    ensures
        VectorSearchResult::decoded(JsonTree::Object(m)) matches Some(v) ==> {
            &&& if m.dom().contains("results"@) && !(m["results"@] is Null) {
                Vec::<VectorHit>::decoded(m["results"@]) == Some(v.results)
            } else {
                v.results.len() == 0
            }
            &&& if m.dom().contains("index"@) {
                String::decoded(m["index"@]) == Some(v.index)
            } else {
                v.index.len() == 0
            }
        },
        VectorSearchResult::decoded(JsonTree::Object(m)) is Some <==> {
            &&& m.dom().contains("results"@) && !(m["results"@] is Null)
                ==> Vec::<VectorHit>::decoded(m["results"@]) is Some
            &&& m.dom().contains("index"@) ==> String::decoded(m["index"@]) is Some
        },
{
}

/// A vector search result written as a list reads as the object that names each item by its place.
/// Too long a list is refused, and so is any other kind of value.
pub proof fn vector_search_result_takes_each_item_in_its_place(
    items: Seq<JsonTree>,
    m: Map<Seq<char>, JsonTree>,
    t: JsonTree,
)
    requires
        m.dom().contains("results"@) <==> 0 < items.len(),
        0 < items.len() ==> m["results"@] == items[0],
        m.dom().contains("index"@) <==> 1 < items.len(),
        1 < items.len() ==> m["index"@] == items[1],
    ensures
        items.len() <= 2 ==> VectorSearchResult::decoded(JsonTree::Array(items))
            == VectorSearchResult::decoded(JsonTree::Object(m)),
        items.len() > 2 ==> VectorSearchResult::decoded(JsonTree::Array(items)) is None,
        !(t is Object) && !(t is Array) ==> VectorSearchResult::decoded(t) is None,
{
}

/// A vector collection summary holds what was sent under the name of each field, lists whole and
/// in order.
pub proof fn vector_collection_summary_reads_back(
    m: Map<Seq<char>, JsonTree>,
    x: VectorCollectionSummary,
)
    requires
        m.dom().contains("name"@),
        m["name"@] == JsonTree::Text(x.name@),
        m.dom().contains("dimension"@),
        m["dimension"@] == JsonTree::Number(crate::text::integer(x.dimension as int)),
        m.dom().contains("metric"@),
        VectorMetric::decoded(m["metric"@]) == Some(x.metric),
    ensures
        VectorCollectionSummary::decoded(JsonTree::Object(m)) == Some(x.model()),
        x.model() == (VectorCollectionSummaryView {
            name: x.name@,
            dimension: x.dimension,
            metric: x.metric,
        }),
{
    crate::text::decimal_reads_back(x.dimension as int);
    assert(x.model() =~= (VectorCollectionSummaryView {
        name: x.name@,
        dimension: x.dimension,
        metric: x.metric,
    }));
}

/// A vector collection summary takes each field from the member of that name alone. A field that was
/// not sent has its default, and one of another kind refuses the whole.
pub proof fn vector_collection_summary_takes_each_field_by_its_name(m: Map<Seq<char>, JsonTree>)
    ensures
        VectorCollectionSummary::decoded(JsonTree::Object(m)) matches Some(v) ==> {
            &&& String::decoded(m["name"@]) == Some(v.name)
            &&& if m.dom().contains("dimension"@) {
                usize::decoded(m["dimension"@]) == Some(v.dimension)
            } else {
                v.dimension == 0
            }
            &&& if m.dom().contains("metric"@) {
                VectorMetric::decoded(m["metric"@]) == Some(v.metric)
            } else {
                v.metric == VectorMetric::Cosine
            }
        },
        VectorCollectionSummary::decoded(JsonTree::Object(m)) is Some <==> {
            &&& m.dom().contains("name"@) && String::decoded(m["name"@]) is Some
            &&& m.dom().contains("dimension"@) ==> usize::decoded(m["dimension"@]) is Some
            &&& m.dom().contains("metric"@) ==> VectorMetric::decoded(m["metric"@]) is Some
        },
{
}

/// A vector collection summary written as a list reads as the object that names each item by its place.
/// Too long a list is refused, and so is any other kind of value.
pub proof fn vector_collection_summary_takes_each_item_in_its_place(
    items: Seq<JsonTree>,
    m: Map<Seq<char>, JsonTree>,
    t: JsonTree,
)
    requires
        m.dom().contains("name"@) <==> 0 < items.len(),
        0 < items.len() ==> m["name"@] == items[0],
        m.dom().contains("dimension"@) <==> 1 < items.len(),
        1 < items.len() ==> m["dimension"@] == items[1],
        m.dom().contains("metric"@) <==> 2 < items.len(),
        2 < items.len() ==> m["metric"@] == items[2],
    ensures
        items.len() <= 3 ==> VectorCollectionSummary::decoded(JsonTree::Array(items))
            == VectorCollectionSummary::decoded(JsonTree::Object(m)),
        items.len() > 3 ==> VectorCollectionSummary::decoded(JsonTree::Array(items)) is None,
        !(t is Object) && !(t is Array) ==> VectorCollectionSummary::decoded(t) is None,
{
}

/// A vector collection info holds what was sent under the name of each field, lists whole and
/// in order.
pub proof fn vector_collection_info_reads_back(m: Map<Seq<char>, JsonTree>, x: VectorCollectionInfo)
    requires
        m.dom().contains("collection"@),
        m["collection"@] == JsonTree::Text(x.collection@),
        m.dom().contains("dimension"@),
        m["dimension"@] == JsonTree::Number(crate::text::integer(x.dimension as int)),
        m.dom().contains("metric"@),
        VectorMetric::decoded(m["metric"@]) == Some(x.metric),
        m.dom().contains("count"@),
        m["count"@] == JsonTree::Number(crate::text::integer(x.count as int)),
        m.dom().contains("quantization"@),
        VectorQuantization::decoded(m["quantization"@]) == Some(x.quantization),
    ensures
        VectorCollectionInfo::decoded(JsonTree::Object(m)) == Some(x.model()),
        x.model() == (VectorCollectionInfoView {
            collection: x.collection@,
            dimension: x.dimension,
            metric: x.metric,
            count: x.count,
            quantization: x.quantization,
        }),
{
    crate::text::decimal_reads_back(x.dimension as int);
    crate::text::decimal_reads_back(x.count as int);
    assert(x.model() =~= (VectorCollectionInfoView {
        collection: x.collection@,
        dimension: x.dimension,
        metric: x.metric,
        count: x.count,
        quantization: x.quantization,
    }));
}

/// A vector collection info takes each field from the member of that name alone. A field that was
/// not sent has its default, and one of another kind refuses the whole.
pub proof fn vector_collection_info_takes_each_field_by_its_name(m: Map<Seq<char>, JsonTree>)
    ensures
        VectorCollectionInfo::decoded(JsonTree::Object(m)) matches Some(v) ==> {
            &&& String::decoded(m["collection"@]) == Some(v.collection)
            &&& if m.dom().contains("dimension"@) {
                usize::decoded(m["dimension"@]) == Some(v.dimension)
            } else {
                v.dimension == 0
            }
            &&& if m.dom().contains("metric"@) {
                VectorMetric::decoded(m["metric"@]) == Some(v.metric)
            } else {
                v.metric == VectorMetric::Cosine
            }
            &&& if m.dom().contains("count"@) {
                i64::decoded(m["count"@]) == Some(v.count)
            } else {
                v.count == 0
            }
            &&& if m.dom().contains("quantization"@) {
                VectorQuantization::decoded(m["quantization"@]) == Some(v.quantization)
            } else {
                v.quantization == VectorQuantization::Unquantized
            }
        },
        VectorCollectionInfo::decoded(JsonTree::Object(m)) is Some <==> {
            &&& m.dom().contains("collection"@) && String::decoded(m["collection"@]) is Some
            &&& m.dom().contains("dimension"@) ==> usize::decoded(m["dimension"@]) is Some
            &&& m.dom().contains("metric"@) ==> VectorMetric::decoded(m["metric"@]) is Some
            &&& m.dom().contains("count"@) ==> i64::decoded(m["count"@]) is Some
            &&& m.dom().contains("quantization"@)
                ==> VectorQuantization::decoded(m["quantization"@]) is Some
        },
{
}

/// A vector collection info written as a list reads as the object that names each item by its place.
/// Too long a list is refused, and so is any other kind of value.
pub proof fn vector_collection_info_takes_each_item_in_its_place(
    items: Seq<JsonTree>,
    m: Map<Seq<char>, JsonTree>,
    t: JsonTree,
)
    requires
        m.dom().contains("collection"@) <==> 0 < items.len(),
        0 < items.len() ==> m["collection"@] == items[0],
        m.dom().contains("dimension"@) <==> 1 < items.len(),
        1 < items.len() ==> m["dimension"@] == items[1],
        m.dom().contains("metric"@) <==> 2 < items.len(),
        2 < items.len() ==> m["metric"@] == items[2],
        m.dom().contains("count"@) <==> 3 < items.len(),
        3 < items.len() ==> m["count"@] == items[3],
        m.dom().contains("quantization"@) <==> 4 < items.len(),
        4 < items.len() ==> m["quantization"@] == items[4],
    ensures
        items.len() <= 5 ==> VectorCollectionInfo::decoded(JsonTree::Array(items))
            == VectorCollectionInfo::decoded(JsonTree::Object(m)),
        items.len() > 5 ==> VectorCollectionInfo::decoded(JsonTree::Array(items)) is None,
        !(t is Object) && !(t is Array) ==> VectorCollectionInfo::decoded(t) is None,
{
}

/// A vector page holds what was sent under the name of each field, lists whole and
/// in order.
pub proof fn vector_page_reads_back(m: Map<Seq<char>, JsonTree>, x: VectorPage)
    requires
        m.dom().contains("collection"@),
        m["collection"@] == JsonTree::Text(x.collection@),
        m.dom().contains("count"@),
        m["count"@] == JsonTree::Number(crate::text::integer(x.count as int)),
        m.dom().contains("vectors"@),
        m["vectors"@] is Array,
        m["vectors"@]->Array_0.len() == x.vectors@.len(),
        forall|i: int| 0 <= i < x.vectors@.len()
            ==> VectorItem::decoded(#[trigger] m["vectors"@]->Array_0[i])
                == Some(x.vectors@[i].model()),
        m.dom().contains("truncated"@),
        m["truncated"@] == JsonTree::Bool(x.truncated),
        m.dom().contains("total"@),
        m["total"@] == JsonTree::Number(crate::text::integer(x.total as int)),
    ensures
        VectorPage::decoded(JsonTree::Object(m)) == Some(x.model()),
        x.model() == (VectorPageView {
            collection: x.collection@,
            count: x.count,
            vectors: Seq::new(x.vectors@.len(), |i: int| x.vectors@[i].model()),
            truncated: x.truncated,
            total: x.total,
        }),
{
    crate::text::decimal_reads_back(x.count as int);
    decode::lists_read_back(m["vectors"@]->Array_0, x.vectors);
    assert(x.vectors.model() =~= Seq::new(x.vectors@.len(), |i: int| x.vectors@[i].model()));
    crate::text::decimal_reads_back(x.total as int);
    assert(x.model() =~= (VectorPageView {
        collection: x.collection@,
        count: x.count,
        vectors: Seq::new(x.vectors@.len(), |i: int| x.vectors@[i].model()),
        truncated: x.truncated,
        total: x.total,
    }));
}

/// A vector page takes each field from the member of that name alone. A field that was
/// not sent has its default, and one of another kind refuses the whole.
pub proof fn vector_page_takes_each_field_by_its_name(m: Map<Seq<char>, JsonTree>)
    ensures
        VectorPage::decoded(JsonTree::Object(m)) matches Some(v) ==> {
            &&& String::decoded(m["collection"@]) == Some(v.collection)
            &&& if m.dom().contains("count"@) {
                usize::decoded(m["count"@]) == Some(v.count)
            } else {
                v.count == 0
            }
            &&& if m.dom().contains("vectors"@) && !(m["vectors"@] is Null) {
                Vec::<VectorItem>::decoded(m["vectors"@]) == Some(v.vectors)
            } else {
                v.vectors.len() == 0
            }
            &&& if m.dom().contains("truncated"@) {
                bool::decoded(m["truncated"@]) == Some(v.truncated)
            } else {
                v.truncated == false
            }
            &&& if m.dom().contains("total"@) {
                i64::decoded(m["total"@]) == Some(v.total)
            } else {
                v.total == 0
            }
        },
        VectorPage::decoded(JsonTree::Object(m)) is Some <==> {
            &&& m.dom().contains("collection"@) && String::decoded(m["collection"@]) is Some
            &&& m.dom().contains("count"@) ==> usize::decoded(m["count"@]) is Some
            &&& m.dom().contains("vectors"@) && !(m["vectors"@] is Null)
                ==> Vec::<VectorItem>::decoded(m["vectors"@]) is Some
            &&& m.dom().contains("truncated"@) ==> bool::decoded(m["truncated"@]) is Some
            &&& m.dom().contains("total"@) ==> i64::decoded(m["total"@]) is Some
        },
{
}

/// A vector page written as a list reads as the object that names each item by its place.
/// Too long a list is refused, and so is any other kind of value.
pub proof fn vector_page_takes_each_item_in_its_place(
    items: Seq<JsonTree>,
    m: Map<Seq<char>, JsonTree>,
    t: JsonTree,
)
    requires
        m.dom().contains("collection"@) <==> 0 < items.len(),
        0 < items.len() ==> m["collection"@] == items[0],
        m.dom().contains("count"@) <==> 1 < items.len(),
        1 < items.len() ==> m["count"@] == items[1],
        m.dom().contains("vectors"@) <==> 2 < items.len(),
        2 < items.len() ==> m["vectors"@] == items[2],
        m.dom().contains("truncated"@) <==> 3 < items.len(),
        3 < items.len() ==> m["truncated"@] == items[3],
        m.dom().contains("total"@) <==> 4 < items.len(),
        4 < items.len() ==> m["total"@] == items[4],
    ensures
        items.len() <= 5 ==> VectorPage::decoded(JsonTree::Array(items))
            == VectorPage::decoded(JsonTree::Object(m)),
        items.len() > 5 ==> VectorPage::decoded(JsonTree::Array(items)) is None,
        !(t is Object) && !(t is Array) ==> VectorPage::decoded(t) is None,
{
}

/// A metric is sent and read by its own name, and no other name is one.
pub proof fn metrics_go_by_their_names(x: VectorMetric, y: VectorMetric, s: Seq<char>, t: JsonTree)
    ensures
        metric_name(VectorMetric::Cosine) == "cosine"@,
        metric_name(VectorMetric::Dot) == "dot"@,
        metric_name(VectorMetric::L2) == "l2"@,
        VectorMetric::decoded(JsonTree::Text("cosine"@)) == Some(VectorMetric::Cosine),
        VectorMetric::decoded(JsonTree::Text("dot"@)) == Some(VectorMetric::Dot),
        VectorMetric::decoded(JsonTree::Text("l2"@)) == Some(VectorMetric::L2),
        s != "cosine"@ && s != "dot"@ && s != "l2"@
            ==> VectorMetric::decoded(JsonTree::Text(s)) is None,
        t is Null || t is Bool || t is Number || t is Array ==> VectorMetric::decoded(t) is None,
        VectorMetric::decoded(JsonTree::Text(metric_name(x))) == Some(x.model()),
        x.model() == x,
        x != y ==> metric_name(x) != metric_name(y),
{
    reveal_strlit("cosine");
    reveal_strlit("dot");
    reveal_strlit("l2");
    assert("cosine"@.len() != "dot"@.len());
    assert("cosine"@.len() != "l2"@.len());
    assert("dot"@.len() != "l2"@.len());
}

/// A quantization is sent and read by its own name, and no other name is one.
pub proof fn quantizations_go_by_their_names(
    x: VectorQuantization,
    y: VectorQuantization,
    s: Seq<char>,
    t: JsonTree,
)
    ensures
        quantization_name(VectorQuantization::Unquantized) == "none"@,
        quantization_name(VectorQuantization::Int8) == "int8"@,
        VectorQuantization::decoded(JsonTree::Text("none"@)) == Some(VectorQuantization::Unquantized),
        VectorQuantization::decoded(JsonTree::Text("int8"@)) == Some(VectorQuantization::Int8),
        s != "none"@ && s != "int8"@ ==> VectorQuantization::decoded(JsonTree::Text(s)) is None,
        t is Null || t is Bool || t is Number || t is Array ==> VectorQuantization::decoded(t) is None,
        VectorQuantization::decoded(JsonTree::Text(quantization_name(x))) == Some(x.model()),
        x.model() == x,
        x != y ==> quantization_name(x) != quantization_name(y),
{
    reveal_strlit("none");
    reveal_strlit("int8");
    assert("none"@[0] != "int8"@[0]);
}

/// A request of this kind is sent under its own name alone.
pub proof fn a_vector_request_is_sent_under_its_name(
    variant: Seq<char>,
    body: Map<Seq<char>, JsonTree>,
)
    ensures
        vector_op(variant, body) == JsonTree::Object(
            map!["Vector"@ => JsonTree::Object(map![variant => JsonTree::Object(body)])],
        ),
{
    crate::json::a_wrapped_value_is_the_only_member(variant, JsonTree::Object(body), variant);
    crate::json::a_wrapped_value_is_the_only_member(
        "Vector"@,
        wrapped(variant, JsonTree::Object(body)),
        "Vector"@,
    );
}

/// A vector is sent whole, each component in its place.
pub proof fn vectors_are_sent_whole(vector: Seq<Float>, i: int)
    requires
        0 <= i < vector.len(),
    ensures
        vector_tree(vector) is Array,
        vector_tree(vector)->Array_0.len() == vector.len(),
        vector_tree(vector)->Array_0[i] == float_tree(vector[i]@),
{
}

/// A filter is sent as it is, and an empty one not at all.
pub proof fn an_empty_filter_is_not_sent(filter: Map<Seq<char>, JsonTree>)
    ensures
        filter_tree(Map::empty()) == JsonTree::Null,
        filter != Map::<Seq<char>, JsonTree>::empty() ==> filter_tree(filter) == JsonTree::Object(
            filter,
        ),
{
}

/// A search names its collection, its vector, how many hits it wants and its filter.
pub proof fn a_search_names_what_it_looks_for(
    collection: Seq<char>,
    vector: JsonTree,
    top_k: usize,
    filter: JsonTree,
)
    ensures
        search_members(collection, vector, top_k, filter) == map![
            "collection"@ => JsonTree::Text(collection),
            "vector"@ => vector,
            "top_k"@ => JsonTree::Number(text::integer(top_k as int)),
            "filter"@ => filter,
        ],
{
    assert(search_members(collection, vector, top_k, filter) =~= map![
        "collection"@ => JsonTree::Text(collection),
        "vector"@ => vector,
        "top_k"@ => JsonTree::Number(text::integer(top_k as int)),
        "filter"@ => filter,
    ]);
}

/// A collection is created with its name, its dimension, its metric and its
/// quantization.
pub proof fn a_collection_is_created_as_it_was_described(
    collection: Seq<char>,
    dimension: usize,
    metric: VectorMetric,
    quantization: VectorQuantization,
)
    ensures
        create_members(collection, dimension, metric, quantization) == map![
            "collection"@ => JsonTree::Text(collection),
            "dimension"@ => JsonTree::Number(text::integer(dimension as int)),
            "metric"@ => JsonTree::Text(metric_name(metric)),
            "quantization"@ => JsonTree::Text(quantization_name(quantization)),
        ],
{
    assert(create_members(collection, dimension, metric, quantization) =~= map![
        "collection"@ => JsonTree::Text(collection),
        "dimension"@ => JsonTree::Number(text::integer(dimension as int)),
        "metric"@ => JsonTree::Text(metric_name(metric)),
        "quantization"@ => JsonTree::Text(quantization_name(quantization)),
    ]);
}

/// A search gives as many hits as were sent, each read from the item in its place.
pub proof fn a_search_gives_every_hit_in_order(
    m: Map<Seq<char>, JsonTree>,
    items: Seq<JsonTree>,
    i: int,
)
    requires
        m.dom().contains("results"@),
        m["results"@] == JsonTree::Array(items),
        VectorSearchResult::decoded(JsonTree::Object(m)) is Some,
    ensures
        VectorSearchResult::decoded(JsonTree::Object(m))->0.results.len() == items.len(),
        0 <= i < items.len() ==> VectorHit::decoded(items[i]) == Some(
            VectorSearchResult::decoded(JsonTree::Object(m))->0.results[i],
        ),
{
}

/// What is sent by `vector_create_collection`.
pub proof fn vector_create_collection_is_sent_as_it_was_asked(
    c: &mut Client,
    collection: &str,
    dimension: usize,
    metric: VectorMetric,
    r: Result<Vec<u8>>,
)
    ensures
        call_ensures(Client::vector_create_collection, (c, collection, dimension, metric), r)
            ==> sends(
            old(c)@,
            final(c)@,
            JsonTree::Object(
                map![
                    "Vector"@ => JsonTree::Object(
                        map![
                            "CreateCollection"@ => JsonTree::Object(
                                map![
                                    "collection"@ => JsonTree::Text(collection@),
                                    "dimension"@ => number_tree(dimension as int),
                                    "metric"@ => JsonTree::Text(metric_name(metric)),
                                    "quantization"@ => JsonTree::Text(
                                        quantization_name(VectorQuantization::Unquantized),
                                    ),
                                ],
                            ),
                        ],
                    ),
                ],
            ),
            r,
        ),
{
    assert(create_members(collection@, dimension, metric, VectorQuantization::Unquantized) =~= map![
        "collection"@ => JsonTree::Text(collection@),
        "dimension"@ => number_tree(dimension as int),
        "metric"@ => JsonTree::Text(metric_name(metric)),
        "quantization"@ => JsonTree::Text(quantization_name(VectorQuantization::Unquantized)),
    ]);
    a_vector_request_is_sent_under_its_name(
        "CreateCollection"@,
        map![
            "collection"@ => JsonTree::Text(collection@),
            "dimension"@ => number_tree(dimension as int),
            "metric"@ => JsonTree::Text(metric_name(metric)),
            "quantization"@ => JsonTree::Text(
                quantization_name(VectorQuantization::Unquantized),
            ),
        ],
    );
}

/// What is sent by `vector_create_collection_quantized`.
pub proof fn vector_create_collection_quantized_is_sent_as_it_was_asked(
    c: &mut Client,
    collection: &str,
    dimension: usize,
    metric: VectorMetric,
    quantization: VectorQuantization,
    r: Result<Vec<u8>>,
)
    ensures
        call_ensures(Client::vector_create_collection_quantized, (c, collection, dimension, metric, quantization), r)
            ==> sends(
            old(c)@,
            final(c)@,
            JsonTree::Object(
                map![
                    "Vector"@ => JsonTree::Object(
                        map![
                            "CreateCollection"@ => JsonTree::Object(
                                map![
                                    "collection"@ => JsonTree::Text(collection@),
                                    "dimension"@ => number_tree(dimension as int),
                                    "metric"@ => JsonTree::Text(metric_name(metric)),
                                    "quantization"@ => JsonTree::Text(
                                        quantization_name(quantization),
                                    ),
                                ],
                            ),
                        ],
                    ),
                ],
            ),
            r,
        ),
{
    assert(create_members(collection@, dimension, metric, quantization) =~= map![
        "collection"@ => JsonTree::Text(collection@),
        "dimension"@ => number_tree(dimension as int),
        "metric"@ => JsonTree::Text(metric_name(metric)),
        "quantization"@ => JsonTree::Text(quantization_name(quantization)),
    ]);
    a_vector_request_is_sent_under_its_name(
        "CreateCollection"@,
        map![
            "collection"@ => JsonTree::Text(collection@),
            "dimension"@ => number_tree(dimension as int),
            "metric"@ => JsonTree::Text(metric_name(metric)),
            "quantization"@ => JsonTree::Text(quantization_name(quantization)),
        ],
    );
}

/// What is sent by `vector_drop_collection`, `vector_describe_collection`.
pub proof fn vector_drop_collection_and_its_like_are_sent_as_they_were_asked(
    c: &mut Client,
    collection: &str,
    r: Result<Vec<u8>>,
)
    ensures
        call_ensures(Client::vector_drop_collection, (c, collection), r) ==> sends(
            old(c)@,
            final(c)@,
            JsonTree::Object(
                map![
                    "Vector"@ => JsonTree::Object(
                        map![
                            "DropCollection"@ => JsonTree::Object(
                                map!["collection"@ => JsonTree::Text(collection@)],
                            ),
                        ],
                    ),
                ],
            ),
            r,
        ),
        call_ensures(Client::vector_describe_collection, (c, collection), r) ==> sends(
            old(c)@,
            final(c)@,
            JsonTree::Object(
                map![
                    "Vector"@ => JsonTree::Object(
                        map![
                            "DescribeCollection"@ => JsonTree::Object(
                                map!["collection"@ => JsonTree::Text(collection@)],
                            ),
                        ],
                    ),
                ],
            ),
            r,
        ),
{
    assert(Map::<Seq<char>, JsonTree>::empty()
        .insert("collection"@, JsonTree::Text(collection@)) =~= map![
        "collection"@ => JsonTree::Text(collection@),
    ]);
    a_vector_request_is_sent_under_its_name(
        "DropCollection"@,
        map!["collection"@ => JsonTree::Text(collection@)],
    );
    a_vector_request_is_sent_under_its_name(
        "DescribeCollection"@,
        map!["collection"@ => JsonTree::Text(collection@)],
    );
}

/// What is sent by `vector_list_collections`.
pub proof fn vector_list_collections_is_sent_as_it_was_asked(
    c: &mut Client,
    r: Result<Vec<u8>>,
)
    ensures
        call_ensures(Client::vector_list_collections, (c,), r) ==> sends(
            old(c)@,
            final(c)@,
            JsonTree::Object(map!["Vector"@ => JsonTree::Text("ListCollections"@)]),
            r,
        ),
{
    crate::json::a_wrapped_value_is_the_only_member(
        "Vector"@,
        JsonTree::Text("ListCollections"@),
        "Vector"@,
    );
}

/// What is sent by `vector_upsert`.
pub proof fn vector_upsert_is_sent_as_it_was_asked(
    c: &mut Client,
    collection: &str,
    id: &str,
    vector: &[Float],
    metadata: Option<&Object>,
    r: Result<Vec<u8>>,
)
    ensures
        call_ensures(Client::vector_upsert, (c, collection, id, vector, metadata), r) ==> sends(
            old(c)@,
            final(c)@,
            JsonTree::Object(
                map![
                    "Vector"@ => JsonTree::Object(
                        map![
                            "Upsert"@ => JsonTree::Object(
                                map![
                                    "collection"@ => JsonTree::Text(collection@),
                                    "id"@ => JsonTree::Text(id@),
                                    "vector"@ => vector_tree(vector@),
                                    "metadata"@ => optional_members(metadata),
                                ],
                            ),
                        ],
                    ),
                ],
            ),
            r,
        ),
{
    assert(Map::<Seq<char>, JsonTree>::empty()
        .insert("collection"@, JsonTree::Text(collection@))
        .insert("id"@, JsonTree::Text(id@))
        .insert("vector"@, vector_tree(vector@))
        .insert("metadata"@, optional_members(metadata)) =~= map![
        "collection"@ => JsonTree::Text(collection@),
        "id"@ => JsonTree::Text(id@),
        "vector"@ => vector_tree(vector@),
        "metadata"@ => optional_members(metadata),
    ]);
    a_vector_request_is_sent_under_its_name(
        "Upsert"@,
        map![
            "collection"@ => JsonTree::Text(collection@),
            "id"@ => JsonTree::Text(id@),
            "vector"@ => vector_tree(vector@),
            "metadata"@ => optional_members(metadata),
        ],
    );
}

/// What is sent by `vector_get`, `vector_delete`.
pub proof fn vector_get_and_its_like_are_sent_as_they_were_asked(
    c: &mut Client,
    collection: &str,
    id: &str,
    r: Result<Vec<u8>>,
)
    ensures
        call_ensures(Client::vector_get, (c, collection, id), r) ==> sends(
            old(c)@,
            final(c)@,
            JsonTree::Object(
                map![
                    "Vector"@ => JsonTree::Object(
                        map![
                            "Get"@ => JsonTree::Object(
                                map![
                                    "collection"@ => JsonTree::Text(collection@),
                                    "id"@ => JsonTree::Text(id@),
                                ],
                            ),
                        ],
                    ),
                ],
            ),
            r,
        ),
        call_ensures(Client::vector_delete, (c, collection, id), r) ==> sends(
            old(c)@,
            final(c)@,
            JsonTree::Object(
                map![
                    "Vector"@ => JsonTree::Object(
                        map![
                            "Delete"@ => JsonTree::Object(
                                map![
                                    "collection"@ => JsonTree::Text(collection@),
                                    "id"@ => JsonTree::Text(id@),
                                ],
                            ),
                        ],
                    ),
                ],
            ),
            r,
        ),
{
    assert(Map::<Seq<char>, JsonTree>::empty()
        .insert("collection"@, JsonTree::Text(collection@))
        .insert("id"@, JsonTree::Text(id@)) =~= map![
        "collection"@ => JsonTree::Text(collection@),
        "id"@ => JsonTree::Text(id@),
    ]);
    a_vector_request_is_sent_under_its_name(
        "Get"@,
        map!["collection"@ => JsonTree::Text(collection@), "id"@ => JsonTree::Text(id@)],
    );
    a_vector_request_is_sent_under_its_name(
        "Delete"@,
        map!["collection"@ => JsonTree::Text(collection@), "id"@ => JsonTree::Text(id@)],
    );
}

/// What is sent by `vector_search`.
pub proof fn vector_search_is_sent_as_it_was_asked(
    c: &mut Client,
    collection: &str,
    vector: &[Float],
    top_k: usize,
    r: Result<Vec<u8>>,
)
    ensures
        call_ensures(Client::vector_search, (c, collection, vector, top_k), r) ==> sends(
            old(c)@,
            final(c)@,
            JsonTree::Object(
                map![
                    "Vector"@ => JsonTree::Object(
                        map![
                            "Search"@ => JsonTree::Object(
                                map![
                                    "collection"@ => JsonTree::Text(collection@),
                                    "vector"@ => vector_tree(vector@),
                                    "top_k"@ => number_tree(top_k as int),
                                    "filter"@ => JsonTree::Null,
                                ],
                            ),
                        ],
                    ),
                ],
            ),
            r,
        ),
{
    assert(search_members(collection@, vector_tree(vector@), top_k, JsonTree::Null) =~= map![
        "collection"@ => JsonTree::Text(collection@),
        "vector"@ => vector_tree(vector@),
        "top_k"@ => number_tree(top_k as int),
        "filter"@ => JsonTree::Null,
    ]);
    a_vector_request_is_sent_under_its_name(
        "Search"@,
        map![
            "collection"@ => JsonTree::Text(collection@),
            "vector"@ => vector_tree(vector@),
            "top_k"@ => number_tree(top_k as int),
            "filter"@ => JsonTree::Null,
        ],
    );
}

/// What is sent by `vector_search_filtered`.
pub proof fn vector_search_filtered_is_sent_as_it_was_asked(
    c: &mut Client,
    collection: &str,
    vector: &[Float],
    top_k: usize,
    filter: &Object,
    r: Result<Vec<u8>>,
)
    ensures
        call_ensures(Client::vector_search_filtered, (c, collection, vector, top_k, filter), r)
            ==> sends(
            old(c)@,
            final(c)@,
            JsonTree::Object(
                map![
                    "Vector"@ => JsonTree::Object(
                        map![
                            "Search"@ => JsonTree::Object(
                                map![
                                    "collection"@ => JsonTree::Text(collection@),
                                    "vector"@ => vector_tree(vector@),
                                    "top_k"@ => number_tree(top_k as int),
                                    "filter"@ => filter_tree(filter@),
                                ],
                            ),
                        ],
                    ),
                ],
            ),
            r,
        ),
{
    assert(search_members(collection@, vector_tree(vector@), top_k, filter_tree(filter@)) =~= map![
        "collection"@ => JsonTree::Text(collection@),
        "vector"@ => vector_tree(vector@),
        "top_k"@ => number_tree(top_k as int),
        "filter"@ => filter_tree(filter@),
    ]);
    a_vector_request_is_sent_under_its_name(
        "Search"@,
        map![
            "collection"@ => JsonTree::Text(collection@),
            "vector"@ => vector_tree(vector@),
            "top_k"@ => number_tree(top_k as int),
            "filter"@ => filter_tree(filter@),
        ],
    );
}

/// What is sent by `vector_list_vectors`.
pub proof fn vector_list_vectors_is_sent_as_it_was_asked(
    c: &mut Client,
    collection: &str,
    limit: Option<usize>,
    offset: Option<usize>,
    r: Result<Vec<u8>>,
)
    ensures
        call_ensures(Client::vector_list_vectors, (c, collection, limit, offset), r) ==> sends(
            old(c)@,
            final(c)@,
            JsonTree::Object(
                map![
                    "Vector"@ => JsonTree::Object(
                        map![
                            "ListVectors"@ => JsonTree::Object(
                                put_members(
                                    put_members(
                                        map!["collection"@ => JsonTree::Text(collection@)],
                                        "limit"@,
                                        positive_tree(limit),
                                    ),
                                    "offset"@,
                                    positive_tree(offset),
                                ),
                            ),
                        ],
                    ),
                ],
            ),
            r,
        ),
{
    assert(Map::<Seq<char>, JsonTree>::empty()
        .insert("collection"@, JsonTree::Text(collection@)) =~= map![
        "collection"@ => JsonTree::Text(collection@),
    ]);
    a_vector_request_is_sent_under_its_name(
        "ListVectors"@,
        put_members(
            put_members(
                map!["collection"@ => JsonTree::Text(collection@)],
                "limit"@,
                positive_tree(limit),
            ),
            "offset"@,
            positive_tree(offset),
        ),
    );
}

/// What the answer is to `vector_list_collections_reply`. Without a response the
/// failure stands.
pub proof fn vector_list_collections_is_answered_by_its_response(
    c: &mut Client,
    reply: Result<Frame>,
    r: Result<Vec<VectorCollectionSummary>>,
)
    ensures
        call_ensures(Client::vector_list_collections_reply, (c, reply), r)
            ==> (response_result(reply_view(reply)) matches Ok(x)
                ==> model_view(r) == typed_single::<Vec<VectorCollectionSummary>>(
                x,
                "ListCollections"@,
                "details"@,
                Seq::empty(),
            )),
        call_ensures(Client::vector_list_collections_reply, (c, reply), r)
            ==> (response_result(reply_view(reply)) matches Err(e) ==> r is Err && r->Err_0@ == e),
{
}

/// What the answer is to `vector_describe_collection_reply`. Without a response the
/// failure stands.
pub proof fn vector_describe_collection_is_answered_by_its_response(
    c: &mut Client,
    reply: Result<Frame>,
    r: Result<VectorCollectionInfo>,
)
    ensures
        call_ensures(Client::vector_describe_collection_reply, (c, reply), r)
            ==> (response_result(reply_view(reply)) matches Ok(x)
                ==> model_view(r) == typed::<VectorCollectionInfo>(x, "DescribeCollection"@)),
        call_ensures(Client::vector_describe_collection_reply, (c, reply), r)
            ==> (response_result(reply_view(reply)) matches Err(e) ==> r is Err && r->Err_0@ == e),
{
}

/// What the answer is to `vector_get_reply`. Without a response the failure stands.
pub proof fn vector_get_is_answered_by_its_response(
    c: &mut Client,
    reply: Result<Frame>,
    r: Result<Option<VectorItem>>,
)
    ensures
        call_ensures(Client::vector_get_reply, (c, reply), r)
            ==> (response_result(reply_view(reply)) matches Ok(x)
                ==> model_view(r) == typed::<Option<VectorItem>>(x, "Get"@)),
        call_ensures(Client::vector_get_reply, (c, reply), r)
            ==> (response_result(reply_view(reply)) matches Err(e) ==> r is Err && r->Err_0@ == e),
{
}

/// What the answer is to `vector_search_reply`. Without a response the failure stands.
pub proof fn vector_search_is_answered_by_its_response(
    c: &mut Client,
    reply: Result<Frame>,
    r: Result<VectorSearchResult>,
)
    ensures
        call_ensures(Client::vector_search_reply, (c, reply), r)
            ==> (response_result(reply_view(reply)) matches Ok(x)
                ==> model_view(r) == typed::<VectorSearchResult>(x, "Search"@)),
        call_ensures(Client::vector_search_reply, (c, reply), r)
            ==> (response_result(reply_view(reply)) matches Err(e) ==> r is Err && r->Err_0@ == e),
{
}

/// What the answer is to `vector_list_vectors_reply`. Without a response the failure
/// stands.
pub proof fn vector_list_vectors_is_answered_by_its_response(
    c: &mut Client,
    reply: Result<Frame>,
    r: Result<VectorPage>,
)
    ensures
        call_ensures(Client::vector_list_vectors_reply, (c, reply), r)
            ==> (response_result(reply_view(reply)) matches Ok(x)
                ==> model_view(r) == typed::<VectorPage>(x, "ListVectors"@)),
        call_ensures(Client::vector_list_vectors_reply, (c, reply), r)
            ==> (response_result(reply_view(reply)) matches Err(e) ==> r is Err && r->Err_0@ == e),
{
}

/// What `VectorSearchResult::decode` gives: as many hits as were sent, each what the
/// item in its place is read as.
pub proof fn hits_are_decoded_whole(
    j: &Json,
    m: Map<Seq<char>, JsonTree>,
    items: Seq<JsonTree>,
    r: Option<VectorSearchResult>,
    i: int,
)
    requires
        call_ensures(VectorSearchResult::decode, (j,), r),
        j@ == JsonTree::Object(m),
        m.dom().contains("results"@),
        m["results"@] == JsonTree::Array(items),
    ensures
        r matches Some(found) ==> {
            &&& found.results@.len() == items.len()
            &&& 0 <= i < items.len() ==> VectorHit::decoded(items[i]) == Some(
                found.results@[i].model(),
            )
        },
{
    if let Some(found) = r {
        assert(VectorSearchResult::decoded(j@) == Some(found.model()));
        a_search_gives_every_hit_in_order(m, items, i);
        if 0 <= i < items.len() {
            assert(found.model().results[i] == found.results@[i].model());
        }
    }
}

/// What a metric tells and sends: its name.
pub proof fn a_metric_is_told_and_sent_by_name(x: VectorMetric, s: &'static str, j: Json)
    ensures
        call_ensures(VectorMetric::name, (x,), s) ==> s@ == metric_name(x),
        call_ensures(VectorMetric::wire, (x,), j) ==> j@ == JsonTree::Text(metric_name(x)),
{
}

/// What a quantization tells and sends: its name.
pub proof fn a_quantization_is_told_and_sent_by_name(x: VectorQuantization, s: &'static str, j: Json)
    ensures
        call_ensures(VectorQuantization::name, (x,), s) ==> s@ == quantization_name(x),
        call_ensures(VectorQuantization::wire, (x,), j) ==> j@ == JsonTree::Text(quantization_name(x)),
{
}

} // verus!
