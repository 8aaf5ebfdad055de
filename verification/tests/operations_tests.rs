//! Every typed operation: the request it sends, and what its answer means.

use tricoredb::frame::{read_frame, ByteReader};
use tricoredb::{
    codec, AccumulatorOp, AggregateStage, CachePair, Client, DocumentFilter, DocumentUpdate,
    Duration, Float, Frame, GraphDirection, GroupAccumulator, GroupKey, Json, LlmOptions,
    NeighborOptions, Number, Object, Options, OutputFormat, PathOptions, Result, SortKey, Tag,
    TraverseOptions, VectorMetric, VectorQuantization, WeightedPathOptions,
};

fn json(text: &str) -> Json {
    codec::parse(text.as_bytes()).unwrap()
}

fn session() -> Client {
    let (mut c, hello) = Client::connect(&Options::default(), "px");
    assert!(hello.is_ok());
    let payload = br#"{"ok":true,"features":7}"#.to_vec();
    c.hello_reply(Ok(Frame { tag: Tag::HelloOk, payload })).unwrap();
    c
}

/// The operation that a request carries, as compact text.
fn op(bytes: Result<Vec<u8>>) -> String {
    let frame = read_frame(&mut ByteReader::new(bytes.unwrap())).unwrap();
    assert_eq!(frame.tag, Tag::Request);
    let envelope = codec::parse(&frame.payload).unwrap();
    codec::render(envelope.get("op").unwrap())
}

/// A successful answer with this data.
fn ok(data: &str) -> Result<Frame> {
    Ok(Frame {
        tag: Tag::Response,
        payload: format!(r#"{{"status":"ok","data":{data}}}"#).into_bytes(),
    })
}

/// A successful answer of the usual variant.
fn answer(payload: &str) -> Result<Frame> {
    ok(&format!(r#"{{"Json":{payload}}}"#))
}

fn float(text: &str) -> Float {
    Float::Finite(Number::parse(text).unwrap())
}

#[test]
fn keys_of_the_cache() {
    let c = &mut session();
    let ms = Duration::from_millis(1500);
    assert_eq!(op(c.cache_ping()), r#"{"Cache":"Ping"}"#);
    assert_eq!(
        op(c.cache_get("n", "k")),
        r#"{"Cache":{"Get":{"key":"k","namespace":"n"}}}"#
    );
    assert_eq!(
        op(c.cache_set_ttl("n", "k", &[0, 255], Some(ms))),
        r#"{"Cache":{"Set":{"key":"k","namespace":"n","ttl_ms":1500,"value":[0,255]}}}"#
    );
    assert_eq!(
        op(c.cache_set_ttl("n", "k", &[], Some(Duration::from_secs(0)))),
        r#"{"Cache":{"Set":{"key":"k","namespace":"n","ttl_ms":null,"value":[]}}}"#
    );
    assert_eq!(
        op(c.cache_set_ttl("n", "k", &[], Some(Duration::from_secs(u64::MAX)))),
        r#"{"Cache":{"Set":{"key":"k","namespace":"n","ttl_ms":9223372036854775807,"value":[]}}}"#
    );
    assert_eq!(
        op(c.cache_delete("n", "k")),
        r#"{"Cache":{"Delete":{"key":"k","namespace":"n"}}}"#
    );
    assert!(c.cache_delete_reply(answer(r#"{"deleted":true}"#)).unwrap());
    assert!(!c.cache_delete_reply(answer("{}")).unwrap());
    assert_eq!(
        op(c.cache_exists("n", "k")),
        r#"{"Cache":{"Exists":{"key":"k","namespace":"n"}}}"#
    );
    assert!(c.cache_exists_reply(answer(r#"{"exists":true}"#)).unwrap());
    assert_eq!(
        op(c.cache_ttl("n", "k")),
        r#"{"Cache":{"Ttl":{"key":"k","namespace":"n"}}}"#
    );
    assert_eq!(c.cache_ttl_reply(answer(r#"{"ttl_ms":0}"#)).unwrap(), Some(Duration::from_millis(0)));
    assert_eq!(c.cache_ttl_reply(answer("{}")).unwrap(), None);
    assert_eq!(
        op(c.cache_expire("n", "k", Duration::from_secs(0))),
        r#"{"Cache":{"Expire":{"key":"k","namespace":"n","ttl_ms":0}}}"#
    );
    assert!(c.cache_expire_reply(answer(r#"{"updated":true}"#)).unwrap());
    assert_eq!(
        op(c.cache_persist("n", "k")),
        r#"{"Cache":{"Persist":{"key":"k","namespace":"n"}}}"#
    );
    assert!(c.cache_persist_reply(answer(r#"{"persisted":true}"#)).unwrap());
    assert_eq!(
        op(c.cache_incr("n", "k", -3)),
        r#"{"Cache":{"Incr":{"by":-3,"key":"k","namespace":"n"}}}"#
    );
    assert_eq!(c.cache_incr_reply(answer(r#"{"value":-4}"#)).unwrap(), -4);
    assert_eq!(
        op(c.cache_clear_namespace("n")),
        r#"{"Cache":{"ClearNamespace":{"namespace":"n"}}}"#
    );
    assert_eq!(c.cache_clear_namespace_reply(answer(r#"{"cleared":9}"#)).unwrap(), 9);
    assert_eq!(
        op(c.cache_keys("n", None, Some(3))),
        r#"{"Cache":{"Keys":{"limit":3,"namespace":"n","pattern":null}}}"#
    );
    assert!(c.cache_keys_reply(answer(r#"{"keys":[{"ttl_ms":1}]}"#)).is_err());
    assert!(c.is_poisoned());
}

#[test]
fn lists_and_sets_of_the_cache() {
    let c = &mut session();
    let two = [vec![1u8], vec![]];
    assert_eq!(
        op(c.cache_lpush("n", "k", &two)),
        r#"{"Cache":{"LPush":{"key":"k","namespace":"n","values":[[1],[]]}}}"#
    );
    assert_eq!(c.cache_lpush_reply(answer(r#"{"length":2}"#)).unwrap(), 2);
    assert_eq!(c.cache_rpush_reply(answer(r#"{"length":3}"#)).unwrap(), 3);
    assert_eq!(
        op(c.cache_lpop("n", "k")),
        r#"{"Cache":{"LPop":{"key":"k","namespace":"n"}}}"#
    );
    assert_eq!(c.cache_lpop_reply(ok(r#"{"CacheValue":[7]}"#)).unwrap(), Some(vec![7]));
    assert_eq!(
        op(c.cache_rpop("n", "k")),
        r#"{"Cache":{"RPop":{"key":"k","namespace":"n"}}}"#
    );
    assert_eq!(c.cache_rpop_reply(ok(r#"{"CacheValue":null}"#)).unwrap(), None);
    assert_eq!(
        op(c.cache_lrange("n", "k", 0, -1)),
        r#"{"Cache":{"LRange":{"key":"k","namespace":"n","start":0,"stop":-1}}}"#
    );
    assert_eq!(
        op(c.cache_llen("n", "k")),
        r#"{"Cache":{"LLen":{"key":"k","namespace":"n"}}}"#
    );
    assert_eq!(c.cache_llen_reply(answer("{}")).unwrap(), 0);
    assert_eq!(
        op(c.cache_lindex("n", "k", -2)),
        r#"{"Cache":{"LIndex":{"index":-2,"key":"k","namespace":"n"}}}"#
    );
    assert_eq!(c.cache_lindex_reply(ok(r#"{"CacheValue":[]}"#)).unwrap(), Some(vec![]));
    assert_eq!(
        op(c.cache_sadd("n", "k", &two)),
        r#"{"Cache":{"SAdd":{"key":"k","members":[[1],[]],"namespace":"n"}}}"#
    );
    assert_eq!(c.cache_sadd_reply(answer(r#"{"added":1}"#)).unwrap(), 1);
    assert_eq!(
        op(c.cache_srem("n", "k", &two)),
        r#"{"Cache":{"SRem":{"key":"k","members":[[1],[]],"namespace":"n"}}}"#
    );
    assert_eq!(c.cache_srem_reply(answer(r#"{"removed":1}"#)).unwrap(), 1);
    assert_eq!(
        op(c.cache_sismember("n", "k", &[9])),
        r#"{"Cache":{"SIsMember":{"key":"k","member":[9],"namespace":"n"}}}"#
    );
    assert!(c.cache_sismember_reply(answer(r#"{"is_member":true}"#)).unwrap());
    assert_eq!(
        op(c.cache_scard("n", "k")),
        r#"{"Cache":{"SCard":{"key":"k","namespace":"n"}}}"#
    );
    assert_eq!(c.cache_scard_reply(answer(r#"{"cardinality":4}"#)).unwrap(), 4);
    assert_eq!(
        op(c.cache_smembers("n", "k")),
        r#"{"Cache":{"SMembers":{"key":"k","namespace":"n"}}}"#
    );
    assert_eq!(
        c.cache_smembers_reply(answer(r#"{"members":[[1],[2]]}"#)).unwrap(),
        vec![vec![1], vec![2]]
    );
    let e = c.cache_smembers_reply(answer("{}")).unwrap_err();
    assert_eq!(e.message(), "expected an array of byte arrays, got null");
}

#[test]
fn hashes_and_streams_of_the_cache() {
    let c = &mut session();
    assert_eq!(
        op(c.cache_hset("n", "k", &[CachePair::new(&[255], &[0])])),
        r#"{"Cache":{"HSet":{"entries":[[[255],[0]]],"key":"k","namespace":"n"}}}"#
    );
    assert_eq!(
        op(c.cache_hset_text("n", "k", &[("a", "é")])),
        r#"{"Cache":{"HSet":{"entries":[[[97],[195,169]]],"key":"k","namespace":"n"}}}"#
    );
    assert_eq!(c.cache_hset_reply(answer(r#"{"created":1}"#)).unwrap(), 1);
    assert_eq!(
        op(c.cache_hget("n", "k", b"f")),
        r#"{"Cache":{"HGet":{"field":[102],"key":"k","namespace":"n"}}}"#
    );
    assert_eq!(c.cache_hget_reply(ok(r#"{"CacheValue":[1]}"#)).unwrap(), Some(vec![1]));
    assert_eq!(
        op(c.cache_hdel("n", "k", &[b"f".to_vec()])),
        r#"{"Cache":{"HDel":{"fields":[[102]],"key":"k","namespace":"n"}}}"#
    );
    assert_eq!(c.cache_hdel_reply(answer(r#"{"deleted":2}"#)).unwrap(), 2);
    assert_eq!(
        op(c.cache_hgetall("n", "k")),
        r#"{"Cache":{"HGetAll":{"key":"k","namespace":"n"}}}"#
    );
    assert_eq!(
        op(c.cache_hexists("n", "k", b"f")),
        r#"{"Cache":{"HExists":{"field":[102],"key":"k","namespace":"n"}}}"#
    );
    assert!(c.cache_hexists_reply(answer(r#"{"exists":true}"#)).unwrap());
    assert_eq!(
        op(c.cache_hlen("n", "k")),
        r#"{"Cache":{"HLen":{"key":"k","namespace":"n"}}}"#
    );
    assert_eq!(c.cache_hlen_reply(answer(r#"{"length":5}"#)).unwrap(), 5);
    assert_eq!(
        op(c.cache_xadd("n", "k", &[CachePair::new(b"f", b"v")], Some("5-*"))),
        r#"{"Cache":{"XAdd":{"fields":[[[102],[118]]],"id":"5-*","key":"k","namespace":"n"}}}"#
    );
    assert!(c.cache_xadd("n", "k", &[], None).unwrap_err().was_refused_locally());
    assert_eq!(
        op(c.cache_xlen("n", "k")),
        r#"{"Cache":{"XLen":{"key":"k","namespace":"n"}}}"#
    );
    assert_eq!(c.cache_xlen_reply(answer(r#"{"length":6}"#)).unwrap(), 6);
    assert_eq!(
        op(c.cache_xrange("n", "k", "-", "+", Some(2))),
        r#"{"Cache":{"XRange":{"count":2,"end":"+","key":"k","namespace":"n","start":"-"}}}"#
    );
    assert_eq!(
        op(c.cache_xread("n", "k", "$", None)),
        r#"{"Cache":{"XRead":{"after":"$","count":null,"key":"k","namespace":"n"}}}"#
    );
    let read = c
        .cache_xread_reply(answer(r#"{"entries":[{"id":"1-0","fields":[[[102],[255]]]},{"id":"2-0"}]}"#))
        .unwrap();
    assert_eq!(read[0].fields, vec![CachePair::new(b"f", &[255])]);
    assert_eq!(read[0].text().get("f").unwrap(), "\u{fffd}");
    assert_eq!((read[1].id.as_str(), read[1].fields.len()), ("2-0", 0));
    assert_eq!(
        op(c.cache_xdel("n", "k", &["1-0", "2-0"])),
        r#"{"Cache":{"XDel":{"ids":["1-0","2-0"],"key":"k","namespace":"n"}}}"#
    );
    assert_eq!(c.cache_xdel_reply(answer(r#"{"deleted":2}"#)).unwrap(), 2);
    assert_eq!(
        op(c.cache_xtrim("n", "k", 100)),
        r#"{"Cache":{"XTrim":{"key":"k","max_len":100,"namespace":"n"}}}"#
    );
    assert_eq!(c.cache_xtrim_reply(answer(r#"{"trimmed":3}"#)).unwrap(), 3);
    let e = c
        .cache_xread_reply(answer(r#"{"entries":[{"fields":[[[1]]]}]}"#))
        .unwrap_err();
    assert_eq!(e.message(), "expected a [field, value] pair");
}

#[test]
fn collections_and_documents() {
    let c = &mut session();
    assert_eq!(
        op(c.document_create_collection("p")),
        r#"{"Document":{"CreateCollection":{"collection":"p"}}}"#
    );
    assert_eq!(
        op(c.document_drop_collection("p")),
        r#"{"Document":{"DropCollection":{"collection":"p"}}}"#
    );
    assert_eq!(op(c.document_list_collections()), r#"{"Document":"ListCollections"}"#);
    assert_eq!(
        c.document_list_collections_reply(answer(r#"{"collections":["a"]}"#)).unwrap(),
        vec!["a"]
    );
    assert_eq!(
        op(c.document_insert_with_id("p", "x", json("{}"))),
        r#"{"Document":{"Insert":{"collection":"p","document":{},"id":"x"}}}"#
    );
    assert_eq!(
        op(c.document_get("p", "x")),
        r#"{"Document":{"Get":{"collection":"p","id":"x"}}}"#
    );
    let first = c.document_get_reply(ok(r#"{"Documents":[{"_id":"a"},{"_id":"b"}]}"#)).unwrap();
    assert_eq!(first.unwrap().get("_id").unwrap().as_str(), Some("a"));
    let changes = Object::new().with("a.b", Json::Bool(true));
    assert_eq!(
        op(c.document_update("p", "x", &changes)),
        r#"{"Document":{"Update":{"collection":"p","id":"x","set":{"a.b":true}}}}"#
    );
    let update = DocumentUpdate::new().set("s", Json::text("v")).inc("n", Json::signed(-1));
    assert_eq!(
        op(c.document_update_one("p", "x", &update)),
        r#"{"Document":{"UpdateOne":{"collection":"p","id":"x","update":{"inc":{"n":-1},"set":{"s":"v"}},"upsert":false}}}"#
    );
    assert!(c.document_update_one_reply(answer(r#"{"updated":true}"#)).is_ok());
    assert!(!c.document_upsert_one_reply(answer(r#"{"updated":true}"#)).unwrap());
    assert_eq!(
        op(c.document_update_many("p", &DocumentFilter::all(), &update)),
        r#"{"Document":{"UpdateMany":{"collection":"p","filter":"All","update":{"inc":{"n":-1},"set":{"s":"v"}}}}}"#
    );
    assert_eq!(
        c.document_update_many("p", &DocumentFilter::all(), &DocumentUpdate::new())
            .unwrap_err()
            .message(),
        "an update must set or increment at least one field"
    );
    assert_eq!(
        op(c.document_delete("p", "x")),
        r#"{"Document":{"Delete":{"collection":"p","id":"x"}}}"#
    );
    assert_eq!(
        op(c.document_create_index("p", "i", "f", true)),
        r#"{"Document":{"CreateIndex":{"collection":"p","field":"f","index_name":"i","unique":true}}}"#
    );
    assert_eq!(
        op(c.document_drop_index("p", "i")),
        r#"{"Document":{"DropIndex":{"collection":"p","index_name":"i"}}}"#
    );
    assert_eq!(
        op(c.document_list_indexes("p")),
        r#"{"Document":{"ListIndexes":{"collection":"p"}}}"#
    );
    let indexes = c
        .document_list_indexes_reply(answer(r#"{"indexes":[{"index_name":"i","unique":true}]}"#))
        .unwrap();
    assert_eq!((indexes[0].name.as_str(), indexes[0].field.as_str(), indexes[0].unique), ("i", "", true));
    assert_eq!(
        op(c.document_analyze("p")),
        r#"{"Document":{"Analyze":{"collection":"p"}}}"#
    );
    let stats = c
        .document_analyze_reply(answer(r#"{"analyzed":"p","document_count":3,"indexed_fields":1}"#))
        .unwrap();
    assert_eq!((stats.collection.as_str(), stats.document_count, stats.indexed_fields), ("p", 3, 1));
    let e = c.document_find_reply(ok(r#"{"Documents":[1]}"#)).unwrap_err();
    assert!(e.message().starts_with("malformed Documents payload from Find: "), "{}", e.message());
}

#[test]
fn an_aggregation_sends_its_stages_in_order() {
    let c = &mut session();
    let pipeline = [
        AggregateStage::filter(&DocumentFilter::and(&[
            DocumentFilter::ne("a", Json::Null),
            DocumentFilter::is_in("b", vec![Json::unsigned(1)]),
        ])),
        AggregateStage::group(
            &GroupKey::constant(Json::Null),
            &[GroupAccumulator::new("n", AccumulatorOp::count())],
        ),
        AggregateStage::sort(&[SortKey::descending("n"), SortKey::ascending("_id")]),
        AggregateStage::skip(1),
        AggregateStage::limit(2),
        AggregateStage::project(&["n"], true),
        AggregateStage::count("total"),
    ];
    assert_eq!(
        op(c.document_aggregate("p", &pipeline)),
        concat_lines(&[
            r#"{"Document":{"Aggregate":{"collection":"p","pipeline":["#,
            r#"{"Match":{"And":[{"Ne":{"field":"a","value":null}},{"In":{"field":"b","values":[1]}}]}},"#,
            r#"{"Group":{"accumulators":[{"op":"Count","output":"n"}],"by":{"Constant":null}}},"#,
            r#"{"Sort":[{"descending":true,"field":"n"},{"descending":false,"field":"_id"}]},"#,
            r#"{"Skip":1},{"Limit":2},"#,
            r#"{"Project":{"fields":["n"],"include":true}},{"Count":{"field":"total"}}]}}}"#,
        ])
    );
    assert_eq!(
        c.document_aggregate_reply(ok(r#"{"Documents":[{"total":4}]}"#)).unwrap().len(),
        1
    );
}

fn concat_lines(lines: &[&str]) -> String {
    let mut all = String::new();
    for line in lines {
        all.push_str(line);
    }
    all
}

#[test]
fn vectors() {
    let c = &mut session();
    assert_eq!(
        op(c.vector_create_collection_quantized("e", 2, VectorMetric::L2, VectorQuantization::Int8)),
        r#"{"Vector":{"CreateCollection":{"collection":"e","dimension":2,"metric":"l2","quantization":"int8"}}}"#
    );
    assert_eq!(
        op(c.vector_drop_collection("e")),
        r#"{"Vector":{"DropCollection":{"collection":"e"}}}"#
    );
    assert_eq!(op(c.vector_list_collections()), r#"{"Vector":"ListCollections"}"#);
    let listed = c
        .vector_list_collections_reply(answer(r#"{"details":[{"name":"e","dimension":2,"metric":"dot"},{"name":"f"}]}"#))
        .unwrap();
    assert_eq!((listed[0].dimension, listed[0].metric), (2, VectorMetric::Dot));
    assert_eq!((listed[1].dimension, listed[1].metric), (0, VectorMetric::Cosine));
    assert_eq!(
        op(c.vector_describe_collection("e")),
        r#"{"Vector":{"DescribeCollection":{"collection":"e"}}}"#
    );
    let info = c
        .vector_describe_collection_reply(answer(
            r#"{"collection":"e","dimension":2,"metric":"l2","count":5,"quantization":"int8"}"#,
        ))
        .unwrap();
    assert_eq!((info.count, info.quantization), (5, VectorQuantization::Int8));
    assert_eq!(
        op(c.vector_upsert("e", "a", &[float("0.5"), Float::NotANumber], None)),
        r#"{"Vector":{"Upsert":{"collection":"e","id":"a","metadata":null,"vector":[0.5,null]}}}"#
    );
    let metadata = Object::new().with("k", Json::unsigned(1));
    assert_eq!(
        op(c.vector_upsert("e", "a", &[], Some(&metadata))),
        r#"{"Vector":{"Upsert":{"collection":"e","id":"a","metadata":{"k":1},"vector":[]}}}"#
    );
    assert_eq!(
        op(c.vector_get("e", "a")),
        r#"{"Vector":{"Get":{"collection":"e","id":"a"}}}"#
    );
    let item = c
        .vector_get_reply(answer(r#"{"id":"a","vector":[1,0.25],"metadata":null}"#))
        .unwrap()
        .unwrap();
    assert_eq!((item.id.as_str(), item.vector[1].as_str()), ("a", "0.25"));
    assert!(item.metadata.is_empty());
    assert_eq!(
        op(c.vector_delete("e", "a")),
        r#"{"Vector":{"Delete":{"collection":"e","id":"a"}}}"#
    );
    assert_eq!(
        op(c.vector_list_vectors("e", Some(5), None)),
        r#"{"Vector":{"ListVectors":{"collection":"e","limit":5}}}"#
    );
    let page = c
        .vector_list_vectors_reply(answer(
            r#"{"collection":"e","count":1,"vectors":[{"id":"a"}],"truncated":true,"total":7}"#,
        ))
        .unwrap();
    assert_eq!((page.count, page.truncated, page.total), (1, true, 7));
    assert!(page.vectors[0].vector.is_empty());
}

#[test]
fn graphs() {
    let c = &mut session();
    assert_eq!(op(c.graph_create("g")), r#"{"Graph":{"CreateGraph":{"graph":"g"}}}"#);
    assert_eq!(op(c.graph_drop("g")), r#"{"Graph":{"DropGraph":{"graph":"g"}}}"#);
    assert_eq!(op(c.graph_list()), r#"{"Graph":"ListGraphs"}"#);
    assert_eq!(c.graph_list_reply(answer(r#"{"graphs":["g"]}"#)).unwrap(), vec!["g"]);
    assert_eq!(
        op(c.graph_get_node("g", "u")),
        r#"{"Graph":{"GetNode":{"graph":"g","id":"u"}}}"#
    );
    let node = c
        .graph_get_node_reply(answer(r#"{"id":"u","labels":["User"],"properties":{"a":1}}"#))
        .unwrap()
        .unwrap();
    assert_eq!((node.labels.len(), node.properties.len()), (1, 1));
    assert!(c.graph_get_node_reply(answer("null")).unwrap().is_none());
    assert_eq!(
        op(c.graph_delete_node("g", "u")),
        r#"{"Graph":{"DeleteNode":{"graph":"g","id":"u"}}}"#
    );
    assert_eq!(
        op(c.graph_list_nodes("g", Some(2), Some(4))),
        r#"{"Graph":{"ListNodes":{"graph":"g","limit":2,"offset":4}}}"#
    );
    let nodes = c
        .graph_list_nodes_reply(answer(r#"{"graph":"g","count":1,"nodes":[{"id":"u","labels":null}],"total":9}"#))
        .unwrap();
    assert_eq!((nodes.count, nodes.nodes.len(), nodes.truncated, nodes.total), (1, 1, false, 9));
    let properties = Object::new().with("w", Json::Number(Number::parse("1.5").unwrap()));
    assert_eq!(
        op(c.graph_add_edge("g", "e", "u", "v", "F", Some(&properties))),
        r#"{"Graph":{"AddEdge":{"from":"u","graph":"g","id":"e","label":"F","properties":{"w":1.5},"to":"v"}}}"#
    );
    assert_eq!(
        op(c.graph_get_edge("g", "e")),
        r#"{"Graph":{"GetEdge":{"graph":"g","id":"e"}}}"#
    );
    let edge = c
        .graph_get_edge_reply(answer(r#"{"id":"e","from":"u","to":"v","label":"F"}"#))
        .unwrap()
        .unwrap();
    assert_eq!((edge.from.as_str(), edge.to.as_str(), edge.label.as_str()), ("u", "v", "F"));
    assert_eq!(
        op(c.graph_delete_edge("g", "e")),
        r#"{"Graph":{"DeleteEdge":{"graph":"g","id":"e"}}}"#
    );
    assert_eq!(
        op(c.graph_list_edges("g", None, Some(0))),
        r#"{"Graph":{"ListEdges":{"graph":"g"}}}"#
    );
    let edges = c
        .graph_list_edges_reply(answer(r#"{"edges":[{"id":"e"}],"truncated":true}"#))
        .unwrap();
    assert_eq!((edges.edges.len(), edges.truncated), (1, true));
}

#[test]
fn walks_through_graphs() {
    let c = &mut session();
    assert_eq!(
        op(c.graph_neighbors("g", "u", &NeighborOptions::default())),
        r#"{"Graph":{"Neighbors":{"graph":"g","node_id":"u"}}}"#
    );
    let near = c
        .graph_neighbors_reply(answer(
            r#"{"neighbors":[{"edge_id":"e","node_id":"v","direction":"incoming"}]}"#,
        ))
        .unwrap();
    assert_eq!((near[0].node_id.as_str(), near[0].direction), ("v", GraphDirection::Incoming));
    assert_eq!(
        op(c.graph_degree("g", "u", Some(GraphDirection::Incoming))),
        r#"{"Graph":{"Degree":{"direction":"incoming","graph":"g","node_id":"u"}}}"#
    );
    let options = TraverseOptions {
        direction: Some(GraphDirection::Outgoing),
        label: Some("F".to_string()),
        max_depth: Some(2),
        limit: Some(0),
    };
    assert_eq!(
        op(c.graph_traverse("g", "u", &options)),
        r#"{"Graph":{"Traverse":{"direction":"outgoing","graph":"g","label":"F","max_depth":2,"start":"u"}}}"#
    );
    let walk = c
        .graph_traverse_reply(answer(
            r#"{"start":"u","direction":"outgoing","max_depth":2,"limit":100,"count":1,"nodes":[{"id":"v","depth":1}]}"#,
        ))
        .unwrap();
    assert_eq!((walk.count, walk.nodes[0].depth, walk.limit), (1, 1, 100));
    let options = PathOptions {
        direction: None,
        label: None,
        max_depth: Some(4),
    };
    assert_eq!(
        op(c.graph_shortest_path("g", "u", "v", &options)),
        r#"{"Graph":{"ShortestPath":{"from":"u","graph":"g","max_depth":4,"to":"v"}}}"#
    );
    let none = c
        .graph_shortest_path_reply(answer(r#"{"found":false,"message":"no path"}"#))
        .unwrap();
    assert_eq!((none.found, none.message.as_str(), none.hops), (false, "no path", 0));
    let options = WeightedPathOptions {
        direction: None,
        label: None,
        weight_property: Some("cost".to_string()),
    };
    assert_eq!(
        op(c.graph_weighted_shortest_path("g", "u", "v", &options)),
        r#"{"Graph":{"WeightedShortestPath":{"from":"u","graph":"g","to":"v","weight_property":"cost"}}}"#
    );
    let path = c
        .graph_weighted_shortest_path_reply(answer(
            r#"{"found":true,"hops":1,"node_path":["u","v"],"edge_path":["e"],"total_cost":2.5}"#,
        ))
        .unwrap();
    assert_eq!((path.node_path.len(), path.total_cost.as_str()), (2, "2.5"));
    assert_eq!(
        op(c.graph_query("g", "MATCH (n) RETURN n")),
        r#"{"Graph":{"Query":{"cypher":"MATCH (n) RETURN n","graph":"g"}}}"#
    );
    let rows = c
        .graph_query_reply(answer(r#"{"graph":"g","columns":["n"],"rows":[[1,null]],"count":1}"#))
        .unwrap();
    assert_eq!(rows.rows[0], vec![Json::unsigned(1), Json::Null]);
}

#[test]
fn exports_and_admin_reads() {
    let c = &mut session();
    let options = LlmOptions::default().max_rows(0).redact_sensitive(false).include_schema(true);
    assert_eq!(
        op(c.llm_schema(OutputFormat::Markdown, Some(options))),
        r#"{"Llm":{"Schema":{"format":"markdown","options":{"include_schema":true,"max_rows":0,"redact_sensitive":false}}}}"#
    );
    assert_eq!(c.llm_context_reply(answer(r#"{"a":[1]}"#)).unwrap(), r#"{"a":[1]}"#);
    assert_eq!(c.llm_context_reply(ok(r#"{"Toon":"t"}"#)).unwrap(), "t");
    assert_eq!(c.llm_context_reply(ok(r#"{"Message":5}"#)).unwrap(), "5");
    assert_eq!(op(c.admin_ping()), r#"{"Admin":"Ping"}"#);
    let status = c.admin_status_reply(ok(r#"{"Message":"up"}"#)).unwrap();
    assert_eq!(status.get("message").unwrap().as_str(), Some("up"));
    let status = c.admin_status_reply(answer(r#"{"nodes":3}"#)).unwrap();
    assert_eq!(status.get("nodes").unwrap().as_u64(), Some(3));
    let e = c.llm_schema_reply(ok(r#""Empty""#)).unwrap_err();
    assert_eq!(e.message(), "expected a rendered export, got Empty");
    assert!(c.is_poisoned());
    let mut c = session();
    let e = c.llm_schema_reply(ok("null")).unwrap_err();
    assert_eq!(e.message(), "expected a rendered export, got no data");
}
