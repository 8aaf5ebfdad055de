use tricoredb::codec;
use tricoredb::decode::Decode;
use tricoredb::{
    Json, VectorCollectionInfo, VectorHit, VectorItem, VectorMetric, VectorPage, VectorQuantization,
};

fn json(text: &str) -> Json {
    codec::parse(text.as_bytes()).unwrap()
}

#[test]
fn metrics_and_quantizations_use_the_servers_spelling() {
    assert_eq!(VectorMetric::Cosine.wire().as_str(), Some("cosine"));
    assert_eq!(VectorMetric::Dot.wire().as_str(), Some("dot"));
    assert_eq!(VectorMetric::L2.wire().as_str(), Some("l2"));
    assert_eq!(VectorQuantization::Unquantized.wire().as_str(), Some("none"));
    assert_eq!(VectorQuantization::Int8.wire().as_str(), Some("int8"));
}

#[test]
fn metrics_round_trip_from_the_wire() {
    let metric = VectorMetric::decode(&json("\"l2\"")).unwrap();
    assert_eq!(metric, VectorMetric::L2);
    assert_eq!(VectorMetric::default(), VectorMetric::Cosine);
    assert_eq!(VectorQuantization::default(), VectorQuantization::Unquantized);
}

#[test]
fn a_hit_decodes_with_its_metadata() {
    let hit = VectorHit::decode(&json(
        r#"{"id": "a", "score": -0.02, "metadata": {"kind": "doc"}}"#,
    ))
    .unwrap();
    assert_eq!(hit.id, "a");
    assert_eq!(hit.metadata.get("kind").unwrap().as_str(), Some("doc"));
}

#[test]
fn absent_fields_take_their_defaults() {
    let hit = VectorHit::decode(&json(r#"{"id": "a", "metadata": null}"#)).unwrap();
    assert_eq!(hit.score.as_str(), "0.0");
    assert!(hit.metadata.is_empty());
    assert!(VectorHit::decode(&json(r#"{"score": 1}"#)).is_none());
    let item = VectorItem::decode(&json(r#"{"id": "v", "vector": [1, -0.5, 1e-3]}"#)).unwrap();
    let texts: Vec<&str> = item.vector.iter().map(|n| n.as_str()).collect();
    assert_eq!(texts, vec!["1", "-0.5", "1e-3"]);
    let info = VectorCollectionInfo::decode(&json(r#"{"collection": "c"}"#)).unwrap();
    assert_eq!(info.dimension, 0);
    assert_eq!(info.metric, VectorMetric::Cosine);
    assert_eq!(info.quantization, VectorQuantization::Unquantized);
    let page = VectorPage::decode(&json(
        r#"{"collection": "c", "count": 1, "vectors": [{"id": "v"}], "truncated": true, "total": 9}"#,
    ))
    .unwrap();
    assert_eq!((page.count, page.truncated, page.total), (1, true, 9));
    assert!(page.vectors[0].vector.is_empty());
}

#[test]
fn a_name_the_client_does_not_know_is_refused() {
    assert!(VectorMetric::decode(&json("\"L2\"")).is_none());
    assert!(VectorMetric::decode(&json("{\"dot\": null}")) == Some(VectorMetric::Dot));
    assert!(VectorMetric::decode(&json("{\"dot\": 1}")).is_none());
    assert!(VectorMetric::decode(&json("{\"dot\": null, \"l2\": null}")).is_none());
    assert!(VectorQuantization::decode(&json("null")).is_none());
    for metric in [VectorMetric::Cosine, VectorMetric::Dot, VectorMetric::L2] {
        assert_eq!(VectorMetric::decode(&metric.wire()), Some(metric));
    }
    for q in [VectorQuantization::Unquantized, VectorQuantization::Int8] {
        assert_eq!(VectorQuantization::decode(&q.wire()), Some(q));
    }
}
