use tricoredb::codec;
use tricoredb::decode::Decode;
use tricoredb::json::put;
use tricoredb::{
    GraphDirection, GraphNeighbor, GraphPath, GraphRows, GraphTraversal, Json, Object,
    TraverseOptions,
};

fn json(text: &str) -> Json {
    codec::parse(text.as_bytes()).unwrap()
}

#[test]
fn directions_use_the_servers_spelling() {
    assert_eq!(GraphDirection::Outgoing.wire().as_str(), Some("outgoing"));
    assert_eq!(GraphDirection::Incoming.wire().as_str(), Some("incoming"));
    assert_eq!(GraphDirection::Both.wire().as_str(), Some("both"));
    assert_eq!(GraphDirection::default(), GraphDirection::Outgoing);
}

#[test]
fn an_unset_option_is_left_out_rather_than_sent_empty() {
    let mut body = Object::new();
    body = put(body, "label", None);
    body = put(body, "limit", None);
    assert!(body.is_empty());

    body = put(body, "label", Some(Json::text("FOLLOWS")));
    body = put(body, "limit", Some(Json::unsigned(10)));
    assert_eq!(body.get("label").unwrap().as_str(), Some("FOLLOWS"));
    assert_eq!(body.get("limit").unwrap().as_u64(), Some(10));
}

#[test]
fn a_zero_bound_is_the_servers_default_not_a_bound_of_zero() {
    let options = TraverseOptions {
        max_depth: Some(0),
        ..Default::default()
    };
    let body = put(Object::new(), "max_depth", Json::positive(options.max_depth));
    assert!(body.is_empty());
}

#[test]
fn a_path_that_was_not_found_still_decodes() {
    let path = GraphPath::decode(&json(
        r#"{"found": false, "message": "no path within 10 hops"}"#,
    ))
    .unwrap();
    assert!(!path.found);
    assert_eq!(path.hops, 0);
    assert!(path.node_path.is_empty());
    assert_eq!(path.total_cost.as_str(), "0.0");
}

#[test]
fn replies_about_graphs_decode() {
    let n = GraphNeighbor::decode(&json(
        r#"{"edge_id": "e", "node_id": "n", "direction": "incoming"}"#,
    ))
    .unwrap();
    assert_eq!(n.direction, GraphDirection::Incoming);
    assert!(GraphNeighbor::decode(&json(r#"{"edge_id": "e"}"#)).is_none());
    let t = GraphTraversal::decode(&json(
        r#"{"start": "a", "max_depth": 3, "nodes": [{"id": "b", "depth": 1, "labels": null}]}"#,
    ))
    .unwrap();
    assert_eq!(t.nodes[0].depth, 1);
    assert!(t.nodes[0].labels.is_empty());
    let rows = GraphRows::decode(&json(r#"{"columns": ["n"], "rows": [[{"id": 1}, null]]}"#)).unwrap();
    assert_eq!(rows.rows[0][0], json(r#"{"id": 1}"#));
    for d in [GraphDirection::Outgoing, GraphDirection::Incoming, GraphDirection::Both] {
        assert_eq!(GraphDirection::decode(&d.wire()), Some(d));
    }
}
