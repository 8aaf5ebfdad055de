use tricoredb::codec;
use tricoredb::{
    AccumulatorOp, AggregateStage, DocumentFilter, DocumentUpdate, GroupAccumulator, GroupKey, Json,
    SortKey,
};

fn json(text: &str) -> Json {
    codec::parse(text.as_bytes()).unwrap()
}

#[test]
fn filters_are_externally_tagged() {
    assert_eq!(DocumentFilter::all().wire(), json(r#""All""#));
    assert_eq!(
        DocumentFilter::eq("kind", Json::text("widget")).wire(),
        json(r#"{"Eq": {"field": "kind", "value": "widget"}}"#)
    );
    assert_eq!(
        DocumentFilter::lt("price", Json::signed(10)).wire(),
        json(r#"{"Lt": {"field": "price", "value": 10}}"#)
    );
    assert_eq!(
        DocumentFilter::is_in("id", vec![Json::text("a"), Json::text("b")]).wire(),
        json(r#"{"In": {"field": "id", "values": ["a", "b"]}}"#)
    );
}

#[test]
fn and_nests_its_children_in_order() {
    let filter = DocumentFilter::and(&[
        DocumentFilter::eq("a", Json::signed(1)),
        DocumentFilter::gt("b", Json::signed(2)),
    ]);
    let value = filter.wire();
    let children = value.get("And").unwrap().as_array().unwrap();
    assert_eq!(
        children[0].get("Eq").unwrap().get("field").unwrap().as_str(),
        Some("a")
    );
    assert_eq!(
        children[1].get("Gt").unwrap().get("field").unwrap().as_str(),
        Some("b")
    );
}

#[test]
fn an_update_omits_the_half_it_does_not_use() {
    let update = DocumentUpdate::new().set("name", Json::text("ada"));
    assert_eq!(update.wire(), json(r#"{"set": {"name": "ada"}}"#));
    let update = DocumentUpdate::new().inc("hits", Json::signed(1));
    assert_eq!(update.wire(), json(r#"{"inc": {"hits": 1}}"#));
    assert!(DocumentUpdate::new().is_empty());
}

#[test]
fn pipeline_stages_keep_the_servers_own_names() {
    assert_eq!(
        AggregateStage::filter(&DocumentFilter::all()).wire(),
        json(r#"{"Match": "All"}"#)
    );
    assert_eq!(AggregateStage::skip(2).wire(), json(r#"{"Skip": 2}"#));
    assert_eq!(AggregateStage::limit(5).wire(), json(r#"{"Limit": 5}"#));
    assert_eq!(
        AggregateStage::count("n").wire(),
        json(r#"{"Count": {"field": "n"}}"#)
    );
    assert_eq!(
        AggregateStage::project(&["a", "b"], true).wire(),
        json(r#"{"Project": {"fields": ["a", "b"], "include": true}}"#)
    );
}

#[test]
fn a_group_stage_carries_its_key_and_accumulators() {
    let stage = AggregateStage::group(
        &GroupKey::field("customer"),
        &[
            GroupAccumulator::new("total", AccumulatorOp::sum("amount")),
            GroupAccumulator::new("orders", AccumulatorOp::count()),
        ],
    );
    let value = stage.wire();
    let group = value.get("Group").unwrap();
    assert_eq!(group.get("by"), Some(&json(r#"{"Field": "customer"}"#)));
    let accumulators = group.get("accumulators").unwrap().as_array().unwrap();
    assert_eq!(accumulators[0].get("output").unwrap().as_str(), Some("total"));
    assert_eq!(accumulators[0].get("op"), Some(&json(r#"{"Sum": "amount"}"#)));
    assert_eq!(accumulators[1].get("op"), Some(&json(r#""Count""#)));
}

#[test]
fn sort_keys_say_which_way_they_go() {
    assert_eq!(
        AggregateStage::sort(&[SortKey::descending("total")]).wire(),
        json(r#"{"Sort": [{"field": "total", "descending": true}]}"#)
    );
    assert_eq!(
        SortKey::ascending("name").wire(),
        json(r#"{"field": "name", "descending": false}"#)
    );
}

#[test]
fn every_comparison_has_its_own_name() {
    for (filter, name) in [
        (DocumentFilter::ne("f", Json::Null), "Ne"),
        (DocumentFilter::gte("f", Json::Null), "Gte"),
        (DocumentFilter::lte("f", Json::Null), "Lte"),
        (DocumentFilter::contains("f", Json::Null), "Contains"),
    ] {
        assert_eq!(
            filter.wire(),
            json(&format!(r#"{{"{name}": {{"field": "f", "value": null}}}}"#))
        );
        assert_eq!(filter.clone(), filter);
    }
    for (op, name) in [
        (AccumulatorOp::avg("x"), "Avg"),
        (AccumulatorOp::min("x"), "Min"),
        (AccumulatorOp::max("x"), "Max"),
    ] {
        assert_eq!(op.wire(), json(&format!(r#"{{"{name}": "x"}}"#)));
    }
    assert_eq!(
        GroupKey::constant(Json::Null).wire(),
        json(r#"{"Constant": null}"#)
    );
    assert_eq!(DocumentFilter::and(&[]).wire(), json(r#"{"And": []}"#));
}

#[test]
fn an_update_keeps_the_last_value_of_a_path() {
    let update = DocumentUpdate::new()
        .set("a", Json::signed(1))
        .inc("b", Json::signed(-2))
        .set("a", Json::signed(3));
    assert_eq!(update.wire(), json(r#"{"set": {"a": 3}, "inc": {"b": -2}}"#));
    assert_eq!(update.clone(), update);
    assert!(!update.is_empty());
    assert!(DocumentUpdate::default().is_empty());
}
