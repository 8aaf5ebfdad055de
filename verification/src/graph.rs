//! Graphs: labelled nodes, typed edges, traversal, paths and Cypher.
//!
//! Each operation is a method that returns the frame to write, and a `_reply`
//! that takes the answer. Where an operation has none, any response is the
//! answer: see [`Client::reply`].

use crate::client::Client;
#[allow(unused_imports)]
use crate::client::{answered, model_view, reply_view, response_result, sends};
use crate::decode;
use crate::decode::Decode;
#[allow(unused_imports)]
use crate::error::ErrorView;
use crate::error::Result;
use crate::frame::Frame;
use crate::json::{put, Json, JsonTree, Number, Object};
#[allow(unused_imports)]
use crate::json::{no_members, optional_members, positive_tree, put_members, texts_tree, wrapped};
#[allow(unused_imports)]
use crate::response::{typed, typed_single, ResponseView};
use crate::text;
use vstd::prelude::*;

verus! {

/// Which edges of a node an operation follows.
#[derive(Debug, Clone, Copy, PartialEq, Eq, Structural)]
pub enum GraphDirection {
    /// Edges the node is the `from` end of. The server's default.
    Outgoing,
    /// Edges the node is the `to` end of.
    Incoming,
    /// Edges in either direction.
    Both,
}

/// The server's spelling of it.
pub open spec fn direction_name(x: GraphDirection) -> Seq<char> {
    match x {
        GraphDirection::Outgoing => "outgoing"@,
        GraphDirection::Incoming => "incoming"@,
        GraphDirection::Both => "both"@,
    }
}

impl Default for GraphDirection {
    fn default() -> (x: GraphDirection)
        ensures
            x == GraphDirection::Outgoing,
    {
        GraphDirection::Outgoing
    }
}

impl GraphDirection {
    /// The server's spelling of it.
    pub fn name(self) -> (s: &'static str)
        ensures
            s@ == direction_name(self),
    {
        match self {
            GraphDirection::Outgoing => "outgoing",
            GraphDirection::Incoming => "incoming",
            GraphDirection::Both => "both",
        }
    }

    /// Its form on the wire.
    pub fn wire(self) -> (j: Json)
        ensures
            j@ == JsonTree::Text(direction_name(self)),
    {
        Json::text(self.name())
    }
}

impl Decode for GraphDirection {
    type V = GraphDirection;

    open spec fn decoded(t: JsonTree) -> Option<GraphDirection> {
        match decode::unit_name(t) {
            Some(s) => if s == "outgoing"@ {
                Some(GraphDirection::Outgoing)
            } else if s == "incoming"@ {
                Some(GraphDirection::Incoming)
            } else if s == "both"@ {
                Some(GraphDirection::Both)
            } else {
                None
            },
            None => None,
        }
    }

    open spec fn model(&self) -> GraphDirection {
        *self
    }

    fn decode(j: &Json) -> (r: Option<GraphDirection>) {
        let s = decode::read_unit_name(j)?;
        if text::same(s, "outgoing") {
            Some(GraphDirection::Outgoing)
        } else if text::same(s, "incoming") {
            Some(GraphDirection::Incoming)
        } else if text::same(s, "both") {
            Some(GraphDirection::Both)
        } else {
            None
        }
    }
}

/// What is written for it is read back as itself.
pub proof fn direction_name_reads_back(x: GraphDirection)
    ensures
        GraphDirection::decoded(JsonTree::Text(direction_name(x))) == Some(x),
{
    reveal_strlit("outgoing");
    reveal_strlit("incoming");
    reveal_strlit("both");
    assert("outgoing"@[0] != "incoming"@[0]);
    assert("outgoing"@.len() != "both"@.len());
    assert("incoming"@.len() != "both"@.len());
}

/// One stored node.
#[derive(Debug, Clone, PartialEq)]
pub struct GraphNode {
    /// The node's id, unique within its graph.
    pub id: String,
    /// Its labels.
    pub labels: Vec<String>,
    /// Its properties.
    pub properties: Object,
}

/// What a [`GraphNode`] holds.
#[verifier::ext_equal]
pub struct GraphNodeView {
    pub id: Seq<char>,
    pub labels: Seq<Seq<char>>,
    pub properties: Map<Seq<char>, JsonTree>,
}

impl Decode for GraphNode {
    type V = GraphNodeView;

    open spec fn decoded(t: JsonTree) -> Option<GraphNodeView> {
        let id = decode::required::<String>(t, 0, "id"@);
        let labels = decode::or_null::<Vec<String>>(t, 1, "labels"@, Seq::empty());
        let properties = decode::or_null::<Object>(t, 2, "properties"@, no_members());
        if decode::is_record(t, 3) && id is Some && labels is Some && properties is Some {
            Some(
                GraphNodeView {
                    id: id->0,
                    labels: labels->0,
                    properties: properties->0,
                },
            )
        } else {
            None
        }
    }

    open spec fn model(&self) -> GraphNodeView {
        GraphNodeView {
            id: self.id.model(),
            labels: self.labels.model(),
            properties: self.properties.model(),
        }
    }

    fn decode(j: &Json) -> (r: Option<GraphNode>) {
        if !decode::check_record(j, 3) {
            return None;
        }
        let id = decode::take::<String>(j, 0, "id")?;
        let no_labels: Vec<String> = Vec::new();
        assert(no_labels.model() =~= Seq::<Seq<char>>::empty());
        let labels = decode::take_or_null::<Vec<String>>(j, 1, "labels", no_labels)?;
        let properties = decode::take_or_null::<Object>(j, 2, "properties", Object::new())?;
        Some(GraphNode { id, labels, properties })
    }
}

/// One stored edge, directed from one node to another.
#[derive(Debug, Clone, PartialEq)]
pub struct GraphEdge {
    /// The edge's id, unique within its graph.
    pub id: String,
    /// The node it leaves.
    pub from: String,
    /// The node it enters.
    pub to: String,
    /// Its label.
    pub label: String,
    /// Its properties.
    pub properties: Object,
}

/// What a [`GraphEdge`] holds.
#[verifier::ext_equal]
pub struct GraphEdgeView {
    pub id: Seq<char>,
    pub from: Seq<char>,
    pub to: Seq<char>,
    pub label: Seq<char>,
    pub properties: Map<Seq<char>, JsonTree>,
}

impl Decode for GraphEdge {
    type V = GraphEdgeView;

    open spec fn decoded(t: JsonTree) -> Option<GraphEdgeView> {
        let id = decode::required::<String>(t, 0, "id"@);
        let from = decode::or_absent::<String>(t, 1, "from"@, Seq::empty());
        let to = decode::or_absent::<String>(t, 2, "to"@, Seq::empty());
        let label = decode::or_absent::<String>(t, 3, "label"@, Seq::empty());
        let properties = decode::or_null::<Object>(t, 4, "properties"@, no_members());
        if decode::is_record(t, 5) && id is Some && from is Some && to is Some && label is Some
            && properties is Some {
            Some(
                GraphEdgeView {
                    id: id->0,
                    from: from->0,
                    to: to->0,
                    label: label->0,
                    properties: properties->0,
                },
            )
        } else {
            None
        }
    }

    open spec fn model(&self) -> GraphEdgeView {
        GraphEdgeView {
            id: self.id.model(),
            from: self.from.model(),
            to: self.to.model(),
            label: self.label.model(),
            properties: self.properties.model(),
        }
    }

    fn decode(j: &Json) -> (r: Option<GraphEdge>) {
        if !decode::check_record(j, 5) {
            return None;
        }
        let id = decode::take::<String>(j, 0, "id")?;
        let from = decode::take_or::<String>(j, 1, "from", String::new())?;
        let to = decode::take_or::<String>(j, 2, "to", String::new())?;
        let label = decode::take_or::<String>(j, 3, "label", String::new())?;
        let properties = decode::take_or_null::<Object>(j, 4, "properties", Object::new())?;
        Some(GraphEdge { id, from, to, label, properties })
    }
}

/// One edge incident to a node, and the node at its other end.
#[derive(Debug, Clone, PartialEq)]
pub struct GraphNeighbor {
    /// The incident edge.
    pub edge_id: String,
    /// The node at the far end.
    pub node_id: String,
    /// The edge's label.
    pub label: String,
    /// The edge's orientation relative to the node that was asked about, which
    /// is what makes a `Both` result readable.
    pub direction: GraphDirection,
}

/// What a [`GraphNeighbor`] holds.
#[verifier::ext_equal]
pub struct GraphNeighborView {
    pub edge_id: Seq<char>,
    pub node_id: Seq<char>,
    pub label: Seq<char>,
    pub direction: GraphDirection,
}

impl Decode for GraphNeighbor {
    type V = GraphNeighborView;

    open spec fn decoded(t: JsonTree) -> Option<GraphNeighborView> {
        let edge_id = decode::required::<String>(t, 0, "edge_id"@);
        let node_id = decode::required::<String>(t, 1, "node_id"@);
        let label = decode::or_absent::<String>(t, 2, "label"@, Seq::empty());
        let direction = decode::or_absent::<GraphDirection>(
            t,
            3,
            "direction"@,
            GraphDirection::Outgoing,
        );
        if decode::is_record(t, 4) && edge_id is Some && node_id is Some && label is Some
            && direction is Some {
            Some(
                GraphNeighborView {
                    edge_id: edge_id->0,
                    node_id: node_id->0,
                    label: label->0,
                    direction: direction->0,
                },
            )
        } else {
            None
        }
    }

    open spec fn model(&self) -> GraphNeighborView {
        GraphNeighborView {
            edge_id: self.edge_id.model(),
            node_id: self.node_id.model(),
            label: self.label.model(),
            direction: self.direction.model(),
        }
    }

    fn decode(j: &Json) -> (r: Option<GraphNeighbor>) {
        if !decode::check_record(j, 4) {
            return None;
        }
        let edge_id = decode::take::<String>(j, 0, "edge_id")?;
        let node_id = decode::take::<String>(j, 1, "node_id")?;
        let label = decode::take_or::<String>(j, 2, "label", String::new())?;
        let direction = decode::take_or::<GraphDirection>(
            j,
            3,
            "direction",
            GraphDirection::Outgoing,
        )?;
        Some(GraphNeighbor { edge_id, node_id, label, direction })
    }
}

/// One node reached by a traversal.
#[derive(Debug, Clone, PartialEq)]
pub struct GraphVisit {
    /// The node's id.
    pub id: String,
    /// How many hops away it was first reached.
    pub depth: usize,
    /// Its labels.
    pub labels: Vec<String>,
    /// Its properties.
    pub properties: Object,
}

/// What a [`GraphVisit`] holds.
#[verifier::ext_equal]
pub struct GraphVisitView {
    pub id: Seq<char>,
    pub depth: usize,
    pub labels: Seq<Seq<char>>,
    pub properties: Map<Seq<char>, JsonTree>,
}

impl Decode for GraphVisit {
    type V = GraphVisitView;

    open spec fn decoded(t: JsonTree) -> Option<GraphVisitView> {
        let id = decode::required::<String>(t, 0, "id"@);
        let depth = decode::or_absent::<usize>(t, 1, "depth"@, 0);
        let labels = decode::or_null::<Vec<String>>(t, 2, "labels"@, Seq::empty());
        let properties = decode::or_null::<Object>(t, 3, "properties"@, no_members());
        if decode::is_record(t, 4) && id is Some && depth is Some && labels is Some
            && properties is Some {
            Some(
                GraphVisitView {
                    id: id->0,
                    depth: depth->0,
                    labels: labels->0,
                    properties: properties->0,
                },
            )
        } else {
            None
        }
    }

    open spec fn model(&self) -> GraphVisitView {
        GraphVisitView {
            id: self.id.model(),
            depth: self.depth.model(),
            labels: self.labels.model(),
            properties: self.properties.model(),
        }
    }

    fn decode(j: &Json) -> (r: Option<GraphVisit>) {
        if !decode::check_record(j, 4) {
            return None;
        }
        let id = decode::take::<String>(j, 0, "id")?;
        let depth = decode::take_or::<usize>(j, 1, "depth", 0)?;
        let no_labels: Vec<String> = Vec::new();
        assert(no_labels.model() =~= Seq::<Seq<char>>::empty());
        let labels = decode::take_or_null::<Vec<String>>(j, 2, "labels", no_labels)?;
        let properties = decode::take_or_null::<Object>(j, 3, "properties", Object::new())?;
        Some(GraphVisit { id, depth, labels, properties })
    }
}

/// The outcome of a bounded breadth-first walk.
#[derive(Debug, Clone, PartialEq)]
pub struct GraphTraversal {
    /// The node the walk began at.
    pub start: String,
    /// The direction that was followed.
    pub direction: String,
    /// The hop bound the server applied.
    pub max_depth: usize,
    /// The node bound the server applied.
    pub limit: usize,
    /// How many nodes came back.
    pub count: usize,
    /// Whether a bound stopped the walk before it ran out of nodes. The nodes
    /// returned are real; the answer is simply not exhaustive.
    pub truncated: bool,
    /// The visited nodes, in breadth-first order.
    pub nodes: Vec<GraphVisit>,
}

/// What a [`GraphTraversal`] holds.
#[verifier::ext_equal]
pub struct GraphTraversalView {
    pub start: Seq<char>,
    pub direction: Seq<char>,
    pub max_depth: usize,
    pub limit: usize,
    pub count: usize,
    pub truncated: bool,
    pub nodes: Seq<GraphVisitView>,
}

impl Decode for GraphTraversal {
    type V = GraphTraversalView;

    open spec fn decoded(t: JsonTree) -> Option<GraphTraversalView> {
        let start = decode::or_absent::<String>(t, 0, "start"@, Seq::empty());
        let direction = decode::or_absent::<String>(t, 1, "direction"@, Seq::empty());
        let max_depth = decode::or_absent::<usize>(t, 2, "max_depth"@, 0);
        let limit = decode::or_absent::<usize>(t, 3, "limit"@, 0);
        let count = decode::or_absent::<usize>(t, 4, "count"@, 0);
        let truncated = decode::or_absent::<bool>(t, 5, "truncated"@, false);
        let nodes = decode::or_null::<Vec<GraphVisit>>(t, 6, "nodes"@, Seq::empty());
        if decode::is_record(t, 7) && start is Some && direction is Some && max_depth is Some
            && limit is Some && count is Some && truncated is Some && nodes is Some {
            Some(
                GraphTraversalView {
                    start: start->0,
                    direction: direction->0,
                    max_depth: max_depth->0,
                    limit: limit->0,
                    count: count->0,
                    truncated: truncated->0,
                    nodes: nodes->0,
                },
            )
        } else {
            None
        }
    }

    open spec fn model(&self) -> GraphTraversalView {
        GraphTraversalView {
            start: self.start.model(),
            direction: self.direction.model(),
            max_depth: self.max_depth.model(),
            limit: self.limit.model(),
            count: self.count.model(),
            truncated: self.truncated.model(),
            nodes: self.nodes.model(),
        }
    }

    fn decode(j: &Json) -> (r: Option<GraphTraversal>) {
        if !decode::check_record(j, 7) {
            return None;
        }
        let start = decode::take_or::<String>(j, 0, "start", String::new())?;
        let direction = decode::take_or::<String>(j, 1, "direction", String::new())?;
        let max_depth = decode::take_or::<usize>(j, 2, "max_depth", 0)?;
        let limit = decode::take_or::<usize>(j, 3, "limit", 0)?;
        let count = decode::take_or::<usize>(j, 4, "count", 0)?;
        let truncated = decode::take_or::<bool>(j, 5, "truncated", false)?;
        let no_nodes: Vec<GraphVisit> = Vec::new();
        assert(no_nodes.model() =~= Seq::<GraphVisitView>::empty());
        let nodes = decode::take_or_null::<Vec<GraphVisit>>(j, 6, "nodes", no_nodes)?;
        Some(GraphTraversal { start, direction, max_depth, limit, count, truncated, nodes })
    }
}

/// The outcome of a path search.
///
/// `found == false` is an ordinary answer, not an error: either no path exists
/// or the search stopped at a bound, and [`GraphPath::message`] says which. A
/// search stopped by a bound is inconclusive, not proof that no path exists.
#[derive(Debug, Clone, PartialEq)]
pub struct GraphPath {
    /// Whether a path was found.
    pub found: bool,
    /// The start node.
    pub from: String,
    /// The target node.
    pub to: String,
    /// The direction that was followed.
    pub direction: String,
    /// How many edges the path has.
    pub hops: usize,
    /// The node ids along the path, the start first.
    pub node_path: Vec<String>,
    /// The edge ids along the path.
    pub edge_path: Vec<String>,
    /// The summed weight — meaningful only for the weighted search, and zero
    /// for the unweighted one, which minimises hops.
    pub total_cost: Number,
    /// Why no path was found, when none was.
    pub message: String,
}

/// What a [`GraphPath`] holds.
#[verifier::ext_equal]
pub struct GraphPathView {
    pub found: bool,
    pub from: Seq<char>,
    pub to: Seq<char>,
    pub direction: Seq<char>,
    pub hops: usize,
    pub node_path: Seq<Seq<char>>,
    pub edge_path: Seq<Seq<char>>,
    pub total_cost: Seq<char>,
    pub message: Seq<char>,
}

impl Decode for GraphPath {
    type V = GraphPathView;

    open spec fn decoded(t: JsonTree) -> Option<GraphPathView> {
        let found = decode::or_absent::<bool>(t, 0, "found"@, false);
        let from = decode::or_absent::<String>(t, 1, "from"@, Seq::empty());
        let to = decode::or_absent::<String>(t, 2, "to"@, Seq::empty());
        let direction = decode::or_absent::<String>(t, 3, "direction"@, Seq::empty());
        let hops = decode::or_absent::<usize>(t, 4, "hops"@, 0);
        let node_path = decode::or_null::<Vec<String>>(t, 5, "node_path"@, Seq::empty());
        let edge_path = decode::or_null::<Vec<String>>(t, 6, "edge_path"@, Seq::empty());
        let total_cost = decode::or_absent::<Number>(t, 7, "total_cost"@, "0.0"@);
        let message = decode::or_absent::<String>(t, 8, "message"@, Seq::empty());
        if decode::is_record(t, 9) && found is Some && from is Some && to is Some
            && direction is Some && hops is Some && node_path is Some && edge_path is Some
            && total_cost is Some && message is Some {
            Some(
                GraphPathView {
                    found: found->0,
                    from: from->0,
                    to: to->0,
                    direction: direction->0,
                    hops: hops->0,
                    node_path: node_path->0,
                    edge_path: edge_path->0,
                    total_cost: total_cost->0,
                    message: message->0,
                },
            )
        } else {
            None
        }
    }

    open spec fn model(&self) -> GraphPathView {
        GraphPathView {
            found: self.found.model(),
            from: self.from.model(),
            to: self.to.model(),
            direction: self.direction.model(),
            hops: self.hops.model(),
            node_path: self.node_path.model(),
            edge_path: self.edge_path.model(),
            total_cost: self.total_cost.model(),
            message: self.message.model(),
        }
    }

    fn decode(j: &Json) -> (r: Option<GraphPath>) {
        if !decode::check_record(j, 9) {
            return None;
        }
        let found = decode::take_or::<bool>(j, 0, "found", false)?;
        let from = decode::take_or::<String>(j, 1, "from", String::new())?;
        let to = decode::take_or::<String>(j, 2, "to", String::new())?;
        let direction = decode::take_or::<String>(j, 3, "direction", String::new())?;
        let hops = decode::take_or::<usize>(j, 4, "hops", 0)?;
        let no_node_path: Vec<String> = Vec::new();
        assert(no_node_path.model() =~= Seq::<Seq<char>>::empty());
        let node_path = decode::take_or_null::<Vec<String>>(j, 5, "node_path", no_node_path)?;
        let no_edge_path: Vec<String> = Vec::new();
        assert(no_edge_path.model() =~= Seq::<Seq<char>>::empty());
        let edge_path = decode::take_or_null::<Vec<String>>(j, 6, "edge_path", no_edge_path)?;
        let no_cost = decode::zero();
        let total_cost = decode::take_or::<Number>(j, 7, "total_cost", no_cost)?;
        let message = decode::take_or::<String>(j, 8, "message", String::new())?;
        Some(GraphPath { found, from, to, direction, hops, node_path, edge_path, total_cost, message })
    }
}

/// One page of a graph's nodes.
#[derive(Debug, Clone, PartialEq)]
pub struct GraphNodePage {
    /// The graph's name.
    pub graph: String,
    /// How many nodes are on this page.
    pub count: usize,
    /// This page's nodes.
    pub nodes: Vec<GraphNode>,
    /// Whether more nodes remain past this page.
    pub truncated: bool,
    /// The graph's full node count.
    pub total: i64,
}

/// What a [`GraphNodePage`] holds.
#[verifier::ext_equal]
pub struct GraphNodePageView {
    pub graph: Seq<char>,
    pub count: usize,
    pub nodes: Seq<GraphNodeView>,
    pub truncated: bool,
    pub total: i64,
}

impl Decode for GraphNodePage {
    type V = GraphNodePageView;

    open spec fn decoded(t: JsonTree) -> Option<GraphNodePageView> {
        let graph = decode::or_absent::<String>(t, 0, "graph"@, Seq::empty());
        let count = decode::or_absent::<usize>(t, 1, "count"@, 0);
        let nodes = decode::or_null::<Vec<GraphNode>>(t, 2, "nodes"@, Seq::empty());
        let truncated = decode::or_absent::<bool>(t, 3, "truncated"@, false);
        let total = decode::or_absent::<i64>(t, 4, "total"@, 0);
        if decode::is_record(t, 5) && graph is Some && count is Some && nodes is Some
            && truncated is Some && total is Some {
            Some(
                GraphNodePageView {
                    graph: graph->0,
                    count: count->0,
                    nodes: nodes->0,
                    truncated: truncated->0,
                    total: total->0,
                },
            )
        } else {
            None
        }
    }

    open spec fn model(&self) -> GraphNodePageView {
        GraphNodePageView {
            graph: self.graph.model(),
            count: self.count.model(),
            nodes: self.nodes.model(),
            truncated: self.truncated.model(),
            total: self.total.model(),
        }
    }

    fn decode(j: &Json) -> (r: Option<GraphNodePage>) {
        if !decode::check_record(j, 5) {
            return None;
        }
        let graph = decode::take_or::<String>(j, 0, "graph", String::new())?;
        let count = decode::take_or::<usize>(j, 1, "count", 0)?;
        let no_nodes: Vec<GraphNode> = Vec::new();
        assert(no_nodes.model() =~= Seq::<GraphNodeView>::empty());
        let nodes = decode::take_or_null::<Vec<GraphNode>>(j, 2, "nodes", no_nodes)?;
        let truncated = decode::take_or::<bool>(j, 3, "truncated", false)?;
        let total = decode::take_or::<i64>(j, 4, "total", 0)?;
        Some(GraphNodePage { graph, count, nodes, truncated, total })
    }
}

/// One page of a graph's edges.
#[derive(Debug, Clone, PartialEq)]
pub struct GraphEdgePage {
    /// The graph's name.
    pub graph: String,
    /// How many edges are on this page.
    pub count: usize,
    /// This page's edges.
    pub edges: Vec<GraphEdge>,
    /// Whether more edges remain past this page.
    pub truncated: bool,
    /// The graph's full edge count.
    pub total: i64,
}

/// What a [`GraphEdgePage`] holds.
#[verifier::ext_equal]
pub struct GraphEdgePageView {
    pub graph: Seq<char>,
    pub count: usize,
    pub edges: Seq<GraphEdgeView>,
    pub truncated: bool,
    pub total: i64,
}

impl Decode for GraphEdgePage {
    type V = GraphEdgePageView;

    open spec fn decoded(t: JsonTree) -> Option<GraphEdgePageView> {
        let graph = decode::or_absent::<String>(t, 0, "graph"@, Seq::empty());
        let count = decode::or_absent::<usize>(t, 1, "count"@, 0);
        let edges = decode::or_null::<Vec<GraphEdge>>(t, 2, "edges"@, Seq::empty());
        let truncated = decode::or_absent::<bool>(t, 3, "truncated"@, false);
        let total = decode::or_absent::<i64>(t, 4, "total"@, 0);
        if decode::is_record(t, 5) && graph is Some && count is Some && edges is Some
            && truncated is Some && total is Some {
            Some(
                GraphEdgePageView {
                    graph: graph->0,
                    count: count->0,
                    edges: edges->0,
                    truncated: truncated->0,
                    total: total->0,
                },
            )
        } else {
            None
        }
    }

    open spec fn model(&self) -> GraphEdgePageView {
        GraphEdgePageView {
            graph: self.graph.model(),
            count: self.count.model(),
            edges: self.edges.model(),
            truncated: self.truncated.model(),
            total: self.total.model(),
        }
    }

    fn decode(j: &Json) -> (r: Option<GraphEdgePage>) {
        if !decode::check_record(j, 5) {
            return None;
        }
        let graph = decode::take_or::<String>(j, 0, "graph", String::new())?;
        let count = decode::take_or::<usize>(j, 1, "count", 0)?;
        let no_edges: Vec<GraphEdge> = Vec::new();
        assert(no_edges.model() =~= Seq::<GraphEdgeView>::empty());
        let edges = decode::take_or_null::<Vec<GraphEdge>>(j, 2, "edges", no_edges)?;
        let truncated = decode::take_or::<bool>(j, 3, "truncated", false)?;
        let total = decode::take_or::<i64>(j, 4, "total", 0)?;
        Some(GraphEdgePage { graph, count, edges, truncated, total })
    }
}

/// The result of a Cypher query.
///
/// Cells stay as JSON because a `RETURN` can yield a scalar, a list, or a whole
/// node.
#[derive(Debug, Clone, PartialEq)]
pub struct GraphRows {
    /// The graph that was queried.
    pub graph: String,
    /// The `RETURN` column names.
    pub columns: Vec<String>,
    /// The result rows.
    pub rows: Vec<Vec<Json>>,
    /// How many rows came back.
    pub count: usize,
    /// Whether the server's row cap cut the result short.
    pub truncated: bool,
}

/// What a [`GraphRows`] holds.
#[verifier::ext_equal]
pub struct GraphRowsView {
    pub graph: Seq<char>,
    pub columns: Seq<Seq<char>>,
    pub rows: Seq<Seq<JsonTree>>,
    pub count: usize,
    pub truncated: bool,
}

impl Decode for GraphRows {
    type V = GraphRowsView;

    open spec fn decoded(t: JsonTree) -> Option<GraphRowsView> {
        let graph = decode::or_absent::<String>(t, 0, "graph"@, Seq::empty());
        let columns = decode::or_null::<Vec<String>>(t, 1, "columns"@, Seq::empty());
        let rows = decode::or_null::<Vec<Vec<Json>>>(t, 2, "rows"@, Seq::empty());
        let count = decode::or_absent::<usize>(t, 3, "count"@, 0);
        let truncated = decode::or_absent::<bool>(t, 4, "truncated"@, false);
        if decode::is_record(t, 5) && graph is Some && columns is Some && rows is Some
            && count is Some && truncated is Some {
            Some(
                GraphRowsView {
                    graph: graph->0,
                    columns: columns->0,
                    rows: rows->0,
                    count: count->0,
                    truncated: truncated->0,
                },
            )
        } else {
            None
        }
    }

    open spec fn model(&self) -> GraphRowsView {
        GraphRowsView {
            graph: self.graph.model(),
            columns: self.columns.model(),
            rows: self.rows.model(),
            count: self.count.model(),
            truncated: self.truncated.model(),
        }
    }

    fn decode(j: &Json) -> (r: Option<GraphRows>) {
        if !decode::check_record(j, 5) {
            return None;
        }
        let graph = decode::take_or::<String>(j, 0, "graph", String::new())?;
        let no_columns: Vec<String> = Vec::new();
        assert(no_columns.model() =~= Seq::<Seq<char>>::empty());
        let columns = decode::take_or_null::<Vec<String>>(j, 1, "columns", no_columns)?;
        let no_rows: Vec<Vec<Json>> = Vec::new();
        assert(no_rows.model() =~= Seq::<Seq<JsonTree>>::empty());
        let rows = decode::take_or_null::<Vec<Vec<Json>>>(j, 2, "rows", no_rows)?;
        let count = decode::take_or::<usize>(j, 3, "count", 0)?;
        let truncated = decode::take_or::<bool>(j, 4, "truncated", false)?;
        Some(GraphRows { graph, columns, rows, count, truncated })
    }
}

/// What [`Client::graph_neighbors`] should return. The default follows
/// outgoing edges of every label, up to the server's cap.
#[derive(Debug, Clone, PartialEq, Eq)]
pub struct NeighborOptions {
    /// Which edges to follow. `None` leaves it to the server (outgoing).
    pub direction: Option<GraphDirection>,
    /// Keep only edges with this label. `None` means every label.
    pub label: Option<String>,
    /// Cap the neighbors returned. `None` asks for the server default.
    pub limit: Option<usize>,
}

impl Default for NeighborOptions {
    fn default() -> (o: NeighborOptions)
        ensures
            o.direction is None,
            o.label is None,
            o.limit is None,
    {
        NeighborOptions { direction: None, label: None, limit: None }
    }
}

/// What [`Client::graph_traverse`] should walk. The default walks outgoing
/// edges of every label to the server's default depth and node limit.
#[derive(Debug, Clone, PartialEq, Eq)]
pub struct TraverseOptions {
    /// Which edges to follow.
    pub direction: Option<GraphDirection>,
    /// Keep only edges with this label.
    pub label: Option<String>,
    /// Bound the hop count. The server's default is 3 and it clamps above 10.
    pub max_depth: Option<usize>,
    /// Cap the nodes returned. The server's default is 100, clamped to 1000.
    pub limit: Option<usize>,
}

impl Default for TraverseOptions {
    fn default() -> (o: TraverseOptions)
        ensures
            o.direction is None,
            o.label is None,
            o.max_depth is None,
            o.limit is None,
    {
        TraverseOptions { direction: None, label: None, max_depth: None, limit: None }
    }
}

/// What [`Client::graph_shortest_path`] should search.
#[derive(Debug, Clone, PartialEq, Eq)]
pub struct PathOptions {
    /// Which edges to follow.
    pub direction: Option<GraphDirection>,
    /// Keep only edges with this label.
    pub label: Option<String>,
    /// Bound the hop count. The server's default is also its maximum, 10.
    pub max_depth: Option<usize>,
}

impl Default for PathOptions {
    fn default() -> (o: PathOptions)
        ensures
            o.direction is None,
            o.label is None,
            o.max_depth is None,
    {
        PathOptions { direction: None, label: None, max_depth: None }
    }
}

/// What [`Client::graph_weighted_shortest_path`] should search.
///
/// There is deliberately no depth bound: a weighted search is bounded by cost,
/// not by hops, and a depth clamp would discard the cheap-but-long path that is
/// the whole reason to run one.
#[derive(Debug, Clone, PartialEq, Eq)]
pub struct WeightedPathOptions {
    /// Which edges to follow.
    pub direction: Option<GraphDirection>,
    /// Keep only edges with this label.
    pub label: Option<String>,
    /// The edge property holding the cost. `None` means `"weight"`. An edge
    /// missing it, or holding something that is not a number, weighs 1.0; a
    /// negative weight is refused rather than solved wrongly.
    pub weight_property: Option<String>,
}

impl Default for WeightedPathOptions {
    fn default() -> (o: WeightedPathOptions)
        ensures
            o.direction is None,
            o.label is None,
            o.weight_property is None,
    {
        WeightedPathOptions { direction: None, label: None, weight_property: None }
    }
}

/// A graph operation.
pub open spec fn graph_op(variant: Seq<char>, body: Map<Seq<char>, JsonTree>) -> JsonTree {
    wrapped("Graph"@, wrapped(variant, JsonTree::Object(body)))
}

fn op(variant: &str, body: Object) -> (j: Json)
    ensures
        j@ == graph_op(variant@, body@),
{
    Json::wrap("Graph", Json::wrap(variant, Json::Object(body)))
}

/// A direction on the wire, if one was chosen.
pub open spec fn direction_tree(direction: Option<GraphDirection>) -> Option<JsonTree> {
    match direction {
        Some(d) => Some(JsonTree::Text(direction_name(d))),
        None => None,
    }
}

/// A direction on the wire, if one was chosen.
pub fn direction_value(direction: Option<GraphDirection>) -> (r: Option<Json>)
    ensures
        crate::json::optional_tree(r) == direction_tree(direction),
{
    match direction {
        Some(d) => Some(d.wire()),
        None => None,
    }
}

/// A text on the wire, if one was chosen.
pub open spec fn chosen_text(s: Option<String>) -> Option<JsonTree> {
    match s {
        Some(t) => Some(JsonTree::Text(t@)),
        None => None,
    }
}

fn text_value(s: &Option<String>) -> (r: Option<Json>)
    ensures
        crate::json::optional_tree(r) == chosen_text(*s),
{
    match s {
        Some(t) => Some(Json::text(t.as_str())),
        None => None,
    }
}

impl Client {
    /// Create an empty graph.
    pub fn graph_create(&mut self, graph: &str) -> (r: Result<Vec<u8>>)
        requires
            old(self)@.request_counter < u64::MAX,
        ensures
            sends(
                old(self)@,
                final(self)@,
                graph_op("CreateGraph"@, no_members().insert("graph"@, JsonTree::Text(graph@))),
                r,
            ),
    {
        self.send(op("CreateGraph", Object::new().with("graph", Json::text(graph))))
    }

    /// Drop a graph with its nodes and edges. Dropping one that does not exist
    /// is an error.
    pub fn graph_drop(&mut self, graph: &str) -> (r: Result<Vec<u8>>)
        requires
            old(self)@.request_counter < u64::MAX,
        ensures
            sends(
                old(self)@,
                final(self)@,
                graph_op("DropGraph"@, no_members().insert("graph"@, JsonTree::Text(graph@))),
                r,
            ),
    {
        self.send(op("DropGraph", Object::new().with("graph", Json::text(graph))))
    }

    /// Name every graph in the database.
    pub fn graph_list(&mut self) -> (r: Result<Vec<u8>>)
        requires
            old(self)@.request_counter < u64::MAX,
        ensures
            sends(old(self)@, final(self)@, wrapped("Graph"@, JsonTree::Text("ListGraphs"@)), r),
    {
        self.send(Json::wrap("Graph", Json::text("ListGraphs")))
    }

    /// Take the answer to [`Client::graph_list`].
    pub fn graph_list_reply(&mut self, reply: Result<Frame>) -> (r: Result<Vec<String>>)
        ensures
            answered(
                old(self)@,
                final(self)@,
                reply_view(reply),
                |x: ResponseView|
                    typed_single::<Vec<String>>(x, "ListGraphs"@, "graphs"@, Seq::empty()),
                model_view(r),
            ),
    {
        let response = self.reply(reply)?;
        let none: Vec<String> = Vec::new();
        assert(none.model() =~= Seq::<Seq<char>>::empty());
        self.keep(response.decode_single("ListGraphs", "graphs", none))
    }

    /// Store a node, replacing whatever was under that id.
    pub fn graph_add_node(
        &mut self,
        graph: &str,
        id: &str,
        labels: &[&str],
        properties: Option<&Object>,
    ) -> (r: Result<Vec<u8>>)
        requires
            old(self)@.request_counter < u64::MAX,
        ensures
            sends(
                old(self)@,
                final(self)@,
                graph_op(
                    "AddNode"@,
                    no_members()
                        .insert("graph"@, JsonTree::Text(graph@))
                        .insert("id"@, JsonTree::Text(id@))
                        .insert("labels"@, texts_tree(labels@))
                        .insert("properties"@, optional_members(properties)),
                ),
                r,
            ),
    {
        self.send(
            op(
                "AddNode",
                Object::new()
                    .with("graph", Json::text(graph))
                    .with("id", Json::text(id))
                    .with("labels", Json::texts(labels))
                    .with("properties", Json::object_or_null(properties)),
            ),
        )
    }

    /// Fetch one node. `None` when there is no such id.
    pub fn graph_get_node(&mut self, graph: &str, id: &str) -> (r: Result<Vec<u8>>)
        requires
            old(self)@.request_counter < u64::MAX,
        ensures
            sends(
                old(self)@,
                final(self)@,
                graph_op(
                    "GetNode"@,
                    no_members()
                        .insert("graph"@, JsonTree::Text(graph@))
                        .insert("id"@, JsonTree::Text(id@)),
                ),
                r,
            ),
    {
        self.send(
            op(
                "GetNode",
                Object::new().with("graph", Json::text(graph)).with("id", Json::text(id)),
            ),
        )
    }

    /// Take the answer to [`Client::graph_get_node`].
    pub fn graph_get_node_reply(&mut self, reply: Result<Frame>) -> (r: Result<Option<GraphNode>>)
        ensures
            answered(
                old(self)@,
                final(self)@,
                reply_view(reply),
                |x: ResponseView| typed::<Option<GraphNode>>(x, "GetNode"@),
                model_view(r),
            ),
    {
        let response = self.reply(reply)?;
        self.keep(response.decode("GetNode"))
    }

    /// Delete a node. Deleting an absent node is not an error; a missing graph
    /// is.
    pub fn graph_delete_node(&mut self, graph: &str, id: &str) -> (r: Result<Vec<u8>>)
        requires
            old(self)@.request_counter < u64::MAX,
        ensures
            sends(
                old(self)@,
                final(self)@,
                graph_op(
                    "DeleteNode"@,
                    no_members()
                        .insert("graph"@, JsonTree::Text(graph@))
                        .insert("id"@, JsonTree::Text(id@)),
                ),
                r,
            ),
    {
        self.send(
            op(
                "DeleteNode",
                Object::new().with("graph", Json::text(graph)).with("id", Json::text(id)),
            ),
        )
    }

    /// One page of a graph's nodes, ordered by id.
    pub fn graph_list_nodes(
        &mut self,
        graph: &str,
        limit: Option<usize>,
        offset: Option<usize>,
    ) -> (r: Result<Vec<u8>>)
        requires
            old(self)@.request_counter < u64::MAX,
        ensures
            sends(
                old(self)@,
                final(self)@,
                graph_op(
                    "ListNodes"@,
                    put_members(
                        put_members(
                            no_members().insert("graph"@, JsonTree::Text(graph@)),
                            "limit"@,
                            positive_tree(limit),
                        ),
                        "offset"@,
                        positive_tree(offset),
                    ),
                ),
                r,
            ),
    {
        self.send(
            op(
                "ListNodes",
                put(
                    put(
                        Object::new().with("graph", Json::text(graph)),
                        "limit",
                        Json::positive(limit),
                    ),
                    "offset",
                    Json::positive(offset),
                ),
            ),
        )
    }

    /// Take the answer to [`Client::graph_list_nodes`].
    pub fn graph_list_nodes_reply(&mut self, reply: Result<Frame>) -> (r: Result<GraphNodePage>)
        ensures
            answered(
                old(self)@,
                final(self)@,
                reply_view(reply),
                |x: ResponseView| typed::<GraphNodePage>(x, "ListNodes"@),
                model_view(r),
            ),
    {
        let response = self.reply(reply)?;
        self.keep(response.decode("ListNodes"))
    }

    /// Store a directed edge. Both endpoints must already exist: a dangling
    /// endpoint is refused rather than created.
    pub fn graph_add_edge(
        &mut self,
        graph: &str,
        id: &str,
        from: &str,
        to: &str,
        label: &str,
        properties: Option<&Object>,
    ) -> (r: Result<Vec<u8>>)
        requires
            old(self)@.request_counter < u64::MAX,
        ensures
            sends(
                old(self)@,
                final(self)@,
                graph_op(
                    "AddEdge"@,
                    no_members()
                        .insert("graph"@, JsonTree::Text(graph@))
                        .insert("id"@, JsonTree::Text(id@))
                        .insert("from"@, JsonTree::Text(from@))
                        .insert("to"@, JsonTree::Text(to@))
                        .insert("label"@, JsonTree::Text(label@))
                        .insert("properties"@, optional_members(properties)),
                ),
                r,
            ),
    {
        self.send(
            op(
                "AddEdge",
                Object::new()
                    .with("graph", Json::text(graph))
                    .with("id", Json::text(id))
                    .with("from", Json::text(from))
                    .with("to", Json::text(to))
                    .with("label", Json::text(label))
                    .with("properties", Json::object_or_null(properties)),
            ),
        )
    }

    /// Fetch one edge. `None` when there is no such id.
    pub fn graph_get_edge(&mut self, graph: &str, id: &str) -> (r: Result<Vec<u8>>)
        requires
            old(self)@.request_counter < u64::MAX,
        ensures
            sends(
                old(self)@,
                final(self)@,
                graph_op(
                    "GetEdge"@,
                    no_members()
                        .insert("graph"@, JsonTree::Text(graph@))
                        .insert("id"@, JsonTree::Text(id@)),
                ),
                r,
            ),
    {
        self.send(
            op(
                "GetEdge",
                Object::new().with("graph", Json::text(graph)).with("id", Json::text(id)),
            ),
        )
    }

    /// Take the answer to [`Client::graph_get_edge`].
    pub fn graph_get_edge_reply(&mut self, reply: Result<Frame>) -> (r: Result<Option<GraphEdge>>)
        ensures
            answered(
                old(self)@,
                final(self)@,
                reply_view(reply),
                |x: ResponseView| typed::<Option<GraphEdge>>(x, "GetEdge"@),
                model_view(r),
            ),
    {
        let response = self.reply(reply)?;
        self.keep(response.decode("GetEdge"))
    }

    /// Delete an edge. Deleting an absent edge is not an error; a missing graph
    /// is.
    pub fn graph_delete_edge(&mut self, graph: &str, id: &str) -> (r: Result<Vec<u8>>)
        requires
            old(self)@.request_counter < u64::MAX,
        ensures
            sends(
                old(self)@,
                final(self)@,
                graph_op(
                    "DeleteEdge"@,
                    no_members()
                        .insert("graph"@, JsonTree::Text(graph@))
                        .insert("id"@, JsonTree::Text(id@)),
                ),
                r,
            ),
    {
        self.send(
            op(
                "DeleteEdge",
                Object::new().with("graph", Json::text(graph)).with("id", Json::text(id)),
            ),
        )
    }

    /// One page of a graph's edges, ordered by id.
    pub fn graph_list_edges(
        &mut self,
        graph: &str,
        limit: Option<usize>,
        offset: Option<usize>,
    ) -> (r: Result<Vec<u8>>)
        requires
            old(self)@.request_counter < u64::MAX,
        ensures
            sends(
                old(self)@,
                final(self)@,
                graph_op(
                    "ListEdges"@,
                    put_members(
                        put_members(
                            no_members().insert("graph"@, JsonTree::Text(graph@)),
                            "limit"@,
                            positive_tree(limit),
                        ),
                        "offset"@,
                        positive_tree(offset),
                    ),
                ),
                r,
            ),
    {
        self.send(
            op(
                "ListEdges",
                put(
                    put(
                        Object::new().with("graph", Json::text(graph)),
                        "limit",
                        Json::positive(limit),
                    ),
                    "offset",
                    Json::positive(offset),
                ),
            ),
        )
    }

    /// Take the answer to [`Client::graph_list_edges`].
    pub fn graph_list_edges_reply(&mut self, reply: Result<Frame>) -> (r: Result<GraphEdgePage>)
        ensures
            answered(
                old(self)@,
                final(self)@,
                reply_view(reply),
                |x: ResponseView| typed::<GraphEdgePage>(x, "ListEdges"@),
                model_view(r),
            ),
    {
        let response = self.reply(reply)?;
        self.keep(response.decode("ListEdges"))
    }

    /// The edges incident to a node, and the node at the far end of each. A
    /// node with no matching edges gives an empty list, not an error.
    pub fn graph_neighbors(
        &mut self,
        graph: &str,
        node_id: &str,
        options: &NeighborOptions,
    ) -> (r: Result<Vec<u8>>)
        requires
            old(self)@.request_counter < u64::MAX,
        ensures
            sends(
                old(self)@,
                final(self)@,
                graph_op(
                    "Neighbors"@,
                    put_members(
                        put_members(
                            put_members(
                                no_members()
                                    .insert("graph"@, JsonTree::Text(graph@))
                                    .insert("node_id"@, JsonTree::Text(node_id@)),
                                "direction"@,
                                direction_tree(options.direction),
                            ),
                            "label"@,
                            chosen_text(options.label),
                        ),
                        "limit"@,
                        positive_tree(options.limit),
                    ),
                ),
                r,
            ),
    {
        self.send(
            op(
                "Neighbors",
                put(
                    put(
                        put(
                            Object::new()
                                .with("graph", Json::text(graph))
                                .with("node_id", Json::text(node_id)),
                            "direction",
                            direction_value(options.direction),
                        ),
                        "label",
                        text_value(&options.label),
                    ),
                    "limit",
                    Json::positive(options.limit),
                ),
            ),
        )
    }

    /// Take the answer to [`Client::graph_neighbors`].
    pub fn graph_neighbors_reply(&mut self, reply: Result<Frame>) -> (r: Result<Vec<GraphNeighbor>>)
        ensures
            answered(
                old(self)@,
                final(self)@,
                reply_view(reply),
                |x: ResponseView|
                    typed_single::<Vec<GraphNeighbor>>(x, "Neighbors"@, "neighbors"@, Seq::empty()),
                model_view(r),
            ),
    {
        let response = self.reply(reply)?;
        let none: Vec<GraphNeighbor> = Vec::new();
        assert(none.model() =~= Seq::<GraphNeighborView>::empty());
        self.keep(response.decode_single("Neighbors", "neighbors", none))
    }

    /// How many edges are incident to a node in a direction. `Both` counts each
    /// edge once, self-loops included.
    pub fn graph_degree(
        &mut self,
        graph: &str,
        node_id: &str,
        direction: Option<GraphDirection>,
    ) -> (r: Result<Vec<u8>>)
        requires
            old(self)@.request_counter < u64::MAX,
        ensures
            sends(
                old(self)@,
                final(self)@,
                graph_op(
                    "Degree"@,
                    put_members(
                        no_members()
                            .insert("graph"@, JsonTree::Text(graph@))
                            .insert("node_id"@, JsonTree::Text(node_id@)),
                        "direction"@,
                        direction_tree(direction),
                    ),
                ),
                r,
            ),
    {
        self.send(
            op(
                "Degree",
                put(
                    Object::new()
                        .with("graph", Json::text(graph))
                        .with("node_id", Json::text(node_id)),
                    "direction",
                    direction_value(direction),
                ),
            ),
        )
    }

    /// Take the answer to [`Client::graph_degree`].
    pub fn graph_degree_reply(&mut self, reply: Result<Frame>) -> (r: Result<i64>)
        ensures
            answered(
                old(self)@,
                final(self)@,
                reply_view(reply),
                |x: ResponseView| typed_single::<i64>(x, "Degree"@, "degree"@, 0),
                model_view(r),
            ),
    {
        let response = self.reply(reply)?;
        self.keep(response.decode_single("Degree", "degree", 0i64))
    }

    /// Walk outward from a node by breadth-first search. The start node must
    /// exist.
    pub fn graph_traverse(
        &mut self,
        graph: &str,
        start: &str,
        options: &TraverseOptions,
    ) -> (r: Result<Vec<u8>>)
        requires
            old(self)@.request_counter < u64::MAX,
        ensures
            sends(
                old(self)@,
                final(self)@,
                graph_op(
                    "Traverse"@,
                    put_members(
                        put_members(
                            put_members(
                                put_members(
                                    no_members()
                                        .insert("graph"@, JsonTree::Text(graph@))
                                        .insert("start"@, JsonTree::Text(start@)),
                                    "direction"@,
                                    direction_tree(options.direction),
                                ),
                                "label"@,
                                chosen_text(options.label),
                            ),
                            "max_depth"@,
                            positive_tree(options.max_depth),
                        ),
                        "limit"@,
                        positive_tree(options.limit),
                    ),
                ),
                r,
            ),
    {
        self.send(
            op(
                "Traverse",
                put(
                    put(
                        put(
                            put(
                                Object::new()
                                    .with("graph", Json::text(graph))
                                    .with("start", Json::text(start)),
                                "direction",
                                direction_value(options.direction),
                            ),
                            "label",
                            text_value(&options.label),
                        ),
                        "max_depth",
                        Json::positive(options.max_depth),
                    ),
                    "limit",
                    Json::positive(options.limit),
                ),
            ),
        )
    }

    /// Take the answer to [`Client::graph_traverse`].
    pub fn graph_traverse_reply(&mut self, reply: Result<Frame>) -> (r: Result<GraphTraversal>)
        ensures
            answered(
                old(self)@,
                final(self)@,
                reply_view(reply),
                |x: ResponseView| typed::<GraphTraversal>(x, "Traverse"@),
                model_view(r),
            ),
    {
        let response = self.reply(reply)?;
        self.keep(response.decode("Traverse"))
    }

    /// The path with the fewest hops between two nodes. Both must exist. "No
    /// path" comes back as `found == false`, not as an error.
    pub fn graph_shortest_path(
        &mut self,
        graph: &str,
        from: &str,
        to: &str,
        options: &PathOptions,
    ) -> (r: Result<Vec<u8>>)
        requires
            old(self)@.request_counter < u64::MAX,
        ensures
            sends(
                old(self)@,
                final(self)@,
                graph_op(
                    "ShortestPath"@,
                    put_members(
                        put_members(
                            put_members(
                                no_members()
                                    .insert("graph"@, JsonTree::Text(graph@))
                                    .insert("from"@, JsonTree::Text(from@))
                                    .insert("to"@, JsonTree::Text(to@)),
                                "direction"@,
                                direction_tree(options.direction),
                            ),
                            "label"@,
                            chosen_text(options.label),
                        ),
                        "max_depth"@,
                        positive_tree(options.max_depth),
                    ),
                ),
                r,
            ),
    {
        self.send(
            op(
                "ShortestPath",
                put(
                    put(
                        put(
                            Object::new()
                                .with("graph", Json::text(graph))
                                .with("from", Json::text(from))
                                .with("to", Json::text(to)),
                            "direction",
                            direction_value(options.direction),
                        ),
                        "label",
                        text_value(&options.label),
                    ),
                    "max_depth",
                    Json::positive(options.max_depth),
                ),
            ),
        )
    }

    /// Take the answer to [`Client::graph_shortest_path`].
    pub fn graph_shortest_path_reply(&mut self, reply: Result<Frame>) -> (r: Result<GraphPath>)
        ensures
            answered(
                old(self)@,
                final(self)@,
                reply_view(reply),
                |x: ResponseView| typed::<GraphPath>(x, "ShortestPath"@),
                model_view(r),
            ),
    {
        let response = self.reply(reply)?;
        self.keep(response.decode("ShortestPath"))
    }

    /// The least-cost path between two nodes, by summed edge weight.
    ///
    /// A different question from [`Client::graph_shortest_path`], which
    /// minimises hops: with unequal weights the two return different paths and
    /// neither substitutes for the other.
    pub fn graph_weighted_shortest_path(
        &mut self,
        graph: &str,
        from: &str,
        to: &str,
        options: &WeightedPathOptions,
    ) -> (r: Result<Vec<u8>>)
        requires
            old(self)@.request_counter < u64::MAX,
        ensures
            sends(
                old(self)@,
                final(self)@,
                graph_op(
                    "WeightedShortestPath"@,
                    put_members(
                        put_members(
                            put_members(
                                no_members()
                                    .insert("graph"@, JsonTree::Text(graph@))
                                    .insert("from"@, JsonTree::Text(from@))
                                    .insert("to"@, JsonTree::Text(to@)),
                                "direction"@,
                                direction_tree(options.direction),
                            ),
                            "label"@,
                            chosen_text(options.label),
                        ),
                        "weight_property"@,
                        chosen_text(options.weight_property),
                    ),
                ),
                r,
            ),
    {
        self.send(
            op(
                "WeightedShortestPath",
                put(
                    put(
                        put(
                            Object::new()
                                .with("graph", Json::text(graph))
                                .with("from", Json::text(from))
                                .with("to", Json::text(to)),
                            "direction",
                            direction_value(options.direction),
                        ),
                        "label",
                        text_value(&options.label),
                    ),
                    "weight_property",
                    text_value(&options.weight_property),
                ),
            ),
        )
    }

    /// Take the answer to [`Client::graph_weighted_shortest_path`].
    pub fn graph_weighted_shortest_path_reply(
        &mut self,
        reply: Result<Frame>,
    ) -> (r: Result<GraphPath>)
        ensures
            answered(
                old(self)@,
                final(self)@,
                reply_view(reply),
                |x: ResponseView| typed::<GraphPath>(x, "WeightedShortestPath"@),
                model_view(r),
            ),
    {
        let response = self.reply(reply)?;
        self.keep(response.decode("WeightedShortestPath"))
    }

    /// Run a read-only Cypher query.
    ///
    /// The server implements `MATCH` / `WHERE` / `RETURN` with labels, property
    /// predicates, relationship direction and type, bounded variable-length
    /// paths, `DISTINCT`, `ORDER BY` / `SKIP` / `LIMIT`, and global aggregates.
    /// Every other clause — every write clause, `OPTIONAL MATCH`, `WITH`,
    /// `UNWIND`, `CALL`, path variables, `shortestPath()`, parameters — is
    /// refused by name rather than ignored, so a rejected query is an error
    /// instead of an answer computed from half a statement.
    pub fn graph_query(&mut self, graph: &str, cypher: &str) -> (r: Result<Vec<u8>>)
        requires
            old(self)@.request_counter < u64::MAX,
        ensures
            sends(
                old(self)@,
                final(self)@,
                graph_op(
                    "Query"@,
                    no_members()
                        .insert("graph"@, JsonTree::Text(graph@))
                        .insert("cypher"@, JsonTree::Text(cypher@)),
                ),
                r,
            ),
    {
        self.send(
            op(
                "Query",
                Object::new().with("graph", Json::text(graph)).with("cypher", Json::text(cypher)),
            ),
        )
    }

    /// Take the answer to [`Client::graph_query`].
    pub fn graph_query_reply(&mut self, reply: Result<Frame>) -> (r: Result<GraphRows>)
        ensures
            answered(
                old(self)@,
                final(self)@,
                reply_view(reply),
                |x: ResponseView| typed::<GraphRows>(x, "Query"@),
                model_view(r),
            ),
    {
        let response = self.reply(reply)?;
        self.keep(response.decode("Query"))
    }
}

/// A graph node holds what was sent under the name of each field, lists whole and
/// in order.
pub proof fn graph_node_reads_back(m: Map<Seq<char>, JsonTree>, x: GraphNode)
    requires
        m.dom().contains("id"@),
        m["id"@] == JsonTree::Text(x.id@),
        m.dom().contains("labels"@),
        m["labels"@]
            == JsonTree::Array(Seq::new(x.labels@.len(), |i: int| JsonTree::Text(x.labels@[i]@))),
        m.dom().contains("properties"@),
        m["properties"@] == JsonTree::Object(x.properties@),
    ensures
        GraphNode::decoded(JsonTree::Object(m)) == Some(x.model()),
        x.model() == (GraphNodeView {
            id: x.id@,
            labels: Seq::new(x.labels@.len(), |i: int| x.labels@[i]@),
            properties: x.properties@,
        }),
{
    decode::texts_read_back(x.labels);
    assert(x.model() =~= (GraphNodeView {
        id: x.id@,
        labels: Seq::new(x.labels@.len(), |i: int| x.labels@[i]@),
        properties: x.properties@,
    }));
}

/// A graph node takes each field from the member of that name alone. A field that was
/// not sent has its default, and one of another kind refuses the whole.
pub proof fn graph_node_takes_each_field_by_its_name(m: Map<Seq<char>, JsonTree>)
    ensures
        GraphNode::decoded(JsonTree::Object(m)) matches Some(v) ==> {
            &&& String::decoded(m["id"@]) == Some(v.id)
            &&& if m.dom().contains("labels"@) && !(m["labels"@] is Null) {
                Vec::<String>::decoded(m["labels"@]) == Some(v.labels)
            } else {
                v.labels.len() == 0
            }
            &&& if m.dom().contains("properties"@) && !(m["properties"@] is Null) {
                Object::decoded(m["properties"@]) == Some(v.properties)
            } else {
                v.properties == no_members()
            }
        },
        GraphNode::decoded(JsonTree::Object(m)) is Some <==> {
            &&& m.dom().contains("id"@) && String::decoded(m["id"@]) is Some
            &&& m.dom().contains("labels"@) && !(m["labels"@] is Null)
                ==> Vec::<String>::decoded(m["labels"@]) is Some
            &&& m.dom().contains("properties"@) && !(m["properties"@] is Null)
                ==> Object::decoded(m["properties"@]) is Some
        },
{
}

/// A graph node written as a list reads as the object that names each item by its place.
/// Too long a list is refused, and so is any other kind of value.
pub proof fn graph_node_takes_each_item_in_its_place(
    items: Seq<JsonTree>,
    m: Map<Seq<char>, JsonTree>,
    t: JsonTree,
)
    requires
        m.dom().contains("id"@) <==> 0 < items.len(),
        0 < items.len() ==> m["id"@] == items[0],
        m.dom().contains("labels"@) <==> 1 < items.len(),
        1 < items.len() ==> m["labels"@] == items[1],
        m.dom().contains("properties"@) <==> 2 < items.len(),
        2 < items.len() ==> m["properties"@] == items[2],
    ensures
        items.len() <= 3 ==> GraphNode::decoded(JsonTree::Array(items))
            == GraphNode::decoded(JsonTree::Object(m)),
        items.len() > 3 ==> GraphNode::decoded(JsonTree::Array(items)) is None,
        !(t is Object) && !(t is Array) ==> GraphNode::decoded(t) is None,
{
}

/// A graph edge holds what was sent under the name of each field, lists whole and
/// in order.
pub proof fn graph_edge_reads_back(m: Map<Seq<char>, JsonTree>, x: GraphEdge)
    requires
        m.dom().contains("id"@),
        m["id"@] == JsonTree::Text(x.id@),
        m.dom().contains("from"@),
        m["from"@] == JsonTree::Text(x.from@),
        m.dom().contains("to"@),
        m["to"@] == JsonTree::Text(x.to@),
        m.dom().contains("label"@),
        m["label"@] == JsonTree::Text(x.label@),
        m.dom().contains("properties"@),
        m["properties"@] == JsonTree::Object(x.properties@),
    ensures
        GraphEdge::decoded(JsonTree::Object(m)) == Some(x.model()),
        x.model() == (GraphEdgeView {
            id: x.id@,
            from: x.from@,
            to: x.to@,
            label: x.label@,
            properties: x.properties@,
        }),
{
    assert(x.model() =~= (GraphEdgeView {
        id: x.id@,
        from: x.from@,
        to: x.to@,
        label: x.label@,
        properties: x.properties@,
    }));
}

/// A graph edge takes each field from the member of that name alone. A field that was
/// not sent has its default, and one of another kind refuses the whole.
pub proof fn graph_edge_takes_each_field_by_its_name(m: Map<Seq<char>, JsonTree>)
    ensures
        GraphEdge::decoded(JsonTree::Object(m)) matches Some(v) ==> {
            &&& String::decoded(m["id"@]) == Some(v.id)
            &&& if m.dom().contains("from"@) {
                String::decoded(m["from"@]) == Some(v.from)
            } else {
                v.from.len() == 0
            }
            &&& if m.dom().contains("to"@) {
                String::decoded(m["to"@]) == Some(v.to)
            } else {
                v.to.len() == 0
            }
            &&& if m.dom().contains("label"@) {
                String::decoded(m["label"@]) == Some(v.label)
            } else {
                v.label.len() == 0
            }
            &&& if m.dom().contains("properties"@) && !(m["properties"@] is Null) {
                Object::decoded(m["properties"@]) == Some(v.properties)
            } else {
                v.properties == no_members()
            }
        },
        GraphEdge::decoded(JsonTree::Object(m)) is Some <==> {
            &&& m.dom().contains("id"@) && String::decoded(m["id"@]) is Some
            &&& m.dom().contains("from"@) ==> String::decoded(m["from"@]) is Some
            &&& m.dom().contains("to"@) ==> String::decoded(m["to"@]) is Some
            &&& m.dom().contains("label"@) ==> String::decoded(m["label"@]) is Some
            &&& m.dom().contains("properties"@) && !(m["properties"@] is Null)
                ==> Object::decoded(m["properties"@]) is Some
        },
{
}

/// A graph edge written as a list reads as the object that names each item by its place.
/// Too long a list is refused, and so is any other kind of value.
pub proof fn graph_edge_takes_each_item_in_its_place(
    items: Seq<JsonTree>,
    m: Map<Seq<char>, JsonTree>,
    t: JsonTree,
)
    requires
        m.dom().contains("id"@) <==> 0 < items.len(),
        0 < items.len() ==> m["id"@] == items[0],
        m.dom().contains("from"@) <==> 1 < items.len(),
        1 < items.len() ==> m["from"@] == items[1],
        m.dom().contains("to"@) <==> 2 < items.len(),
        2 < items.len() ==> m["to"@] == items[2],
        m.dom().contains("label"@) <==> 3 < items.len(),
        3 < items.len() ==> m["label"@] == items[3],
        m.dom().contains("properties"@) <==> 4 < items.len(),
        4 < items.len() ==> m["properties"@] == items[4],
    ensures
        items.len() <= 5 ==> GraphEdge::decoded(JsonTree::Array(items))
            == GraphEdge::decoded(JsonTree::Object(m)),
        items.len() > 5 ==> GraphEdge::decoded(JsonTree::Array(items)) is None,
        !(t is Object) && !(t is Array) ==> GraphEdge::decoded(t) is None,
{
}

/// A graph neighbor holds what was sent under the name of each field, lists whole and
/// in order.
pub proof fn graph_neighbor_reads_back(m: Map<Seq<char>, JsonTree>, x: GraphNeighbor)
    requires
        m.dom().contains("edge_id"@),
        m["edge_id"@] == JsonTree::Text(x.edge_id@),
        m.dom().contains("node_id"@),
        m["node_id"@] == JsonTree::Text(x.node_id@),
        m.dom().contains("label"@),
        m["label"@] == JsonTree::Text(x.label@),
        m.dom().contains("direction"@),
        GraphDirection::decoded(m["direction"@]) == Some(x.direction),
    ensures
        GraphNeighbor::decoded(JsonTree::Object(m)) == Some(x.model()),
        x.model() == (GraphNeighborView {
            edge_id: x.edge_id@,
            node_id: x.node_id@,
            label: x.label@,
            direction: x.direction,
        }),
{
    assert(x.model() =~= (GraphNeighborView {
        edge_id: x.edge_id@,
        node_id: x.node_id@,
        label: x.label@,
        direction: x.direction,
    }));
}

/// A graph neighbor takes each field from the member of that name alone. A field that was
/// not sent has its default, and one of another kind refuses the whole.
pub proof fn graph_neighbor_takes_each_field_by_its_name(m: Map<Seq<char>, JsonTree>)
    ensures
        GraphNeighbor::decoded(JsonTree::Object(m)) matches Some(v) ==> {
            &&& String::decoded(m["edge_id"@]) == Some(v.edge_id)
            &&& String::decoded(m["node_id"@]) == Some(v.node_id)
            &&& if m.dom().contains("label"@) {
                String::decoded(m["label"@]) == Some(v.label)
            } else {
                v.label.len() == 0
            }
            &&& if m.dom().contains("direction"@) {
                GraphDirection::decoded(m["direction"@]) == Some(v.direction)
            } else {
                v.direction == GraphDirection::Outgoing
            }
        },
        GraphNeighbor::decoded(JsonTree::Object(m)) is Some <==> {
            &&& m.dom().contains("edge_id"@) && String::decoded(m["edge_id"@]) is Some
            &&& m.dom().contains("node_id"@) && String::decoded(m["node_id"@]) is Some
            &&& m.dom().contains("label"@) ==> String::decoded(m["label"@]) is Some
            &&& m.dom().contains("direction"@)
                ==> GraphDirection::decoded(m["direction"@]) is Some
        },
{
}

/// A graph neighbor written as a list reads as the object that names each item by its place.
/// Too long a list is refused, and so is any other kind of value.
pub proof fn graph_neighbor_takes_each_item_in_its_place(
    items: Seq<JsonTree>,
    m: Map<Seq<char>, JsonTree>,
    t: JsonTree,
)
    requires
        m.dom().contains("edge_id"@) <==> 0 < items.len(),
        0 < items.len() ==> m["edge_id"@] == items[0],
        m.dom().contains("node_id"@) <==> 1 < items.len(),
        1 < items.len() ==> m["node_id"@] == items[1],
        m.dom().contains("label"@) <==> 2 < items.len(),
        2 < items.len() ==> m["label"@] == items[2],
        m.dom().contains("direction"@) <==> 3 < items.len(),
        3 < items.len() ==> m["direction"@] == items[3],
    ensures
        items.len() <= 4 ==> GraphNeighbor::decoded(JsonTree::Array(items))
            == GraphNeighbor::decoded(JsonTree::Object(m)),
        items.len() > 4 ==> GraphNeighbor::decoded(JsonTree::Array(items)) is None,
        !(t is Object) && !(t is Array) ==> GraphNeighbor::decoded(t) is None,
{
}

/// A graph visit holds what was sent under the name of each field, lists whole and
/// in order.
pub proof fn graph_visit_reads_back(m: Map<Seq<char>, JsonTree>, x: GraphVisit)
    requires
        m.dom().contains("id"@),
        m["id"@] == JsonTree::Text(x.id@),
        m.dom().contains("depth"@),
        m["depth"@] == JsonTree::Number(crate::text::integer(x.depth as int)),
        m.dom().contains("labels"@),
        m["labels"@]
            == JsonTree::Array(Seq::new(x.labels@.len(), |i: int| JsonTree::Text(x.labels@[i]@))),
        m.dom().contains("properties"@),
        m["properties"@] == JsonTree::Object(x.properties@),
    ensures
        GraphVisit::decoded(JsonTree::Object(m)) == Some(x.model()),
        x.model() == (GraphVisitView {
            id: x.id@,
            depth: x.depth,
            labels: Seq::new(x.labels@.len(), |i: int| x.labels@[i]@),
            properties: x.properties@,
        }),
{
    crate::text::decimal_reads_back(x.depth as int);
    decode::texts_read_back(x.labels);
    assert(x.model() =~= (GraphVisitView {
        id: x.id@,
        depth: x.depth,
        labels: Seq::new(x.labels@.len(), |i: int| x.labels@[i]@),
        properties: x.properties@,
    }));
}

/// A graph visit takes each field from the member of that name alone. A field that was
/// not sent has its default, and one of another kind refuses the whole.
pub proof fn graph_visit_takes_each_field_by_its_name(m: Map<Seq<char>, JsonTree>)
    ensures
        GraphVisit::decoded(JsonTree::Object(m)) matches Some(v) ==> {
            &&& String::decoded(m["id"@]) == Some(v.id)
            &&& if m.dom().contains("depth"@) {
                usize::decoded(m["depth"@]) == Some(v.depth)
            } else {
                v.depth == 0
            }
            &&& if m.dom().contains("labels"@) && !(m["labels"@] is Null) {
                Vec::<String>::decoded(m["labels"@]) == Some(v.labels)
            } else {
                v.labels.len() == 0
            }
            &&& if m.dom().contains("properties"@) && !(m["properties"@] is Null) {
                Object::decoded(m["properties"@]) == Some(v.properties)
            } else {
                v.properties == no_members()
            }
        },
        GraphVisit::decoded(JsonTree::Object(m)) is Some <==> {
            &&& m.dom().contains("id"@) && String::decoded(m["id"@]) is Some
            &&& m.dom().contains("depth"@) ==> usize::decoded(m["depth"@]) is Some
            &&& m.dom().contains("labels"@) && !(m["labels"@] is Null)
                ==> Vec::<String>::decoded(m["labels"@]) is Some
            &&& m.dom().contains("properties"@) && !(m["properties"@] is Null)
                ==> Object::decoded(m["properties"@]) is Some
        },
{
}

/// A graph visit written as a list reads as the object that names each item by its place.
/// Too long a list is refused, and so is any other kind of value.
pub proof fn graph_visit_takes_each_item_in_its_place(
    items: Seq<JsonTree>,
    m: Map<Seq<char>, JsonTree>,
    t: JsonTree,
)
    requires
        m.dom().contains("id"@) <==> 0 < items.len(),
        0 < items.len() ==> m["id"@] == items[0],
        m.dom().contains("depth"@) <==> 1 < items.len(),
        1 < items.len() ==> m["depth"@] == items[1],
        m.dom().contains("labels"@) <==> 2 < items.len(),
        2 < items.len() ==> m["labels"@] == items[2],
        m.dom().contains("properties"@) <==> 3 < items.len(),
        3 < items.len() ==> m["properties"@] == items[3],
    ensures
        items.len() <= 4 ==> GraphVisit::decoded(JsonTree::Array(items))
            == GraphVisit::decoded(JsonTree::Object(m)),
        items.len() > 4 ==> GraphVisit::decoded(JsonTree::Array(items)) is None,
        !(t is Object) && !(t is Array) ==> GraphVisit::decoded(t) is None,
{
}

/// A graph traversal holds what was sent under the name of each field, lists whole and
/// in order.
pub proof fn graph_traversal_reads_back(m: Map<Seq<char>, JsonTree>, x: GraphTraversal)
    requires
        m.dom().contains("start"@),
        m["start"@] == JsonTree::Text(x.start@),
        m.dom().contains("direction"@),
        m["direction"@] == JsonTree::Text(x.direction@),
        m.dom().contains("max_depth"@),
        m["max_depth"@] == JsonTree::Number(crate::text::integer(x.max_depth as int)),
        m.dom().contains("limit"@),
        m["limit"@] == JsonTree::Number(crate::text::integer(x.limit as int)),
        m.dom().contains("count"@),
        m["count"@] == JsonTree::Number(crate::text::integer(x.count as int)),
        m.dom().contains("truncated"@),
        m["truncated"@] == JsonTree::Bool(x.truncated),
        m.dom().contains("nodes"@),
        m["nodes"@] is Array,
        m["nodes"@]->Array_0.len() == x.nodes@.len(),
        forall|i: int| 0 <= i < x.nodes@.len()
            ==> GraphVisit::decoded(#[trigger] m["nodes"@]->Array_0[i]) == Some(x.nodes@[i].model()),
    ensures
        GraphTraversal::decoded(JsonTree::Object(m)) == Some(x.model()),
        x.model() == (GraphTraversalView {
            start: x.start@,
            direction: x.direction@,
            max_depth: x.max_depth,
            limit: x.limit,
            count: x.count,
            truncated: x.truncated,
            nodes: Seq::new(x.nodes@.len(), |i: int| x.nodes@[i].model()),
        }),
{
    crate::text::decimal_reads_back(x.max_depth as int);
    crate::text::decimal_reads_back(x.limit as int);
    crate::text::decimal_reads_back(x.count as int);
    decode::lists_read_back(m["nodes"@]->Array_0, x.nodes);
    assert(x.nodes.model() =~= Seq::new(x.nodes@.len(), |i: int| x.nodes@[i].model()));
    assert(x.model() =~= (GraphTraversalView {
        start: x.start@,
        direction: x.direction@,
        max_depth: x.max_depth,
        limit: x.limit,
        count: x.count,
        truncated: x.truncated,
        nodes: Seq::new(x.nodes@.len(), |i: int| x.nodes@[i].model()),
    }));
}

/// A graph traversal takes each field from the member of that name alone. A field that was
/// not sent has its default, and one of another kind refuses the whole.
pub proof fn graph_traversal_takes_each_field_by_its_name(m: Map<Seq<char>, JsonTree>)
    ensures
        GraphTraversal::decoded(JsonTree::Object(m)) matches Some(v) ==> {
            &&& if m.dom().contains("start"@) {
                String::decoded(m["start"@]) == Some(v.start)
            } else {
                v.start.len() == 0
            }
            &&& if m.dom().contains("direction"@) {
                String::decoded(m["direction"@]) == Some(v.direction)
            } else {
                v.direction.len() == 0
            }
            &&& if m.dom().contains("max_depth"@) {
                usize::decoded(m["max_depth"@]) == Some(v.max_depth)
            } else {
                v.max_depth == 0
            }
            &&& if m.dom().contains("limit"@) {
                usize::decoded(m["limit"@]) == Some(v.limit)
            } else {
                v.limit == 0
            }
            &&& if m.dom().contains("count"@) {
                usize::decoded(m["count"@]) == Some(v.count)
            } else {
                v.count == 0
            }
            &&& if m.dom().contains("truncated"@) {
                bool::decoded(m["truncated"@]) == Some(v.truncated)
            } else {
                v.truncated == false
            }
            &&& if m.dom().contains("nodes"@) && !(m["nodes"@] is Null) {
                Vec::<GraphVisit>::decoded(m["nodes"@]) == Some(v.nodes)
            } else {
                v.nodes.len() == 0
            }
        },
        GraphTraversal::decoded(JsonTree::Object(m)) is Some <==> {
            &&& m.dom().contains("start"@) ==> String::decoded(m["start"@]) is Some
            &&& m.dom().contains("direction"@) ==> String::decoded(m["direction"@]) is Some
            &&& m.dom().contains("max_depth"@) ==> usize::decoded(m["max_depth"@]) is Some
            &&& m.dom().contains("limit"@) ==> usize::decoded(m["limit"@]) is Some
            &&& m.dom().contains("count"@) ==> usize::decoded(m["count"@]) is Some
            &&& m.dom().contains("truncated"@) ==> bool::decoded(m["truncated"@]) is Some
            &&& m.dom().contains("nodes"@) && !(m["nodes"@] is Null)
                ==> Vec::<GraphVisit>::decoded(m["nodes"@]) is Some
        },
{
}

/// A graph traversal written as a list reads as the object that names each item by its place.
/// Too long a list is refused, and so is any other kind of value.
pub proof fn graph_traversal_takes_each_item_in_its_place(
    items: Seq<JsonTree>,
    m: Map<Seq<char>, JsonTree>,
    t: JsonTree,
)
    requires
        m.dom().contains("start"@) <==> 0 < items.len(),
        0 < items.len() ==> m["start"@] == items[0],
        m.dom().contains("direction"@) <==> 1 < items.len(),
        1 < items.len() ==> m["direction"@] == items[1],
        m.dom().contains("max_depth"@) <==> 2 < items.len(),
        2 < items.len() ==> m["max_depth"@] == items[2],
        m.dom().contains("limit"@) <==> 3 < items.len(),
        3 < items.len() ==> m["limit"@] == items[3],
        m.dom().contains("count"@) <==> 4 < items.len(),
        4 < items.len() ==> m["count"@] == items[4],
        m.dom().contains("truncated"@) <==> 5 < items.len(),
        5 < items.len() ==> m["truncated"@] == items[5],
        m.dom().contains("nodes"@) <==> 6 < items.len(),
        6 < items.len() ==> m["nodes"@] == items[6],
    ensures
        items.len() <= 7 ==> GraphTraversal::decoded(JsonTree::Array(items))
            == GraphTraversal::decoded(JsonTree::Object(m)),
        items.len() > 7 ==> GraphTraversal::decoded(JsonTree::Array(items)) is None,
        !(t is Object) && !(t is Array) ==> GraphTraversal::decoded(t) is None,
{
}

/// A graph path holds what was sent under the name of each field, lists whole and
/// in order.
pub proof fn graph_path_reads_back(m: Map<Seq<char>, JsonTree>, x: GraphPath)
    requires
        m.dom().contains("found"@),
        m["found"@] == JsonTree::Bool(x.found),
        m.dom().contains("from"@),
        m["from"@] == JsonTree::Text(x.from@),
        m.dom().contains("to"@),
        m["to"@] == JsonTree::Text(x.to@),
        m.dom().contains("direction"@),
        m["direction"@] == JsonTree::Text(x.direction@),
        m.dom().contains("hops"@),
        m["hops"@] == JsonTree::Number(crate::text::integer(x.hops as int)),
        m.dom().contains("node_path"@),
        m["node_path"@]
            == JsonTree::Array(
                Seq::new(x.node_path@.len(), |i: int| JsonTree::Text(x.node_path@[i]@)),
            ),
        m.dom().contains("edge_path"@),
        m["edge_path"@]
            == JsonTree::Array(
                Seq::new(x.edge_path@.len(), |i: int| JsonTree::Text(x.edge_path@[i]@)),
            ),
        m.dom().contains("total_cost"@),
        m["total_cost"@] == JsonTree::Number(x.total_cost@),
        m.dom().contains("message"@),
        m["message"@] == JsonTree::Text(x.message@),
    ensures
        GraphPath::decoded(JsonTree::Object(m)) == Some(x.model()),
        x.model() == (GraphPathView {
            found: x.found,
            from: x.from@,
            to: x.to@,
            direction: x.direction@,
            hops: x.hops,
            node_path: Seq::new(x.node_path@.len(), |i: int| x.node_path@[i]@),
            edge_path: Seq::new(x.edge_path@.len(), |i: int| x.edge_path@[i]@),
            total_cost: x.total_cost@,
            message: x.message@,
        }),
{
    crate::text::decimal_reads_back(x.hops as int);
    decode::texts_read_back(x.node_path);
    decode::texts_read_back(x.edge_path);
    assert(x.model() =~= (GraphPathView {
        found: x.found,
        from: x.from@,
        to: x.to@,
        direction: x.direction@,
        hops: x.hops,
        node_path: Seq::new(x.node_path@.len(), |i: int| x.node_path@[i]@),
        edge_path: Seq::new(x.edge_path@.len(), |i: int| x.edge_path@[i]@),
        total_cost: x.total_cost@,
        message: x.message@,
    }));
}

/// A graph path takes each field from the member of that name alone. A field that was
/// not sent has its default, and one of another kind refuses the whole.
pub proof fn graph_path_takes_each_field_by_its_name(m: Map<Seq<char>, JsonTree>)
    ensures
        GraphPath::decoded(JsonTree::Object(m)) matches Some(v) ==> {
            &&& if m.dom().contains("found"@) {
                bool::decoded(m["found"@]) == Some(v.found)
            } else {
                v.found == false
            }
            &&& if m.dom().contains("from"@) {
                String::decoded(m["from"@]) == Some(v.from)
            } else {
                v.from.len() == 0
            }
            &&& if m.dom().contains("to"@) {
                String::decoded(m["to"@]) == Some(v.to)
            } else {
                v.to.len() == 0
            }
            &&& if m.dom().contains("direction"@) {
                String::decoded(m["direction"@]) == Some(v.direction)
            } else {
                v.direction.len() == 0
            }
            &&& if m.dom().contains("hops"@) {
                usize::decoded(m["hops"@]) == Some(v.hops)
            } else {
                v.hops == 0
            }
            &&& if m.dom().contains("node_path"@) && !(m["node_path"@] is Null) {
                Vec::<String>::decoded(m["node_path"@]) == Some(v.node_path)
            } else {
                v.node_path.len() == 0
            }
            &&& if m.dom().contains("edge_path"@) && !(m["edge_path"@] is Null) {
                Vec::<String>::decoded(m["edge_path"@]) == Some(v.edge_path)
            } else {
                v.edge_path.len() == 0
            }
            &&& if m.dom().contains("total_cost"@) {
                Number::decoded(m["total_cost"@]) == Some(v.total_cost)
            } else {
                v.total_cost == "0.0"@
            }
            &&& if m.dom().contains("message"@) {
                String::decoded(m["message"@]) == Some(v.message)
            } else {
                v.message.len() == 0
            }
        },
        GraphPath::decoded(JsonTree::Object(m)) is Some <==> {
            &&& m.dom().contains("found"@) ==> bool::decoded(m["found"@]) is Some
            &&& m.dom().contains("from"@) ==> String::decoded(m["from"@]) is Some
            &&& m.dom().contains("to"@) ==> String::decoded(m["to"@]) is Some
            &&& m.dom().contains("direction"@) ==> String::decoded(m["direction"@]) is Some
            &&& m.dom().contains("hops"@) ==> usize::decoded(m["hops"@]) is Some
            &&& m.dom().contains("node_path"@) && !(m["node_path"@] is Null)
                ==> Vec::<String>::decoded(m["node_path"@]) is Some
            &&& m.dom().contains("edge_path"@) && !(m["edge_path"@] is Null)
                ==> Vec::<String>::decoded(m["edge_path"@]) is Some
            &&& m.dom().contains("total_cost"@) ==> Number::decoded(m["total_cost"@]) is Some
            &&& m.dom().contains("message"@) ==> String::decoded(m["message"@]) is Some
        },
{
}

/// A graph path written as a list reads as the object that names each item by its place.
/// Too long a list is refused, and so is any other kind of value.
pub proof fn graph_path_takes_each_item_in_its_place(
    items: Seq<JsonTree>,
    m: Map<Seq<char>, JsonTree>,
    t: JsonTree,
)
    requires
        m.dom().contains("found"@) <==> 0 < items.len(),
        0 < items.len() ==> m["found"@] == items[0],
        m.dom().contains("from"@) <==> 1 < items.len(),
        1 < items.len() ==> m["from"@] == items[1],
        m.dom().contains("to"@) <==> 2 < items.len(),
        2 < items.len() ==> m["to"@] == items[2],
        m.dom().contains("direction"@) <==> 3 < items.len(),
        3 < items.len() ==> m["direction"@] == items[3],
        m.dom().contains("hops"@) <==> 4 < items.len(),
        4 < items.len() ==> m["hops"@] == items[4],
        m.dom().contains("node_path"@) <==> 5 < items.len(),
        5 < items.len() ==> m["node_path"@] == items[5],
        m.dom().contains("edge_path"@) <==> 6 < items.len(),
        6 < items.len() ==> m["edge_path"@] == items[6],
        m.dom().contains("total_cost"@) <==> 7 < items.len(),
        7 < items.len() ==> m["total_cost"@] == items[7],
        m.dom().contains("message"@) <==> 8 < items.len(),
        8 < items.len() ==> m["message"@] == items[8],
    ensures
        items.len() <= 9 ==> GraphPath::decoded(JsonTree::Array(items))
            == GraphPath::decoded(JsonTree::Object(m)),
        items.len() > 9 ==> GraphPath::decoded(JsonTree::Array(items)) is None,
        !(t is Object) && !(t is Array) ==> GraphPath::decoded(t) is None,
{
}

/// A graph node page holds what was sent under the name of each field, lists whole and
/// in order.
pub proof fn graph_node_page_reads_back(m: Map<Seq<char>, JsonTree>, x: GraphNodePage)
    requires
        m.dom().contains("graph"@),
        m["graph"@] == JsonTree::Text(x.graph@),
        m.dom().contains("count"@),
        m["count"@] == JsonTree::Number(crate::text::integer(x.count as int)),
        m.dom().contains("nodes"@),
        m["nodes"@] is Array,
        m["nodes"@]->Array_0.len() == x.nodes@.len(),
        forall|i: int| 0 <= i < x.nodes@.len()
            ==> GraphNode::decoded(#[trigger] m["nodes"@]->Array_0[i]) == Some(x.nodes@[i].model()),
        m.dom().contains("truncated"@),
        m["truncated"@] == JsonTree::Bool(x.truncated),
        m.dom().contains("total"@),
        m["total"@] == JsonTree::Number(crate::text::integer(x.total as int)),
    ensures
        GraphNodePage::decoded(JsonTree::Object(m)) == Some(x.model()),
        x.model() == (GraphNodePageView {
            graph: x.graph@,
            count: x.count,
            nodes: Seq::new(x.nodes@.len(), |i: int| x.nodes@[i].model()),
            truncated: x.truncated,
            total: x.total,
        }),
{
    crate::text::decimal_reads_back(x.count as int);
    decode::lists_read_back(m["nodes"@]->Array_0, x.nodes);
    assert(x.nodes.model() =~= Seq::new(x.nodes@.len(), |i: int| x.nodes@[i].model()));
    crate::text::decimal_reads_back(x.total as int);
    assert(x.model() =~= (GraphNodePageView {
        graph: x.graph@,
        count: x.count,
        nodes: Seq::new(x.nodes@.len(), |i: int| x.nodes@[i].model()),
        truncated: x.truncated,
        total: x.total,
    }));
}

/// A graph node page takes each field from the member of that name alone. A field that was
/// not sent has its default, and one of another kind refuses the whole.
pub proof fn graph_node_page_takes_each_field_by_its_name(m: Map<Seq<char>, JsonTree>)
    ensures
        GraphNodePage::decoded(JsonTree::Object(m)) matches Some(v) ==> {
            &&& if m.dom().contains("graph"@) {
                String::decoded(m["graph"@]) == Some(v.graph)
            } else {
                v.graph.len() == 0
            }
            &&& if m.dom().contains("count"@) {
                usize::decoded(m["count"@]) == Some(v.count)
            } else {
                v.count == 0
            }
            &&& if m.dom().contains("nodes"@) && !(m["nodes"@] is Null) {
                Vec::<GraphNode>::decoded(m["nodes"@]) == Some(v.nodes)
            } else {
                v.nodes.len() == 0
            }
            &&& if m.dom().contains("truncated"@) {
                bool::decoded(m["truncated"@]) == Some(v.truncated)
            } else {
                v.truncated == false
            }
            &&& if m.dom().contains("total"@) {
                i64::decoded(m["total"@]) == Some(v.total)
            } else {
                v.total == 0
            }
        },
        GraphNodePage::decoded(JsonTree::Object(m)) is Some <==> {
            &&& m.dom().contains("graph"@) ==> String::decoded(m["graph"@]) is Some
            &&& m.dom().contains("count"@) ==> usize::decoded(m["count"@]) is Some
            &&& m.dom().contains("nodes"@) && !(m["nodes"@] is Null)
                ==> Vec::<GraphNode>::decoded(m["nodes"@]) is Some
            &&& m.dom().contains("truncated"@) ==> bool::decoded(m["truncated"@]) is Some
            &&& m.dom().contains("total"@) ==> i64::decoded(m["total"@]) is Some
        },
{
}

/// A graph node page written as a list reads as the object that names each item by its place.
/// Too long a list is refused, and so is any other kind of value.
pub proof fn graph_node_page_takes_each_item_in_its_place(
    items: Seq<JsonTree>,
    m: Map<Seq<char>, JsonTree>,
    t: JsonTree,
)
    requires
        m.dom().contains("graph"@) <==> 0 < items.len(),
        0 < items.len() ==> m["graph"@] == items[0],
        m.dom().contains("count"@) <==> 1 < items.len(),
        1 < items.len() ==> m["count"@] == items[1],
        m.dom().contains("nodes"@) <==> 2 < items.len(),
        2 < items.len() ==> m["nodes"@] == items[2],
        m.dom().contains("truncated"@) <==> 3 < items.len(),
        3 < items.len() ==> m["truncated"@] == items[3],
        m.dom().contains("total"@) <==> 4 < items.len(),
        4 < items.len() ==> m["total"@] == items[4],
    ensures
        items.len() <= 5 ==> GraphNodePage::decoded(JsonTree::Array(items))
            == GraphNodePage::decoded(JsonTree::Object(m)),
        items.len() > 5 ==> GraphNodePage::decoded(JsonTree::Array(items)) is None,
        !(t is Object) && !(t is Array) ==> GraphNodePage::decoded(t) is None,
{
}

/// A graph edge page holds what was sent under the name of each field, lists whole and
/// in order.
pub proof fn graph_edge_page_reads_back(m: Map<Seq<char>, JsonTree>, x: GraphEdgePage)
    requires
        m.dom().contains("graph"@),
        m["graph"@] == JsonTree::Text(x.graph@),
        m.dom().contains("count"@),
        m["count"@] == JsonTree::Number(crate::text::integer(x.count as int)),
        m.dom().contains("edges"@),
        m["edges"@] is Array,
        m["edges"@]->Array_0.len() == x.edges@.len(),
        forall|i: int| 0 <= i < x.edges@.len()
            ==> GraphEdge::decoded(#[trigger] m["edges"@]->Array_0[i]) == Some(x.edges@[i].model()),
        m.dom().contains("truncated"@),
        m["truncated"@] == JsonTree::Bool(x.truncated),
        m.dom().contains("total"@),
        m["total"@] == JsonTree::Number(crate::text::integer(x.total as int)),
    ensures
        GraphEdgePage::decoded(JsonTree::Object(m)) == Some(x.model()),
        x.model() == (GraphEdgePageView {
            graph: x.graph@,
            count: x.count,
            edges: Seq::new(x.edges@.len(), |i: int| x.edges@[i].model()),
            truncated: x.truncated,
            total: x.total,
        }),
{
    crate::text::decimal_reads_back(x.count as int);
    decode::lists_read_back(m["edges"@]->Array_0, x.edges);
    assert(x.edges.model() =~= Seq::new(x.edges@.len(), |i: int| x.edges@[i].model()));
    crate::text::decimal_reads_back(x.total as int);
    assert(x.model() =~= (GraphEdgePageView {
        graph: x.graph@,
        count: x.count,
        edges: Seq::new(x.edges@.len(), |i: int| x.edges@[i].model()),
        truncated: x.truncated,
        total: x.total,
    }));
}

/// A graph edge page takes each field from the member of that name alone. A field that was
/// not sent has its default, and one of another kind refuses the whole.
pub proof fn graph_edge_page_takes_each_field_by_its_name(m: Map<Seq<char>, JsonTree>)
    ensures
        GraphEdgePage::decoded(JsonTree::Object(m)) matches Some(v) ==> {
            &&& if m.dom().contains("graph"@) {
                String::decoded(m["graph"@]) == Some(v.graph)
            } else {
                v.graph.len() == 0
            }
            &&& if m.dom().contains("count"@) {
                usize::decoded(m["count"@]) == Some(v.count)
            } else {
                v.count == 0
            }
            &&& if m.dom().contains("edges"@) && !(m["edges"@] is Null) {
                Vec::<GraphEdge>::decoded(m["edges"@]) == Some(v.edges)
            } else {
                v.edges.len() == 0
            }
            &&& if m.dom().contains("truncated"@) {
                bool::decoded(m["truncated"@]) == Some(v.truncated)
            } else {
                v.truncated == false
            }
            &&& if m.dom().contains("total"@) {
                i64::decoded(m["total"@]) == Some(v.total)
            } else {
                v.total == 0
            }
        },
        GraphEdgePage::decoded(JsonTree::Object(m)) is Some <==> {
            &&& m.dom().contains("graph"@) ==> String::decoded(m["graph"@]) is Some
            &&& m.dom().contains("count"@) ==> usize::decoded(m["count"@]) is Some
            &&& m.dom().contains("edges"@) && !(m["edges"@] is Null)
                ==> Vec::<GraphEdge>::decoded(m["edges"@]) is Some
            &&& m.dom().contains("truncated"@) ==> bool::decoded(m["truncated"@]) is Some
            &&& m.dom().contains("total"@) ==> i64::decoded(m["total"@]) is Some
        },
{
}

/// A graph edge page written as a list reads as the object that names each item by its place.
/// Too long a list is refused, and so is any other kind of value.
pub proof fn graph_edge_page_takes_each_item_in_its_place(
    items: Seq<JsonTree>,
    m: Map<Seq<char>, JsonTree>,
    t: JsonTree,
)
    requires
        m.dom().contains("graph"@) <==> 0 < items.len(),
        0 < items.len() ==> m["graph"@] == items[0],
        m.dom().contains("count"@) <==> 1 < items.len(),
        1 < items.len() ==> m["count"@] == items[1],
        m.dom().contains("edges"@) <==> 2 < items.len(),
        2 < items.len() ==> m["edges"@] == items[2],
        m.dom().contains("truncated"@) <==> 3 < items.len(),
        3 < items.len() ==> m["truncated"@] == items[3],
        m.dom().contains("total"@) <==> 4 < items.len(),
        4 < items.len() ==> m["total"@] == items[4],
    ensures
        items.len() <= 5 ==> GraphEdgePage::decoded(JsonTree::Array(items))
            == GraphEdgePage::decoded(JsonTree::Object(m)),
        items.len() > 5 ==> GraphEdgePage::decoded(JsonTree::Array(items)) is None,
        !(t is Object) && !(t is Array) ==> GraphEdgePage::decoded(t) is None,
{
}

/// A graph rows holds what was sent under the name of each field, lists whole and
/// in order.
pub proof fn graph_rows_reads_back(m: Map<Seq<char>, JsonTree>, x: GraphRows)
    requires
        m.dom().contains("graph"@),
        m["graph"@] == JsonTree::Text(x.graph@),
        m.dom().contains("columns"@),
        m["columns"@]
            == JsonTree::Array(Seq::new(x.columns@.len(), |i: int| JsonTree::Text(x.columns@[i]@))),
        m.dom().contains("rows"@),
        m["rows"@]
            == JsonTree::Array(
                Seq::new(
                    x.rows@.len(),
                    |i: int| JsonTree::Array(
                        Seq::new(x.rows@[i]@.len(), |j: int| x.rows@[i]@[j]@),
                    ),
                ),
            ),
        m.dom().contains("count"@),
        m["count"@] == JsonTree::Number(crate::text::integer(x.count as int)),
        m.dom().contains("truncated"@),
        m["truncated"@] == JsonTree::Bool(x.truncated),
    ensures
        GraphRows::decoded(JsonTree::Object(m)) == Some(x.model()),
        x.model() == (GraphRowsView {
            graph: x.graph@,
            columns: Seq::new(x.columns@.len(), |i: int| x.columns@[i]@),
            rows: Seq::new(
                x.rows@.len(),
                |i: int| Seq::new(x.rows@[i]@.len(), |j: int| x.rows@[i]@[j]@),
            ),
            count: x.count,
            truncated: x.truncated,
        }),
{
    decode::texts_read_back(x.columns);
    let outer = Seq::new(
        x.rows@.len(),
        |i: int| JsonTree::Array(Seq::new(x.rows@[i]@.len(), |j: int| x.rows@[i]@[j]@)),
    );
    assert forall|i: int| 0 <= i < outer.len() implies
        Vec::<Json>::decoded(#[trigger] outer[i]) == Some(x.rows@[i].model()) by {
        decode::lists_read_back(outer[i]->Array_0, x.rows@[i]);
    }
    decode::lists_read_back(outer, x.rows);
    assert forall|i: int| 0 <= i < x.rows@.len() implies
        #[trigger] x.rows.model()[i] == Seq::new(x.rows@[i]@.len(), |j: int| x.rows@[i]@[j]@) by {
        assert(x.rows@[i].model() =~= Seq::new(x.rows@[i]@.len(), |j: int| x.rows@[i]@[j]@));
    }
    assert(x.rows.model() =~= Seq::new(x.rows@.len(), |i: int| Seq::new(x.rows@[i]@.len(), |j: int| x.rows@[i]@[j]@)));
    crate::text::decimal_reads_back(x.count as int);
    assert(x.model() =~= (GraphRowsView {
        graph: x.graph@,
        columns: Seq::new(x.columns@.len(), |i: int| x.columns@[i]@),
        rows: Seq::new(x.rows@.len(), |i: int| Seq::new(x.rows@[i]@.len(), |j: int| x.rows@[i]@[j]@)),
        count: x.count,
        truncated: x.truncated,
    }));
}

/// A graph rows takes each field from the member of that name alone. A field that was
/// not sent has its default, and one of another kind refuses the whole.
pub proof fn graph_rows_takes_each_field_by_its_name(m: Map<Seq<char>, JsonTree>)
    ensures
        GraphRows::decoded(JsonTree::Object(m)) matches Some(v) ==> {
            &&& if m.dom().contains("graph"@) {
                String::decoded(m["graph"@]) == Some(v.graph)
            } else {
                v.graph.len() == 0
            }
            &&& if m.dom().contains("columns"@) && !(m["columns"@] is Null) {
                Vec::<String>::decoded(m["columns"@]) == Some(v.columns)
            } else {
                v.columns.len() == 0
            }
            &&& if m.dom().contains("rows"@) && !(m["rows"@] is Null) {
                Vec::<Vec<Json>>::decoded(m["rows"@]) == Some(v.rows)
            } else {
                v.rows.len() == 0
            }
            &&& if m.dom().contains("count"@) {
                usize::decoded(m["count"@]) == Some(v.count)
            } else {
                v.count == 0
            }
            &&& if m.dom().contains("truncated"@) {
                bool::decoded(m["truncated"@]) == Some(v.truncated)
            } else {
                v.truncated == false
            }
        },
        GraphRows::decoded(JsonTree::Object(m)) is Some <==> {
            &&& m.dom().contains("graph"@) ==> String::decoded(m["graph"@]) is Some
            &&& m.dom().contains("columns"@) && !(m["columns"@] is Null)
                ==> Vec::<String>::decoded(m["columns"@]) is Some
            &&& m.dom().contains("rows"@) && !(m["rows"@] is Null)
                ==> Vec::<Vec<Json>>::decoded(m["rows"@]) is Some
            &&& m.dom().contains("count"@) ==> usize::decoded(m["count"@]) is Some
            &&& m.dom().contains("truncated"@) ==> bool::decoded(m["truncated"@]) is Some
        },
{
}

/// A graph rows written as a list reads as the object that names each item by its place.
/// Too long a list is refused, and so is any other kind of value.
pub proof fn graph_rows_takes_each_item_in_its_place(
    items: Seq<JsonTree>,
    m: Map<Seq<char>, JsonTree>,
    t: JsonTree,
)
    requires
        m.dom().contains("graph"@) <==> 0 < items.len(),
        0 < items.len() ==> m["graph"@] == items[0],
        m.dom().contains("columns"@) <==> 1 < items.len(),
        1 < items.len() ==> m["columns"@] == items[1],
        m.dom().contains("rows"@) <==> 2 < items.len(),
        2 < items.len() ==> m["rows"@] == items[2],
        m.dom().contains("count"@) <==> 3 < items.len(),
        3 < items.len() ==> m["count"@] == items[3],
        m.dom().contains("truncated"@) <==> 4 < items.len(),
        4 < items.len() ==> m["truncated"@] == items[4],
    ensures
        items.len() <= 5 ==> GraphRows::decoded(JsonTree::Array(items))
            == GraphRows::decoded(JsonTree::Object(m)),
        items.len() > 5 ==> GraphRows::decoded(JsonTree::Array(items)) is None,
        !(t is Object) && !(t is Array) ==> GraphRows::decoded(t) is None,
{
}

/// A direction is sent and read by its own name, and no other name is one.
pub proof fn directions_go_by_their_names(
    x: GraphDirection,
    y: GraphDirection,
    s: Seq<char>,
    t: JsonTree,
)
    ensures
        direction_name(GraphDirection::Outgoing) == "outgoing"@,
        direction_name(GraphDirection::Incoming) == "incoming"@,
        direction_name(GraphDirection::Both) == "both"@,
        GraphDirection::decoded(JsonTree::Text("outgoing"@)) == Some(GraphDirection::Outgoing),
        GraphDirection::decoded(JsonTree::Text("incoming"@)) == Some(GraphDirection::Incoming),
        GraphDirection::decoded(JsonTree::Text("both"@)) == Some(GraphDirection::Both),
        s != "outgoing"@ && s != "incoming"@ && s != "both"@
            ==> GraphDirection::decoded(JsonTree::Text(s)) is None,
        t is Null || t is Bool || t is Number || t is Array ==> GraphDirection::decoded(t) is None,
        GraphDirection::decoded(JsonTree::Text(direction_name(x))) == Some(x.model()),
        x.model() == x,
        x != y ==> direction_name(x) != direction_name(y),
{
    reveal_strlit("outgoing");
    reveal_strlit("incoming");
    reveal_strlit("both");
    assert("outgoing"@[0] != "incoming"@[0]);
    assert("outgoing"@.len() != "both"@.len());
    assert("incoming"@.len() != "both"@.len());
}

/// A request of this kind is sent under its own name alone.
pub proof fn a_graph_request_is_sent_under_its_name(
    variant: Seq<char>,
    body: Map<Seq<char>, JsonTree>,
)
    ensures
        graph_op(variant, body) == JsonTree::Object(
            map!["Graph"@ => JsonTree::Object(map![variant => JsonTree::Object(body)])],
        ),
{
    crate::json::a_wrapped_value_is_the_only_member(variant, JsonTree::Object(body), variant);
    crate::json::a_wrapped_value_is_the_only_member(
        "Graph"@,
        wrapped(variant, JsonTree::Object(body)),
        "Graph"@,
    );
}

/// A direction and a text are sent when they were chosen.
pub proof fn what_was_chosen_is_sent(d: GraphDirection, s: String)
    ensures
        direction_tree(Some(d)) == Some(JsonTree::Text(direction_name(d))),
        direction_tree(None) is None,
        chosen_text(Some(s)) == Some(JsonTree::Text(s@)),
        chosen_text(None) is None,
{
}

/// A path has exactly the edges and the nodes that were sent for it, in order.
pub proof fn a_path_has_every_edge_and_node_in_order(
    m: Map<Seq<char>, JsonTree>,
    edges: Seq<JsonTree>,
    nodes: Seq<JsonTree>,
    i: int,
)
    requires
        m.dom().contains("edge_path"@),
        m["edge_path"@] == JsonTree::Array(edges),
        m.dom().contains("node_path"@),
        m["node_path"@] == JsonTree::Array(nodes),
        GraphPath::decoded(JsonTree::Object(m)) is Some,
    ensures
        GraphPath::decoded(JsonTree::Object(m))->0.edge_path.len() == edges.len(),
        0 <= i < edges.len() ==> edges[i] == JsonTree::Text(
            GraphPath::decoded(JsonTree::Object(m))->0.edge_path[i],
        ),
        GraphPath::decoded(JsonTree::Object(m))->0.node_path.len() == nodes.len(),
        0 <= i < nodes.len() ==> nodes[i] == JsonTree::Text(
            GraphPath::decoded(JsonTree::Object(m))->0.node_path[i],
        ),
{
    let path = GraphPath::decoded(JsonTree::Object(m))->0;
    assert(Vec::<String>::decoded(JsonTree::Array(edges)) == Some(path.edge_path));
    assert(Vec::<String>::decoded(JsonTree::Array(nodes)) == Some(path.node_path));
    if 0 <= i < edges.len() {
        assert(String::decoded(edges[i]) == Some(path.edge_path[i]));
    }
    if 0 <= i < nodes.len() {
        assert(String::decoded(nodes[i]) == Some(path.node_path[i]));
    }
}

/// What is sent by `graph_create`, `graph_drop`.
pub proof fn graph_create_and_its_like_are_sent_as_they_were_asked(
    c: &mut Client,
    graph: &str,
    r: Result<Vec<u8>>,
)
    ensures
        call_ensures(Client::graph_create, (c, graph), r) ==> sends(
            old(c)@,
            final(c)@,
            JsonTree::Object(
                map![
                    "Graph"@ => JsonTree::Object(
                        map![
                            "CreateGraph"@ => JsonTree::Object(
                                map!["graph"@ => JsonTree::Text(graph@)],
                            ),
                        ],
                    ),
                ],
            ),
            r,
        ),
        call_ensures(Client::graph_drop, (c, graph), r) ==> sends(
            old(c)@,
            final(c)@,
            JsonTree::Object(
                map![
                    "Graph"@ => JsonTree::Object(
                        map![
                            "DropGraph"@ => JsonTree::Object(
                                map!["graph"@ => JsonTree::Text(graph@)],
                            ),
                        ],
                    ),
                ],
            ),
            r,
        ),
{
    assert(Map::<Seq<char>, JsonTree>::empty().insert("graph"@, JsonTree::Text(graph@)) =~= map![
        "graph"@ => JsonTree::Text(graph@),
    ]);
    a_graph_request_is_sent_under_its_name(
        "CreateGraph"@,
        map!["graph"@ => JsonTree::Text(graph@)],
    );
    a_graph_request_is_sent_under_its_name(
        "DropGraph"@,
        map!["graph"@ => JsonTree::Text(graph@)],
    );
}

/// What is sent by `graph_list`.
pub proof fn graph_list_is_sent_as_it_was_asked(c: &mut Client, r: Result<Vec<u8>>)
    ensures
        call_ensures(Client::graph_list, (c,), r) ==> sends(
            old(c)@,
            final(c)@,
            JsonTree::Object(map!["Graph"@ => JsonTree::Text("ListGraphs"@)]),
            r,
        ),
{
    crate::json::a_wrapped_value_is_the_only_member(
        "Graph"@,
        JsonTree::Text("ListGraphs"@),
        "Graph"@,
    );
}

/// What is sent by `graph_add_node`.
pub proof fn graph_add_node_is_sent_as_it_was_asked(
    c: &mut Client,
    graph: &str,
    id: &str,
    labels: &[&str],
    properties: Option<&Object>,
    r: Result<Vec<u8>>,
)
    ensures
        call_ensures(Client::graph_add_node, (c, graph, id, labels, properties), r) ==> sends(
            old(c)@,
            final(c)@,
            JsonTree::Object(
                map![
                    "Graph"@ => JsonTree::Object(
                        map![
                            "AddNode"@ => JsonTree::Object(
                                map![
                                    "graph"@ => JsonTree::Text(graph@),
                                    "id"@ => JsonTree::Text(id@),
                                    "labels"@ => texts_tree(labels@),
                                    "properties"@ => optional_members(properties),
                                ],
                            ),
                        ],
                    ),
                ],
            ),
            r,
        ),
{
    assert(Map::<Seq<char>, JsonTree>::empty()
        .insert("graph"@, JsonTree::Text(graph@))
        .insert("id"@, JsonTree::Text(id@))
        .insert("labels"@, texts_tree(labels@))
        .insert("properties"@, optional_members(properties)) =~= map![
        "graph"@ => JsonTree::Text(graph@),
        "id"@ => JsonTree::Text(id@),
        "labels"@ => texts_tree(labels@),
        "properties"@ => optional_members(properties),
    ]);
    a_graph_request_is_sent_under_its_name(
        "AddNode"@,
        map![
            "graph"@ => JsonTree::Text(graph@),
            "id"@ => JsonTree::Text(id@),
            "labels"@ => texts_tree(labels@),
            "properties"@ => optional_members(properties),
        ],
    );
}

/// What is sent by `graph_get_node`, `graph_delete_node`, `graph_get_edge`,
/// `graph_delete_edge`.
pub proof fn graph_get_node_and_its_like_are_sent_as_they_were_asked(
    c: &mut Client,
    graph: &str,
    id: &str,
    r: Result<Vec<u8>>,
)
    ensures
        call_ensures(Client::graph_get_node, (c, graph, id), r) ==> sends(
            old(c)@,
            final(c)@,
            JsonTree::Object(
                map![
                    "Graph"@ => JsonTree::Object(
                        map![
                            "GetNode"@ => JsonTree::Object(
                                map![
                                    "graph"@ => JsonTree::Text(graph@),
                                    "id"@ => JsonTree::Text(id@),
                                ],
                            ),
                        ],
                    ),
                ],
            ),
            r,
        ),
        call_ensures(Client::graph_delete_node, (c, graph, id), r) ==> sends(
            old(c)@,
            final(c)@,
            JsonTree::Object(
                map![
                    "Graph"@ => JsonTree::Object(
                        map![
                            "DeleteNode"@ => JsonTree::Object(
                                map![
                                    "graph"@ => JsonTree::Text(graph@),
                                    "id"@ => JsonTree::Text(id@),
                                ],
                            ),
                        ],
                    ),
                ],
            ),
            r,
        ),
        call_ensures(Client::graph_get_edge, (c, graph, id), r) ==> sends(
            old(c)@,
            final(c)@,
            JsonTree::Object(
                map![
                    "Graph"@ => JsonTree::Object(
                        map![
                            "GetEdge"@ => JsonTree::Object(
                                map![
                                    "graph"@ => JsonTree::Text(graph@),
                                    "id"@ => JsonTree::Text(id@),
                                ],
                            ),
                        ],
                    ),
                ],
            ),
            r,
        ),
        call_ensures(Client::graph_delete_edge, (c, graph, id), r) ==> sends(
            old(c)@,
            final(c)@,
            JsonTree::Object(
                map![
                    "Graph"@ => JsonTree::Object(
                        map![
                            "DeleteEdge"@ => JsonTree::Object(
                                map![
                                    "graph"@ => JsonTree::Text(graph@),
                                    "id"@ => JsonTree::Text(id@),
                                ],
                            ),
                        ],
                    ),
                ],
            ),
            r,
        ),
{
    assert(Map::<Seq<char>, JsonTree>::empty()
        .insert("graph"@, JsonTree::Text(graph@))
        .insert("id"@, JsonTree::Text(id@)) =~= map![
        "graph"@ => JsonTree::Text(graph@),
        "id"@ => JsonTree::Text(id@),
    ]);
    a_graph_request_is_sent_under_its_name(
        "GetNode"@,
        map!["graph"@ => JsonTree::Text(graph@), "id"@ => JsonTree::Text(id@)],
    );
    a_graph_request_is_sent_under_its_name(
        "DeleteNode"@,
        map!["graph"@ => JsonTree::Text(graph@), "id"@ => JsonTree::Text(id@)],
    );
    a_graph_request_is_sent_under_its_name(
        "GetEdge"@,
        map!["graph"@ => JsonTree::Text(graph@), "id"@ => JsonTree::Text(id@)],
    );
    a_graph_request_is_sent_under_its_name(
        "DeleteEdge"@,
        map!["graph"@ => JsonTree::Text(graph@), "id"@ => JsonTree::Text(id@)],
    );
}

/// What is sent by `graph_list_nodes`, `graph_list_edges`.
pub proof fn graph_list_nodes_and_its_like_are_sent_as_they_were_asked(
    c: &mut Client,
    graph: &str,
    limit: Option<usize>,
    offset: Option<usize>,
    r: Result<Vec<u8>>,
)
    ensures
        call_ensures(Client::graph_list_nodes, (c, graph, limit, offset), r) ==> sends(
            old(c)@,
            final(c)@,
            JsonTree::Object(
                map![
                    "Graph"@ => JsonTree::Object(
                        map![
                            "ListNodes"@ => JsonTree::Object(
                                put_members(
                                    put_members(
                                        map!["graph"@ => JsonTree::Text(graph@)],
                                        "limit"@,
                                        positive_tree(limit),
                                    ),
                                    "offset"@,
                                    positive_tree(offset),
                                ),
                            ),
                        ],
                    ),
                ],
            ),
            r,
        ),
        call_ensures(Client::graph_list_edges, (c, graph, limit, offset), r) ==> sends(
            old(c)@,
            final(c)@,
            JsonTree::Object(
                map![
                    "Graph"@ => JsonTree::Object(
                        map![
                            "ListEdges"@ => JsonTree::Object(
                                put_members(
                                    put_members(
                                        map!["graph"@ => JsonTree::Text(graph@)],
                                        "limit"@,
                                        positive_tree(limit),
                                    ),
                                    "offset"@,
                                    positive_tree(offset),
                                ),
                            ),
                        ],
                    ),
                ],
            ),
            r,
        ),
{
    assert(Map::<Seq<char>, JsonTree>::empty().insert("graph"@, JsonTree::Text(graph@)) =~= map![
        "graph"@ => JsonTree::Text(graph@),
    ]);
    a_graph_request_is_sent_under_its_name(
        "ListNodes"@,
        put_members(
            put_members(
                map!["graph"@ => JsonTree::Text(graph@)],
                "limit"@,
                positive_tree(limit),
            ),
            "offset"@,
            positive_tree(offset),
        ),
    );
    a_graph_request_is_sent_under_its_name(
        "ListEdges"@,
        put_members(
            put_members(
                map!["graph"@ => JsonTree::Text(graph@)],
                "limit"@,
                positive_tree(limit),
            ),
            "offset"@,
            positive_tree(offset),
        ),
    );
}

/// What is sent by `graph_add_edge`.
pub proof fn graph_add_edge_is_sent_as_it_was_asked(
    c: &mut Client,
    graph: &str,
    id: &str,
    from: &str,
    to: &str,
    label: &str,
    properties: Option<&Object>,
    r: Result<Vec<u8>>,
)
    ensures
        call_ensures(Client::graph_add_edge, (c, graph, id, from, to, label, properties), r)
            ==> sends(
            old(c)@,
            final(c)@,
            JsonTree::Object(
                map![
                    "Graph"@ => JsonTree::Object(
                        map![
                            "AddEdge"@ => JsonTree::Object(
                                map![
                                    "graph"@ => JsonTree::Text(graph@),
                                    "id"@ => JsonTree::Text(id@),
                                    "from"@ => JsonTree::Text(from@),
                                    "to"@ => JsonTree::Text(to@),
                                    "label"@ => JsonTree::Text(label@),
                                    "properties"@ => optional_members(properties),
                                ],
                            ),
                        ],
                    ),
                ],
            ),
            r,
        ),
{
    assert(Map::<Seq<char>, JsonTree>::empty()
        .insert("graph"@, JsonTree::Text(graph@))
        .insert("id"@, JsonTree::Text(id@))
        .insert("from"@, JsonTree::Text(from@))
        .insert("to"@, JsonTree::Text(to@))
        .insert("label"@, JsonTree::Text(label@))
        .insert("properties"@, optional_members(properties)) =~= map![
        "graph"@ => JsonTree::Text(graph@),
        "id"@ => JsonTree::Text(id@),
        "from"@ => JsonTree::Text(from@),
        "to"@ => JsonTree::Text(to@),
        "label"@ => JsonTree::Text(label@),
        "properties"@ => optional_members(properties),
    ]);
    a_graph_request_is_sent_under_its_name(
        "AddEdge"@,
        map![
            "graph"@ => JsonTree::Text(graph@),
            "id"@ => JsonTree::Text(id@),
            "from"@ => JsonTree::Text(from@),
            "to"@ => JsonTree::Text(to@),
            "label"@ => JsonTree::Text(label@),
            "properties"@ => optional_members(properties),
        ],
    );
}

/// What is sent by `graph_neighbors`.
pub proof fn graph_neighbors_is_sent_as_it_was_asked(
    c: &mut Client,
    graph: &str,
    node_id: &str,
    options: &NeighborOptions,
    r: Result<Vec<u8>>,
)
    ensures
        call_ensures(Client::graph_neighbors, (c, graph, node_id, options), r) ==> sends(
            old(c)@,
            final(c)@,
            JsonTree::Object(
                map![
                    "Graph"@ => JsonTree::Object(
                        map![
                            "Neighbors"@ => JsonTree::Object(
                                put_members(
                                    put_members(
                                        put_members(
                                            map![
                                                "graph"@ => JsonTree::Text(graph@),
                                                "node_id"@ => JsonTree::Text(node_id@),
                                            ],
                                            "direction"@,
                                            direction_tree(options.direction),
                                        ),
                                        "label"@,
                                        chosen_text(options.label),
                                    ),
                                    "limit"@,
                                    positive_tree(options.limit),
                                ),
                            ),
                        ],
                    ),
                ],
            ),
            r,
        ),
{
    assert(Map::<Seq<char>, JsonTree>::empty()
        .insert("graph"@, JsonTree::Text(graph@))
        .insert("node_id"@, JsonTree::Text(node_id@)) =~= map![
        "graph"@ => JsonTree::Text(graph@),
        "node_id"@ => JsonTree::Text(node_id@),
    ]);
    a_graph_request_is_sent_under_its_name(
        "Neighbors"@,
        put_members(
            put_members(
                put_members(
                    map![
                        "graph"@ => JsonTree::Text(graph@),
                        "node_id"@ => JsonTree::Text(node_id@),
                    ],
                    "direction"@,
                    direction_tree(options.direction),
                ),
                "label"@,
                chosen_text(options.label),
            ),
            "limit"@,
            positive_tree(options.limit),
        ),
    );
}

/// What is sent by `graph_degree`.
pub proof fn graph_degree_is_sent_as_it_was_asked(
    c: &mut Client,
    graph: &str,
    node_id: &str,
    direction: Option<GraphDirection>,
    r: Result<Vec<u8>>,
)
    ensures
        call_ensures(Client::graph_degree, (c, graph, node_id, direction), r) ==> sends(
            old(c)@,
            final(c)@,
            JsonTree::Object(
                map![
                    "Graph"@ => JsonTree::Object(
                        map![
                            "Degree"@ => JsonTree::Object(
                                put_members(
                                    map![
                                        "graph"@ => JsonTree::Text(graph@),
                                        "node_id"@ => JsonTree::Text(node_id@),
                                    ],
                                    "direction"@,
                                    direction_tree(direction),
                                ),
                            ),
                        ],
                    ),
                ],
            ),
            r,
        ),
{
    assert(Map::<Seq<char>, JsonTree>::empty()
        .insert("graph"@, JsonTree::Text(graph@))
        .insert("node_id"@, JsonTree::Text(node_id@)) =~= map![
        "graph"@ => JsonTree::Text(graph@),
        "node_id"@ => JsonTree::Text(node_id@),
    ]);
    a_graph_request_is_sent_under_its_name(
        "Degree"@,
        put_members(
            map!["graph"@ => JsonTree::Text(graph@), "node_id"@ => JsonTree::Text(node_id@)],
            "direction"@,
            direction_tree(direction),
        ),
    );
}

/// What is sent by `graph_traverse`.
pub proof fn graph_traverse_is_sent_as_it_was_asked(
    c: &mut Client,
    graph: &str,
    start: &str,
    options: &TraverseOptions,
    r: Result<Vec<u8>>,
)
    ensures
        call_ensures(Client::graph_traverse, (c, graph, start, options), r) ==> sends(
            old(c)@,
            final(c)@,
            JsonTree::Object(
                map![
                    "Graph"@ => JsonTree::Object(
                        map![
                            "Traverse"@ => JsonTree::Object(
                                put_members(
                                    put_members(
                                        put_members(
                                            put_members(
                                                map![
                                                    "graph"@ => JsonTree::Text(graph@),
                                                    "start"@ => JsonTree::Text(start@),
                                                ],
                                                "direction"@,
                                                direction_tree(options.direction),
                                            ),
                                            "label"@,
                                            chosen_text(options.label),
                                        ),
                                        "max_depth"@,
                                        positive_tree(options.max_depth),
                                    ),
                                    "limit"@,
                                    positive_tree(options.limit),
                                ),
                            ),
                        ],
                    ),
                ],
            ),
            r,
        ),
{
    assert(Map::<Seq<char>, JsonTree>::empty()
        .insert("graph"@, JsonTree::Text(graph@))
        .insert("start"@, JsonTree::Text(start@)) =~= map![
        "graph"@ => JsonTree::Text(graph@),
        "start"@ => JsonTree::Text(start@),
    ]);
    a_graph_request_is_sent_under_its_name(
        "Traverse"@,
        put_members(
            put_members(
                put_members(
                    put_members(
                        map![
                            "graph"@ => JsonTree::Text(graph@),
                            "start"@ => JsonTree::Text(start@),
                        ],
                        "direction"@,
                        direction_tree(options.direction),
                    ),
                    "label"@,
                    chosen_text(options.label),
                ),
                "max_depth"@,
                positive_tree(options.max_depth),
            ),
            "limit"@,
            positive_tree(options.limit),
        ),
    );
}

/// What is sent by `graph_shortest_path`.
pub proof fn graph_shortest_path_is_sent_as_it_was_asked(
    c: &mut Client,
    graph: &str,
    from: &str,
    to: &str,
    options: &PathOptions,
    r: Result<Vec<u8>>,
)
    ensures
        call_ensures(Client::graph_shortest_path, (c, graph, from, to, options), r) ==> sends(
            old(c)@,
            final(c)@,
            JsonTree::Object(
                map![
                    "Graph"@ => JsonTree::Object(
                        map![
                            "ShortestPath"@ => JsonTree::Object(
                                put_members(
                                    put_members(
                                        put_members(
                                            map![
                                                "graph"@ => JsonTree::Text(graph@),
                                                "from"@ => JsonTree::Text(from@),
                                                "to"@ => JsonTree::Text(to@),
                                            ],
                                            "direction"@,
                                            direction_tree(options.direction),
                                        ),
                                        "label"@,
                                        chosen_text(options.label),
                                    ),
                                    "max_depth"@,
                                    positive_tree(options.max_depth),
                                ),
                            ),
                        ],
                    ),
                ],
            ),
            r,
        ),
{
    assert(Map::<Seq<char>, JsonTree>::empty()
        .insert("graph"@, JsonTree::Text(graph@))
        .insert("from"@, JsonTree::Text(from@))
        .insert("to"@, JsonTree::Text(to@)) =~= map![
        "graph"@ => JsonTree::Text(graph@),
        "from"@ => JsonTree::Text(from@),
        "to"@ => JsonTree::Text(to@),
    ]);
    a_graph_request_is_sent_under_its_name(
        "ShortestPath"@,
        put_members(
            put_members(
                put_members(
                    map![
                        "graph"@ => JsonTree::Text(graph@),
                        "from"@ => JsonTree::Text(from@),
                        "to"@ => JsonTree::Text(to@),
                    ],
                    "direction"@,
                    direction_tree(options.direction),
                ),
                "label"@,
                chosen_text(options.label),
            ),
            "max_depth"@,
            positive_tree(options.max_depth),
        ),
    );
}

/// What is sent by `graph_weighted_shortest_path`.
pub proof fn graph_weighted_shortest_path_is_sent_as_it_was_asked(
    c: &mut Client,
    graph: &str,
    from: &str,
    to: &str,
    options: &WeightedPathOptions,
    r: Result<Vec<u8>>,
)
    ensures
        call_ensures(Client::graph_weighted_shortest_path, (c, graph, from, to, options), r)
            ==> sends(
            old(c)@,
            final(c)@,
            JsonTree::Object(
                map![
                    "Graph"@ => JsonTree::Object(
                        map![
                            "WeightedShortestPath"@ => JsonTree::Object(
                                put_members(
                                    put_members(
                                        put_members(
                                            map![
                                                "graph"@ => JsonTree::Text(graph@),
                                                "from"@ => JsonTree::Text(from@),
                                                "to"@ => JsonTree::Text(to@),
                                            ],
                                            "direction"@,
                                            direction_tree(options.direction),
                                        ),
                                        "label"@,
                                        chosen_text(options.label),
                                    ),
                                    "weight_property"@,
                                    chosen_text(options.weight_property),
                                ),
                            ),
                        ],
                    ),
                ],
            ),
            r,
        ),
{
    assert(Map::<Seq<char>, JsonTree>::empty()
        .insert("graph"@, JsonTree::Text(graph@))
        .insert("from"@, JsonTree::Text(from@))
        .insert("to"@, JsonTree::Text(to@)) =~= map![
        "graph"@ => JsonTree::Text(graph@),
        "from"@ => JsonTree::Text(from@),
        "to"@ => JsonTree::Text(to@),
    ]);
    a_graph_request_is_sent_under_its_name(
        "WeightedShortestPath"@,
        put_members(
            put_members(
                put_members(
                    map![
                        "graph"@ => JsonTree::Text(graph@),
                        "from"@ => JsonTree::Text(from@),
                        "to"@ => JsonTree::Text(to@),
                    ],
                    "direction"@,
                    direction_tree(options.direction),
                ),
                "label"@,
                chosen_text(options.label),
            ),
            "weight_property"@,
            chosen_text(options.weight_property),
        ),
    );
}

/// What is sent by `graph_query`.
pub proof fn graph_query_is_sent_as_it_was_asked(
    c: &mut Client,
    graph: &str,
    cypher: &str,
    r: Result<Vec<u8>>,
)
    ensures
        call_ensures(Client::graph_query, (c, graph, cypher), r) ==> sends(
            old(c)@,
            final(c)@,
            JsonTree::Object(
                map![
                    "Graph"@ => JsonTree::Object(
                        map![
                            "Query"@ => JsonTree::Object(
                                map![
                                    "graph"@ => JsonTree::Text(graph@),
                                    "cypher"@ => JsonTree::Text(cypher@),
                                ],
                            ),
                        ],
                    ),
                ],
            ),
            r,
        ),
{
    assert(Map::<Seq<char>, JsonTree>::empty()
        .insert("graph"@, JsonTree::Text(graph@))
        .insert("cypher"@, JsonTree::Text(cypher@)) =~= map![
        "graph"@ => JsonTree::Text(graph@),
        "cypher"@ => JsonTree::Text(cypher@),
    ]);
    a_graph_request_is_sent_under_its_name(
        "Query"@,
        map!["graph"@ => JsonTree::Text(graph@), "cypher"@ => JsonTree::Text(cypher@)],
    );
}

/// What the answer is to `graph_list_reply`. Without a response the failure stands.
pub proof fn graph_list_is_answered_by_its_response(
    c: &mut Client,
    reply: Result<Frame>,
    r: Result<Vec<String>>,
)
    ensures
        call_ensures(Client::graph_list_reply, (c, reply), r)
            ==> (response_result(reply_view(reply)) matches Ok(x)
                ==> model_view(r) == typed_single::<Vec<String>>(
                x,
                "ListGraphs"@,
                "graphs"@,
                Seq::empty(),
            )),
        call_ensures(Client::graph_list_reply, (c, reply), r)
            ==> (response_result(reply_view(reply)) matches Err(e) ==> r is Err && r->Err_0@ == e),
{
}

/// What the answer is to `graph_get_node_reply`. Without a response the failure stands.
pub proof fn graph_get_node_is_answered_by_its_response(
    c: &mut Client,
    reply: Result<Frame>,
    r: Result<Option<GraphNode>>,
)
    ensures
        call_ensures(Client::graph_get_node_reply, (c, reply), r)
            ==> (response_result(reply_view(reply)) matches Ok(x)
                ==> model_view(r) == typed::<Option<GraphNode>>(x, "GetNode"@)),
        call_ensures(Client::graph_get_node_reply, (c, reply), r)
            ==> (response_result(reply_view(reply)) matches Err(e) ==> r is Err && r->Err_0@ == e),
{
}

/// What the answer is to `graph_list_nodes_reply`. Without a response the failure
/// stands.
pub proof fn graph_list_nodes_is_answered_by_its_response(
    c: &mut Client,
    reply: Result<Frame>,
    r: Result<GraphNodePage>,
)
    ensures
        call_ensures(Client::graph_list_nodes_reply, (c, reply), r)
            ==> (response_result(reply_view(reply)) matches Ok(x)
                ==> model_view(r) == typed::<GraphNodePage>(x, "ListNodes"@)),
        call_ensures(Client::graph_list_nodes_reply, (c, reply), r)
            ==> (response_result(reply_view(reply)) matches Err(e) ==> r is Err && r->Err_0@ == e),
{
}

/// What the answer is to `graph_get_edge_reply`. Without a response the failure stands.
pub proof fn graph_get_edge_is_answered_by_its_response(
    c: &mut Client,
    reply: Result<Frame>,
    r: Result<Option<GraphEdge>>,
)
    ensures
        call_ensures(Client::graph_get_edge_reply, (c, reply), r)
            ==> (response_result(reply_view(reply)) matches Ok(x)
                ==> model_view(r) == typed::<Option<GraphEdge>>(x, "GetEdge"@)),
        call_ensures(Client::graph_get_edge_reply, (c, reply), r)
            ==> (response_result(reply_view(reply)) matches Err(e) ==> r is Err && r->Err_0@ == e),
{
}

/// What the answer is to `graph_list_edges_reply`. Without a response the failure
/// stands.
pub proof fn graph_list_edges_is_answered_by_its_response(
    c: &mut Client,
    reply: Result<Frame>,
    r: Result<GraphEdgePage>,
)
    ensures
        call_ensures(Client::graph_list_edges_reply, (c, reply), r)
            ==> (response_result(reply_view(reply)) matches Ok(x)
                ==> model_view(r) == typed::<GraphEdgePage>(x, "ListEdges"@)),
        call_ensures(Client::graph_list_edges_reply, (c, reply), r)
            ==> (response_result(reply_view(reply)) matches Err(e) ==> r is Err && r->Err_0@ == e),
{
}

/// What the answer is to `graph_neighbors_reply`. Without a response the failure
/// stands.
pub proof fn graph_neighbors_is_answered_by_its_response(
    c: &mut Client,
    reply: Result<Frame>,
    r: Result<Vec<GraphNeighbor>>,
)
    ensures
        call_ensures(Client::graph_neighbors_reply, (c, reply), r)
            ==> (response_result(reply_view(reply)) matches Ok(x)
                ==> model_view(r) == typed_single::<Vec<GraphNeighbor>>(
                x,
                "Neighbors"@,
                "neighbors"@,
                Seq::empty(),
            )),
        call_ensures(Client::graph_neighbors_reply, (c, reply), r)
            ==> (response_result(reply_view(reply)) matches Err(e) ==> r is Err && r->Err_0@ == e),
{
}

/// What the answer is to `graph_degree_reply`. Without a response the failure stands.
pub proof fn graph_degree_is_answered_by_its_response(
    c: &mut Client,
    reply: Result<Frame>,
    r: Result<i64>,
)
    ensures
        call_ensures(Client::graph_degree_reply, (c, reply), r)
            ==> (response_result(reply_view(reply)) matches Ok(x)
                ==> model_view(r) == typed_single::<i64>(x, "Degree"@, "degree"@, 0)),
        call_ensures(Client::graph_degree_reply, (c, reply), r)
            ==> (response_result(reply_view(reply)) matches Err(e) ==> r is Err && r->Err_0@ == e),
{
}

/// What the answer is to `graph_traverse_reply`. Without a response the failure stands.
pub proof fn graph_traverse_is_answered_by_its_response(
    c: &mut Client,
    reply: Result<Frame>,
    r: Result<GraphTraversal>,
)
    ensures
        call_ensures(Client::graph_traverse_reply, (c, reply), r)
            ==> (response_result(reply_view(reply)) matches Ok(x)
                ==> model_view(r) == typed::<GraphTraversal>(x, "Traverse"@)),
        call_ensures(Client::graph_traverse_reply, (c, reply), r)
            ==> (response_result(reply_view(reply)) matches Err(e) ==> r is Err && r->Err_0@ == e),
{
}

/// What the answer is to `graph_shortest_path_reply`,
/// `graph_weighted_shortest_path_reply`. Without a response the failure stands.
pub proof fn graph_shortest_path_and_its_like_are_answered_by_their_responses(
    c: &mut Client,
    reply: Result<Frame>,
    r: Result<GraphPath>,
)
    ensures
        call_ensures(Client::graph_shortest_path_reply, (c, reply), r)
            ==> (response_result(reply_view(reply)) matches Ok(x)
                ==> model_view(r) == typed::<GraphPath>(x, "ShortestPath"@)),
        call_ensures(Client::graph_weighted_shortest_path_reply, (c, reply), r)
            ==> (response_result(reply_view(reply)) matches Ok(x)
                ==> model_view(r) == typed::<GraphPath>(x, "WeightedShortestPath"@)),
        call_ensures(Client::graph_shortest_path_reply, (c, reply), r)
            || call_ensures(Client::graph_weighted_shortest_path_reply, (c, reply), r)
            ==> (response_result(reply_view(reply)) matches Err(e) ==> r is Err && r->Err_0@ == e),
{
}

/// What the answer is to `graph_query_reply`. Without a response the failure stands.
pub proof fn graph_query_is_answered_by_its_response(
    c: &mut Client,
    reply: Result<Frame>,
    r: Result<GraphRows>,
)
    ensures
        call_ensures(Client::graph_query_reply, (c, reply), r)
            ==> (response_result(reply_view(reply)) matches Ok(x)
                ==> model_view(r) == typed::<GraphRows>(x, "Query"@)),
        call_ensures(Client::graph_query_reply, (c, reply), r)
            ==> (response_result(reply_view(reply)) matches Err(e) ==> r is Err && r->Err_0@ == e),
{
}

/// What `GraphPath::decode` gives: the path that was sent, its edges and nodes taken
/// from their own members, whole and in order.
pub proof fn a_path_is_decoded_whole(
    j: &Json,
    m: Map<Seq<char>, JsonTree>,
    edges: Seq<Seq<char>>,
    r: Option<GraphPath>,
    i: int,
)
    requires
        call_ensures(GraphPath::decode, (j,), r),
        j@ == JsonTree::Object(m),
        m.dom().contains("edge_path"@),
        m["edge_path"@] == JsonTree::Array(
            Seq::new(edges.len(), |k: int| JsonTree::Text(edges[k])),
        ),
    ensures
        r matches Some(path) ==> {
            &&& path.edge_path@.len() == edges.len()
            &&& 0 <= i < edges.len() ==> path.edge_path@[i]@ == edges[i]
        },
{
    if let Some(path) = r {
        let sent = Seq::new(edges.len(), |k: int| JsonTree::Text(edges[k]));
        assert(GraphPath::decoded(j@) == Some(path.model()));
        assert(Vec::<String>::decoded(JsonTree::Array(sent)) == Some(path.edge_path.model()));
        decode::lists_are_read_item_by_item(sent, path.edge_path);
        decode::texts_read_back(path.edge_path);
        assert(path.edge_path.model().len() == path.edge_path@.len());
        if 0 <= i < edges.len() {
            assert(String::decoded(sent[i]) == Some(path.edge_path.model()[i]));
            assert(path.edge_path.model()[i] == path.edge_path@[i]@);
        }
    }
}

/// What a direction tells and sends: its name.
pub proof fn a_direction_is_told_and_sent_by_name(x: GraphDirection, s: &'static str, j: Json)
    ensures
        call_ensures(GraphDirection::name, (x,), s) ==> s@ == direction_name(x),
        call_ensures(GraphDirection::wire, (x,), j) ==> j@ == JsonTree::Text(direction_name(x)),
{
}

} // verus!
