//! The TriCoreDB client: SQL, documents, cache, vectors, graphs and LLM context
//! over one connection.
//!
//! The crate speaks TriCoreDB's own `tricore` protocol. It holds everything that
//! is decided about a session, and no socket: a [`Client`] says which bytes to
//! write, and takes the frame that comes back.
//!
//! # One connection, one request at a time
//!
//! The protocol is a single request/response stream, so every call takes
//! `&mut self`. A call returns the frame to write; the matching reply method
//! takes the frame that was read, or the failure to read one. Use a [`Pool`]
//! when you need several requests at once.
//!
//! # Values are bound by the server
//!
//! [`Client::execute_params`] and [`Client::query_params`] send the values
//! beside the statement; the server substitutes them at positions its grammar
//! has already fixed, so a value can never be read as SQL. When a server does
//! not offer that capability, those calls fail before sending anything instead
//! of quietly building the statement text here — see
//! [`ErrorKind::FeatureNotGranted`].
//!
//! # Errors
//!
//! Every fallible call returns [`Error`]. Branch on [`Error::kind`] and
//! [`Error::code`], never on the message text. A write refused by a follower in
//! a cluster has [`Error::is_redirect`] true and, when the cluster knows one,
//! [`Error::leader_hint`]; this client never follows the hint by itself.

pub mod body;
pub mod cache;
pub mod client;
pub mod codec;
pub mod decode;
pub mod document;
pub mod error;
pub mod frame;
pub mod graph;
pub mod json;
pub mod llm;
pub mod options;
pub mod params;
pub mod pool;
pub mod response;
pub mod sql;
pub mod text;
pub mod tls;
pub mod transport;
pub mod vector;
pub mod wire;

pub use crate::cache::{CacheKeyInfo, CachePair, StreamEntry};
pub use crate::client::Client;
pub use crate::document::{
    AccumulatorOp, AggregateStage, Document, DocumentFilter, DocumentIndex, DocumentStats,
    DocumentUpdate, GroupAccumulator, GroupKey, SortKey, UpdateCounts,
};
pub use crate::error::{Error, ErrorKind, Result, NOT_LEADER};
pub use crate::frame::{Frame, Tag, FRAME_VERSION, MAX_CONTROL_PAYLOAD, MAX_DATA_PAYLOAD};
pub use crate::graph::{
    GraphDirection, GraphEdge, GraphEdgePage, GraphNeighbor, GraphNode, GraphNodePage, GraphPath,
    GraphRows, GraphTraversal, GraphVisit, NeighborOptions, PathOptions, TraverseOptions,
    WeightedPathOptions,
};
pub use crate::json::{Json, Number, Object};
pub use crate::llm::{LlmOptions, LlmSource, OutputFormat};
pub use crate::options::{
    Duration, Options, TlsOptions, ALL_FEATURES, DEFAULT_DATABASE, DEFAULT_PORT,
    FEATURE_CORRELATION_ID, FEATURE_SERVER_PARAMS, FEATURE_SESSION_TXN, VERSION,
};
pub use crate::params::{Float, Param};
pub use crate::pool::Pool;
pub use crate::response::Response;
pub use crate::sql::{Rows, Statement, TransactionResult};
pub use crate::vector::{
    VectorCollectionInfo, VectorCollectionSummary, VectorHit, VectorItem, VectorMetric, VectorPage,
    VectorQuantization, VectorSearchResult,
};
