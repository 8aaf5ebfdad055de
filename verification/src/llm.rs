//! Read-only context export for language models, and the two admin reads.
//!
//! Each operation is a method that returns the frame to write, and a `_reply`
//! that takes the answer. Where an operation has none, any response is the
//! answer: see [`Client::reply`].

use crate::client::Client;
#[allow(unused_imports)]
use crate::client::{answered, declines, model_view, reply_view, response_result, sends};
use crate::codec;
use crate::decode::Decode;
use crate::document::DocumentFilter;
use crate::error::{Error, ErrorKind, Result};
#[allow(unused_imports)]
use crate::error::{plain, ErrorView};
use crate::frame::Frame;
use crate::json::{wire_list, Json, JsonTree, Object, OnWire};
#[allow(unused_imports)]
use crate::json::{
    as_text, no_members, optional_tree, positive_tree, size_tree, wire_views, wrapped,
};
use crate::response::Response;
#[allow(unused_imports)]
use crate::response::{described, typed, ResponseView};
use crate::text;
use vstd::prelude::*;

verus! {

/// How the server should render an export.
#[derive(Debug, Clone, Copy, PartialEq, Eq, Structural)]
pub enum OutputFormat {
    /// TriCoreDB's own representation.
    Native,
    /// Standard JSON.
    Json,
    /// The token-oriented rendering meant for a model's context window.
    Toon,
    /// Markdown, for a person to read.
    Markdown,
}

/// The server's spelling of it.
pub open spec fn format_name(x: OutputFormat) -> Seq<char> {
    match x {
        OutputFormat::Native => "native"@,
        OutputFormat::Json => "json"@,
        OutputFormat::Toon => "toon"@,
        OutputFormat::Markdown => "markdown"@,
    }
}

impl Default for OutputFormat {
    fn default() -> (x: OutputFormat)
        ensures
            x == OutputFormat::Toon,
    {
        OutputFormat::Toon
    }
}

impl OutputFormat {
    /// The server's spelling of it.
    pub fn name(self) -> (s: &'static str)
        ensures
            s@ == format_name(self),
    {
        match self {
            OutputFormat::Native => "native",
            OutputFormat::Json => "json",
            OutputFormat::Toon => "toon",
            OutputFormat::Markdown => "markdown",
        }
    }

    /// Its form on the wire.
    pub fn wire(self) -> (j: Json)
        ensures
            j@ == JsonTree::Text(format_name(self)),
    {
        Json::text(self.name())
    }
}

/// What to put into an export, and what to hide.
///
/// [`LlmOptions::default`] matches the server's own defaults: redact, no schema,
/// no row cap. Build from it rather than from a zeroed struct, so redaction is
/// never turned off by accident.
#[derive(Debug, Clone, Copy, PartialEq, Eq)]
pub struct LlmOptions {
    /// Cap the rows included. `None` leaves the cap to the server.
    pub max_rows: Option<usize>,
    /// Redact sensitive fields before exporting.
    pub redact_sensitive: bool,
    /// Put type information alongside the data.
    pub include_schema: bool,
}

/// The server's own choice: redact, no schema, no row cap.
pub open spec fn default_options() -> LlmOptions {
    LlmOptions { max_rows: None, redact_sensitive: true, include_schema: false }
}

/// A value that was chosen, or `null`.
pub open spec fn or_null_tree(t: Option<JsonTree>) -> JsonTree {
    match t {
        Some(t) => t,
        None => JsonTree::Null,
    }
}

/// Export options on the wire.
pub open spec fn options_tree(o: LlmOptions) -> JsonTree {
    JsonTree::Object(
        no_members().insert("max_rows"@, size_tree(o.max_rows)).insert(
            "redact_sensitive"@,
            JsonTree::Bool(o.redact_sensitive),
        ).insert("include_schema"@, JsonTree::Bool(o.include_schema)),
    )
}

/// The options that a choice of them stands for.
pub open spec fn chosen_options(options: Option<LlmOptions>) -> LlmOptions {
    match options {
        Some(o) => o,
        None => default_options(),
    }
}

/// Sensitive fields are redacted unless the caller turned that off.
pub proof fn exports_redact_by_default(options: Option<LlmOptions>)
    ensures
        crate::json::member(options_tree(chosen_options(None)), "redact_sensitive"@) == Some(
            JsonTree::Bool(true),
        ),
        crate::json::member(options_tree(chosen_options(options)), "redact_sensitive"@) == Some(
            JsonTree::Bool(false),
        ) ==> (options matches Some(o) && !o.redact_sensitive),
{
    reveal_strlit("max_rows");
    reveal_strlit("redact_sensitive");
    reveal_strlit("include_schema");
    assert("redact_sensitive"@.len() != "include_schema"@.len());
    assert("redact_sensitive"@.len() != "max_rows"@.len());
}

fn value_or_null(j: Option<Json>) -> (r: Json)
    ensures
        r@ == or_null_tree(optional_tree(j)),
{
    match j {
        Some(j) => j,
        None => Json::Null,
    }
}

impl Default for LlmOptions {
    fn default() -> (o: LlmOptions)
        ensures
            o == default_options(),
    {
        LlmOptions { max_rows: None, redact_sensitive: true, include_schema: false }
    }
}

impl LlmOptions {
    /// Cap the rows included.
    pub fn max_rows(self, rows: usize) -> (o: LlmOptions)
        ensures
            o == (LlmOptions { max_rows: Some(rows), ..self }),
    {
        LlmOptions { max_rows: Some(rows), ..self }
    }

    /// Turn redaction on or off. **Off means sensitive values are exported as
    /// they are stored.**
    pub fn redact_sensitive(self, redact: bool) -> (o: LlmOptions)
        ensures
            o == (LlmOptions { redact_sensitive: redact, ..self }),
    {
        LlmOptions { redact_sensitive: redact, ..self }
    }

    /// Put type information into the export.
    pub fn include_schema(self, schema: bool) -> (o: LlmOptions)
        ensures
            o == (LlmOptions { include_schema: schema, ..self }),
    {
        LlmOptions { include_schema: schema, ..self }
    }

    /// The options on the wire.
    pub fn to_wire(self) -> (j: Json)
        ensures
            j@ == options_tree(self),
    {
        Json::Object(
            Object::new().with("max_rows", Json::size_or_null(self.max_rows)).with(
                "redact_sensitive",
                Json::Bool(self.redact_sensitive),
            ).with("include_schema", Json::Bool(self.include_schema)),
        )
    }
}

fn wire_options(options: Option<LlmOptions>) -> (j: Json)
    ensures
        j@ == options_tree(chosen_options(options)),
{
    match options {
        Some(o) => o.to_wire(),
        None => LlmOptions::default().to_wire(),
    }
}

/// One read-only source contributing to a context bundle.
#[derive(Debug, PartialEq)]
pub struct LlmSource(Json);

impl LlmSource {
    /// The source on the wire.
    pub closed spec fn spec_wire(&self) -> JsonTree {
        self.0@
    }

    /// The source on the wire.
    pub fn wire(&self) -> (j: Json)
        ensures
            j@ == self@,
    {
        self.0.clone()
    }
}

impl View for LlmSource {
    type V = JsonTree;

    open spec fn view(&self) -> JsonTree {
        self.spec_wire()
    }
}

impl Clone for LlmSource {
    fn clone(&self) -> (r: LlmSource)
        ensures
            r@ == self@,
    {
        LlmSource(self.0.clone())
    }
}

impl OnWire for LlmSource {
    fn to_json(&self) -> (j: Json) {
        self.wire()
    }
}

impl LlmSource {
    /// A `SELECT`. The caller needs permission to read it.
    pub fn sql(query: &str) -> (s: LlmSource)
        ensures
            s@ == wrapped("Sql"@, wrapped("query"@, JsonTree::Text(query@))),
    {
        LlmSource(Json::wrap("Sql", Json::wrap("query", Json::text(query))))
    }

    /// A document query. The caller needs permission to read the collection.
    pub fn document_find(
        collection: &str,
        filter: &DocumentFilter,
        limit: Option<usize>,
    ) -> (s: LlmSource)
        ensures
            s@ == wrapped(
                "DocumentFind"@,
                JsonTree::Object(
                    no_members().insert("collection"@, JsonTree::Text(collection@)).insert(
                        "filter"@,
                        filter@,
                    ).insert("limit"@, or_null_tree(positive_tree(limit))),
                ),
            ),
    {
        LlmSource(
            Json::wrap(
                "DocumentFind",
                Json::Object(
                    Object::new().with("collection", Json::text(collection)).with(
                        "filter",
                        filter.wire(),
                    ).with("limit", value_or_null(Json::positive(limit))),
                ),
            ),
        )
    }
}

/// What an answer with a rendered export means.
pub open spec fn rendered_meaning(r: ResponseView) -> std::result::Result<Seq<char>, ErrorView> {
    if r.kind == "Toon"@ || r.kind == "Message"@ {
        match as_text(r.data) {
            Some(s) => Ok(s),
            None => Ok(codec::json_text(r.data)),
        }
    } else if r.kind == "Json"@ {
        Ok(codec::json_text(r.data))
    } else {
        Err(
            plain(
                ErrorKind::Protocol,
                "expected a rendered export, got "@ + described(r.kind),
            ),
        )
    }
}

/// Unwrap whichever payload the requested format produced.
pub fn rendered(response: &Response) -> (r: Result<String>)
    ensures
        model_view(r) == rendered_meaning(response@),
{
    let kind = response.kind.as_str();
    if text::same(kind, "Toon") || text::same(kind, "Message") {
        match response.data.as_str() {
            Some(s) => Ok(s.to_owned()),
            None => Ok(codec::render(&response.data)),
        }
    } else if text::same(kind, "Json") {
        Ok(codec::render(&response.data))
    } else {
        let mut message = "expected a rendered export, got ".to_owned();
        if kind.is_empty() {
            message.append("no data");
        } else {
            message.append(kind);
        }
        Err(Error::protocol(message.as_str()))
    }
}

/// What the answer with the server's status means: a plain message stands under
/// the `message` key.
pub open spec fn status_meaning(r: ResponseView) -> std::result::Result<
    Map<Seq<char>, JsonTree>,
    ErrorView,
> {
    if r.kind == "Message"@ {
        Ok(
            no_members().insert(
                "message"@,
                JsonTree::Text(
                    match as_text(r.data) {
                        Some(s) => s,
                        None => Seq::empty(),
                    },
                ),
            ),
        )
    } else {
        typed::<Object>(r, "admin status"@)
    }
}

/// Reads the server's status.
pub fn status_of(response: &Response) -> (r: Result<Object>)
    ensures
        model_view(r) == status_meaning(response@),
{
    if text::same(response.kind.as_str(), "Message") {
        let message = match response.data.as_str() {
            Some(s) => s.to_owned(),
            None => String::new(),
        };
        Ok(Object::new().with("message", Json::Text(message)))
    } else {
        response.decode("admin status")
    }
}

impl Client {
    /// Assemble a context bundle from one or more read-only sources.
    ///
    /// The result is the rendered bundle: text for TOON and Markdown, JSON
    /// otherwise.
    pub fn llm_context(
        &mut self,
        sources: &[LlmSource],
        format: OutputFormat,
        options: Option<LlmOptions>,
    ) -> (r: Result<Vec<u8>>)
        requires
            old(self)@.request_counter < u64::MAX,
        ensures
            if sources@.len() == 0 {
                declines(
                    old(self)@,
                    final(self)@,
                    plain(
                        ErrorKind::InvalidArgument,
                        "a context bundle needs at least one source"@,
                    ),
                    r,
                )
            } else {
                sends(
                    old(self)@,
                    final(self)@,
                    wrapped(
                        "Llm"@,
                        wrapped(
                            "Context"@,
                            JsonTree::Object(
                                no_members().insert(
                                    "sources"@,
                                    JsonTree::Array(wire_views(sources@)),
                                ).insert("format"@, JsonTree::Text(format_name(format))).insert(
                                    "options"@,
                                    options_tree(chosen_options(options)),
                                ),
                            ),
                        ),
                    ),
                    r,
                )
            },
    {
        if sources.len() == 0 {
            return Err(Error::invalid("a context bundle needs at least one source"));
        }
        self.send(
            Json::wrap(
                "Llm",
                Json::wrap(
                    "Context",
                    Json::Object(
                        Object::new().with("sources", wire_list(sources)).with(
                            "format",
                            format.wire(),
                        ).with("options", wire_options(options)),
                    ),
                ),
            ),
        )
    }

    /// Take the answer to [`Client::llm_context`].
    pub fn llm_context_reply(&mut self, reply: Result<Frame>) -> (r: Result<String>)
        ensures
            answered(
                old(self)@,
                final(self)@,
                reply_view(reply),
                |x: ResponseView| rendered_meaning(x),
                model_view(r),
            ),
    {
        let response = self.reply(reply)?;
        self.keep(rendered(&response))
    }

    /// Export the schema catalog: SQL tables and document collections.
    pub fn llm_schema(
        &mut self,
        format: OutputFormat,
        options: Option<LlmOptions>,
    ) -> (r: Result<Vec<u8>>)
        requires
            old(self)@.request_counter < u64::MAX,
        ensures
            sends(old(self)@, final(self)@, wrapped(
                    "Llm"@,
                    wrapped(
                        "Schema"@,
                        JsonTree::Object(
                            no_members().insert("format"@, JsonTree::Text(format_name(format))).insert(
                                "options"@,
                                options_tree(chosen_options(options)),
                            ),
                        ),
                    ),
                ), r),
    {
        self.send(
            Json::wrap(
                "Llm",
                Json::wrap(
                    "Schema",
                    Json::Object(
                        Object::new().with("format", format.wire()).with(
                            "options",
                            wire_options(options),
                        ),
                    ),
                ),
            ),
        )
    }

    /// Take the answer to [`Client::llm_schema`].
    pub fn llm_schema_reply(&mut self, reply: Result<Frame>) -> (r: Result<String>)
        ensures
            answered(
                old(self)@,
                final(self)@,
                reply_view(reply),
                |x: ResponseView| rendered_meaning(x),
                model_view(r),
            ),
    {
        let response = self.reply(reply)?;
        self.keep(rendered(&response))
    }

    /// Round-trip a request through the whole pipeline. Any response is the
    /// answer.
    ///
    /// Unlike [`Client::ping`], which never reaches a module, this proves
    /// authentication, routing and dispatch work — what a readiness check
    /// actually wants. Needs the admin permission and the cluster module.
    pub fn admin_ping(&mut self) -> (r: Result<Vec<u8>>)
        requires
            old(self)@.request_counter < u64::MAX,
        ensures
            sends(old(self)@, final(self)@, wrapped("Admin"@, JsonTree::Text("Ping"@)), r),
    {
        self.send(Json::wrap("Admin", Json::text("Ping")))
    }

    /// The server's status, as the cluster core reports it.
    ///
    /// A single node without structured status answers with a plain message,
    /// which is returned under the `message` key rather than raised as an
    /// error.
    pub fn admin_status(&mut self) -> (r: Result<Vec<u8>>)
        requires
            old(self)@.request_counter < u64::MAX,
        ensures
            sends(old(self)@, final(self)@, wrapped("Admin"@, JsonTree::Text("Status"@)), r),
    {
        self.send(Json::wrap("Admin", Json::text("Status")))
    }

    /// Take the answer to [`Client::admin_status`].
    pub fn admin_status_reply(&mut self, reply: Result<Frame>) -> (r: Result<Object>)
        ensures
            answered(
                old(self)@,
                final(self)@,
                reply_view(reply),
                |x: ResponseView| status_meaning(x),
                model_view(r),
            ),
    {
        let response = self.reply(reply)?;
        self.keep(status_of(&response))
    }
}

/// A format is sent by its own name, so no two are sent alike.
pub proof fn formats_go_by_their_names(x: OutputFormat, y: OutputFormat)
    ensures
        format_name(OutputFormat::Native) == "native"@,
        format_name(OutputFormat::Json) == "json"@,
        format_name(OutputFormat::Toon) == "toon"@,
        format_name(OutputFormat::Markdown) == "markdown"@,
        x != y ==> format_name(x) != format_name(y),
{
    reveal_strlit("native");
    reveal_strlit("json");
    reveal_strlit("toon");
    reveal_strlit("markdown");
    assert("json"@[0] != "toon"@[0]);
    assert("native"@.len() == 6 && "markdown"@.len() == 8 && "json"@.len() == 4);
}

/// The options are sent with the row limit, the redaction and the schema, each under
/// its own name. Without options the usual ones stand.
pub proof fn options_are_sent_by_name(o: LlmOptions)
    ensures
        options_tree(o) == JsonTree::Object(
            map![
                "max_rows"@ => match o.max_rows {
                    Some(n) => JsonTree::Number(text::integer(n as int)),
                    None => JsonTree::Null,
                },
                "redact_sensitive"@ => JsonTree::Bool(o.redact_sensitive),
                "include_schema"@ => JsonTree::Bool(o.include_schema),
            ],
        ),
        chosen_options(Some(o)) == o,
        chosen_options(None) == default_options(),
        default_options().max_rows is None,
        default_options().redact_sensitive,
        !default_options().include_schema,
{
    assert(options_tree(o)->Object_0 =~= map![
        "max_rows"@ => match o.max_rows {
            Some(n) => JsonTree::Number(text::integer(n as int)),
            None => JsonTree::Null,
        },
        "redact_sensitive"@ => JsonTree::Bool(o.redact_sensitive),
        "include_schema"@ => JsonTree::Bool(o.include_schema),
    ]);
}

/// What is sent for a value that may be missing, and for a source.
pub proof fn a_missing_value_is_sent_as_null(t: JsonTree)
    ensures
        or_null_tree(Some(t)) == t,
        or_null_tree(None) == JsonTree::Null,
{
}

/// A source is sent as it was made.
proof fn a_source_is_sent_as_it_was_made(source: LlmSource)
    ensures
        source@ == source.0@,
{
}

/// A rendered export is the text that was sent, or the JSON that was sent, written out.
pub proof fn an_export_is_the_text_that_was_sent(r: ResponseView, s: Seq<char>)
    ensures
        (r.kind == "Toon"@ || r.kind == "Message"@) && r.data == JsonTree::Text(s)
            ==> rendered_meaning(r) == Ok::<Seq<char>, ErrorView>(s),
        (r.kind == "Toon"@ || r.kind == "Message"@) && !(r.data is Text) ==> rendered_meaning(r)
            == Ok::<Seq<char>, ErrorView>(codec::json_text(r.data)),
        r.kind == "Json"@ ==> rendered_meaning(r) == Ok::<Seq<char>, ErrorView>(
            codec::json_text(r.data),
        ),
        r.kind != "Toon"@ && r.kind != "Message"@ && r.kind != "Json"@ ==> rendered_meaning(r)
            == Err::<Seq<char>, ErrorView>(
            plain(
                ErrorKind::Protocol,
                "expected a rendered export, got "@ + (if r.kind.len() == 0 {
                    "no data"@
                } else {
                    r.kind
                }),
            ),
        ),
{
    reveal_strlit("Message");
    reveal_strlit("Toon");
    reveal_strlit("Json");
    assert("Json"@.len() != "Message"@.len());
    assert("Json"@[0] != "Toon"@[0]);
}

/// A status is the object that was sent, and a message stands as its only member.
pub proof fn a_status_is_what_was_sent(r: ResponseView, s: Seq<char>)
    ensures
        r.kind == "Message"@ && r.data == JsonTree::Text(s) ==> status_meaning(r) == Ok::<
            Map<Seq<char>, JsonTree>,
            ErrorView,
        >(map!["message"@ => JsonTree::Text(s)]),
        r.kind == "Message"@ && !(r.data is Text) ==> status_meaning(r) == Ok::<
            Map<Seq<char>, JsonTree>,
            ErrorView,
        >(map!["message"@ => JsonTree::Text(Seq::empty())]),
        r.kind == "Json"@ ==> (r.data matches JsonTree::Object(m) ==> status_meaning(r) == Ok::<
            Map<Seq<char>, JsonTree>,
            ErrorView,
        >(m)),
        r.kind == "Json"@ && !(r.data is Object) ==> status_meaning(r) is Err,
        r.kind != "Message"@ && r.kind != "Json"@ ==> status_meaning(r) is Err,
        r.kind != "Message"@ ==> (status_meaning(r) matches Err(e) ==> e == if r.kind == "Json"@ {
            crate::response::malformed("admin status"@)
        } else {
            crate::response::expected(r, "Json"@, "admin status"@)->Err_0
        }),
{
    reveal_strlit("Message");
    reveal_strlit("Json");
    assert("Json"@.len() != "Message"@.len());
    let empty = Seq::<char>::empty();
    assert(no_members().insert("message"@, JsonTree::Text(s)) =~= map![
        "message"@ => JsonTree::Text(s),
    ]);
    assert(no_members().insert("message"@, JsonTree::Text(empty)) =~= map![
        "message"@ => JsonTree::Text(empty),
    ]);
}

/// What is sent by `llm_context`.
pub proof fn llm_context_is_sent_as_it_was_asked(
    c: &mut Client,
    sources: &[LlmSource],
    format: OutputFormat,
    options: Option<LlmOptions>,
    r: Result<Vec<u8>>,
)
    ensures
        call_ensures(Client::llm_context, (c, sources, format, options), r)
            && sources@.len() == 0 ==> declines(
            old(c)@,
            final(c)@,
            plain( ErrorKind::InvalidArgument, "a context bundle needs at least one source"@, ),
            r,
        ),
        call_ensures(Client::llm_context, (c, sources, format, options), r)
            && sources@.len() > 0 ==> sends(
            old(c)@,
            final(c)@,
            JsonTree::Object(
                map![
                    "Llm"@ => JsonTree::Object(
                        map![
                            "Context"@ => JsonTree::Object(
                                map![
                                    "sources"@ => JsonTree::Array(wire_views(sources@)),
                                    "format"@ => JsonTree::Text(format_name(format)),
                                    "options"@ => options_tree(chosen_options(options)),
                                ],
                            ),
                        ],
                    ),
                ],
            ),
            r,
        ),
{
    assert(Map::<Seq<char>, JsonTree>::empty()
        .insert("sources"@, JsonTree::Array(wire_views(sources@)))
        .insert("format"@, JsonTree::Text(format_name(format)))
        .insert("options"@, options_tree(chosen_options(options))) =~= map![
        "sources"@ => JsonTree::Array(wire_views(sources@)),
        "format"@ => JsonTree::Text(format_name(format)),
        "options"@ => options_tree(chosen_options(options)),
    ]);
    crate::json::a_wrapped_value_is_the_only_member(
        "Context"@,
        JsonTree::Object(
            map![
                "sources"@ => JsonTree::Array(wire_views(sources@)),
                "format"@ => JsonTree::Text(format_name(format)),
                "options"@ => options_tree(chosen_options(options)),
            ],
        ),
        "Context"@,
    );
    crate::json::a_wrapped_value_is_the_only_member(
        "Llm"@,
        JsonTree::Object(
            map![
                "Context"@ => JsonTree::Object(
                    map![
                        "sources"@ => JsonTree::Array(wire_views(sources@)),
                        "format"@ => JsonTree::Text(format_name(format)),
                        "options"@ => options_tree(chosen_options(options)),
                    ],
                ),
            ],
        ),
        "Llm"@,
    );
}

/// What is sent by `llm_schema`.
pub proof fn llm_schema_is_sent_as_it_was_asked(
    c: &mut Client,
    format: OutputFormat,
    options: Option<LlmOptions>,
    r: Result<Vec<u8>>,
)
    ensures
        call_ensures(Client::llm_schema, (c, format, options), r) ==> sends(
            old(c)@,
            final(c)@,
            JsonTree::Object(
                map![
                    "Llm"@ => JsonTree::Object(
                        map![
                            "Schema"@ => JsonTree::Object(
                                map![
                                    "format"@ => JsonTree::Text(format_name(format)),
                                    "options"@ => options_tree(chosen_options(options)),
                                ],
                            ),
                        ],
                    ),
                ],
            ),
            r,
        ),
{
    assert(Map::<Seq<char>, JsonTree>::empty()
        .insert("format"@, JsonTree::Text(format_name(format)))
        .insert("options"@, options_tree(chosen_options(options))) =~= map![
        "format"@ => JsonTree::Text(format_name(format)),
        "options"@ => options_tree(chosen_options(options)),
    ]);
    crate::json::a_wrapped_value_is_the_only_member(
        "Schema"@,
        JsonTree::Object(
            map![
                "format"@ => JsonTree::Text(format_name(format)),
                "options"@ => options_tree(chosen_options(options)),
            ],
        ),
        "Schema"@,
    );
    crate::json::a_wrapped_value_is_the_only_member(
        "Llm"@,
        JsonTree::Object(
            map![
                "Schema"@ => JsonTree::Object(
                    map![
                        "format"@ => JsonTree::Text(format_name(format)),
                        "options"@ => options_tree(chosen_options(options)),
                    ],
                ),
            ],
        ),
        "Llm"@,
    );
}

/// What is sent by `admin_ping`, `admin_status`.
pub proof fn admin_ping_and_its_like_are_sent_as_they_were_asked(
    c: &mut Client,
    r: Result<Vec<u8>>,
)
    ensures
        call_ensures(Client::admin_ping, (c,), r) ==> sends(
            old(c)@,
            final(c)@,
            JsonTree::Object(map!["Admin"@ => JsonTree::Text("Ping"@)]),
            r,
        ),
        call_ensures(Client::admin_status, (c,), r) ==> sends(
            old(c)@,
            final(c)@,
            JsonTree::Object(map!["Admin"@ => JsonTree::Text("Status"@)]),
            r,
        ),
{
    crate::json::a_wrapped_value_is_the_only_member(
        "Admin"@,
        JsonTree::Text("Ping"@),
        "Admin"@,
    );
    crate::json::a_wrapped_value_is_the_only_member(
        "Admin"@,
        JsonTree::Text("Status"@),
        "Admin"@,
    );
}

/// What the answer is to `llm_context_reply`, `llm_schema_reply`. Without a response
/// the failure stands.
pub proof fn llm_context_and_its_like_are_answered_by_their_responses(
    c: &mut Client,
    reply: Result<Frame>,
    r: Result<String>,
)
    ensures
        call_ensures(Client::llm_context_reply, (c, reply), r)
            ==> (response_result(reply_view(reply)) matches Ok(x)
                ==> model_view(r) == rendered_meaning(x)),
        call_ensures(Client::llm_schema_reply, (c, reply), r)
            ==> (response_result(reply_view(reply)) matches Ok(x)
                ==> model_view(r) == rendered_meaning(x)),
        call_ensures(Client::llm_context_reply, (c, reply), r)
            || call_ensures(Client::llm_schema_reply, (c, reply), r)
            ==> (response_result(reply_view(reply)) matches Err(e) ==> r is Err && r->Err_0@ == e),
{
}

/// What the answer is to `admin_status_reply`. Without a response the failure stands.
pub proof fn admin_status_is_answered_by_its_response(
    c: &mut Client,
    reply: Result<Frame>,
    r: Result<Object>,
)
    ensures
        call_ensures(Client::admin_status_reply, (c, reply), r)
            ==> (response_result(reply_view(reply)) matches Ok(x)
                ==> model_view(r) == status_meaning(x)),
        call_ensures(Client::admin_status_reply, (c, reply), r)
            ==> (response_result(reply_view(reply)) matches Err(e) ==> r is Err && r->Err_0@ == e),
{
}

/// What the sources of an export are sent as.
pub proof fn sources_are_sent_by_name(
    query: &str,
    collection: &str,
    filter: &DocumentFilter,
    limit: Option<usize>,
    s: LlmSource,
)
    ensures
        call_ensures(LlmSource::sql, (query,), s) ==> s@ == JsonTree::Object(
            map!["Sql"@ => JsonTree::Object(map!["query"@ => JsonTree::Text(query@)])],
        ),
        call_ensures(LlmSource::document_find, (collection, filter, limit), s) ==> s@
            == JsonTree::Object(
            map![
                "DocumentFind"@ => JsonTree::Object(
                    map![
                        "collection"@ => JsonTree::Text(collection@),
                        "filter"@ => filter@,
                        "limit"@ => or_null_tree(positive_tree(limit)),
                    ],
                ),
            ],
        ),
{
    let asked = JsonTree::Object(map!["query"@ => JsonTree::Text(query@)]);
    let find = map![
        "collection"@ => JsonTree::Text(collection@),
        "filter"@ => filter@,
        "limit"@ => or_null_tree(positive_tree(limit)),
    ];
    assert(no_members().insert("collection"@, JsonTree::Text(collection@)).insert(
        "filter"@,
        filter@,
    ).insert("limit"@, or_null_tree(positive_tree(limit))) =~= find);
    crate::json::a_wrapped_value_is_the_only_member("query"@, JsonTree::Text(query@), "query"@);
    crate::json::a_wrapped_value_is_the_only_member("Sql"@, asked, "Sql"@);
    crate::json::a_wrapped_value_is_the_only_member(
        "DocumentFind"@,
        JsonTree::Object(find),
        "DocumentFind"@,
    );
}

/// What the options of an export become: each call sets its own and leaves the others.
pub proof fn each_export_option_is_set_alone(
    o: LlmOptions,
    rows: usize,
    yes: bool,
    p: LlmOptions,
)
    ensures
        call_ensures(LlmOptions::max_rows, (o, rows), p) ==> p.max_rows == Some(rows)
            && p.redact_sensitive == o.redact_sensitive && p.include_schema == o.include_schema,
        call_ensures(LlmOptions::redact_sensitive, (o, yes), p) ==> p.redact_sensitive == yes
            && p.max_rows == o.max_rows && p.include_schema == o.include_schema,
        call_ensures(LlmOptions::include_schema, (o, yes), p) ==> p.include_schema == yes
            && p.max_rows == o.max_rows && p.redact_sensitive == o.redact_sensitive,
{
}

/// What a format tells and sends: its name.
pub proof fn a_format_is_told_and_sent_by_name(x: OutputFormat, s: &'static str, j: Json)
    ensures
        call_ensures(OutputFormat::name, (x,), s) ==> s@ == format_name(x),
        call_ensures(OutputFormat::wire, (x,), j) ==> j@ == JsonTree::Text(format_name(x)),
{
}

} // verus!
