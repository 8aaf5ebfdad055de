//! What the server answered, and how it produced it.

use crate::body;
use crate::body::{Body, Part};
#[allow(unused_imports)]
use crate::body::PartView;
use crate::codec;
use crate::decode;
use crate::decode::{Decode, WRONG_SHAPE};
use crate::error::{Error, ErrorKind, Result};
#[allow(unused_imports)]
use crate::error::{plain, ErrorView};
use crate::json::{Json, JsonTree};
#[allow(unused_imports)]
use crate::json::{as_signed, as_text, first_name};
use crate::text;
use vstd::prelude::*;

verus! {

/// A decoded `RESPONSE` frame.
///
/// [`Response::data`] is the payload of whichever variant the operation
/// produced, and [`Response::kind`] names that variant — `"Json"`,
/// `"CacheValue"`, `"Rows"`, `"Documents"`, `"Message"`, `"Toon"` or
/// `"Empty"`. The typed readers decode this for you; it is public so an
/// operation this crate has no method for is still reachable through
/// [`crate::Client::request`].
#[derive(Debug, PartialEq)]
pub struct Response {
    /// The `request_id` the server echoed back.
    pub request_id: String,
    /// The server's status. `"ok"` on success; any other value is reported as
    /// an error rather than returned.
    pub status: String,
    /// The name of the data variant, or an empty string when there was no data.
    pub kind: String,
    /// That variant's payload, still as JSON.
    pub data: Json,
    /// Which route served the request.
    pub route: Option<String>,
    /// How long the server took.
    pub elapsed_ms: Option<i64>,
    /// Non-fatal warnings. Not decorative: a broadcast DDL that could not reach
    /// every shard reports it here while the status is still `"ok"`.
    pub warnings: Vec<String>,
    /// The server's machine-readable failure code, when it failed.
    pub error_code: Option<String>,
    /// On a `not_leader` refusal, the leader's `host:port` when the cluster
    /// knows one.
    pub leader_hint: Option<String>,
}

/// What a [`Response`] holds.
#[verifier::ext_equal]
pub struct ResponseView {
    pub request_id: Seq<char>,
    pub status: Seq<char>,
    pub kind: Seq<char>,
    pub data: JsonTree,
    pub route: Option<Seq<char>>,
    pub elapsed_ms: Option<i64>,
    pub warnings: Seq<Seq<char>>,
    pub error_code: Option<Seq<char>>,
    pub leader_hint: Option<Seq<char>>,
}

impl View for Response {
    type V = ResponseView;

    open spec fn view(&self) -> ResponseView {
        ResponseView {
            request_id: self.request_id@,
            status: self.status@,
            kind: self.kind@,
            data: self.data@,
            route: self.route.model(),
            elapsed_ms: self.elapsed_ms,
            warnings: self.warnings.model(),
            error_code: self.error_code.model(),
            leader_hint: self.leader_hint.model(),
        }
    }
}

/// How a response is named in an error: by its variant.
pub open spec fn described(kind: Seq<char>) -> Seq<char> {
    if kind.len() == 0 {
        "no data"@
    } else {
        kind
    }
}

/// The payload of a response, when the variant is the expected one.
pub open spec fn expected(r: ResponseView, kind: Seq<char>, what: Seq<char>) -> std::result::Result<
    JsonTree,
    ErrorView,
> {
    if r.kind == kind {
        Ok(r.data)
    } else {
        Err(
            plain(
                ErrorKind::Protocol,
                "expected "@ + kind + " from "@ + what + ", got "@ + described(r.kind),
            ),
        )
    }
}

/// The refusal of a payload that does not have the expected form.
pub open spec fn malformed(what: Seq<char>) -> ErrorView {
    plain(ErrorKind::Protocol, "malformed "@ + what + " payload: "@ + WRONG_SHAPE@)
}

/// The typed payload of a `Json` response.
pub open spec fn typed<T: Decode>(r: ResponseView, what: Seq<char>) -> std::result::Result<
    T::V,
    ErrorView,
> {
    match expected(r, "Json"@, what) {
        Err(e) => Err(e),
        Ok(data) => match T::decoded(data) {
            Some(x) => Ok(x),
            None => Err(malformed(what)),
        },
    }
}

/// The typed payload of a `Json` response that is a record of one field, with
/// the value to take when the field is absent.
pub open spec fn typed_single<T: Decode>(
    r: ResponseView,
    what: Seq<char>,
    name: Seq<char>,
    default: T::V,
) -> std::result::Result<T::V, ErrorView> {
    match expected(r, "Json"@, what) {
        Err(e) => Err(e),
        Ok(data) => match decode::single_of::<T>(data, name, default) {
            Some(x) => Ok(x),
            None => Err(malformed(what)),
        },
    }
}

/// The message to report when the status was not `ok`.
pub open spec fn failure_text(r: ResponseView) -> Seq<char> {
    if r.kind == "Message"@ || r.kind == "Toon"@ {
        match as_text(r.data) {
            Some(s) => if s.len() > 0 {
                s
            } else {
                codec::json_text(r.data)
            },
            None => codec::json_text(r.data),
        }
    } else if r.kind == "Json"@ {
        codec::json_text(r.data)
    } else if r.status.len() > 0 {
        "the server answered `"@ + r.status + "`"@
    } else {
        "the request failed"@
    }
}

impl Response {
    /// The payload, when the variant is the expected one.
    pub fn expect(&self, kind: &str, what: &str) -> (r: Result<&Json>)
        ensures
            match r {
                Ok(j) => expected(self@, kind@, what@) == Ok::<JsonTree, ErrorView>(j@),
                Err(e) => expected(self@, kind@, what@) == Err::<JsonTree, ErrorView>(e@),
            },
    {
        if text::same(self.kind.as_str(), kind) {
            Ok(&self.data)
        } else {
            let mut message = "expected ".to_owned();
            message.append(kind);
            message.append(" from ");
            message.append(what);
            message.append(", got ");
            message.append(self.describe());
            Err(Error::protocol(message.as_str()))
        }
    }

    /// Decode a `Json` payload, which is what most operations answer with.
    pub fn decode<T: Decode>(&self, what: &str) -> (r: Result<T>)
        ensures
            match r {
                Ok(x) => typed::<T>(self@, what@) == Ok::<T::V, ErrorView>(x.model()),
                Err(e) => typed::<T>(self@, what@) == Err::<T::V, ErrorView>(e@),
            },
    {
        match self.expect("Json", what) {
            Ok(data) => read_payload(data, what),
            Err(e) => Err(e),
        }
    }

    /// Decode a `Json` payload that is a record of one field, with a value to
    /// take when the field is absent.
    pub fn decode_single<T: Decode>(&self, what: &str, name: &str, default: T) -> (r: Result<T>)
        ensures
            match r {
                Ok(x) => typed_single::<T>(self@, what@, name@, default.model()) == Ok::<
                    T::V,
                    ErrorView,
                >(x.model()),
                Err(e) => typed_single::<T>(self@, what@, name@, default.model()) == Err::<
                    T::V,
                    ErrorView,
                >(e@),
            },
    {
        match self.expect("Json", what) {
            Ok(data) => match decode::single(data, name, default) {
                Some(x) => Ok(x),
                None => Err(malformed_payload(what)),
            },
            Err(e) => Err(e),
        }
    }

    /// The error for a payload that could not be read as the type a caller
    /// asked for; `detail` says why.
    pub fn unexpected_payload(&self, detail: &str) -> (e: Error)
        ensures
            e@ == plain(
                ErrorKind::Protocol,
                "unexpected "@ + described(self@.kind) + " payload: "@ + detail@,
            ),
    {
        let mut message = "unexpected ".to_owned();
        message.append(self.describe());
        message.append(" payload: ");
        message.append(detail);
        Error::protocol(message.as_str())
    }

    fn describe(&self) -> (s: &str)
        ensures
            s@ == described(self@.kind),
    {
        if self.kind.as_str().unicode_len() == 0 {
            "no data"
        } else {
            self.kind.as_str()
        }
    }

    /// The message to report when the status was not `ok`.
    pub fn failure_message(&self) -> (s: String)
        ensures
            s@ == failure_text(self@),
    {
        let kind = self.kind.as_str();
        if text::same(kind, "Message") || text::same(kind, "Toon") {
            match self.data.as_str() {
                Some(text) => {
                    if text.unicode_len() > 0 {
                        return text.to_owned();
                    }
                },
                None => {},
            }
            codec::render(&self.data)
        } else if text::same(kind, "Json") {
            codec::render(&self.data)
        } else if self.status.as_str().unicode_len() > 0 {
            text::join3("the server answered `", self.status.as_str(), "`")
        } else {
            "the request failed".to_owned()
        }
    }
}

/// Reads a typed payload.
pub fn read_payload<T: Decode>(data: &Json, what: &str) -> (r: Result<T>)
    ensures
        match r {
            Ok(x) => T::decoded(data@) == Some(x.model()),
            Err(e) => T::decoded(data@) is None && e@ == malformed(what@),
        },
{
    match T::decode(data) {
        Some(x) => Ok(x),
        None => Err(malformed_payload(what)),
    }
}

fn malformed_payload(what: &str) -> (e: Error)
    ensures
        e@ == malformed(what@),
{
    let mut message = "malformed ".to_owned();
    message.append(what);
    message.append(" payload: ");
    message.append(WRONG_SHAPE);
    Error::protocol(message.as_str())
}

/// The name and the payload of an externally tagged value.
pub open spec fn variant_of(t: JsonTree) -> (Seq<char>, JsonTree) {
    match t {
        JsonTree::Null => (Seq::empty(), JsonTree::Null),
        JsonTree::Text(name) => (name, JsonTree::Null),
        JsonTree::Object(m) => if m == Map::<Seq<char>, JsonTree>::empty() {
            (Seq::empty(), JsonTree::Null)
        } else {
            (first_name(m), m[first_name(m)])
        },
        other => (Seq::empty(), other),
    }
}

/// A value tagged with its variant's name comes apart into that name and the
/// payload.
pub proof fn a_tagged_value_comes_apart(name: Seq<char>, payload: JsonTree)
    ensures
        variant_of(crate::json::wrapped(name, payload)) == (name, payload),
        variant_of(JsonTree::Text(name)) == (name, JsonTree::Null),
{
    let m = Map::<Seq<char>, JsonTree>::empty().insert(name, payload);
    assert(crate::json::is_first(m, name));
    crate::json::first_name_is_unique(m, name);
    assert(m.dom().contains(name));
}

/// Unwrap an externally tagged `data` field — `{"Variant": payload}`, or the
/// bare string `"Empty"` — into the variant's name and its payload.
pub fn decode_variant(data: Json) -> (r: (String, Json))
    ensures
        (r.0@, r.1@) == variant_of(data@),
{
    match data {
        Json::Null => (String::new(), Json::Null),
        // The unit variants ("Empty") arrive as a bare string.
        Json::Text(name) => (name, Json::Null),
        Json::Object(o) => match o.take_first() {
            Some(e) => e,
            None => (String::new(), Json::Null),
        },
        other => (String::new(), other),
    }
}

/// A number of milliseconds in the text of a response.
pub struct Millis(pub i64);

impl Decode for Millis {
    type V = i64;

    /// An integer. `-0` is none: a negative zero is read as a float.
    open spec fn decoded(t: JsonTree) -> Option<i64> {
        if t == JsonTree::Number("-0"@) {
            None
        } else {
            as_signed(t)
        }
    }

    open spec fn model(&self) -> i64 {
        self.0
    }

    fn decode(j: &Json) -> (r: Option<Millis>) {
        match j {
            Json::Number(n) => {
                if text::same(n.as_str(), "-0") {
                    return None;
                }
                match n.as_i64() {
                    Some(ms) => Some(Millis(ms)),
                    None => None,
                }
            },
            _ => None,
        }
    }
}

/// How the server served a request.
pub struct Diagnostics {
    pub route: Option<String>,
    pub elapsed_ms: Option<i64>,
    pub warnings: Vec<String>,
    pub error_code: Option<String>,
    pub leader_hint: Option<String>,
}

/// What [`Diagnostics`] holds.
#[verifier::ext_equal]
pub struct DiagnosticsView {
    pub route: Option<Seq<char>>,
    pub elapsed_ms: Option<i64>,
    pub warnings: Seq<Seq<char>>,
    pub error_code: Option<Seq<char>>,
    pub leader_hint: Option<Seq<char>>,
}

/// Nothing is known of how the request was served.
pub open spec fn no_diagnostics() -> DiagnosticsView {
    DiagnosticsView {
        route: None,
        elapsed_ms: None,
        warnings: Seq::empty(),
        error_code: None,
        leader_hint: None,
    }
}

impl Decode for Diagnostics {
    type V = DiagnosticsView;

    open spec fn decoded(t: JsonTree) -> Option<DiagnosticsView> {
        let route = decode::or_absent::<Option<String>>(t, 0, "route"@, None);
        let elapsed_ms = decode::or_absent::<Option<Millis>>(t, 1, "elapsed_ms"@, None);
        let warnings = decode::or_absent::<Vec<String>>(t, 2, "warnings"@, Seq::empty());
        let error_code = decode::or_absent::<Option<String>>(t, 3, "error_code"@, None);
        let leader_hint = decode::or_absent::<Option<String>>(t, 4, "leader_hint"@, None);
        if decode::is_record(t, 5) && route is Some && elapsed_ms is Some && warnings is Some
            && error_code is Some && leader_hint is Some {
            Some(
                DiagnosticsView {
                    route: route->0,
                    elapsed_ms: elapsed_ms->0,
                    warnings: warnings->0,
                    error_code: error_code->0,
                    leader_hint: leader_hint->0,
                },
            )
        } else {
            None
        }
    }

    open spec fn model(&self) -> DiagnosticsView {
        DiagnosticsView {
            route: self.route.model(),
            elapsed_ms: self.elapsed_ms.model(),
            warnings: self.warnings.model(),
            error_code: self.error_code.model(),
            leader_hint: self.leader_hint.model(),
        }
    }

    fn decode(j: &Json) -> (r: Option<Diagnostics>) {
        if !decode::check_record(j, 5) {
            return None;
        }
        let none: Vec<String> = Vec::new();
        assert(none.model() =~= Seq::<Seq<char>>::empty());
        let route = decode::take_or::<Option<String>>(j, 0, "route", None)?;
        let elapsed_ms = match decode::take_or::<Option<Millis>>(j, 1, "elapsed_ms", None)? {
            Some(ms) => Some(ms.0),
            None => None,
        };
        let warnings = decode::take_or::<Vec<String>>(j, 2, "warnings", none)?;
        let error_code = decode::take_or::<Option<String>>(j, 3, "error_code", None)?;
        let leader_hint = decode::take_or::<Option<String>>(j, 4, "leader_hint", None)?;
        Some(Diagnostics { route, elapsed_ms, warnings, error_code, leader_hint })
    }
}

/// The envelope of a response.
pub struct WireResponse {
    pub request_id: String,
    pub status: String,
    pub data: Json,
    pub diagnostics: Option<Diagnostics>,
}

/// What a [`WireResponse`] holds.
#[verifier::ext_equal]
pub struct WireResponseView {
    pub request_id: Seq<char>,
    pub status: Seq<char>,
    pub data: JsonTree,
    pub diagnostics: Option<DiagnosticsView>,
}

impl Decode for WireResponse {
    type V = WireResponseView;

    open spec fn decoded(t: JsonTree) -> Option<WireResponseView> {
        let request_id = decode::or_absent::<String>(t, 0, "request_id"@, Seq::empty());
        let status = decode::or_absent::<String>(t, 1, "status"@, Seq::empty());
        let data = decode::or_absent::<Json>(t, 2, "data"@, JsonTree::Null);
        let diagnostics = decode::or_absent::<Option<Diagnostics>>(t, 3, "diagnostics"@, None);
        if decode::is_record(t, 4) && request_id is Some && status is Some && data is Some
            && diagnostics is Some {
            Some(
                WireResponseView {
                    request_id: request_id->0,
                    status: status->0,
                    data: data->0,
                    diagnostics: diagnostics->0,
                },
            )
        } else {
            None
        }
    }

    open spec fn model(&self) -> WireResponseView {
        WireResponseView {
            request_id: self.request_id.model(),
            status: self.status.model(),
            data: self.data.model(),
            diagnostics: self.diagnostics.model(),
        }
    }

    fn decode(j: &Json) -> (r: Option<WireResponse>) {
        if !decode::check_record(j, 4) {
            return None;
        }
        let request_id = decode::take_or::<String>(j, 0, "request_id", String::new())?;
        let status = decode::take_or::<String>(j, 1, "status", String::new())?;
        let data = decode::take_or::<Json>(j, 2, "data", Json::Null)?;
        let diagnostics = decode::take_or::<Option<Diagnostics>>(j, 3, "diagnostics", None)?;
        Some(WireResponse { request_id, status, data, diagnostics })
    }
}

/// The fields of a response.
pub open spec fn response_fields() -> Seq<Seq<char>> {
    seq!["request_id"@, "status"@, "data"@, "diagnostics"@]
}

/// The fields of the diagnostics in a response.
pub open spec fn diagnostics_fields() -> Seq<Seq<char>> {
    seq!["route"@, "elapsed_ms"@, "warnings"@, "error_code"@, "leader_hint"@]
}

/// Where the diagnostics stand in a response that is written as an array.
pub const DIAGNOSTICS_AT: usize = 3;

/// Whether a part of a response is its diagnostics.
pub open spec fn is_diagnostics(parts: Seq<PartView>, i: int, named: bool) -> bool {
    if named {
        parts[i].name == "diagnostics"@
    } else {
        i == DIAGNOSTICS_AT
    }
}

/// Whether the diagnostics among these parts name a field twice.
pub open spec fn diagnostics_repeat(parts: Seq<PartView>, named: bool) -> bool {
    exists|i: int|
        0 <= i < parts.len() && is_diagnostics(parts, i, named) && body::named_twice(
            (#[trigger] parts[i]).value,
            diagnostics_fields(),
        )
}

/// The parts of a response, its diagnostics without what is no field of them.
pub open spec fn slim_parts(parts: Seq<PartView>, named: bool) -> Seq<PartView> {
    Seq::new(
        parts.len(),
        |i: int|
            if is_diagnostics(parts, i, named) {
                PartView { value: body::slim(parts[i].value, diagnostics_fields()), ..parts[i] }
            } else {
                parts[i]
            },
    )
}

fn at_diagnostics(parts: &Vec<Part>, i: usize, named: bool) -> (b: bool)
    requires
        i < parts@.len(),
    ensures
        b == is_diagnostics(body::part_views(parts@), i as int, named),
{
    assert(body::part_views(parts@)[i as int] == parts@[i as int]@);
    if named {
        text::same(parts[i].name.as_str(), "diagnostics")
    } else {
        i == DIAGNOSTICS_AT
    }
}

fn check_diagnostics(parts: &Vec<Part>, named: bool) -> (b: bool)
    ensures
        b == diagnostics_repeat(body::part_views(parts@), named),
{
    let ghost all = body::part_views(parts@);
    let inner = vec!["route", "elapsed_ms", "warnings", "error_code", "leader_hint"];
    assert(body::name_views(inner@) =~= diagnostics_fields());
    let mut i: usize = 0;
    while i < parts.len()
        invariant
            i <= parts@.len(),
            all == body::part_views(parts@),
            body::name_views(inner@) == diagnostics_fields(),
            forall|k: int|
                0 <= k < i ==> !(is_diagnostics(all, k, named) && body::named_twice(
                    (#[trigger] all[k]).value,
                    diagnostics_fields(),
                )),
        decreases parts@.len() - i,
    {
        assert(all[i as int] == parts@[i as int]@);
        if at_diagnostics(parts, i, named) && body::names_twice(
            parts[i].value.as_slice(),
            inner.as_slice(),
        ) {
            return true;
        }
        i = i + 1;
    }
    false
}

fn reduce_diagnostics(parts: &Vec<Part>, named: bool) -> (r: Vec<Part>)
    ensures
        body::part_views(r@) == slim_parts(body::part_views(parts@), named),
{
    let ghost all = body::part_views(parts@);
    let inner = vec!["route", "elapsed_ms", "warnings", "error_code", "leader_hint"];
    assert(body::name_views(inner@) =~= diagnostics_fields());
    let mut out: Vec<Part> = Vec::new();
    let mut i: usize = 0;
    while i < parts.len()
        invariant
            i <= parts@.len(),
            all == body::part_views(parts@),
            body::name_views(inner@) == diagnostics_fields(),
            out@.len() == i,
            forall|k: int| 0 <= k < i ==> (#[trigger] out@[k])@ == slim_parts(all, named)[k],
        decreases parts@.len() - i,
    {
        assert(all[i as int] == parts@[i as int]@);
        let mut part = parts[i].clone();
        if at_diagnostics(parts, i, named) {
            part.value = body::slimmed(parts[i].value.as_slice(), inner.as_slice());
        }
        assert(part@ =~= slim_parts(all, named)[i as int]);
        out.push(part);
        i = i + 1;
    }
    assert(body::part_views(out@) =~= slim_parts(all, named));
    out
}

impl Body for WireResponse {
    open spec fn repeats(bytes: Seq<u8>) -> bool {
        ||| body::named_twice(bytes, response_fields())
        ||| body::parts_of(bytes, true) matches Some(parts) && diagnostics_repeat(parts, true)
        ||| body::parts_of(bytes, false) matches Some(parts) && diagnostics_repeat(parts, false)
    }

    open spec fn essence(bytes: Seq<u8>) -> Seq<u8> {
        match body::parts_of(bytes, true) {
            Some(parts) => body::record_text(
                slim_parts(body::kept(parts, response_fields()), true),
                true,
            ),
            None => match body::parts_of(bytes, false) {
                Some(parts) => body::record_text(slim_parts(parts, false), false),
                None => bytes,
            },
        }
    }

    fn check(bytes: &[u8]) -> (b: bool) {
        let names = vec!["request_id", "status", "data", "diagnostics"];
        assert(body::name_views(names@) =~= response_fields());
        if body::names_twice(bytes, names.as_slice()) {
            return true;
        }
        match body::parts(bytes, true) {
            Some(parts) => if check_diagnostics(&parts, true) {
                return true;
            },
            None => {},
        }
        match body::parts(bytes, false) {
            Some(parts) => check_diagnostics(&parts, false),
            None => false,
        }
    }

    fn reduce(bytes: &[u8]) -> (r: Vec<u8>) {
        let names = vec!["request_id", "status", "data", "diagnostics"];
        assert(body::name_views(names@) =~= response_fields());
        match body::parts(bytes, true) {
            Some(parts) => {
                let fields = body::keep_named(&parts, names.as_slice());
                body::write_record(&reduce_diagnostics(&fields, true), true)
            },
            None => match body::parts(bytes, false) {
                Some(parts) => body::write_record(&reduce_diagnostics(&parts, false), false),
                None => vstd::slice::slice_to_vec(bytes),
            },
        }
    }
}

/// The response that an envelope carries.
pub open spec fn assembled(w: WireResponseView) -> ResponseView {
    let d = match w.diagnostics {
        Some(d) => d,
        None => no_diagnostics(),
    };
    ResponseView {
        request_id: w.request_id,
        status: w.status,
        kind: variant_of(w.data).0,
        data: variant_of(w.data).1,
        route: d.route,
        elapsed_ms: d.elapsed_ms,
        warnings: d.warnings,
        error_code: d.error_code,
        leader_hint: d.leader_hint,
    }
}

/// What a caller learns of a response: the response itself when its status is
/// `ok`, and the server's refusal in every other case.
pub open spec fn outcome(r: ResponseView) -> std::result::Result<ResponseView, ErrorView> {
    if r.status == "ok"@ {
        Ok(r)
    } else {
        Err(
            ErrorView {
                kind: ErrorKind::Server,
                code: r.error_code,
                message: failure_text(r),
                leader_hint: r.leader_hint,
            },
        )
    }
}

/// No status but `ok` ever reaches a caller as a success, whatever it is called:
/// a status that this client does not know fails closed.
pub proof fn only_ok_succeeds(w: WireResponseView)
    ensures
        outcome(assembled(w)) is Ok <==> w.status == "ok"@,
        outcome(assembled(w)) matches Err(e) ==> e.kind == ErrorKind::Server && !crate::error::is_fatal(
            e.kind,
        ),
{
}

/// A refusal reaches the caller with the server's own code and leader address,
/// and it is a redirect exactly when that code says so.
pub proof fn a_refusal_keeps_its_code_and_hint(w: WireResponseView)
    requires
        w.status != "ok"@,
    ensures
        outcome(assembled(w)) matches Err(e) && e.code == (match w.diagnostics {
            Some(d) => d.error_code,
            None => None,
        }) && e.leader_hint == (match w.diagnostics {
            Some(d) => d.leader_hint,
            None => None,
        }) && crate::error::redirects(e) == (w.diagnostics matches Some(d) && d.error_code == Some(
            crate::error::NOT_LEADER@,
        )),
{
}

/// The response that an envelope carries, or the server's refusal.
pub fn settle(wire: WireResponse) -> (r: Result<Response>)
    ensures
        match r {
            Ok(x) => outcome(assembled(wire.model())) == Ok::<ResponseView, ErrorView>(x@),
            Err(e) => outcome(assembled(wire.model())) == Err::<ResponseView, ErrorView>(e@),
        },
{
    let ghost model = wire.model();
    let diagnostics = match wire.diagnostics {
        Some(d) => d,
        None => {
            let d = Diagnostics {
                route: None,
                elapsed_ms: None,
                warnings: Vec::new(),
                error_code: None,
                leader_hint: None,
            };
            assert(d.model() =~= no_diagnostics());
            d
        },
    };
    let (kind, data) = decode_variant(wire.data);
    let response = Response {
        request_id: wire.request_id,
        status: wire.status,
        kind,
        data,
        route: diagnostics.route,
        elapsed_ms: diagnostics.elapsed_ms,
        warnings: diagnostics.warnings,
        error_code: diagnostics.error_code,
        leader_hint: diagnostics.leader_hint,
    };
    assert(response@ == assembled(model));
    // Anything but `ok` means the operation did not happen, and must not
    // reach a caller wearing a success's clothes. Compared against `ok`
    // rather than a list of failures, so a status added later fails closed.
    if !text::same(response.status.as_str(), "ok") {
        let message = response.failure_message();
        let error = Error {
            kind: ErrorKind::Server,
            code: response.error_code,
            message,
            leader_hint: response.leader_hint,
        };
        return Err(error);
    }
    Ok(response)
}

/// The typed body of a frame, from what its payload was parsed into.
pub open spec fn body_of<T: Decode>(
    parsed: std::result::Result<JsonTree, Seq<char>>,
    what: Seq<char>,
) -> std::result::Result<T::V, ErrorView> {
    match parsed {
        Err(complaint) => Err(
            plain(ErrorKind::Protocol, "malformed "@ + what + " body: "@ + complaint),
        ),
        Ok(t) => match T::decoded(t) {
            Some(x) => Ok(x),
            None => Err(
                plain(ErrorKind::Protocol, "malformed "@ + what + " body: "@ + WRONG_SHAPE@),
            ),
        },
    }
}

/// What parsing gave, as the views of it.
pub open spec fn parse_view(
    parsed: std::result::Result<Json, String>,
) -> std::result::Result<JsonTree, Seq<char>> {
    match parsed {
        Ok(j) => Ok(j@),
        Err(e) => Err(e@),
    }
}

fn malformed_body(what: &str, detail: &str) -> (e: Error)
    ensures
        e@ == plain(ErrorKind::Protocol, "malformed "@ + what@ + " body: "@ + detail@),
{
    let mut message = "malformed ".to_owned();
    message.append(what);
    message.append(" body: ");
    message.append(detail);
    Error::protocol(message.as_str())
}

/// Reads the typed body of a frame from what its payload was parsed into.
pub fn read_body<T: Decode>(parsed: std::result::Result<Json, String>, what: &str) -> (r: Result<T>)
    ensures
        match r {
            Ok(x) => body_of::<T>(parse_view(parsed), what@) == Ok::<T::V, ErrorView>(x.model()),
            Err(e) => body_of::<T>(parse_view(parsed), what@) == Err::<T::V, ErrorView>(e@),
        },
{
    match parsed {
        Ok(j) => match T::decode(&j) {
            Some(x) => Ok(x),
            None => Err(malformed_body(what, WRONG_SHAPE)),
        },
        Err(complaint) => Err(malformed_body(what, complaint.as_str())),
    }
}

/// Reads the typed body of a frame from its payload.
pub fn parse_body<T: Body>(payload: &[u8], what: &str) -> (r: Result<T>)
    ensures
        match r {
            Ok(x) => body_of::<T>(body::strict::<T>(payload@), what@) == Ok::<T::V, ErrorView>(
                x.model(),
            ),
            Err(e) => body_of::<T>(body::strict::<T>(payload@), what@) == Err::<T::V, ErrorView>(e@),
        },
{
    read_body(body::parse_strictly::<T>(payload), what)
}

impl Clone for Response {
    fn clone(&self) -> (r: Response)
        ensures
            r@ == self@,
    {
        let warnings = self.warnings.clone();
        assert(warnings.model() =~= self.warnings.model());
        Response {
            request_id: self.request_id.clone(),
            status: self.status.clone(),
            kind: self.kind.clone(),
            data: self.data.clone(),
            route: self.route.clone(),
            elapsed_ms: self.elapsed_ms,
            warnings,
            error_code: self.error_code.clone(),
            leader_hint: self.leader_hint.clone(),
        }
    }
}

/// A diagnostics record holds what was sent under the name of each field, lists whole and
/// in order.
pub proof fn diagnostics_reads_back(m: Map<Seq<char>, JsonTree>, x: Diagnostics)
    requires
        m.dom().contains("route"@),
        m["route"@] == (match x.route {
            Some(y) => JsonTree::Text(y@),
            None => JsonTree::Null,
        }),
        m.dom().contains("elapsed_ms"@),
        m["elapsed_ms"@]
            == (match x.elapsed_ms {
                Some(y) => JsonTree::Number(crate::text::integer(y as int)),
                None => JsonTree::Null,
            }),
        m.dom().contains("warnings"@),
        m["warnings"@]
            == JsonTree::Array(
                Seq::new(x.warnings@.len(), |i: int| JsonTree::Text(x.warnings@[i]@)),
            ),
        m.dom().contains("error_code"@),
        m["error_code"@]
            == (match x.error_code {
                Some(y) => JsonTree::Text(y@),
                None => JsonTree::Null,
            }),
        m.dom().contains("leader_hint"@),
        m["leader_hint"@]
            == (match x.leader_hint {
                Some(y) => JsonTree::Text(y@),
                None => JsonTree::Null,
            }),
    ensures
        Diagnostics::decoded(JsonTree::Object(m)) == Some(x.model()),
        x.model() == (DiagnosticsView {
            route: (match x.route {
                Some(y) => Some(y@),
                None => None,
            }),
            elapsed_ms: x.elapsed_ms,
            warnings: Seq::new(x.warnings@.len(), |i: int| x.warnings@[i]@),
            error_code: (match x.error_code {
                Some(y) => Some(y@),
                None => None,
            }),
            leader_hint: (match x.leader_hint {
                Some(y) => Some(y@),
                None => None,
            }),
        }),
{
    if let Some(y) = x.elapsed_ms {
        crate::text::decimal_reads_back(y as int);
        reveal_strlit("-0");
    }
    decode::texts_read_back(x.warnings);
    assert(x.model() =~= (DiagnosticsView {
        route: (match x.route {
            Some(y) => Some(y@),
            None => None,
        }),
        elapsed_ms: x.elapsed_ms,
        warnings: Seq::new(x.warnings@.len(), |i: int| x.warnings@[i]@),
        error_code: (match x.error_code {
            Some(y) => Some(y@),
            None => None,
        }),
        leader_hint: (match x.leader_hint {
            Some(y) => Some(y@),
            None => None,
        }),
    }));
}

/// A diagnostics record takes each field from the member of that name alone. A field that was
/// not sent has its default, and one of another kind refuses the whole.
pub proof fn diagnostics_takes_each_field_by_its_name(m: Map<Seq<char>, JsonTree>)
    ensures
        Diagnostics::decoded(JsonTree::Object(m)) matches Some(v) ==> {
            &&& if m.dom().contains("route"@) {
                Option::<String>::decoded(m["route"@]) == Some(v.route)
            } else {
                v.route is None
            }
            &&& if m.dom().contains("elapsed_ms"@) {
                Option::<Millis>::decoded(m["elapsed_ms"@]) == Some(v.elapsed_ms)
            } else {
                v.elapsed_ms is None
            }
            &&& if m.dom().contains("warnings"@) {
                Vec::<String>::decoded(m["warnings"@]) == Some(v.warnings)
            } else {
                v.warnings.len() == 0
            }
            &&& if m.dom().contains("error_code"@) {
                Option::<String>::decoded(m["error_code"@]) == Some(v.error_code)
            } else {
                v.error_code is None
            }
            &&& if m.dom().contains("leader_hint"@) {
                Option::<String>::decoded(m["leader_hint"@]) == Some(v.leader_hint)
            } else {
                v.leader_hint is None
            }
        },
        Diagnostics::decoded(JsonTree::Object(m)) is Some <==> {
            &&& m.dom().contains("route"@) ==> Option::<String>::decoded(m["route"@]) is Some
            &&& m.dom().contains("elapsed_ms"@)
                ==> Option::<Millis>::decoded(m["elapsed_ms"@]) is Some
            &&& m.dom().contains("warnings"@) ==> Vec::<String>::decoded(m["warnings"@]) is Some
            &&& m.dom().contains("error_code"@)
                ==> Option::<String>::decoded(m["error_code"@]) is Some
            &&& m.dom().contains("leader_hint"@)
                ==> Option::<String>::decoded(m["leader_hint"@]) is Some
        },
{
}

/// A diagnostics record written as a list reads as the object that names each item by its place.
/// Too long a list is refused, and so is any other kind of value.
pub proof fn diagnostics_takes_each_item_in_its_place(
    items: Seq<JsonTree>,
    m: Map<Seq<char>, JsonTree>,
    t: JsonTree,
)
    requires
        m.dom().contains("route"@) <==> 0 < items.len(),
        0 < items.len() ==> m["route"@] == items[0],
        m.dom().contains("elapsed_ms"@) <==> 1 < items.len(),
        1 < items.len() ==> m["elapsed_ms"@] == items[1],
        m.dom().contains("warnings"@) <==> 2 < items.len(),
        2 < items.len() ==> m["warnings"@] == items[2],
        m.dom().contains("error_code"@) <==> 3 < items.len(),
        3 < items.len() ==> m["error_code"@] == items[3],
        m.dom().contains("leader_hint"@) <==> 4 < items.len(),
        4 < items.len() ==> m["leader_hint"@] == items[4],
    ensures
        items.len() <= 5 ==> Diagnostics::decoded(JsonTree::Array(items))
            == Diagnostics::decoded(JsonTree::Object(m)),
        items.len() > 5 ==> Diagnostics::decoded(JsonTree::Array(items)) is None,
        !(t is Object) && !(t is Array) ==> Diagnostics::decoded(t) is None,
{
}

/// A response holds what was sent under the name of each field, lists whole and
/// in order.
pub proof fn wire_response_reads_back(m: Map<Seq<char>, JsonTree>, x: WireResponse)
    requires
        m.dom().contains("request_id"@),
        m["request_id"@] == JsonTree::Text(x.request_id@),
        m.dom().contains("status"@),
        m["status"@] == JsonTree::Text(x.status@),
        m.dom().contains("data"@),
        m["data"@] == x.data@,
        m.dom().contains("diagnostics"@),
        x.diagnostics is None ==> m["diagnostics"@] is Null,
        x.diagnostics matches Some(y)
            ==> !(m["diagnostics"@] is Null) && Diagnostics::decoded(m["diagnostics"@])
                == Some(y.model()),
    ensures
        WireResponse::decoded(JsonTree::Object(m)) == Some(x.model()),
        x.model() == (WireResponseView {
            request_id: x.request_id@,
            status: x.status@,
            data: x.data@,
            diagnostics: (match x.diagnostics {
                Some(y) => Some(y.model()),
                None => None,
            }),
        }),
{
    assert(x.model() =~= (WireResponseView {
        request_id: x.request_id@,
        status: x.status@,
        data: x.data@,
        diagnostics: (match x.diagnostics {
            Some(y) => Some(y.model()),
            None => None,
        }),
    }));
}

/// A response takes each field from the member of that name alone. A field that was
/// not sent has its default, and one of another kind refuses the whole.
pub proof fn wire_response_takes_each_field_by_its_name(m: Map<Seq<char>, JsonTree>)
    ensures
        WireResponse::decoded(JsonTree::Object(m)) matches Some(v) ==> {
            &&& if m.dom().contains("request_id"@) {
                String::decoded(m["request_id"@]) == Some(v.request_id)
            } else {
                v.request_id.len() == 0
            }
            &&& if m.dom().contains("status"@) {
                String::decoded(m["status"@]) == Some(v.status)
            } else {
                v.status.len() == 0
            }
            &&& if m.dom().contains("data"@) {
                Json::decoded(m["data"@]) == Some(v.data)
            } else {
                v.data == JsonTree::Null
            }
            &&& if m.dom().contains("diagnostics"@) {
                Option::<Diagnostics>::decoded(m["diagnostics"@]) == Some(v.diagnostics)
            } else {
                v.diagnostics is None
            }
        },
        WireResponse::decoded(JsonTree::Object(m)) is Some <==> {
            &&& m.dom().contains("request_id"@) ==> String::decoded(m["request_id"@]) is Some
            &&& m.dom().contains("status"@) ==> String::decoded(m["status"@]) is Some
            &&& m.dom().contains("data"@) ==> Json::decoded(m["data"@]) is Some
            &&& m.dom().contains("diagnostics"@)
                ==> Option::<Diagnostics>::decoded(m["diagnostics"@]) is Some
        },
{
}

/// A response written as a list reads as the object that names each item by its place.
/// Too long a list is refused, and so is any other kind of value.
pub proof fn wire_response_takes_each_item_in_its_place(
    items: Seq<JsonTree>,
    m: Map<Seq<char>, JsonTree>,
    t: JsonTree,
)
    requires
        m.dom().contains("request_id"@) <==> 0 < items.len(),
        0 < items.len() ==> m["request_id"@] == items[0],
        m.dom().contains("status"@) <==> 1 < items.len(),
        1 < items.len() ==> m["status"@] == items[1],
        m.dom().contains("data"@) <==> 2 < items.len(),
        2 < items.len() ==> m["data"@] == items[2],
        m.dom().contains("diagnostics"@) <==> 3 < items.len(),
        3 < items.len() ==> m["diagnostics"@] == items[3],
    ensures
        items.len() <= 4 ==> WireResponse::decoded(JsonTree::Array(items))
            == WireResponse::decoded(JsonTree::Object(m)),
        items.len() > 4 ==> WireResponse::decoded(JsonTree::Array(items)) is None,
        !(t is Object) && !(t is Array) ==> WireResponse::decoded(t) is None,
{
}

/// A response is what it holds, and its optional parts are there when they were sent.
pub proof fn a_response_is_what_it_holds(r: Response)
    ensures
        r@.request_id == r.request_id@,
        r@.status == r.status@,
        r@.kind == r.kind@,
        r@.data == r.data@,
        r@.route == crate::text::opt_view(r.route),
        r@.elapsed_ms == r.elapsed_ms,
        r@.warnings.len() == r.warnings@.len(),
        forall|i: int|
            0 <= i < r.warnings@.len() ==> #[trigger] r@.warnings[i] == r.warnings@[i]@,
        r@.error_code == crate::text::opt_view(r.error_code),
        r@.leader_hint == crate::text::opt_view(r.leader_hint),
{
}

/// The payload is handed out when it is of the kind that was asked for, and is refused
/// by both kinds when it is not.
pub proof fn a_payload_is_taken_by_its_kind(r: ResponseView, kind: Seq<char>, what: Seq<char>)
    ensures
        r.kind == kind ==> expected(r, kind, what) == Ok::<JsonTree, ErrorView>(r.data),
        r.kind != kind ==> expected(r, kind, what) == Err::<JsonTree, ErrorView>(
            plain(
                ErrorKind::Protocol,
                "expected "@ + kind + " from "@ + what + ", got "@ + (if r.kind.len() == 0 {
                    "no data"@
                } else {
                    r.kind
                }),
            ),
        ),
{
}

/// A payload that cannot be read is refused by the name of what was asked.
pub proof fn a_malformed_payload_is_refused_by_name(what: Seq<char>)
    ensures
        malformed(what).kind == ErrorKind::Protocol,
        malformed(what).message == "malformed "@ + what + " payload: "@
            + "a field is missing or has the wrong type"@,
        malformed(what).code is None,
{
}

/// A typed answer is the whole JSON payload, read as its type.
pub proof fn a_typed_answer_is_the_payload_read<T: Decode>(
    r: ResponseView,
    what: Seq<char>,
    name: Seq<char>,
    default: T::V,
)
    ensures
        r.kind == "Json"@ ==> (match T::decoded(r.data) {
            Some(x) => typed::<T>(r, what) == Ok::<T::V, ErrorView>(x),
            None => typed::<T>(r, what) == Err::<T::V, ErrorView>(malformed(what)),
        }),
        r.kind == "Json"@ ==> (match decode::single_of::<T>(r.data, name, default) {
            Some(x) => typed_single::<T>(r, what, name, default) == Ok::<T::V, ErrorView>(x),
            None => typed_single::<T>(r, what, name, default) == Err::<T::V, ErrorView>(
                malformed(what),
            ),
        }),
        r.kind != "Json"@ ==> typed::<T>(r, what) is Err && typed_single::<T>(
            r,
            what,
            name,
            default,
        ) is Err,
        r.kind != "Json"@ ==> typed::<T>(r, what)->Err_0 == expected(r, "Json"@, what)->Err_0,
        r.kind != "Json"@ ==> typed_single::<T>(r, what, name, default)->Err_0 == expected(
            r,
            "Json"@,
            what,
        )->Err_0,
{
}

/// A failure is told in the words of the server: the message it sent, else the JSON
/// that it sent, else its status.
pub proof fn a_failure_is_told_in_the_words_of_the_server(r: ResponseView, s: Seq<char>)
    ensures
        (r.kind == "Message"@ || r.kind == "Toon"@) && r.data == JsonTree::Text(s) && s.len() > 0
            ==> failure_text(r) == s,
        (r.kind == "Message"@ || r.kind == "Toon"@) && r.data == JsonTree::Text(s) && s.len() == 0
            ==> failure_text(r) == codec::json_text(r.data),
        (r.kind == "Message"@ || r.kind == "Toon"@) && !(r.data is Text) ==> failure_text(r)
            == codec::json_text(r.data),
        r.kind == "Json"@ ==> failure_text(r) == codec::json_text(r.data),
        r.kind != "Message"@ && r.kind != "Toon"@ && r.kind != "Json"@ && r.status.len() > 0
            ==> failure_text(r) == "the server answered `"@ + r.status + "`"@,
        r.kind != "Message"@ && r.kind != "Toon"@ && r.kind != "Json"@ && r.status.len() == 0
            ==> failure_text(r) == "the request failed"@,
{
    reveal_strlit("Message");
    reveal_strlit("Toon");
    reveal_strlit("Json");
    assert("Json"@.len() != "Message"@.len());
    assert("Json"@[0] != "Toon"@[0]);
}

/// A tagged value that has several members is known by the first of them in order. One
/// that has none, and a value of another kind, has no tag.
pub proof fn a_value_is_tagged_by_its_first_member(
    m: Map<Seq<char>, JsonTree>,
    name: Seq<char>,
    t: JsonTree,
)
    ensures
        crate::json::is_first(m, name) ==> variant_of(JsonTree::Object(m)) == (name, m[name]),
        variant_of(JsonTree::Object(Map::empty())) == (Seq::<char>::empty(), JsonTree::Null),
        variant_of(JsonTree::Null) == (Seq::<char>::empty(), JsonTree::Null),
        variant_of(JsonTree::Text(name)) == (name, JsonTree::Null),
        t is Bool || t is Number || t is Array ==> variant_of(t) == (Seq::<char>::empty(), t),
{
    if crate::json::is_first(m, name) {
        crate::json::first_name_is_unique(m, name);
        assert(m.dom().contains(name));
        assert(!Map::<Seq<char>, JsonTree>::empty().dom().contains(name));
    }
}

/// A time is a whole number of milliseconds, and minus zero is none.
pub proof fn a_time_is_a_whole_number(i: i64, t: JsonTree, m: Millis)
    ensures
        Millis::decoded(JsonTree::Number(crate::text::integer(i as int))) == Some(i),
        Millis::decoded(JsonTree::Number(seq!['-', '0'])) is None,
        !(t is Number) ==> Millis::decoded(t) is None,
        m.model() == m.0,
{
    crate::text::decimal_reads_back(i as int);
    reveal_strlit("-0");
    let s = crate::text::integer(i as int);
    assert("-0"@ =~= seq!['-', '0']);
    if s == "-0"@ {
        assert(s.skip(1) =~= seq!['0']);
        crate::text::numbers_are_read_digit_by_digit(seq!['0'], 0);
        reveal_strlit("0123456789");
        assert(crate::text::read_integer(s) == Some(0int));
        assert(i == 0);
        crate::text::decimals_are_written_digit_by_digit(0, 0);
        assert(s.len() == 1);
    }
}

/// Without diagnostics nothing is known of a request.
pub proof fn without_diagnostics_nothing_is_known()
    ensures
        no_diagnostics().route is None,
        no_diagnostics().elapsed_ms is None,
        no_diagnostics().warnings.len() == 0,
        no_diagnostics().error_code is None,
        no_diagnostics().leader_hint is None,
{
}

/// A response keeps every part of what was sent, each under its own name.
pub proof fn a_response_keeps_every_part(w: WireResponseView, d: DiagnosticsView)
    ensures
        assembled(w).request_id == w.request_id,
        assembled(w).status == w.status,
        (assembled(w).kind, assembled(w).data) == variant_of(w.data),
        w.diagnostics == Some(d) ==> {
            &&& assembled(w).route == d.route
            &&& assembled(w).elapsed_ms == d.elapsed_ms
            &&& assembled(w).warnings == d.warnings
            &&& assembled(w).error_code == d.error_code
            &&& assembled(w).leader_hint == d.leader_hint
        },
        w.diagnostics is None ==> {
            &&& assembled(w).route is None
            &&& assembled(w).elapsed_ms is None
            &&& assembled(w).warnings.len() == 0
            &&& assembled(w).error_code is None
            &&& assembled(w).leader_hint is None
        },
{
}

/// A success is handed on as it is, and a failure is told in its own words with its
/// own code and hint.
pub proof fn a_success_is_handed_on_as_it_is(r: ResponseView)
    ensures
        r.status == "ok"@ ==> outcome(r) == Ok::<ResponseView, ErrorView>(r),
        r.status != "ok"@ ==> outcome(r) is Err,
        outcome(r) matches Err(e) ==> {
            &&& e.kind == ErrorKind::Server
            &&& e.message == failure_text(r)
            &&& e.code == r.error_code
            &&& e.leader_hint == r.leader_hint
        },
{
}

/// A body is read as its type, and one that cannot be read is refused by its name with
/// the complaint.
pub proof fn a_body_is_read_as_its_type<T: Decode>(
    t: JsonTree,
    complaint: Seq<char>,
    what: Seq<char>,
)
    ensures
        T::decoded(t) matches Some(x) ==> body_of::<T>(Ok(t), what) == Ok::<T::V, ErrorView>(x),
        T::decoded(t) is None ==> body_of::<T>(Ok(t), what) == Err::<T::V, ErrorView>(
            plain(
                ErrorKind::Protocol,
                "malformed "@ + what + " body: "@ + "a field is missing or has the wrong type"@,
            ),
        ),
        body_of::<T>(Err(complaint), what) == Err::<T::V, ErrorView>(
            plain(ErrorKind::Protocol, "malformed "@ + what + " body: "@ + complaint),
        ),
{
}

/// What was parsed is seen as it is.
pub proof fn what_was_parsed_is_seen_as_it_is(j: Json, e: String)
    ensures
        parse_view(Ok(j)) == Ok::<JsonTree, Seq<char>>(j@),
        parse_view(Err(e)) == Err::<JsonTree, Seq<char>>(e@),
{
}

/// The fields of a response and of its diagnostics.
pub proof fn responses_have_these_fields(name: Seq<char>)
    ensures
        response_fields().contains(name) <==> name == "request_id"@ || name == "status"@ || name
            == "data"@ || name == "diagnostics"@,
        diagnostics_fields().contains(name) <==> name == "route"@ || name == "elapsed_ms"@ || name
            == "warnings"@ || name == "error_code"@ || name == "leader_hint"@,
{
    let r = response_fields();
    assert(r[0] == "request_id"@ && r[1] == "status"@ && r[2] == "data"@ && r[3] == "diagnostics"@);
    let d = diagnostics_fields();
    assert(d[0] == "route"@ && d[1] == "elapsed_ms"@ && d[2] == "warnings"@ && d[3] == "error_code"@
        && d[4] == "leader_hint"@);
}

/// Only the diagnostics of a response are stripped of what is no field of them. Every
/// other part is left as it is, in its place.
pub proof fn only_diagnostics_are_stripped(parts: Seq<PartView>, named: bool, i: int)
    requires
        0 <= i < parts.len(),
    ensures
        slim_parts(parts, named).len() == parts.len(),
        slim_parts(parts, named)[i].name == parts[i].name,
        slim_parts(parts, named)[i].head == parts[i].head,
        is_diagnostics(parts, i, named) <==> (if named {
            parts[i].name == "diagnostics"@
        } else {
            i == 3
        }),
        !is_diagnostics(parts, i, named) ==> slim_parts(parts, named)[i].value == parts[i].value,
        is_diagnostics(parts, i, named) ==> slim_parts(parts, named)[i].value == body::slim(
            parts[i].value,
            diagnostics_fields(),
        ),
{
}

/// A response repeats a field when it names one of its own twice, or when its
/// diagnostics do.
pub proof fn a_response_repeats_what_its_parts_repeat(
    bytes: Seq<u8>,
    named: bool,
    parts: Seq<PartView>,
    i: int,
)
    ensures
        body::named_twice(bytes, response_fields()) ==> WireResponse::repeats(bytes),
        body::parts_of(bytes, named) == Some(parts) && 0 <= i < parts.len() && is_diagnostics(
            parts,
            i,
            named,
        ) && body::named_twice(parts[i].value, diagnostics_fields()) ==> WireResponse::repeats(
            bytes,
        ),
        !body::named_twice(bytes, response_fields()) && body::parts_of(bytes, true) is None
            && body::parts_of(bytes, false) is None ==> !WireResponse::repeats(bytes),
        diagnostics_repeat(parts, named) <==> exists|k: int|
            0 <= k < parts.len() && is_diagnostics(parts, k, named) && body::named_twice(
                (#[trigger] parts[k]).value,
                diagnostics_fields(),
            ),
        WireResponse::repeats(bytes) ==> {
            ||| body::named_twice(bytes, response_fields())
            ||| body::parts_of(bytes, true) matches Some(p) && diagnostics_repeat(p, true)
            ||| body::parts_of(bytes, false) matches Some(p) && diagnostics_repeat(p, false)
        },
{
}

/// A response is cut down to its fields, with its diagnostics cut down to theirs. A text
/// that is neither a record nor a list is left as it is.
pub proof fn a_response_is_cut_down_to_its_fields(bytes: Seq<u8>)
    ensures
        body::parts_of(bytes, true) matches Some(parts) ==> WireResponse::essence(bytes)
            == body::record_text(slim_parts(body::kept(parts, response_fields()), true), true),
        body::parts_of(bytes, true) is None ==> (body::parts_of(bytes, false) matches Some(parts)
            ==> WireResponse::essence(bytes) == body::record_text(slim_parts(parts, false), false)),
        body::parts_of(bytes, true) is None && body::parts_of(bytes, false) is None
            ==> WireResponse::essence(bytes) == bytes,
{
}

/// What `expect`, `failure_message` and `settle` give.
pub proof fn responses_are_taken_as_they_are(
    r: &Response,
    kind: &str,
    what: &str,
    payload: Result<&Json>,
    s: String,
    wire: WireResponse,
    settled: Result<Response>,
)
    ensures
        call_ensures(Response::expect, (r, kind, what), payload) ==> (payload is Ok <==> r.kind@
            == kind@),
        call_ensures(Response::expect, (r, kind, what), payload) ==> (payload matches Ok(j) ==> j@
            == r.data@),
        call_ensures(Response::failure_message, (r,), s) ==> s@ == failure_text(r@),
        call_ensures(settle, (wire,), settled) ==> (settled is Ok <==> wire.status@ == "ok"@),
        call_ensures(settle, (wire,), settled) ==> (settled matches Ok(x) ==> x.request_id@
            == wire.request_id@ && (x.kind@, x.data@) == variant_of(wire.data@)),
{
}

/// What `decode` and `decode_single` give: the JSON payload read as the type, or one
/// field of it.
pub proof fn payloads_are_decoded_as_their_type<T: Decode>(
    r: &Response,
    what: &str,
    name: &str,
    default: T,
    x: Result<T>,
)
    ensures
        call_ensures(Response::decode::<T>, (r, what), x) ==> (x is Ok <==> r.kind@ == "Json"@
            && T::decoded(r.data@) is Some),
        call_ensures(Response::decode::<T>, (r, what), x) ==> (x matches Ok(v) ==> T::decoded(
            r.data@,
        ) == Some(v.model())),
        call_ensures(Response::decode_single::<T>, (r, what, name, default), x) ==> (x is Ok
            <==> r.kind@ == "Json"@ && decode::single_of::<T>(r.data@, name@, default.model())
            is Some),
        call_ensures(Response::decode_single::<T>, (r, what, name, default), x) ==> (x matches Ok(v)
            ==> decode::single_of::<T>(r.data@, name@, default.model()) == Some(v.model())),
{
}

} // verus!
