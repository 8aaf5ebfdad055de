//! SQL: reads, writes, bound parameters and transactions.

use crate::client::Client;
#[allow(unused_imports)]
use crate::client::{
    after_error, after_reply, answered, carries, declines, envelope, has_transaction, legible,
    model_view, reply_view, response_result, sends, ClientView,
};
#[allow(unused_imports)]
use crate::codec;
use crate::decode;
use crate::decode::Decode;
use crate::error::{Error, ErrorKind, Result};
#[allow(unused_imports)]
use crate::error::{plain, ungranted, ErrorView};
use crate::frame::Frame;
#[allow(unused_imports)]
use crate::frame::{FrameView, Tag};
use crate::json::{Json, JsonTree, Object};
#[allow(unused_imports)]
use crate::json::wrapped;
use crate::options::{FEATURE_SERVER_PARAMS, FEATURE_SESSION_TXN};
use crate::params;
use crate::params::Param;
#[allow(unused_imports)]
use crate::params::{param_problem, param_views, params_tree, ParamView};
use crate::response;
use crate::response::Response;
#[allow(unused_imports)]
use crate::response::{expected, malformed, typed, ResponseView};
use crate::text;
use vstd::hash_map::StringHashMap;
use vstd::prelude::*;

verus! {

/// The refusal when the server did not grant server-side binding. One wording,
/// so it is searchable.
pub const NO_SERVER_PARAMS: &'static str = "this server did not grant server-side parameters (SERVER_PARAMS was not in the granted feature set), so this client will not bind `?` placeholders on this connection. It will not render the values into the statement text instead: escaping and binding are not the same guarantee. Upgrade the server, or build the statement yourself";

/// The refusal when the server did not grant session transactions.
pub const NO_SESSION_TXN: &'static str = "this server did not grant session transactions (SESSION_TXN was not in the granted feature set), so begin/commit/rollback cannot open a transaction on this connection. Use transaction(...) to send the whole unit as one request";

/// A SQL result set: the column names, and each row's values as the server
/// rendered them.
#[derive(Debug, Clone, PartialEq, Eq)]
pub struct Rows {
    /// Column names, in the order the values come in.
    pub columns: Vec<String>,
    /// One entry per row.
    pub rows: Vec<Vec<String>>,
}

/// What a result set holds.
#[verifier::ext_equal]
pub struct RowsView {
    pub columns: Seq<Seq<char>>,
    pub rows: Seq<Seq<Seq<char>>>,
}

impl Decode for Rows {
    type V = RowsView;

    open spec fn decoded(t: JsonTree) -> Option<RowsView> {
        let columns = decode::or_null::<Vec<String>>(t, 0, "columns"@, Seq::empty());
        let rows = decode::or_null::<Vec<Vec<String>>>(t, 1, "rows"@, Seq::empty());
        if decode::is_record(t, 2) && columns is Some && rows is Some {
            Some(RowsView { columns: columns->0, rows: rows->0 })
        } else {
            None
        }
    }

    open spec fn model(&self) -> RowsView {
        RowsView { columns: self.columns.model(), rows: self.rows.model() }
    }

    fn decode(j: &Json) -> (r: Option<Rows>) {
        if !decode::check_record(j, 2) {
            return None;
        }
        let none = Rows::default();
        let columns = decode::take_or_null::<Vec<String>>(j, 0, "columns", none.columns)?;
        let rows = decode::take_or_null::<Vec<Vec<String>>>(j, 1, "rows", none.rows)?;
        Some(Rows { columns, rows })
    }
}

impl Default for Rows {
    fn default() -> (r: Rows)
        ensures
            r.model() == (RowsView { columns: Seq::empty(), rows: Seq::empty() }),
    {
        let r = Rows { columns: Vec::new(), rows: Vec::new() };
        assert(r.model() =~= (RowsView { columns: Seq::empty(), rows: Seq::empty() }));
        r
    }
}

/// The first place of a name in a list of them.
pub open spec fn first_place(names: Seq<Seq<char>>, name: Seq<char>, from: int) -> Option<int>
    decreases names.len() - from,
{
    if 0 <= from < names.len() {
        if names[from] == name {
            Some(from)
        } else {
            first_place(names, name, from + 1)
        }
    } else {
        None
    }
}

/// One row's value for a column.
pub open spec fn cell(r: RowsView, row: int, column: Seq<char>) -> Option<Seq<char>> {
    match first_place(r.columns, column, 0) {
        None => None,
        Some(index) => if row < r.rows.len() && index < r.rows[row].len() {
            Some(r.rows[row][index])
        } else {
            None
        },
    }
}

/// The first values of a row by the names of their columns. Where two columns
/// have one name, the later value stays.
pub open spec fn row_map(columns: Seq<Seq<char>>, row: Seq<Seq<char>>, n: nat) -> Map<
    Seq<char>,
    Seq<char>,
>
    decreases n,
{
    if n == 0 {
        Map::empty()
    } else {
        row_map(columns, row, (n - 1) as nat).insert(columns[n - 1], row[n - 1])
    }
}

/// How many columns of a row have both a name and a value.
pub open spec fn paired(columns: Seq<Seq<char>>, row: Seq<Seq<char>>) -> nat {
    if columns.len() < row.len() {
        columns.len()
    } else {
        row.len()
    }
}

/// What a map of texts holds.
pub open spec fn texts_of(m: Map<Seq<char>, String>) -> Map<Seq<char>, Seq<char>> {
    m.map_values(|s: String| s@)
}

impl Rows {
    /// How many rows came back.
    pub fn len(&self) -> (n: usize)
        ensures
            n == self.model().rows.len(),
    {
        self.rows.len()
    }

    /// Whether the result set is empty.
    pub fn is_empty(&self) -> (b: bool)
        ensures
            b == (self.model().rows.len() == 0),
    {
        self.rows.len() == 0
    }

    /// One row's value for a column, by name.
    pub fn get(&self, row: usize, column: &str) -> (r: Option<&str>)
        ensures
            cell(self.model(), row as int, column@) == (match r {
                Some(s) => Some(s@),
                None => None::<Seq<char>>,
            }),
    {
        let ghost names = self.model().columns;
        let mut i: usize = 0;
        while i < self.columns.len()
            invariant
                i <= self.columns@.len(),
                names == self.model().columns,
                first_place(names, column@, 0) == first_place(names, column@, i as int),
            decreases self.columns@.len() - i,
        {
            assert(names[i as int] == self.columns@[i as int]@);
            if text::same(self.columns[i].as_str(), column) {
                if row < self.rows.len() {
                    assert(self.model().rows[row as int] == self.rows@[row as int].model());
                    let values = &self.rows[row];
                    if i < values.len() {
                        return Some(values[i].as_str());
                    }
                }
                return None;
            }
            i = i + 1;
        }
        None
    }

    /// Every row as a map keyed by column name, for name-based access.
    pub fn maps(&self) -> (r: Vec<StringHashMap<String>>)
        ensures
            r@.len() == self.model().rows.len(),
            forall|i: int|
                0 <= i < r@.len() ==> texts_of(#[trigger] r@[i]@) == row_map(
                    self.model().columns,
                    self.model().rows[i],
                    paired(self.model().columns, self.model().rows[i]),
                ),
    {
        let mut out: Vec<StringHashMap<String>> = Vec::new();
        let mut i: usize = 0;
        while i < self.rows.len()
            invariant
                i <= self.rows@.len(),
                out@.len() == i,
                forall|k: int|
                    0 <= k < i ==> texts_of(#[trigger] out@[k]@) == row_map(
                        self.model().columns,
                        self.model().rows[k],
                        paired(self.model().columns, self.model().rows[k]),
                    ),
            decreases self.rows@.len() - i,
        {
            assert(self.model().rows[i as int] == self.rows@[i as int].model());
            let m = self.map_of(&self.rows[i]);
            out.push(m);
            i = i + 1;
        }
        out
    }

    fn map_of(&self, row: &Vec<String>) -> (m: StringHashMap<String>)
        ensures
            texts_of(m@) == row_map(
                self.model().columns,
                row.model(),
                paired(self.model().columns, row.model()),
            ),
    {
        let ghost columns = self.model().columns;
        let ghost values = row.model();
        let mut m: StringHashMap<String> = StringHashMap::new();
        let mut i: usize = 0;
        assert(texts_of(m@) =~= Map::<Seq<char>, Seq<char>>::empty());
        while i < self.columns.len() && i < row.len()
            invariant
                i <= self.columns@.len(),
                i <= row@.len(),
                columns == self.model().columns,
                values == row.model(),
                texts_of(m@) == row_map(columns, values, i as nat),
            decreases self.columns@.len() - i,
        {
            let ghost before = m@;
            assert(columns[i as int] == self.columns@[i as int]@);
            assert(values[i as int] == row@[i as int]@);
            m.insert(self.columns[i].clone(), row[i].clone());
            assert(texts_of(m@) =~= texts_of(before).insert(columns[i as int], values[i as int]));
            i = i + 1;
        }
        m
    }
}

/// One statement of a transaction script, with the values bound to its
/// placeholders.
#[derive(Debug, PartialEq)]
pub struct Statement {
    /// The statement text, with `?` placeholders.
    pub sql: String,
    /// The values for those placeholders, in order.
    pub params: Vec<Param>,
}

/// What a [`Statement`] is.
#[verifier::ext_equal]
pub struct StatementView {
    pub sql: Seq<char>,
    pub params: Seq<ParamView>,
}

impl View for Statement {
    type V = StatementView;

    open spec fn view(&self) -> StatementView {
        StatementView { sql: self.sql@, params: param_views(self.params@) }
    }
}

/// What a list of statements is.
pub open spec fn statement_views(statements: Seq<Statement>) -> Seq<StatementView> {
    Seq::new(statements.len(), |i: int| statements[i]@)
}

impl Statement {
    /// A statement with no parameters.
    pub fn new(sql: &str) -> (s: Statement)
        ensures
            s@ == (StatementView { sql: sql@, params: Seq::empty() }),
    {
        let s = Statement { sql: sql.to_owned(), params: Vec::new() };
        assert(s@ =~= (StatementView { sql: sql@, params: Seq::empty() }));
        s
    }

    /// A statement and the values bound to it.
    pub fn with_params(sql: &str, params: Vec<Param>) -> (s: Statement)
        ensures
            s@ == (StatementView { sql: sql@, params: param_views(params@) }),
    {
        Statement { sql: sql.to_owned(), params }
    }
}

impl From<&str> for Statement {
    fn from(sql: &str) -> (s: Statement)
        ensures
            s@ == (StatementView { sql: sql@, params: Seq::empty() }),
    {
        Statement::new(sql)
    }
}

impl vstd::std_specs::convert::FromSpecImpl<&str> for Statement {
    open spec fn obeys_from_spec() -> bool {
        false
    }

    open spec fn from_spec(sql: &str) -> Statement {
        arbitrary()
    }
}

/// A statement's text without the white space and the semicolons around it.
pub open spec fn bare(sql: Seq<char>) -> Seq<char> {
    text::trim(text::trim_char(text::trim(sql), ';'))
}

/// The first word of a statement, in upper case.
pub open spec fn leading_word(sql: Seq<char>) -> Seq<char> {
    text::upper(sql.take(text::word_end(sql, 0)))
}

/// Whether a word begins or ends a transaction.
pub open spec fn is_control(word: Seq<char>) -> bool {
    word == "BEGIN"@ || word == "START"@ || word == "COMMIT"@ || word == "ROLLBACK"@
}

/// The text of one statement within a script, or why it is refused.
pub open spec fn script_part(sql: Seq<char>) -> std::result::Result<Seq<char>, ErrorView> {
    let part = bare(sql);
    if part.len() == 0 {
        Err(
            plain(
                ErrorKind::InvalidArgument,
                "every statement in a transaction must be non-empty SQL"@,
            ),
        )
    } else if is_control(leading_word(part)) {
        Err(
            plain(
                ErrorKind::InvalidArgument,
                "transaction() brackets the script itself — remove the `"@ + leading_word(part)
                    + "` statement"@,
            ),
        )
    } else {
        Ok(part)
    }
}

/// A script and the values for its placeholders.
#[verifier::ext_equal]
pub struct ScriptView {
    pub text: Seq<char>,
    pub params: Seq<ParamView>,
}

/// The statements of a script, each followed by a semicolon and a blank but the
/// last, and all their values in order. The first statement that is refused
/// decides.
pub open spec fn script_body(statements: Seq<StatementView>) -> std::result::Result<
    ScriptView,
    ErrorView,
>
    decreases statements.len(),
{
    if statements.len() == 0 {
        Ok(ScriptView { text: Seq::empty(), params: Seq::empty() })
    } else {
        match script_body(statements.drop_last()) {
            Err(e) => Err(e),
            Ok(head) => match script_part(statements.last().sql) {
                Err(e) => Err(e),
                Ok(part) => Ok(
                    ScriptView {
                        text: if statements.len() == 1 {
                            part
                        } else {
                            head.text + "; "@ + part
                        },
                        params: head.params + statements.last().params,
                    },
                ),
            },
        }
    }
}

/// The script of a whole transaction.
pub open spec fn script(statements: Seq<StatementView>) -> std::result::Result<ScriptView, ErrorView> {
    if statements.len() == 0 {
        Err(plain(ErrorKind::InvalidArgument, "a transaction needs at least one statement"@))
    } else {
        match script_body(statements) {
            Err(e) => Err(e),
            Ok(s) => Ok(
                ScriptView { text: "BEGIN; "@ + s.text + "; COMMIT"@, params: s.params },
            ),
        }
    }
}

proof fn script_prefix_fails(statements: Seq<StatementView>, n: int)
    requires
        0 <= n <= statements.len(),
        script_body(statements.take(n)) is Err,
    ensures
        script_body(statements) == script_body(statements.take(n)),
    decreases statements.len(),
{
    if n < statements.len() {
        assert(statements.drop_last().take(n) =~= statements.take(n));
        script_prefix_fails(statements.drop_last(), n);
    } else {
        assert(statements.take(n) =~= statements);
    }
}

/// A statement that begins or ends a transaction itself is refused wherever it
/// stands in the script, in whatever case it is written.
pub proof fn caller_supplied_control_is_refused(statements: Seq<StatementView>, index: int)
    requires
        0 <= index < statements.len(),
        is_control(leading_word(bare(statements[index].sql))),
    ensures
        script(statements) is Err,
        script(statements)->Err_0.kind == ErrorKind::InvalidArgument,
{
    let upto = statements.take(index + 1);
    assert(upto.last() == statements[index]);
    assert(script_body(upto) is Err);
    script_prefix_fails(statements, index + 1);
    script_errors_are_refusals(statements);
}

proof fn script_errors_are_refusals(statements: Seq<StatementView>)
    ensures
        script_body(statements) matches Err(e) ==> e.kind == ErrorKind::InvalidArgument,
    decreases statements.len(),
{
    if statements.len() > 0 {
        script_errors_are_refusals(statements.drop_last());
    }
}

/// All values of all statements, in order.
pub open spec fn all_params(statements: Seq<StatementView>) -> Seq<ParamView>
    decreases statements.len(),
{
    if statements.len() == 0 {
        Seq::empty()
    } else {
        all_params(statements.drop_last()) + statements.last().params
    }
}

/// A script carries the values of all its statements, in the order of the
/// statements, and nothing else: no value goes into its text.
pub proof fn script_params_are_flattened(statements: Seq<StatementView>)
    requires
        script(statements) is Ok,
    ensures
        script(statements)->Ok_0.params == all_params(statements),
{
    script_body_params(statements);
}

proof fn script_body_params(statements: Seq<StatementView>)
    ensures
        script_body(statements) matches Ok(s) ==> s.params == all_params(statements),
    decreases statements.len(),
{
    if statements.len() > 0 {
        script_body_params(statements.drop_last());
    }
}

/// The text of a script depends on the texts of its statements alone, whatever
/// values are bound to them.
pub proof fn script_text_ignores_the_values(a: Seq<StatementView>, b: Seq<StatementView>)
    requires
        a.len() == b.len(),
        forall|i: int| 0 <= i < a.len() ==> #[trigger] a[i].sql == b[i].sql,
    ensures
        script(a) is Ok <==> script(b) is Ok,
        script(a) is Ok ==> script(a)->Ok_0.text == script(b)->Ok_0.text,
        script(a) is Err ==> script(a)->Err_0 == script(b)->Err_0,
{
    script_body_text(a, b);
}

proof fn script_body_text(a: Seq<StatementView>, b: Seq<StatementView>)
    requires
        a.len() == b.len(),
        forall|i: int| 0 <= i < a.len() ==> #[trigger] a[i].sql == b[i].sql,
    ensures
        script_body(a) is Ok <==> script_body(b) is Ok,
        script_body(a) is Ok ==> script_body(a)->Ok_0.text == script_body(b)->Ok_0.text,
        script_body(a) is Err ==> script_body(a)->Err_0 == script_body(b)->Err_0,
    decreases a.len(),
{
    if a.len() > 0 {
        script_body_text(a.drop_last(), b.drop_last());
        assert(a[a.len() - 1].sql == b[b.len() - 1].sql);
    }
}

fn build_part(sql: &str) -> (r: Result<String>)
    ensures
        match r {
            Ok(s) => script_part(sql@) == Ok::<Seq<char>, ErrorView>(s@),
            Err(e) => script_part(sql@) == Err::<Seq<char>, ErrorView>(e@),
        },
{
    let c = text::characters(sql);
    assert(c@.subrange(0, c@.len() as int) =~= sql@);
    let (from, to) = text::trim_between(&c, 0, c.len());
    let to: usize = text::trim_char_between(&c, from, to, ';');
    let (from, to) = text::trim_between(&c, from, to);
    if from == to {
        return Err(Error::invalid("every statement in a transaction must be non-empty SQL"));
    }
    let first = text::upper_word_between(&c, from, to);
    // Caller-supplied transaction control changes what the script means in
    // a way the caller almost certainly did not intend.
    if text::same(first.as_str(), "BEGIN") || text::same(first.as_str(), "START") || text::same(
        first.as_str(),
        "COMMIT",
    ) || text::same(first.as_str(), "ROLLBACK") {
        return Err(
            Error::invalid(
                text::join3(
                    "transaction() brackets the script itself — remove the `",
                    first.as_str(),
                    "` statement",
                ).as_str(),
            ),
        );
    }
    Ok(text::text_between(&c, from, to))
}

/// Assemble `BEGIN; …; COMMIT` and the flat parameter list that goes with it.
///
/// The parameters of every statement are concatenated in statement order, which
/// is how the server binds a multi-statement script: it walks the script left to
/// right and takes one parameter per placeholder. So the script keeps its
/// placeholders instead of having values pasted into it.
pub fn build_transaction_script(statements: &[Statement]) -> (r: Result<(String, Vec<Param>)>)
    ensures
        match r {
            Ok(s) => script(statement_views(statements@)) == Ok::<ScriptView, ErrorView>(
                ScriptView { text: s.0@, params: param_views(s.1@) },
            ),
            Err(e) => script(statement_views(statements@)) == Err::<ScriptView, ErrorView>(e@),
        },
{
    if statements.len() == 0 {
        return Err(Error::invalid("a transaction needs at least one statement"));
    }
    let ghost views = statement_views(statements@);
    let mut body = String::new();
    let mut params: Vec<Param> = Vec::new();
    let mut i: usize = 0;
    assert(param_views(params@) =~= Seq::<ParamView>::empty());
    while i < statements.len()
        invariant
            i <= statements@.len(),
            views == statement_views(statements@),
            views.len() > 0,
            script_body(views.take(i as int)) == Ok::<ScriptView, ErrorView>(
                ScriptView { text: body@, params: param_views(params@) },
            ),
        decreases statements@.len() - i,
    {
        let ghost upto = views.take(i + 1);
        assert(upto.drop_last() =~= views.take(i as int));
        assert(upto.last() == statements@[i as int]@);
        let statement = &statements[i];
        match build_part(statement.sql.as_str()) {
            Ok(part) => {
                if i > 0 {
                    body.append("; ");
                }
                body.append(part.as_str());
                if i == 0 {
                    assert(body@ =~= part@);
                }
            },
            Err(e) => {
                proof {
                    script_prefix_fails(views, i + 1);
                }
                return Err(e);
            },
        }
        append_params(&mut params, &statement.params);
        i = i + 1;
    }
    assert(views.take(i as int) =~= views);
    Ok((text::join3("BEGIN; ", body.as_str(), "; COMMIT"), params))
}

fn append_params(out: &mut Vec<Param>, more: &Vec<Param>)
    ensures
        param_views(final(out)@) == param_views(old(out)@) + param_views(more@),
{
    let ghost before = param_views(out@);
    let mut i: usize = 0;
    while i < more.len()
        invariant
            i <= more@.len(),
            param_views(out@) == before + param_views(more@).take(i as int),
        decreases more@.len() - i,
    {
        let ghost mid = param_views(out@);
        let p = more[i].clone();
        out.push(p);
        assert(param_views(out@) =~= mid.push(p@));
        assert(param_views(out@) =~= before + param_views(more@).take(i + 1));
        i = i + 1;
    }
    assert(param_views(out@) =~= before + param_views(more@));
}

impl Clone for Statement {
    fn clone(&self) -> (s: Statement)
        ensures
            s@ == self@,
    {
        let mut params: Vec<Param> = Vec::new();
        assert(param_views(params@) + param_views(self.params@) =~= param_views(self.params@));
        append_params(&mut params, &self.params);
        Statement { sql: self.sql.clone(), params }
    }
}

/// What the server did with a transaction.
#[derive(Debug, Clone, PartialEq, Eq)]
pub struct TransactionResult {
    /// How many statements ran.
    pub statements: i64,
    /// How many writes were made durable.
    pub committed_writes: i64,
    /// How many buffered writes were thrown away.
    pub discarded_writes: i64,
    /// `"began"`, `"committed"` or `"rolled_back"`.
    pub outcome: String,
}

/// What a [`TransactionResult`] holds.
#[verifier::ext_equal]
pub struct TransactionResultView {
    pub statements: i64,
    pub committed_writes: i64,
    pub discarded_writes: i64,
    pub outcome: Seq<char>,
}

impl Default for TransactionResult {
    fn default() -> (r: TransactionResult)
        ensures
            r.model() == (TransactionResultView {
                statements: 0,
                committed_writes: 0,
                discarded_writes: 0,
                outcome: Seq::empty(),
            }),
    {
        TransactionResult {
            statements: 0,
            committed_writes: 0,
            discarded_writes: 0,
            outcome: String::new(),
        }
    }
}

impl Decode for TransactionResult {
    type V = TransactionResultView;

    open spec fn decoded(t: JsonTree) -> Option<TransactionResultView> {
        let statements = decode::or_absent::<i64>(t, 0, "statements"@, 0);
        let committed_writes = decode::or_absent::<i64>(t, 1, "committed_writes"@, 0);
        let discarded_writes = decode::or_absent::<i64>(t, 2, "discarded_writes"@, 0);
        let outcome = decode::or_absent::<String>(t, 3, "transaction"@, Seq::empty());
        if decode::is_record(t, 4) && statements is Some && committed_writes is Some
            && discarded_writes is Some && outcome is Some {
            Some(
                TransactionResultView {
                    statements: statements->0,
                    committed_writes: committed_writes->0,
                    discarded_writes: discarded_writes->0,
                    outcome: outcome->0,
                },
            )
        } else {
            None
        }
    }

    open spec fn model(&self) -> TransactionResultView {
        TransactionResultView {
            statements: self.statements,
            committed_writes: self.committed_writes,
            discarded_writes: self.discarded_writes,
            outcome: self.outcome@,
        }
    }

    fn decode(j: &Json) -> (r: Option<TransactionResult>) {
        if !decode::check_record(j, 4) {
            return None;
        }
        let statements = decode::take_or::<i64>(j, 0, "statements", 0)?;
        let committed_writes = decode::take_or::<i64>(j, 1, "committed_writes", 0)?;
        let discarded_writes = decode::take_or::<i64>(j, 2, "discarded_writes", 0)?;
        let outcome = decode::take_or::<String>(j, 3, "transaction", String::new())?;
        Some(TransactionResult { statements, committed_writes, discarded_writes, outcome })
    }
}

/// The first parameter from this index on that cannot be bound.
pub open spec fn first_problem(params: Seq<ParamView>, from: int) -> Option<ErrorView>
    decreases params.len() - from,
{
    if 0 <= from < params.len() {
        match param_problem(params[from], from as nat) {
            Some(e) => Some(e),
            None => first_problem(params, from + 1),
        }
    } else {
        None
    }
}

/// Why these parameters cannot be bound on a session with these capabilities,
/// if they cannot.
pub open spec fn binding_problem(granted: u64, params: Seq<ParamView>) -> Option<ErrorView> {
    if params.len() == 0 {
        None
    } else if granted & FEATURE_SERVER_PARAMS == 0 {
        Some(ungranted(NO_SERVER_PARAMS@))
    } else {
        first_problem(params, 0)
    }
}

/// A statement and its values on the wire.
pub open spec fn sql_body_tree(sql: Seq<char>, params: Seq<ParamView>) -> JsonTree {
    let body = Map::<Seq<char>, JsonTree>::empty().insert("sql"@, JsonTree::Text(sql));
    if params.len() == 0 {
        JsonTree::Object(body)
    } else {
        JsonTree::Object(body.insert("params"@, params_tree(params)))
    }
}

/// The operation that runs a statement; `how` is `Exec` or `Query`.
pub open spec fn sql_op(how: Seq<char>, sql: Seq<char>, params: Seq<ParamView>) -> JsonTree {
    wrapped("Sql"@, wrapped(how, sql_body_tree(sql, params)))
}

/// Whether a call ran a statement: it sent it with its values, or refused the
/// values and changed nothing.
pub open spec fn runs(
    before: ClientView,
    after: ClientView,
    how: Seq<char>,
    sql: Seq<char>,
    params: Seq<ParamView>,
    r: Result<Vec<u8>>,
) -> bool {
    match binding_problem(before.granted_features, params) {
        Some(e) => declines(before, after, e, r),
        None => sends(before, after, sql_op(how, sql, params), r),
    }
}

/// What the answer to a query means.
pub open spec fn rows_meaning(r: ResponseView, what: Seq<char>) -> std::result::Result<
    RowsView,
    ErrorView,
> {
    match expected(r, "Rows"@, what) {
        Err(e) => Err(e),
        Ok(data) => match Rows::decoded(data) {
            Some(rows) => Ok(rows),
            None => Err(malformed("Rows"@)),
        },
    }
}

/// The rows that answer a query.
pub fn rows_of(response: &Response, what: &str) -> (r: Result<Rows>)
    ensures
        match r {
            Ok(rows) => rows_meaning(response@, what@) == Ok::<RowsView, ErrorView>(rows.model()),
            Err(e) => rows_meaning(response@, what@) == Err::<RowsView, ErrorView>(e@),
        },
{
    match response.expect("Rows", what) {
        Ok(data) => response::read_payload(data, "Rows"),
        Err(e) => Err(e),
    }
}

/// A keyword that begins or ends a transaction.
#[derive(Debug, Clone, Copy, PartialEq, Eq, Structural)]
pub enum Control {
    /// `BEGIN`
    Begin,
    /// `COMMIT`
    Commit,
    /// `ROLLBACK`
    Rollback,
}

/// The text of a transaction keyword.
pub open spec fn keyword_text(control: Control) -> Seq<char> {
    match control {
        Control::Begin => "BEGIN"@,
        Control::Commit => "COMMIT"@,
        Control::Rollback => "ROLLBACK"@,
    }
}

impl Control {
    /// The text of the keyword.
    pub fn keyword(self) -> (s: &'static str)
        ensures
            s@ == keyword_text(self),
    {
        match self {
            Control::Begin => "BEGIN",
            Control::Commit => "COMMIT",
            Control::Rollback => "ROLLBACK",
        }
    }
}

/// What the reply to a transaction keyword means.
pub open spec fn control_result(
    control: Control,
    reply: std::result::Result<FrameView, ErrorView>,
) -> std::result::Result<TransactionResultView, ErrorView> {
    match response_result(reply) {
        Err(e) => Err(e),
        Ok(r) => typed::<TransactionResult>(r, keyword_text(control)),
    }
}

/// A session after the reply to a transaction keyword: `BEGIN` opens a
/// transaction when it succeeds, and every reply to the others ends it, a
/// refusal included, since the server ends it either way.
pub open spec fn after_control(
    c: ClientView,
    control: Control,
    reply: std::result::Result<FrameView, ErrorView>,
) -> ClientView {
    let answered = after_reply(c, reply, response_result(reply));
    match response_result(reply) {
        Err(_) => if control == Control::Begin {
            answered
        } else {
            ClientView { txn_open: false, ..answered }
        },
        Ok(_) => {
            let settled = ClientView { txn_open: control == Control::Begin, ..answered };
            match control_result(control, reply) {
                Err(e) => after_error(settled, e),
                Ok(_) => settled,
            }
        },
    }
}

/// How a transaction ends once the work within it is done.
#[derive(Debug, Clone, Copy, PartialEq, Eq, Structural)]
pub enum Ending {
    /// Commit it.
    Commit,
    /// Roll it back; whether that succeeds is ignored.
    Rollback,
    /// Leave it: there is none any more.
    Leave,
}

impl Client {
    /// Run a statement that is not a `SELECT`: DDL, `INSERT`, `UPDATE`,
    /// `DELETE`, or a transaction script. Returns the frame to write.
    pub fn execute(&mut self, sql: &str) -> (r: Result<Vec<u8>>)
        requires
            old(self)@.request_counter < u64::MAX,
        ensures
            sends(old(self)@, final(self)@, sql_op("Exec"@, sql@, Seq::empty()), r),
    {
        let none: Vec<Param> = Vec::new();
        assert(param_views(none@) =~= Seq::<ParamView>::empty());
        self.execute_params(sql, none.as_slice())
    }

    /// Run a statement with its values bound **by the server**. Returns the
    /// frame to write.
    ///
    /// The values travel beside the statement and are substituted at value
    /// positions the grammar has already fixed, so a value cannot become syntax
    /// however it is spelled — a quote, a backslash, or an argument that is
    /// itself a complete SQL statement is stored as the text it is.
    ///
    /// This needs the `SERVER_PARAMS` capability
    /// ([`Client::server_params_granted`]). Against a server that did not grant
    /// it, the call fails before anything is sent rather than falling back to
    /// building the statement text here.
    pub fn execute_params(&mut self, sql: &str, params: &[Param]) -> (r: Result<Vec<u8>>)
        requires
            old(self)@.request_counter < u64::MAX,
        ensures
            runs(old(self)@, final(self)@, "Exec"@, sql@, param_views(params@), r),
    {
        match self.sql_body(sql, params) {
            Ok(body) => self.send(Json::wrap("Sql", Json::wrap("Exec", body))),
            Err(e) => Err(e),
        }
    }

    /// Run a `SELECT`. The server refuses a write sent this way. Returns the
    /// frame to write; [`Client::query_reply`] takes the answer.
    pub fn query(&mut self, sql: &str) -> (r: Result<Vec<u8>>)
        requires
            old(self)@.request_counter < u64::MAX,
        ensures
            sends(old(self)@, final(self)@, sql_op("Query"@, sql@, Seq::empty()), r),
    {
        let none: Vec<Param> = Vec::new();
        assert(param_views(none@) =~= Seq::<ParamView>::empty());
        self.query_params(sql, none.as_slice())
    }

    /// Run a `SELECT` with its values bound by the server. See
    /// [`Client::execute_params`].
    pub fn query_params(&mut self, sql: &str, params: &[Param]) -> (r: Result<Vec<u8>>)
        requires
            old(self)@.request_counter < u64::MAX,
        ensures
            runs(old(self)@, final(self)@, "Query"@, sql@, param_views(params@), r),
    {
        match self.sql_body(sql, params) {
            Ok(body) => self.send(Json::wrap("Sql", Json::wrap("Query", body))),
            Err(e) => Err(e),
        }
    }

    /// Take the answer to [`Client::query`] or [`Client::query_params`].
    pub fn query_reply(&mut self, reply: Result<Frame>) -> (r: Result<Rows>)
        ensures
            answered(
                old(self)@,
                final(self)@,
                reply_view(reply),
                |x: ResponseView| rows_meaning(x, "query"@),
                model_view(r),
            ),
    {
        let response = self.reply(reply)?;
        self.keep(rows_of(&response, "query"))
    }

    /// Build the `{sql, params}` body.
    ///
    /// How many placeholders a statement has is left to the server: it counts
    /// them against the parameters it was given and refuses a mismatch by name,
    /// and it also understands `$n`, which a client-side scan for `?` would
    /// miscount. One authority on that question is the point.
    fn sql_body(&self, sql: &str, params: &[Param]) -> (r: Result<Json>)
        ensures
            match r {
                Ok(j) => binding_problem(self@.granted_features, param_views(params@)) is None && j@
                    == sql_body_tree(sql@, param_views(params@)),
                Err(e) => binding_problem(self@.granted_features, param_views(params@)) == Some(e@),
            },
    {
        let body = Object::new().with("sql", Json::text(sql));
        if params.len() == 0 {
            return Ok(Json::Object(body));
        }
        if !self.server_params_granted() {
            return Err(Error::feature_refusal(NO_SERVER_PARAMS));
        }
        let ghost views = param_views(params@);
        let mut i: usize = 0;
        while i < params.len()
            invariant
                i <= params@.len(),
                views == param_views(params@),
                first_problem(views, 0) == first_problem(views, i as int),
                binding_problem(self@.granted_features, views) == first_problem(views, 0),
            decreases params@.len() - i,
        {
            assert(views[i as int] == params@[i as int]@);
            match params[i].validate(i) {
                Ok(_) => {},
                Err(e) => {
                    return Err(e);
                },
            }
            i = i + 1;
        }
        Ok(Json::Object(body.with("params", params::wire_params(params))))
    }

    /// Run a whole `BEGIN … COMMIT` script in **one request**. Returns the frame
    /// to write; [`Client::transaction_reply`] takes the answer.
    ///
    /// One round trip, one replication event, and it works on every node,
    /// including those that withhold session transactions. Use it when every
    /// statement is known up front; use [`Client::begin`] when a later statement
    /// depends on what an earlier one read.
    pub fn transaction(&mut self, statements: &[Statement]) -> (r: Result<Vec<u8>>)
        requires
            old(self)@.request_counter < u64::MAX,
        ensures
            match script(statement_views(statements@)) {
                Err(e) => declines(old(self)@, final(self)@, e, r),
                Ok(s) => runs(old(self)@, final(self)@, "Exec"@, s.text, s.params, r),
            },
    {
        match build_transaction_script(statements) {
            Ok((script, params)) => self.execute_params(script.as_str(), params.as_slice()),
            Err(e) => Err(e),
        }
    }

    /// Take the answer to [`Client::transaction`].
    pub fn transaction_reply(&mut self, reply: Result<Frame>) -> (r: Result<TransactionResult>)
        ensures
            answered(
                old(self)@,
                final(self)@,
                reply_view(reply),
                |x: ResponseView| typed::<TransactionResult>(x, "transaction"@),
                model_view(r),
            ),
    {
        let response = self.reply(reply)?;
        self.keep(response.decode("transaction"))
    }

    /// Open a transaction that stays open across requests on this connection.
    /// Returns the frame to write; [`Client::control_reply`] takes the
    /// answer.
    ///
    /// Every statement until [`Client::commit`] or [`Client::rollback`] runs
    /// inside it, at one snapshot, invisible to other connections until
    /// committed. The transaction belongs to this connection's socket: another
    /// connection cannot commit it, and a dropped socket rolls it back.
    ///
    /// Needs the `SESSION_TXN` capability ([`Client::session_txn_granted`]).
    /// Without it this fails before writing anything, rather than sending a
    /// `BEGIN` the server would run as a one-statement script;
    /// [`Client::transaction`] works everywhere.
    pub fn begin(&mut self) -> (r: Result<Vec<u8>>)
        requires
            old(self)@.request_counter < u64::MAX,
        ensures
            if old(self)@.granted_features & FEATURE_SESSION_TXN == 0 {
                declines(old(self)@, final(self)@, ungranted(NO_SESSION_TXN@), r)
            } else {
                sends(old(self)@, final(self)@, sql_op("Exec"@, "BEGIN"@, Seq::empty()), r)
            },
    {
        if !self.session_txn_granted() {
            return Err(Error::feature_refusal(NO_SESSION_TXN));
        }
        self.transaction_control(Control::Begin)
    }

    /// Commit the transaction opened by [`Client::begin`]. Returns the frame to
    /// write.
    pub fn commit(&mut self) -> (r: Result<Vec<u8>>)
        requires
            old(self)@.request_counter < u64::MAX,
        ensures
            sends(old(self)@, final(self)@, sql_op("Exec"@, "COMMIT"@, Seq::empty()), r),
    {
        self.transaction_control(Control::Commit)
    }

    /// Discard the transaction opened by [`Client::begin`]. Returns the frame to
    /// write.
    pub fn rollback(&mut self) -> (r: Result<Vec<u8>>)
        requires
            old(self)@.request_counter < u64::MAX,
        ensures
            sends(old(self)@, final(self)@, sql_op("Exec"@, "ROLLBACK"@, Seq::empty()), r),
    {
        self.transaction_control(Control::Rollback)
    }

    /// Send one transaction-control keyword.
    ///
    /// Control travels as `Exec`, because the server authorizes it as a write.
    fn transaction_control(&mut self, control: Control) -> (r: Result<Vec<u8>>)
        requires
            old(self)@.request_counter < u64::MAX,
        ensures
            sends(
                old(self)@,
                final(self)@,
                sql_op("Exec"@, keyword_text(control), Seq::empty()),
                r,
            ),
    {
        self.execute(control.keyword())
    }

    /// Take the answer to [`Client::begin`], [`Client::commit`] or
    /// [`Client::rollback`].
    ///
    /// Every `COMMIT`/`ROLLBACK` reply — a refusal included — ends the
    /// transaction, since the server ends it either way. A request that never
    /// left this process has no reply, and the transaction stays as it was.
    pub fn control_reply(&mut self, control: Control, reply: Result<Frame>) -> (r: Result<
        TransactionResult,
    >)
        ensures
            match r {
                Ok(x) => control_result(control, reply_view(reply)) == Ok::<
                    TransactionResultView,
                    ErrorView,
                >(x.model()),
                Err(e) => control_result(control, reply_view(reply)) == Err::<
                    TransactionResultView,
                    ErrorView,
                >(e@),
            },
            final(self)@ == after_control(old(self)@, control, reply_view(reply)),
    {
        match self.reply(reply) {
            Ok(response) => {
                self.set_txn_open(control == Control::Begin);
                self.keep(response.decode(control.keyword()))
            },
            Err(error) => {
                if control != Control::Begin {
                    self.set_txn_open(false);
                }
                Err(error)
            },
        }
    }

    /// How to end a transaction once the work within it has succeeded or failed:
    /// commit when it succeeded, roll back when it failed.
    ///
    /// After a failure the error of the work is the one that matters; the
    /// rollback is best-effort because the server ends the transaction anyway
    /// when this connection goes.
    pub fn with_transaction(&self, work_succeeded: bool) -> (r: Ending)
        ensures
            r == (if work_succeeded {
                Ending::Commit
            } else if has_transaction(self@) {
                Ending::Rollback
            } else {
                Ending::Leave
            }),
    {
        if work_succeeded {
            Ending::Commit
        } else if self.in_transaction() {
            Ending::Rollback
        } else {
            Ending::Leave
        }
    }
}

/// The result of work within a transaction: what the work returned when the
/// transaction was committed, the failure to commit it, or the work's own error.
pub fn transaction_outcome<T>(work: Result<T>, commit: Result<TransactionResult>) -> (r: Result<T>)
    ensures
        match work {
            Err(e) => r == Err::<T, Error>(e),
            Ok(x) => match commit {
                Ok(_) => r == Ok::<T, Error>(x),
                Err(e) => r == Err::<T, Error>(e),
            },
        },
{
    match work {
        Err(e) => Err(e),
        Ok(x) => match commit {
            Ok(_) => Ok(x),
            Err(e) => Err(e),
        },
    }
}

/// Values are never bound on a session without the capability for it: the call
/// is refused, nothing is sent, and nothing about the session changes.
pub proof fn values_are_never_bound_without_the_capability(
    before: ClientView,
    after: ClientView,
    how: Seq<char>,
    sql: Seq<char>,
    params: Seq<ParamView>,
    r: Result<Vec<u8>>,
)
    requires
        before.granted_features & FEATURE_SERVER_PARAMS == 0,
        params.len() > 0,
        runs(before, after, how, sql, params, r),
    ensures
        after == before,
        r is Err,
        r->Err_0@ == ungranted(NO_SERVER_PARAMS@),
{
}

/// The text of a statement that is sent does not depend on the values bound to
/// it: they stand beside it.
pub proof fn values_stay_beside_the_statement(sql: Seq<char>, params: Seq<ParamView>)
    ensures
        crate::json::member(sql_body_tree(sql, params), "sql"@) == Some(JsonTree::Text(sql)),
        params.len() > 0 ==> crate::json::member(sql_body_tree(sql, params), "params"@) == Some(
            params_tree(params),
        ),
{
    reveal_strlit("sql");
    reveal_strlit("params");
    assert("sql"@.len() != "params"@.len());
}

proof fn statements_are_legible(how: Seq<char>, sql: Seq<char>, params: Seq<ParamView>)
    requires
        how.len() < 10,
    ensures
        legible(sql_op(how, sql, params)),
{
    reveal_strlit("sql");
    reveal_strlit("params");
    reveal_strlit("Sql");
    codec::names_no_number("sql"@);
    codec::names_no_number("params"@);
    codec::names_no_number("Sql"@);
    codec::names_no_number(how);
    let n = (codec::NESTING - 3) as nat;
    let none = Map::<Seq<char>, JsonTree>::empty();
    let text = none.insert("sql"@, JsonTree::Text(sql));
    codec::readable_when_empty(n);
    codec::readable_with(none, "sql"@, JsonTree::Text(sql), n);
    codec::readable_array(params_tree(params)->Array_0, (n - 1) as nat);
    codec::readable_with(text, "params"@, params_tree(params), n);
    let body = sql_body_tree(sql, params);
    codec::readable_when_empty(n + 1);
    codec::readable_with(none, how, body, n + 1);
    codec::readable_when_empty(n + 2);
    codec::readable_with(none, "Sql"@, wrapped(how, body), n + 2);
}

/// Whoever reads the request of a statement finds the statement's text as it was
/// written and every value beside it: however a value is spelled, it does not
/// become part of the text or of the envelope.
pub proof fn a_statement_is_read_as_it_was_written(
    before: ClientView,
    after: ClientView,
    how: Seq<char>,
    sql: Seq<char>,
    params: Seq<ParamView>,
    r: Result<Vec<u8>>,
)
    requires
        how == "Exec"@ || how == "Query"@,
        runs(before, after, how, sql, params, r),
        r is Ok,
    ensures
        carries(r->Ok_0@, Tag::Request, envelope(after, sql_op(how, sql, params))),
{
    reveal_strlit("Exec");
    reveal_strlit("Query");
    statements_are_legible(how, sql, params);
}

/// Every reply to `COMMIT` or `ROLLBACK` ends the transaction, whatever it is.
pub proof fn every_reply_ends_the_transaction(
    c: ClientView,
    control: Control,
    reply: std::result::Result<FrameView, ErrorView>,
)
    requires
        control != Control::Begin,
    ensures
        !after_control(c, control, reply).txn_open,
{
}

/// A transaction is open after `BEGIN` only when the server said that it began.
pub proof fn begin_opens_only_on_success(
    c: ClientView,
    reply: std::result::Result<FrameView, ErrorView>,
)
    requires
        !c.txn_open,
        after_control(c, Control::Begin, reply).txn_open,
    ensures
        response_result(reply) is Ok,
{
}

/// A result set holds what was sent under the name of each field, lists whole and
/// in order.
pub proof fn rows_reads_back(m: Map<Seq<char>, JsonTree>, x: Rows)
    requires
        m.dom().contains("columns"@),
        m["columns"@]
            == JsonTree::Array(Seq::new(x.columns@.len(), |i: int| JsonTree::Text(x.columns@[i]@))),
        m.dom().contains("rows"@),
        m["rows"@]
            == JsonTree::Array(
                Seq::new(
                    x.rows@.len(),
                    |i: int| JsonTree::Array(
                        Seq::new(x.rows@[i]@.len(), |j: int| JsonTree::Text(x.rows@[i]@[j]@)),
                    ),
                ),
            ),
    ensures
        Rows::decoded(JsonTree::Object(m)) == Some(x.model()),
        x.model() == (RowsView {
            columns: Seq::new(x.columns@.len(), |i: int| x.columns@[i]@),
            rows: Seq::new(
                x.rows@.len(),
                |i: int| Seq::new(x.rows@[i]@.len(), |j: int| x.rows@[i]@[j]@),
            ),
        }),
{
    decode::texts_read_back(x.columns);
    let outer = Seq::new(
        x.rows@.len(),
        |i: int| JsonTree::Array(
            Seq::new(x.rows@[i]@.len(), |j: int| JsonTree::Text(x.rows@[i]@[j]@)),
        ),
    );
    assert forall|i: int| 0 <= i < outer.len() implies
        Vec::<String>::decoded(#[trigger] outer[i]) == Some(x.rows@[i].model()) by {
        decode::texts_read_back(x.rows@[i]);
    }
    decode::lists_read_back(outer, x.rows);
    assert forall|i: int| 0 <= i < x.rows@.len() implies
        #[trigger] x.rows.model()[i] == Seq::new(x.rows@[i]@.len(), |j: int| x.rows@[i]@[j]@) by {
        decode::texts_read_back(x.rows@[i]);
    }
    assert(x.rows.model() =~= Seq::new(x.rows@.len(), |i: int| Seq::new(x.rows@[i]@.len(), |j: int| x.rows@[i]@[j]@)));
    assert(x.model() =~= (RowsView {
        columns: Seq::new(x.columns@.len(), |i: int| x.columns@[i]@),
        rows: Seq::new(x.rows@.len(), |i: int| Seq::new(x.rows@[i]@.len(), |j: int| x.rows@[i]@[j]@)),
    }));
}

/// A result set takes each field from the member of that name alone. A field that was
/// not sent has its default, and one of another kind refuses the whole.
pub proof fn rows_takes_each_field_by_its_name(m: Map<Seq<char>, JsonTree>)
    ensures
        Rows::decoded(JsonTree::Object(m)) matches Some(v) ==> {
            &&& if m.dom().contains("columns"@) && !(m["columns"@] is Null) {
                Vec::<String>::decoded(m["columns"@]) == Some(v.columns)
            } else {
                v.columns.len() == 0
            }
            &&& if m.dom().contains("rows"@) && !(m["rows"@] is Null) {
                Vec::<Vec<String>>::decoded(m["rows"@]) == Some(v.rows)
            } else {
                v.rows.len() == 0
            }
        },
        Rows::decoded(JsonTree::Object(m)) is Some <==> {
            &&& m.dom().contains("columns"@) && !(m["columns"@] is Null)
                ==> Vec::<String>::decoded(m["columns"@]) is Some
            &&& m.dom().contains("rows"@) && !(m["rows"@] is Null)
                ==> Vec::<Vec<String>>::decoded(m["rows"@]) is Some
        },
{
}

/// A result set written as a list reads as the object that names each item by its place.
/// Too long a list is refused, and so is any other kind of value.
pub proof fn rows_takes_each_item_in_its_place(
    items: Seq<JsonTree>,
    m: Map<Seq<char>, JsonTree>,
    t: JsonTree,
)
    requires
        m.dom().contains("columns"@) <==> 0 < items.len(),
        0 < items.len() ==> m["columns"@] == items[0],
        m.dom().contains("rows"@) <==> 1 < items.len(),
        1 < items.len() ==> m["rows"@] == items[1],
    ensures
        items.len() <= 2 ==> Rows::decoded(JsonTree::Array(items))
            == Rows::decoded(JsonTree::Object(m)),
        items.len() > 2 ==> Rows::decoded(JsonTree::Array(items)) is None,
        !(t is Object) && !(t is Array) ==> Rows::decoded(t) is None,
{
}

/// A transaction result holds what was sent under the name of each field, lists whole and
/// in order.
pub proof fn transaction_result_reads_back(m: Map<Seq<char>, JsonTree>, x: TransactionResult)
    requires
        m.dom().contains("statements"@),
        m["statements"@] == JsonTree::Number(crate::text::integer(x.statements as int)),
        m.dom().contains("committed_writes"@),
        m["committed_writes"@]
            == JsonTree::Number(crate::text::integer(x.committed_writes as int)),
        m.dom().contains("discarded_writes"@),
        m["discarded_writes"@]
            == JsonTree::Number(crate::text::integer(x.discarded_writes as int)),
        m.dom().contains("transaction"@),
        m["transaction"@] == JsonTree::Text(x.outcome@),
    ensures
        TransactionResult::decoded(JsonTree::Object(m)) == Some(x.model()),
        x.model() == (TransactionResultView {
            statements: x.statements,
            committed_writes: x.committed_writes,
            discarded_writes: x.discarded_writes,
            outcome: x.outcome@,
        }),
{
    crate::text::decimal_reads_back(x.statements as int);
    crate::text::decimal_reads_back(x.committed_writes as int);
    crate::text::decimal_reads_back(x.discarded_writes as int);
    assert(x.model() =~= (TransactionResultView {
        statements: x.statements,
        committed_writes: x.committed_writes,
        discarded_writes: x.discarded_writes,
        outcome: x.outcome@,
    }));
}

/// A transaction result takes each field from the member of that name alone. A field that was
/// not sent has its default, and one of another kind refuses the whole.
pub proof fn transaction_result_takes_each_field_by_its_name(m: Map<Seq<char>, JsonTree>)
    ensures
        TransactionResult::decoded(JsonTree::Object(m)) matches Some(v) ==> {
            &&& if m.dom().contains("statements"@) {
                i64::decoded(m["statements"@]) == Some(v.statements)
            } else {
                v.statements == 0
            }
            &&& if m.dom().contains("committed_writes"@) {
                i64::decoded(m["committed_writes"@]) == Some(v.committed_writes)
            } else {
                v.committed_writes == 0
            }
            &&& if m.dom().contains("discarded_writes"@) {
                i64::decoded(m["discarded_writes"@]) == Some(v.discarded_writes)
            } else {
                v.discarded_writes == 0
            }
            &&& if m.dom().contains("transaction"@) {
                String::decoded(m["transaction"@]) == Some(v.outcome)
            } else {
                v.outcome.len() == 0
            }
        },
        TransactionResult::decoded(JsonTree::Object(m)) is Some <==> {
            &&& m.dom().contains("statements"@) ==> i64::decoded(m["statements"@]) is Some
            &&& m.dom().contains("committed_writes"@)
                ==> i64::decoded(m["committed_writes"@]) is Some
            &&& m.dom().contains("discarded_writes"@)
                ==> i64::decoded(m["discarded_writes"@]) is Some
            &&& m.dom().contains("transaction"@) ==> String::decoded(m["transaction"@]) is Some
        },
{
}

/// A transaction result written as a list reads as the object that names each item by its place.
/// Too long a list is refused, and so is any other kind of value.
pub proof fn transaction_result_takes_each_item_in_its_place(
    items: Seq<JsonTree>,
    m: Map<Seq<char>, JsonTree>,
    t: JsonTree,
)
    requires
        m.dom().contains("statements"@) <==> 0 < items.len(),
        0 < items.len() ==> m["statements"@] == items[0],
        m.dom().contains("committed_writes"@) <==> 1 < items.len(),
        1 < items.len() ==> m["committed_writes"@] == items[1],
        m.dom().contains("discarded_writes"@) <==> 2 < items.len(),
        2 < items.len() ==> m["discarded_writes"@] == items[2],
        m.dom().contains("transaction"@) <==> 3 < items.len(),
        3 < items.len() ==> m["transaction"@] == items[3],
    ensures
        items.len() <= 4 ==> TransactionResult::decoded(JsonTree::Array(items))
            == TransactionResult::decoded(JsonTree::Object(m)),
        items.len() > 4 ==> TransactionResult::decoded(JsonTree::Array(items)) is None,
        !(t is Object) && !(t is Array) ==> TransactionResult::decoded(t) is None,
{
}

/// Every row answers from its own values: what a row holds in a column is what was
/// sent at that place of that row.
pub proof fn a_cell_is_the_value_at_its_place(r: RowsView, row: int, column: int)
    requires
        forall|i: int, j: int|
            0 <= i < j < r.columns.len() ==> #[trigger] r.columns[i] != #[trigger] r.columns[j],
        0 <= row < r.rows.len(),
        0 <= column < r.columns.len(),
        column < r.rows[row].len(),
    ensures
        cell(r, row, r.columns[column]) == Some(r.rows[row][column]),
{
    first_place_is_least(r.columns, r.columns[column], 0, column);
}

/// Where a name stands first. Names that repeat answer from the first of them.
proof fn first_place_is_least(names: Seq<Seq<char>>, name: Seq<char>, from: int, at: int)
    requires
        0 <= from <= at < names.len(),
        names[at] == name,
        forall|k: int| from <= k < at ==> #[trigger] names[k] != name,
    ensures
        first_place(names, name, from) == Some(at),
    decreases at - from,
{
    if from < at {
        assert(names[from] != name);
        first_place_is_least(names, name, from + 1, at);
    }
}

/// No name stands where it was not sent.
proof fn first_place_needs_the_name(names: Seq<Seq<char>>, name: Seq<char>, from: int)
    requires
        0 <= from <= names.len(),
        forall|k: int| from <= k < names.len() ==> #[trigger] names[k] != name,
    ensures
        first_place(names, name, from) is None,
    decreases names.len() - from,
{
    if from < names.len() {
        assert(names[from] != name);
        first_place_needs_the_name(names, name, from + 1);
    }
}

/// A column named twice answers from the first of the two, and one that was not sent,
/// a row past the end or a value missing from a short row answers nothing.
pub proof fn only_a_value_that_was_sent_is_found(
    r: RowsView,
    row: int,
    name: Seq<char>,
    column: int,
)
    requires
        row >= 0,
    ensures
        (forall|k: int| 0 <= k < r.columns.len() ==> #[trigger] r.columns[k] != name) ==> cell(
            r,
            row,
            name,
        ) is None,
        row >= r.rows.len() ==> cell(r, row, name) is None,
        0 <= column < r.columns.len() && r.columns[column] == name && (forall|k: int|
            0 <= k < column ==> #[trigger] r.columns[k] != name) && row < r.rows.len() ==> {
            if column < r.rows[row].len() {
                cell(r, row, name) == Some(r.rows[row][column])
            } else {
                cell(r, row, name) is None
            }
        },
{
    if forall|k: int| 0 <= k < r.columns.len() ==> #[trigger] r.columns[k] != name {
        first_place_needs_the_name(r.columns, name, 0);
    }
    if 0 <= column < r.columns.len() && r.columns[column] == name && (forall|k: int|
        0 <= k < column ==> #[trigger] r.columns[k] != name) {
        first_place_is_least(r.columns, name, 0, column);
    }
}

/// A row turned into a map holds each value under the name of its column, for as many
/// columns as the row has values, and nothing else. Of columns of the same name the
/// last stands.
pub proof fn a_row_maps_each_column_to_its_value(
    columns: Seq<Seq<char>>,
    row: Seq<Seq<char>>,
    column: int,
    name: Seq<char>,
)
    ensures
        0 <= column < columns.len() && column < row.len() && (forall|k: int|
            column < k < columns.len() && k < row.len() ==> #[trigger] columns[k]
                != columns[column]) ==> {
            &&& row_map(columns, row, paired(columns, row)).dom().contains(columns[column])
            &&& row_map(columns, row, paired(columns, row))[columns[column]] == row[column]
        },
        row_map(columns, row, paired(columns, row)).dom().contains(name) <==> exists|k: int|
            0 <= k < columns.len() && k < row.len() && #[trigger] columns[k] == name,
{
    row_map_holds(columns, row, paired(columns, row), column, name);
}

proof fn row_map_holds(
    columns: Seq<Seq<char>>,
    row: Seq<Seq<char>>,
    n: nat,
    column: int,
    name: Seq<char>,
)
    requires
        n <= columns.len(),
        n <= row.len(),
    ensures
        0 <= column < n && (forall|k: int| column < k < n ==> #[trigger] columns[k]
            != columns[column]) ==> {
            &&& row_map(columns, row, n).dom().contains(columns[column])
            &&& row_map(columns, row, n)[columns[column]] == row[column]
        },
        row_map(columns, row, n).dom().contains(name) <==> exists|k: int|
            0 <= k < n && #[trigger] columns[k] == name,
    decreases n,
{
    if n > 0 {
        row_map_holds(columns, row, (n - 1) as nat, column, name);
        assert(columns[n - 1] == columns[n - 1]);
        if exists|k: int| 0 <= k < n && #[trigger] columns[k] == name {
            let k = choose|k: int| 0 <= k < n && #[trigger] columns[k] == name;
            if k < n - 1 {
                assert(0 <= k < n - 1 && columns[k] == name);
            }
        }
    }
}

/// A statement is its text and its parameters, all of them.
pub proof fn statements_are_what_they_hold(s: Statement, all: Seq<Statement>, i: int)
    requires
        0 <= i < all.len(),
    ensures
        s@.sql == s.sql@,
        s@.params.len() == s.params@.len(),
        forall|k: int| 0 <= k < s.params@.len() ==> #[trigger] s@.params[k] == s.params@[k]@,
        statement_views(all).len() == all.len(),
        statement_views(all)[i] == all[i]@,
{
}

/// A statement is stripped of the blanks and closing semicolons around it.
pub proof fn statements_are_stripped(
    front: Seq<char>,
    core: Seq<char>,
    gap: Seq<char>,
    marks: Seq<char>,
    back: Seq<char>,
)
    requires
        forall|i: int| 0 <= i < front.len() ==> text::is_space(#[trigger] front[i]),
        forall|i: int| 0 <= i < gap.len() ==> text::is_space(#[trigger] gap[i]),
        forall|i: int| 0 <= i < back.len() ==> text::is_space(#[trigger] back[i]),
        forall|i: int| 0 <= i < marks.len() ==> #[trigger] marks[i] == ';',
        core.len() > 0,
        !text::is_space(core[0]),
        !text::is_space(core.last()),
    ensures
        core.last() != ';' || gap.len() > 0 && marks.len() > 0 ==> bare(
            front + core + gap + marks + back,
        ) == core,
        core.last() != ';' ==> bare(front + core + marks) == core,
        bare(front + marks + back).len() == 0,
{
    let none = Seq::<char>::empty();
    if core.last() != ';' || gap.len() > 0 && marks.len() > 0 {
        if marks.len() > 0 {
            let inner = core + gap + marks;
            assert(inner.last() == marks.last());
            assert(inner[0] == core[0]);
            text::trimming_takes_the_blanks_around(front, inner, back);
            assert(front + core + gap + marks + back =~= front + inner + back);
            if gap.len() > 0 {
                assert((core + gap).last() == gap.last());
                assert(text::is_space(gap[gap.len() - 1]));
                assert((core + gap).last() != ';');
            } else {
                assert(core + gap =~= core);
            }
            text::trimming_a_character_takes_it_from_the_end(core + gap, marks, ';');
            text::trimming_takes_the_blanks_around(none, core, gap);
            assert(none + core + gap =~= core + gap);
        } else {
            text::trimming_takes_the_blanks_around(front, core, gap + back);
            assert(front + core + gap + marks + back =~= front + core + (gap + back));
            text::trimming_a_character_takes_it_from_the_end(core, none, ';');
            assert(core + none =~= core);
            text::trimming_takes_the_blanks_around(none, core, none);
            assert(none + core + none =~= core);
        }
    }
    if core.last() != ';' {
        let close = core + marks;
        if marks.len() > 0 {
            assert(close.last() == marks.last());
        } else {
            assert(close =~= core);
        }
        assert(close[0] == core[0]);
        text::trimming_takes_the_blanks_around(front, close, none);
        assert(front + core + marks =~= front + close + none);
        text::trimming_a_character_takes_it_from_the_end(core, marks, ';');
        text::trimming_takes_the_blanks_around(none, core, none);
        assert(none + core + none =~= core);
    }
    if marks.len() > 0 {
        assert(marks[0] == ';' && marks.last() == ';');
    }
    text::trimming_takes_the_blanks_around(front, marks, back);
    text::trimming_a_character_takes_it_from_the_end(none, marks, ';');
    assert(none + marks =~= marks);
    text::trimming_takes_the_blanks_around(none, none, none);
    assert(none + none + none =~= none);
}

/// The leading word of a statement is what stands before its first blank, in upper
/// case.
pub proof fn the_leading_word_ends_at_a_blank(word: Seq<char>, blank: char, rest: Seq<char>)
    requires
        forall|i: int| 0 <= i < word.len() ==> !text::is_space(#[trigger] word[i]),
        text::is_space(blank),
    ensures
        leading_word(word) == text::upper(word),
        leading_word(word.push(blank) + rest) == text::upper(word),
{
    let whole = word.push(blank) + rest;
    text::words_end_at_a_blank(word, 0);
    text::words_end_at_a_blank(whole, 0);
    let n = text::word_end(word, 0);
    if n < word.len() {
        assert(!text::is_space(word[n]));
    }
    assert(word.take(n) =~= word);
    let m = text::word_end(whole, 0);
    assert(whole[word.len() as int] == blank);
    if m < word.len() {
        assert(whole[m] == word[m]);
    }
    if m > word.len() {
        assert(!text::is_space(whole[word.len() as int]));
    }
    assert(whole.take(m) =~= word);
}

/// The words that bracket a transaction, and no other.
pub proof fn these_words_control_a_transaction(word: Seq<char>)
    ensures
        is_control(word) <==> seq!["BEGIN"@, "START"@, "COMMIT"@, "ROLLBACK"@].contains(word),
{
    let words = seq!["BEGIN"@, "START"@, "COMMIT"@, "ROLLBACK"@];
    assert(words[0] == "BEGIN"@ && words[1] == "START"@ && words[2] == "COMMIT"@ && words[3]
        == "ROLLBACK"@);
}

/// A statement goes into a script exactly when it is not empty and does not control
/// the transaction, and goes in stripped.
pub proof fn a_part_is_the_stripped_statement(sql: Seq<char>)
    ensures
        script_part(sql) is Ok <==> bare(sql).len() > 0 && !is_control(leading_word(bare(sql))),
        script_part(sql) matches Ok(part) ==> part == bare(sql),
        script_part(sql) matches Err(e) ==> {
            &&& e.kind == ErrorKind::InvalidArgument
            &&& e.code is None
            &&& e.leader_hint is None
            &&& e.message == if bare(sql).len() == 0 {
                "every statement in a transaction must be non-empty SQL"@
            } else {
                "transaction() brackets the script itself — remove the `"@ + leading_word(bare(sql))
                    + "` statement"@
            }
        },
{
}

/// A script opens a transaction, holds every statement in order, each closed by a
/// semicolon, and commits. Its parameters are those of every statement in order.
pub proof fn a_script_holds_every_statement(statements: Seq<StatementView>)
    requires
        statements.len() > 0,
        forall|i: int| 0 <= i < statements.len() ==> script_part(#[trigger] statements[i].sql) is Ok,
    ensures
        script(statements) is Ok,
        script(statements)->Ok_0.text == statements.fold_left(
            "BEGIN;"@,
            |text: Seq<char>, s: StatementView| text + " "@ + bare(s.sql) + ";"@,
        ) + " COMMIT"@,
        script(statements)->Ok_0.params == statements.fold_left(
            Seq::<ParamView>::empty(),
            |params: Seq<ParamView>, s: StatementView| params + s.params,
        ),
{
    body_holds_every_statement(statements);
    reveal_strlit("BEGIN; ");
    reveal_strlit("BEGIN;");
    reveal_strlit(" ");
    reveal_strlit(";");
    reveal_strlit("; COMMIT");
    reveal_strlit(" COMMIT");
    let body = script_body(statements)->Ok_0.text;
    assert("BEGIN; "@ =~= "BEGIN;"@ + " "@);
    assert("; COMMIT"@ =~= ";"@ + " COMMIT"@);
    assert("BEGIN; "@ + body + "; COMMIT"@ =~= "BEGIN;"@ + " "@ + body + ";"@ + " COMMIT"@);
}

proof fn body_holds_every_statement(statements: Seq<StatementView>)
    requires
        statements.len() > 0,
        forall|i: int| 0 <= i < statements.len() ==> script_part(#[trigger] statements[i].sql) is Ok,
    ensures
        script_body(statements) is Ok,
        "BEGIN;"@ + " "@ + script_body(statements)->Ok_0.text + ";"@ == statements.fold_left(
            "BEGIN;"@,
            |text: Seq<char>, s: StatementView| text + " "@ + bare(s.sql) + ";"@,
        ),
        script_body(statements)->Ok_0.params == statements.fold_left(
            Seq::<ParamView>::empty(),
            |params: Seq<ParamView>, s: StatementView| params + s.params,
        ),
    decreases statements.len(),
{
    let join = |text: Seq<char>, s: StatementView| text + " "@ + bare(s.sql) + ";"@;
    let gather = |params: Seq<ParamView>, s: StatementView| params + s.params;
    let none = Seq::<ParamView>::empty();
    let head = statements.drop_last();
    let last = statements.last();
    assert(last == statements[statements.len() - 1]);
    assert(script_part(last.sql) == Ok::<Seq<char>, ErrorView>(bare(last.sql)));
    assert(statements.fold_left("BEGIN;"@, join) == join(head.fold_left("BEGIN;"@, join), last));
    assert(statements.fold_left(none, gather) == gather(head.fold_left(none, gather), last));
    if statements.len() == 1 {
        assert(head =~= Seq::empty());
        assert(script_body(head) is Ok);
        assert(none + last.params =~= last.params);
    } else {
        assert forall|i: int| 0 <= i < head.len() implies script_part(#[trigger] head[i].sql)
            is Ok by {
            assert(head[i] == statements[i]);
        }
        body_holds_every_statement(head);
        reveal_strlit("; ");
        reveal_strlit(" ");
        reveal_strlit(";");
        assert("; "@ =~= ";"@ + " "@);
        let before = script_body(head)->Ok_0.text;
        assert("BEGIN;"@ + " "@ + (before + "; "@ + bare(last.sql)) + ";"@ =~= "BEGIN;"@ + " "@
            + before + ";"@ + " "@ + bare(last.sql) + ";"@);
    }
}

/// One more statement puts its text before the closing `COMMIT` and its parameters
/// after the others.
pub proof fn one_more_statement_extends_the_script(
    statements: Seq<StatementView>,
    more: StatementView,
)
    requires
        script(statements) is Ok,
        script_part(more.sql) is Ok,
    ensures
        script(statements.push(more)) is Ok,
        script(statements)->Ok_0.text.len() > "COMMIT"@.len(),
        script(statements.push(more))->Ok_0.text == script(statements)->Ok_0.text.take(
            script(statements)->Ok_0.text.len() - "COMMIT"@.len(),
        ) + bare(more.sql) + "; COMMIT"@,
        script(statements.push(more))->Ok_0.params == script(statements)->Ok_0.params
            + more.params,
{
    let longer = statements.push(more);
    assert(longer.drop_last() =~= statements);
    assert(longer.last() == more);
    reveal_strlit("; COMMIT");
    reveal_strlit("COMMIT");
    reveal_strlit("; ");
    let body = script_body(statements)->Ok_0.text;
    let whole = "BEGIN; "@ + body + "; COMMIT"@;
    assert(whole.take(whole.len() - "COMMIT"@.len()) =~= "BEGIN; "@ + body + "; "@);
    assert("BEGIN; "@ + (body + "; "@ + bare(more.sql)) + "; COMMIT"@ =~= "BEGIN; "@ + body + "; "@
        + bare(more.sql) + "; COMMIT"@);
}

/// A script is refused for the first statement that cannot go into it, and one
/// without statements is refused too.
pub proof fn the_first_fault_refuses_a_script(statements: Seq<StatementView>, at: int)
    requires
        0 <= at < statements.len(),
        forall|i: int| 0 <= i < at ==> script_part(#[trigger] statements[i].sql) is Ok,
        script_part(statements[at].sql) is Err,
    ensures
        script(statements) is Err,
        script(statements)->Err_0 == script_part(statements[at].sql)->Err_0,
        script(Seq::empty()) is Err,
        script(Seq::empty())->Err_0.kind == ErrorKind::InvalidArgument,
        script(Seq::empty())->Err_0.message == "a transaction needs at least one statement"@,
{
    let upto = statements.take(at + 1);
    assert(upto.last() == statements[at]);
    assert(upto.drop_last() =~= statements.take(at));
    if at > 0 {
        let head = statements.take(at);
        assert forall|i: int| 0 <= i < head.len() implies script_part(#[trigger] head[i].sql)
            is Ok by {
            assert(head[i] == statements[i]);
        }
        body_holds_every_statement(head);
    } else {
        assert(statements.take(at) =~= Seq::empty());
    }
    script_prefix_fails(statements, at + 1);
}

/// Parameters may be bound exactly when there are none, or the server granted it and
/// none of them is refused. The first that is refused is the one reported, counted
/// from its own place.
pub proof fn the_first_fault_stops_the_binding(
    granted: u64,
    params: Seq<ParamView>,
    at: int,
)
    ensures
        binding_problem(granted, Seq::empty()) is None,
        params.len() > 0 && granted & 2 == 0 ==> (binding_problem(granted, params) matches Some(e)
            && e.message == NO_SERVER_PARAMS@ && e.kind == ErrorKind::FeatureNotGranted),
        granted & 2 != 0 && 0 <= at < params.len() && (forall|i: int|
            0 <= i < at ==> param_problem(#[trigger] params[i], i as nat) is None) && param_problem(
            params[at],
            at as nat,
        ) is Some ==> binding_problem(granted, params) == param_problem(params[at], at as nat),
        granted & 2 != 0 && (forall|i: int|
            0 <= i < params.len() ==> param_problem(#[trigger] params[i], i as nat) is None)
            ==> binding_problem(granted, params) is None,
{
    if 0 <= at < params.len() && (forall|i: int|
        0 <= i < at ==> param_problem(#[trigger] params[i], i as nat) is None) {
        first_problem_is_least(params, 0, at);
    }
    if forall|i: int| 0 <= i < params.len() ==> param_problem(#[trigger] params[i], i as nat) is None {
        first_problem_needs_a_fault(params, 0);
    }
}

proof fn first_problem_is_least(params: Seq<ParamView>, from: int, at: int)
    requires
        0 <= from <= at < params.len(),
        forall|i: int| from <= i < at ==> param_problem(#[trigger] params[i], i as nat) is None,
    ensures
        param_problem(params[at], at as nat) is Some ==> first_problem(params, from)
            == param_problem(params[at], at as nat),
    decreases at - from,
{
    if from < at {
        assert(param_problem(params[from], from as nat) is None);
        first_problem_is_least(params, from + 1, at);
    }
}

proof fn first_problem_needs_a_fault(params: Seq<ParamView>, from: int)
    requires
        0 <= from <= params.len(),
        forall|i: int|
            from <= i < params.len() ==> param_problem(#[trigger] params[i], i as nat) is None,
    ensures
        first_problem(params, from) is None,
    decreases params.len() - from,
{
    if from < params.len() {
        assert(param_problem(params[from], from as nat) is None);
        first_problem_needs_a_fault(params, from + 1);
    }
}

/// A statement is sent under the name of what it is to do, with its text, and with a
/// list of parameters only where there are any.
pub proof fn a_statement_is_sent_with_its_text_and_values(
    how: Seq<char>,
    sql: Seq<char>,
    params: Seq<ParamView>,
)
    ensures
        sql_op(how, sql, params) == JsonTree::Object(
            map![
                "Sql"@ => JsonTree::Object(
                    map![
                        how => JsonTree::Object(
                            if params.len() == 0 {
                                map!["sql"@ => JsonTree::Text(sql)]
                            } else {
                                map!["sql"@ => JsonTree::Text(sql), "params"@ => params_tree(params)]
                            },
                        ),
                    ],
                ),
            ],
        ),
{
    let body = sql_body_tree(sql, params);
    let inner = JsonTree::Object(map![how => body]);
    assert(crate::json::no_members().insert(how, body) =~= map![how => body]);
    assert(crate::json::no_members().insert("Sql"@, inner) =~= map!["Sql"@ => inner]);
    assert(body->Object_0 =~= if params.len() == 0 {
        map!["sql"@ => JsonTree::Text(sql)]
    } else {
        map!["sql"@ => JsonTree::Text(sql), "params"@ => params_tree(params)]
    });
}

/// The statement that each control sends.
pub proof fn controls_are_sent_by_name(control: Control)
    ensures
        keyword_text(Control::Begin) == "BEGIN"@,
        keyword_text(Control::Commit) == "COMMIT"@,
        keyword_text(Control::Rollback) == "ROLLBACK"@,
        is_control(keyword_text(control)),
{
}

/// A result set is read from the payload of its kind, and one that is malformed is
/// refused.
pub proof fn a_result_set_is_read_from_its_payload(r: ResponseView, what: Seq<char>)
    ensures
        r.kind == "Rows"@ ==> (match Rows::decoded(r.data) {
            Some(rows) => rows_meaning(r, what) == Ok::<RowsView, ErrorView>(rows),
            None => rows_meaning(r, what) == Err::<RowsView, ErrorView>(malformed("Rows"@)),
        }),
        r.kind != "Rows"@ ==> rows_meaning(r, what) == Err::<RowsView, ErrorView>(
            expected(r, "Rows"@, what)->Err_0,
        ),
{
}

/// A control answers with what the server says of the transaction, under the name of
/// the control.
pub proof fn a_control_answers_with_the_transaction(
    control: Control,
    reply: std::result::Result<FrameView, ErrorView>,
)
    ensures
        response_result(reply) matches Ok(r) ==> control_result(control, reply) == typed::<
            TransactionResult,
        >(r, keyword_text(control)),
        response_result(reply) matches Err(e) ==> control_result(control, reply) == Err::<
            TransactionResultView,
            ErrorView,
        >(e),
{
}

/// A transaction is open after a control exactly when it was a begin that was answered,
/// or when a begin failed where one was open already. A fatal failure drops the session.
pub proof fn a_transaction_is_open_after_a_begin(
    c: ClientView,
    control: Control,
    reply: std::result::Result<FrameView, ErrorView>,
)
    ensures
        control_result(control, reply) is Ok ==> after_control(c, control, reply) == (ClientView {
            txn_open: control == Control::Begin,
            ..c
        }),
        response_result(reply) is Err && control == Control::Begin ==> after_control(
            c,
            control,
            reply,
        ) == after_reply(c, reply, response_result(reply)),
        response_result(reply) is Err && control != Control::Begin ==> after_control(
            c,
            control,
            reply,
        ) == (ClientView { txn_open: false, ..after_reply(c, reply, response_result(reply)) }),
        response_result(reply) is Ok ==> (control_result(control, reply) matches Err(e)
            ==> after_control(c, control, reply) == after_error(
            ClientView { txn_open: control == Control::Begin, ..c },
            e,
        )),
{
}

/// A statement is sent when its parameters may be bound, and declined with the reason
/// when they may not.
pub proof fn a_statement_is_sent_or_declined(
    before: ClientView,
    after: ClientView,
    how: Seq<char>,
    sql: Seq<char>,
    params: Seq<ParamView>,
    r: Result<Vec<u8>>,
)
    requires
        runs(before, after, how, sql, params, r),
    ensures
        binding_problem(before.granted_features, params) matches Some(e) ==> {
            &&& after == before
            &&& r is Err
            &&& r->Err_0@ == e
        },
        binding_problem(before.granted_features, params) is None ==> sends(
            before,
            after,
            sql_op(how, sql, params),
            r,
        ),
{
}

/// The texts of a map are those of its values, under the same names.
pub proof fn a_map_is_seen_as_its_texts(m: Map<Seq<char>, String>, name: Seq<char>)
    ensures
        texts_of(m).dom().contains(name) <==> m.dom().contains(name),
        m.dom().contains(name) ==> texts_of(m)[name] == m[name]@,
{
}

/// What the answer is to `query_reply`. Without a response the failure stands.
pub proof fn query_is_answered_by_its_response(
    c: &mut Client,
    reply: Result<Frame>,
    r: Result<Rows>,
)
    ensures
        call_ensures(Client::query_reply, (c, reply), r)
            ==> (response_result(reply_view(reply)) matches Ok(x)
                ==> model_view(r) == rows_meaning(x, "query"@)),
        call_ensures(Client::query_reply, (c, reply), r)
            ==> (response_result(reply_view(reply)) matches Err(e) ==> r is Err && r->Err_0@ == e),
{
}

/// What the answer is to `transaction_reply`. Without a response the failure stands.
pub proof fn transaction_is_answered_by_its_response(
    c: &mut Client,
    reply: Result<Frame>,
    r: Result<TransactionResult>,
)
    ensures
        call_ensures(Client::transaction_reply, (c, reply), r)
            ==> (response_result(reply_view(reply)) matches Ok(x)
                ==> model_view(r) == typed::<TransactionResult>(x, "transaction"@)),
        call_ensures(Client::transaction_reply, (c, reply), r)
            ==> (response_result(reply_view(reply)) matches Err(e) ==> r is Err && r->Err_0@ == e),
{
}

/// What `Rows::get` gives: with distinct column names, the value that the row itself
/// holds at the place of the column.
pub proof fn a_row_answers_from_its_own_values(
    x: &Rows,
    row: usize,
    name: &str,
    column: int,
    r: Option<&str>,
)
    requires
        forall|i: int, j: int|
            0 <= i < j < x.columns@.len() ==> (#[trigger] x.columns@[i])@ != (
            #[trigger] x.columns@[j])@,
        0 <= column < x.columns@.len(),
        name@ == x.columns@[column]@,
        row < x.rows@.len(),
        call_ensures(Rows::get, (x, row, name), r),
    ensures
        column < x.rows@[row as int]@.len() ==> r is Some && r->0@
            == x.rows@[row as int]@[column]@,
        column >= x.rows@[row as int]@.len() ==> r is None,
{
    let m = x.model();
    assert(m.rows[row as int] == x.rows@[row as int].model());
    assert forall|k: int| 0 <= k < column implies #[trigger] m.columns[k] != name@ by {
        assert(m.columns[k] == x.columns@[k]@);
        assert(x.columns@[k]@ != x.columns@[column]@);
    }
    assert(m.columns[column] == x.columns@[column]@);
    only_a_value_that_was_sent_is_found(m, row as int, name@, column);
    if column < x.rows@[row as int]@.len() {
        assert(m.rows[row as int][column] == x.rows@[row as int]@[column]@);
    }
}

/// What `Rows::get`, `Rows::len` and `Rows::is_empty` give where nothing was sent, and
/// how many rows there are.
pub proof fn rows_are_as_many_as_were_sent(
    x: &Rows,
    row: usize,
    name: &str,
    r: Option<&str>,
    n: usize,
    b: bool,
)
    ensures
        call_ensures(Rows::len, (x,), n) ==> n == x.rows@.len(),
        call_ensures(Rows::is_empty, (x,), b) ==> (b <==> x.rows@.len() == 0),
        call_ensures(Rows::get, (x, row, name), r) && row >= x.rows@.len() ==> r is None,
        call_ensures(Rows::get, (x, row, name), r) && (forall|k: int|
            0 <= k < x.columns@.len() ==> (#[trigger] x.columns@[k])@ != name@) ==> r is None,
{
    let m = x.model();
    only_a_value_that_was_sent_is_found(m, row as int, name@, 0);
    if forall|k: int| 0 <= k < x.columns@.len() ==> (#[trigger] x.columns@[k])@ != name@ {
        assert forall|k: int| 0 <= k < m.columns.len() implies #[trigger] m.columns[k] != name@ by {
            assert(m.columns[k] == x.columns@[k]@);
        }
    }
}

/// What `Rows::maps` gives: a map for every row, with every value of the row under the
/// name of its column.
pub proof fn every_row_becomes_a_map(
    x: &Rows,
    maps: Vec<StringHashMap<String>>,
    row: int,
    column: int,
)
    requires
        call_ensures(Rows::maps, (x,), maps),
        forall|i: int, j: int|
            0 <= i < j < x.columns@.len() ==> (#[trigger] x.columns@[i])@ != (
            #[trigger] x.columns@[j])@,
    ensures
        maps@.len() == x.rows@.len(),
        0 <= row < x.rows@.len() && 0 <= column < x.columns@.len() && column
            < x.rows@[row]@.len() ==> {
            &&& maps@[row]@.dom().contains(x.columns@[column]@)
            &&& maps@[row]@[x.columns@[column]@]@ == x.rows@[row]@[column]@
        },
{
    let m = x.model();
    if 0 <= row < x.rows@.len() && 0 <= column < x.columns@.len() && column < x.rows@[row]@.len() {
        assert(m.rows[row] == x.rows@[row].model());
        assert(m.rows[row][column] == x.rows@[row]@[column]@);
        let name = x.columns@[column]@;
        assert(m.columns[column] == name);
        assert forall|k: int| column < k < m.columns.len() && k < m.rows[row].len() implies
            #[trigger] m.columns[k] != m.columns[column] by {
            assert(m.columns[k] == x.columns@[k]@);
            assert(x.columns@[column]@ != x.columns@[k]@);
        }
        a_row_maps_each_column_to_its_value(m.columns, m.rows[row], column, name);
        assert(texts_of(maps@[row]@).dom().contains(name));
        a_map_is_seen_as_its_texts(maps@[row]@, name);
    }
}

/// What `build_transaction_script` gives: `BEGIN`, every statement in order, each closed
/// by a semicolon, and `COMMIT`, beside every parameter in order.
pub proof fn a_built_script_holds_every_statement(
    statements: &[Statement],
    r: Result<(String, Vec<Param>)>,
)
    requires
        call_ensures(build_transaction_script, (statements,), r),
        statements@.len() > 0,
        forall|i: int|
            0 <= i < statements@.len() ==> {
                let part = bare((#[trigger] statements@[i]).sql@);
                part.len() > 0 && !is_control(leading_word(part))
            },
    ensures
        r is Ok,
        r matches Ok((text, params)) ==> {
            &&& text@ == statement_views(statements@).fold_left(
                "BEGIN;"@,
                |text: Seq<char>, s: StatementView| text + " "@ + bare(s.sql) + ";"@,
            ) + " COMMIT"@
            &&& param_views(params@) == statement_views(statements@).fold_left(
                Seq::<ParamView>::empty(),
                |params: Seq<ParamView>, s: StatementView| params + s.params,
            )
        },
{
    let views = statement_views(statements@);
    assert forall|i: int| 0 <= i < views.len() implies script_part(#[trigger] views[i].sql)
        is Ok by {
        assert(views[i].sql == statements@[i].sql@);
    }
    a_script_holds_every_statement(views);
}

/// What two calls of `build_transaction_script` have to do with one another: one more
/// statement puts its text before the closing `COMMIT`, and its parameters last.
pub proof fn a_longer_script_extends_the_shorter(
    fewer: &[Statement],
    more: &[Statement],
    last: Statement,
    r: Result<(String, Vec<Param>)>,
    q: Result<(String, Vec<Param>)>,
)
    requires
        more@ == fewer@.push(last),
        bare(last.sql@).len() > 0,
        !is_control(leading_word(bare(last.sql@))),
        call_ensures(build_transaction_script, (fewer,), r),
        call_ensures(build_transaction_script, (more,), q),
        r is Ok,
    ensures
        q is Ok,
        r matches Ok((short, some)) ==> (q matches Ok((long, all)) ==> {
            &&& long@ == short@.take(short@.len() - "COMMIT"@.len()) + bare(last.sql@)
                + "; COMMIT"@
            &&& param_views(all@) == param_views(some@) + param_views(last.params@)
        }),
{
    assert(statement_views(more@) =~= statement_views(fewer@).push(last@));
    one_more_statement_extends_the_script(statement_views(fewer@), last@);
}

/// What `Statement::new` and `Statement::with_params` make.
pub proof fn statements_are_made_of_what_was_given(sql: &str, params: Vec<Param>, s: Statement)
    ensures
        call_ensures(Statement::new, (sql,), s) ==> s.sql@ == sql@ && s.params@.len() == 0,
        call_ensures(Statement::with_params, (sql, params), s) ==> s.sql@ == sql@
            && s.params@.len() == params@.len() && forall|i: int|
            0 <= i < params@.len() ==> #[trigger] s.params@[i]@ == params@[i]@,
{
    if call_ensures(Statement::new, (sql,), s) {
        assert(s@.params.len() == 0);
    }
    if call_ensures(Statement::with_params, (sql, params), s) {
        assert(s@.params == param_views(params@));
        assert forall|i: int| 0 <= i < params@.len() implies #[trigger] s.params@[i]@
            == params@[i]@ by {
            assert(s@.params[i] == params@[i]@);
        }
    }
}

/// What `execute` and `query` send: the statement alone, under what is to be done with
/// it.
pub proof fn a_statement_without_parameters_is_sent_alone(
    c: &mut Client,
    sql: &str,
    r: Result<Vec<u8>>,
)
    ensures
        call_ensures(Client::execute, (c, sql), r) ==> sends(
            old(c)@,
            final(c)@,
            JsonTree::Object(
                map![
                    "Sql"@ => JsonTree::Object(
                        map!["Exec"@ => JsonTree::Object(map!["sql"@ => JsonTree::Text(sql@)])],
                    ),
                ],
            ),
            r,
        ),
        call_ensures(Client::query, (c, sql), r) ==> sends(
            old(c)@,
            final(c)@,
            JsonTree::Object(
                map![
                    "Sql"@ => JsonTree::Object(
                        map!["Query"@ => JsonTree::Object(map!["sql"@ => JsonTree::Text(sql@)])],
                    ),
                ],
            ),
            r,
        ),
{
    a_statement_is_sent_with_its_text_and_values("Exec"@, sql@, Seq::empty());
    a_statement_is_sent_with_its_text_and_values("Query"@, sql@, Seq::empty());
}

/// What `execute_params` and `query_params` send: the statement and its parameters
/// beside it, when all of them may be bound.
pub proof fn a_statement_is_sent_with_its_parameters_beside_it(
    c: &mut Client,
    sql: &str,
    params: &[Param],
    r: Result<Vec<u8>>,
)
    requires
        params@.len() > 0,
        binding_problem(old(c)@.granted_features, param_views(params@)) is None,
    ensures
        call_ensures(Client::execute_params, (c, sql, params), r) ==> sends(
            old(c)@,
            final(c)@,
            JsonTree::Object(
                map![
                    "Sql"@ => JsonTree::Object(
                        map![
                            "Exec"@ => JsonTree::Object(
                                map![
                                    "sql"@ => JsonTree::Text(sql@),
                                    "params"@ => params_tree(param_views(params@)),
                                ],
                            ),
                        ],
                    ),
                ],
            ),
            r,
        ),
        call_ensures(Client::query_params, (c, sql, params), r) ==> sends(
            old(c)@,
            final(c)@,
            JsonTree::Object(
                map![
                    "Sql"@ => JsonTree::Object(
                        map![
                            "Query"@ => JsonTree::Object(
                                map![
                                    "sql"@ => JsonTree::Text(sql@),
                                    "params"@ => params_tree(param_views(params@)),
                                ],
                            ),
                        ],
                    ),
                ],
            ),
            r,
        ),
{
    a_statement_is_sent_with_its_text_and_values("Exec"@, sql@, param_views(params@));
    a_statement_is_sent_with_its_text_and_values("Query"@, sql@, param_views(params@));
}

/// What `transaction` sends: the script of its statements as one statement, or nothing
/// when there is no such script.
pub proof fn a_transaction_is_sent_as_one_script(
    c: &mut Client,
    statements: &[Statement],
    r: Result<Vec<u8>>,
)
    requires
        call_ensures(Client::transaction, (c, statements), r),
    ensures
        script(statement_views(statements@)) matches Ok(s) ==> runs(
            old(c)@,
            final(c)@,
            "Exec"@,
            s.text,
            s.params,
            r,
        ),
        script(statement_views(statements@)) matches Err(e) ==> final(c)@ == old(c)@ && r is Err
            && r->Err_0@ == e,
{
}

/// What `begin`, `commit` and `rollback` send. Without the capability a begin sends
/// nothing.
pub proof fn controls_are_sent_as_statements(c: &mut Client, r: Result<Vec<u8>>)
    ensures
        call_ensures(Client::begin, (c,), r) && old(c)@.granted_features & 4 == 0 ==> final(c)@
            == old(c)@ && r is Err && r->Err_0@ == ungranted(NO_SESSION_TXN@),
        call_ensures(Client::begin, (c,), r) && old(c)@.granted_features & 4 != 0 ==> sends(
            old(c)@,
            final(c)@,
            sql_op("Exec"@, "BEGIN"@, Seq::empty()),
            r,
        ),
        call_ensures(Client::commit, (c,), r) ==> sends(
            old(c)@,
            final(c)@,
            sql_op("Exec"@, "COMMIT"@, Seq::empty()),
            r,
        ),
        call_ensures(Client::rollback, (c,), r) ==> sends(
            old(c)@,
            final(c)@,
            sql_op("Exec"@, "ROLLBACK"@, Seq::empty()),
            r,
        ),
{
}

/// What `control_reply` answers and does: a transaction is open afterwards exactly when
/// it was begun.
pub proof fn a_control_is_answered_and_kept(
    c: &mut Client,
    control: Control,
    reply: Result<Frame>,
    r: Result<TransactionResult>,
)
    requires
        call_ensures(Client::control_reply, (c, control, reply), r),
    ensures
        r is Ok ==> final(c)@.txn_open == (control == Control::Begin),
        control != Control::Begin ==> !final(c)@.txn_open,
        r is Err && control == Control::Begin && response_result(reply_view(reply)) is Err
            && old(c)@.fault is None ==> final(c)@.txn_open ==> old(c)@.txn_open,
        r matches Ok(x) ==> control_result(control, reply_view(reply)) == Ok::<
            TransactionResultView,
            ErrorView,
        >(x.model()),
        r matches Err(e) ==> control_result(control, reply_view(reply)) == Err::<
            TransactionResultView,
            ErrorView,
        >(e@),
{
}

/// What `with_transaction` and `transaction_outcome` decide: work that succeeded is
/// committed, work that failed is rolled back where a transaction is open, and the first
/// failure is the outcome.
pub proof fn work_is_committed_when_it_succeeded(
    c: &Client,
    succeeded: bool,
    ending: Ending,
    x: u64,
    work: Error,
    commit: Result<TransactionResult>,
    r: Result<u64>,
)
    ensures
        call_ensures(Client::with_transaction, (c, succeeded), ending) ==> (ending
            == Ending::Commit <==> succeeded),
        call_ensures(Client::with_transaction, (c, succeeded), ending) ==> (ending
            == Ending::Rollback <==> !succeeded && c@.txn_open && c@.fault is None && !c@.closed),
        call_ensures(transaction_outcome::<u64>, (Err(work), commit), r) ==> r == Err::<u64, Error>(
            work,
        ),
        call_ensures(transaction_outcome::<u64>, (Ok(x), commit), r) && commit is Ok ==> r == Ok::<
            u64,
            Error,
        >(x),
        call_ensures(transaction_outcome::<u64>, (Ok(x), commit), r) ==> (commit matches Err(e)
            ==> r == Err::<u64, Error>(e)),
{
}

/// A text becomes a statement without parameters.
pub proof fn a_text_becomes_a_statement(sql: &str, s: Statement)
    requires
        call_ensures(<Statement as From<&str>>::from, (sql,), s),
    ensures
        s.sql@ == sql@,
        s.params@.len() == 0,
{
    assert(s@.params.len() == 0);
}

} // verus!
