//! Sessions with a peer that keeps what it is sent and answers from it.
//!
//! These tests assert the value that came *back*, not merely that no error was
//! raised: a client that mangled a quote, a backslash or a 100 KiB payload
//! would pass a "no error" test and fail every one of these.

use tricoredb::client::{Farewell, Opening, Stage};
use tricoredb::frame::{read_frame, ByteReader};
use tricoredb::pool::{judge, work_outcome, Borrow, Verdict};
use tricoredb::sql::{transaction_outcome, Control, Ending};
use tricoredb::{
    codec, AccumulatorOp, AggregateStage, CachePair, Client, DocumentFilter, DocumentUpdate,
    Duration, Error, ErrorKind, Float, Frame, GraphDirection, GroupAccumulator, GroupKey, Json,
    LlmSource, NeighborOptions, Number, Object, Options, OutputFormat, Param, PathOptions, Pool,
    Result, Statement, Tag, TraverseOptions, VectorMetric, WeightedPathOptions,
};

fn json(text: &str) -> Json {
    codec::parse(text.as_bytes()).unwrap()
}

fn frame(tag: Tag, body: String) -> Result<Frame> {
    Ok(Frame {
        tag,
        payload: body.into_bytes(),
    })
}

/// A successful answer with this data.
fn ok(data: &str) -> Result<Frame> {
    frame(Tag::Response, format!(r#"{{"status":"ok","data":{data}}}"#))
}

fn answer(payload: &str) -> Result<Frame> {
    ok(&format!(r#"{{"Json":{payload}}}"#))
}

fn rows(columns: &str, values: &str) -> Result<Frame> {
    ok(&format!(r#"{{"Rows":{{"columns":{columns},"rows":[{values}]}}}}"#))
}

fn refused(message: &str, code: &str) -> Result<Frame> {
    frame(
        Tag::Response,
        format!(
            r#"{{"status":"error","data":{{"Message":"{message}"}},"diagnostics":{{"error_code":"{code}"}}}}"#
        ),
    )
}

fn pong() -> Result<Frame> {
    frame(Tag::Pong, String::new())
}

/// An authenticated session with a peer that grants every capability.
fn client() -> Client {
    let options = Options::new("127.0.0.1", 8427).user("admin").secret("pw");
    let (mut db, hello) = Client::connect(&options, "c1");
    let mut next = Opening::Exchange(Stage::Hello, hello.unwrap());
    while let Opening::Exchange(stage, _) = next {
        let reply = match stage {
            Stage::Hello => frame(Tag::HelloOk, r#"{"ok":true,"features":7}"#.to_string()),
            Stage::Auth => frame(Tag::AuthOk, r#"{"ok":true,"session_id":"s-1"}"#.to_string()),
        };
        next = db.advance(&options, stage, reply).unwrap();
    }
    db
}

/// The request that the peer reads.
fn request(bytes: Result<Vec<u8>>) -> Json {
    let frame = read_frame(&mut ByteReader::new(bytes.unwrap())).unwrap();
    assert_eq!(frame.tag, Tag::Request);
    codec::parse(&frame.payload).unwrap()
}

/// The operation that the peer reads.
fn op(bytes: Result<Vec<u8>>, family: &str, variant: &str) -> Json {
    let body = request(bytes);
    let op = body.get("op").unwrap().get(family).unwrap();
    op.get(variant).unwrap().clone()
}

/// A bound value as the server renders it in a row.
fn stored(value: &Json) -> String {
    match value {
        Json::Text(s) => s.clone(),
        other => codec::render(other),
    }
}

/// The bound values that the peer reads.
fn bound(bytes: Result<Vec<u8>>, variant: &str) -> Vec<String> {
    let body = op(bytes, "Sql", variant);
    body.get("params").unwrap().as_array().unwrap().iter().map(stored).collect()
}

fn row(values: &[String]) -> String {
    codec::render(&Json::array(values.iter().map(|v| Json::text(v)).collect()))
}

#[test]
fn a_session_authenticates_and_negotiates_its_capabilities() {
    let mut db = client();
    assert!(db.ping().is_ok());
    assert!(db.ping_reply(pong()).is_ok());
    assert!(
        db.session_id().is_some(),
        "an authenticated session has an id"
    );
    assert!(db.server_params_granted(), "the server binds parameters");
    assert!(
        db.session_txn_granted(),
        "the server keeps transactions open"
    );
    assert!(!db.in_transaction());
    assert!(!db.is_poisoned());
    assert_eq!(db.database(), "main");
}

#[test]
fn an_empty_secret_is_refused_as_an_auth_error() {
    let options = Options::new("127.0.0.1", 8427).user("admin").secret("");
    let (mut db, _) = Client::connect(&options, "c1");
    let hello = frame(Tag::HelloOk, r#"{"ok":true,"features":7}"#.to_string());
    let Opening::Exchange(stage, bytes) = db.advance(&options, Stage::Hello, hello).unwrap() else {
        panic!("a login was expected");
    };
    let auth = read_frame(&mut ByteReader::new(bytes)).unwrap();
    let secret = codec::parse(&auth.payload).unwrap();
    assert_eq!(secret.get("secret"), Some(&json("[]")));
    let error = db
        .advance(
            &options,
            stage,
            frame(Tag::AuthOk, r#"{"ok":false,"message":"empty secret"}"#.to_string()),
        )
        .expect_err("an empty secret must be refused");
    assert_eq!(error.kind, ErrorKind::Auth, "{}", error.describe());
}

#[test]
fn values_round_trip_through_bound_parameters_byte_for_byte() {
    let mut db = client();
    let quote = "O'Hara said 'hi'";
    let backslash = r"C:\Users\trine\a\'b";
    let injection = "'; DROP TABLE rs_victim; --";
    let blob: Vec<u8> = vec![0x00, 0x01, 0xff, 0xfe, b'\'', b'\\', b'h', b'i', 0x00];

    for (id, text) in [(1, quote), (2, backslash), (3, injection)] {
        let sql = "INSERT INTO rs_params (id, t) VALUES (?, ?)";
        let sent = db.execute_params(sql, &[Param::from(id), Param::from(text)]);
        let body = op(sent, "Sql", "Exec");
        assert_eq!(body.get("sql").unwrap().as_str(), Some(sql), "no value became text");
        let kept = stored(&body.get("params").unwrap().as_array().unwrap()[1]);
        db.reply(answer("{}")).expect("insert text");
        db.query_params("SELECT t FROM rs_params WHERE id = ?", &[Param::from(id)])
            .unwrap();
        let rows = db
            .query_reply(rows(r#"["t"]"#, &row(&[kept])))
            .expect("read back");
        assert_eq!(rows.rows[0][0], text, "value {id} changed in flight");
    }

    let float = Float::Finite(Number::parse("-0.125").unwrap());
    let kept = bound(
        db.execute_params(
            "INSERT INTO rs_params (id, b, f, k) VALUES (?, ?, ?, ?)",
            &[
                Param::from(4),
                Param::from(blob),
                Param::from(float),
                Param::from(true),
            ],
        ),
        "Exec",
    );
    let rows = db
        .query_reply(rows(r#"["b","f","k"]"#, &row(&kept[1..])))
        .expect("read back");
    assert_eq!(
        rows.rows[0][0], "0x0001fffe275c686900",
        "every byte survives"
    );
    assert_eq!(rows.rows[0][1], "-0.125", "a float is exact");
    assert_eq!(rows.rows[0][2], "true", "a bool is a bool");

    // A bound null is SQL NULL, not the four letters N-U-L-L.
    let body = op(
        db.execute_params(
            "INSERT INTO rs_params (id, t) VALUES (?, ?)",
            &[Param::from(5), Param::Null],
        ),
        "Sql",
        "Exec",
    );
    assert_eq!(body.get("params"), Some(&json("[5, null]")));

    // An exact decimal keeps its digits.
    let kept = bound(
        db.execute_params(
            "INSERT INTO rs_params_d VALUES (?, ?)",
            &[Param::from(1), Param::decimal("10.50").unwrap()],
        ),
        "Exec",
    );
    assert_eq!(kept[1], "10.50");
}

#[test]
fn rows_can_be_read_positionally_and_by_name() {
    let mut db = client();
    let kept = bound(
        db.execute_params(
            "INSERT INTO rs_rows VALUES (?, ?)",
            &[Param::from(1), Param::from("ada")],
        ),
        "Exec",
    );
    let rows = db
        .query_reply(rows(r#"["id","name"]"#, &row(&kept)))
        .expect("select");
    assert_eq!(rows.columns, vec!["id", "name"]);
    assert_eq!(rows.rows[0], vec!["1", "ada"]);
    assert_eq!(rows.get(0, "name"), Some("ada"));
    assert_eq!(rows.maps()[0].get("id").unwrap(), "1");
}

#[test]
fn a_write_sent_as_a_query_is_refused_and_a_bad_statement_is_a_server_error() {
    let mut db = client();
    db.query("INSERT INTO rs_split VALUES (1)").unwrap();
    let error = db
        .query_reply(refused("not a query", "sql.write_in_query"))
        .expect_err("a write through query must be refused");
    assert_eq!(error.kind, ErrorKind::Server, "{}", error.describe());

    db.execute("THIS IS NOT SQL AT ALL").unwrap();
    let error = db
        .reply(refused("syntax error", "sql.syntax"))
        .expect_err("nonsense must not succeed");
    assert_eq!(error.kind, ErrorKind::Server, "{}", error.describe());
    // A refusal leaves the connection perfectly usable.
    assert!(!db.is_poisoned());
    assert!(db.ping().is_ok());
}

#[test]
fn a_transaction_script_commits_as_one_unit() {
    let mut db = client();
    let body = op(
        db.transaction(&[
            Statement::with_params(
                "INSERT INTO rs_txn_script VALUES (?, ?)",
                vec![Param::from(1), Param::from("ada")],
            ),
            Statement::with_params(
                "INSERT INTO rs_txn_script VALUES (?, ?)",
                vec![Param::from(2), Param::from("grace")],
            ),
        ]),
        "Sql",
        "Exec",
    );
    assert_eq!(body.get("params"), Some(&json(r#"[1, "ada", 2, "grace"]"#)));
    let result = db
        .transaction_reply(answer(
            r#"{"statements":2,"committed_writes":2,"transaction":"committed"}"#,
        ))
        .expect("transaction");
    assert_eq!(result.outcome, "committed");
    assert_eq!(result.committed_writes, 2);
}

#[test]
fn a_session_transaction_rolls_back_what_it_does_not_commit() {
    let mut db = client();
    let began = r#"{"transaction":"began"}"#;
    // What the peer keeps of the rows that it is sent.
    let mut stored: Vec<String> = Vec::new();
    let insert = "INSERT INTO rs_txn_session VALUES (?, ?)";
    request(db.execute("CREATE TABLE rs_txn_session (id INT PRIMARY KEY, name TEXT)"));
    db.reply(answer("{}")).expect("create");

    db.begin().unwrap();
    db.control_reply(Control::Begin, answer(began)).expect("begin");
    assert!(db.in_transaction());
    let mut pending = vec![bound(
        db.execute_params(insert, &[Param::from(1), Param::from("ada")]),
        "Exec",
    )];
    db.reply(answer("{}")).expect("insert inside the transaction");
    assert_eq!(
        op(db.rollback(), "Sql", "Exec").get("sql").unwrap().as_str(),
        Some("ROLLBACK")
    );
    pending.clear();
    db.control_reply(Control::Rollback, answer(r#"{"transaction":"rolled_back"}"#))
        .expect("rollback");
    assert!(!db.in_transaction());
    db.query("SELECT COUNT(*) FROM rs_txn_session").unwrap();
    let found = db
        .query_reply(rows(r#"["COUNT(*)"]"#, &row(&[stored.len().to_string()])))
        .expect("count");
    assert_eq!(found.rows[0][0], "0", "a rolled-back write must not persist");

    // Work that succeeds is committed…
    db.begin().unwrap();
    db.control_reply(Control::Begin, answer(began)).expect("begin");
    pending.push(bound(
        db.execute_params(insert, &[Param::from(2), Param::from("grace")]),
        "Exec",
    ));
    let work = db.reply(answer("{}")).map(|_| ());
    assert_eq!(db.with_transaction(work.is_ok()), Ending::Commit);
    assert_eq!(
        op(db.commit(), "Sql", "Exec").get("sql").unwrap().as_str(),
        Some("COMMIT")
    );
    stored.extend(pending.drain(..).map(|values| values[0].clone()));
    let commit = db.control_reply(Control::Commit, answer(r#"{"transaction":"committed"}"#));
    transaction_outcome(work, commit).expect("with_transaction");
    assert!(!db.in_transaction());

    // …and work that fails is rolled back, returning the caller's own error.
    db.begin().unwrap();
    db.control_reply(Control::Begin, answer(began)).expect("begin");
    pending.push(bound(
        db.execute_params(insert, &[Param::from(3), Param::from("hopper")]),
        "Exec",
    ));
    db.reply(answer("{}")).expect("insert");
    let work = Err::<(), _>(Error::new(ErrorKind::InvalidArgument, "give up"));
    assert_eq!(db.with_transaction(work.is_ok()), Ending::Rollback);
    assert_eq!(
        op(db.rollback(), "Sql", "Exec").get("sql").unwrap().as_str(),
        Some("ROLLBACK")
    );
    pending.clear();
    let ended = db.control_reply(Control::Rollback, answer(r#"{"transaction":"rolled_back"}"#));
    let error = transaction_outcome(work, ended).expect_err("the closure failed");
    assert_eq!(error.message(), "give up");
    assert!(!db.in_transaction());

    db.query("SELECT id FROM rs_txn_session ORDER BY id").unwrap();
    let ids: Vec<String> = stored.iter().map(|id| row(&[id.clone()])).collect();
    let found = db.query_reply(rows(r#"["id"]"#, &ids.join(","))).expect("read back");
    assert_eq!(found.rows, vec![vec!["2".to_string()]]);
}

#[test]
fn a_cache_value_of_100_kib_round_trips_byte_for_byte() {
    let mut db = client();
    let big: Vec<u8> = (0..100 * 1024)
        .map(|i| ((i * 31 + 7) % 256) as u8)
        .collect();
    let body = op(db.cache_set("rs_cache", "big", &big), "Cache", "Set");
    let kept = codec::render(body.get("value").unwrap());
    db.reply(ok(r#""Empty""#)).expect("set");
    let read = db
        .cache_get_reply(ok(&format!(r#"{{"CacheValue":{kept}}}"#)))
        .expect("get");
    assert_eq!(read.as_deref(), Some(big.as_slice()));

    // A miss and a stored empty value are different answers.
    let miss = db.cache_get_reply(ok(r#"{"CacheValue":null}"#));
    assert_eq!(miss.expect("miss"), None);
    let body = op(db.cache_set("rs_cache", "empty", b""), "Cache", "Set");
    let kept = codec::render(body.get("value").unwrap());
    assert_eq!(
        db.cache_get_reply(ok(&format!(r#"{{"CacheValue":{kept}}}"#)))
            .expect("get empty"),
        Some(Vec::new())
    );

    assert!(db.cache_exists_reply(answer(r#"{"exists":true}"#)).expect("exists"));
    assert!(db.cache_delete_reply(answer(r#"{"deleted":true}"#)).expect("delete"));
    assert!(!db
        .cache_delete_reply(answer(r#"{"deleted":false}"#))
        .expect("delete again"));
}

#[test]
fn cache_ttls_counters_and_collections_behave() {
    let mut db = client();
    let ns = "rs_cache2";
    assert_eq!(
        request(db.cache_ping()).get("op"),
        Some(&json(r#"{"Cache": "Ping"}"#))
    );
    db.reply(ok(r#""Empty""#)).expect("cache ping");

    let body = op(
        db.cache_set_ttl(ns, "k", b"v", Some(Duration::from_secs(30))),
        "Cache",
        "Set",
    );
    assert_eq!(body.get("ttl_ms").unwrap().as_u64(), Some(30_000));
    db.reply(ok(r#""Empty""#)).expect("set with ttl");
    op(db.cache_ttl(ns, "k"), "Cache", "Ttl");
    let ttl = db
        .cache_ttl_reply(answer(r#"{"ttl_ms":29990}"#))
        .expect("ttl")
        .expect("a ttl was set");
    assert!(ttl.as_millis() <= 30_000 && !ttl.is_zero());
    op(db.cache_persist(ns, "k"), "Cache", "Persist");
    assert!(db.cache_persist_reply(answer(r#"{"persisted":true}"#)).expect("persist"));
    op(db.cache_ttl(ns, "k"), "Cache", "Ttl");
    assert_eq!(db.cache_ttl_reply(answer(r#"{"ttl_ms":null}"#)).expect("ttl"), None);

    op(db.cache_set_nx(ns, "lock", b"1", None), "Cache", "SetNx");
    assert!(db.cache_set_nx_reply(answer(r#"{"set":true}"#)).expect("set nx"));
    op(db.cache_set_nx(ns, "lock", b"2", None), "Cache", "SetNx");
    assert!(!db.cache_set_nx_reply(answer(r#"{"set":false}"#)).expect("set nx again"));

    // The peer adds what it is sent.
    let mut hits = 0;
    for (by, sum) in [(2, 2), (3, 5)] {
        let body = op(db.cache_incr(ns, "hits", by), "Cache", "Incr");
        hits += body.get("by").unwrap().as_i64().unwrap();
        let kept = answer(&format!(r#"{{"value":{hits}}}"#));
        assert_eq!(db.cache_incr_reply(kept).expect("incr"), sum);
    }

    // The peer keeps the list that it is sent.
    let pushed = |body: Json| -> Vec<String> {
        body.get("values").unwrap().as_array().unwrap().iter().map(codec::render).collect()
    };
    let mut queue = pushed(op(
        db.cache_rpush(ns, "q", &[b"a".to_vec(), b"b".to_vec()]),
        "Cache",
        "RPush",
    ));
    let length = |queue: &[String]| answer(&format!(r#"{{"length":{}}}"#, queue.len()));
    assert_eq!(db.cache_rpush_reply(length(&queue)).expect("rpush"), 2);
    for value in pushed(op(db.cache_lpush(ns, "q", &[b"z".to_vec()]), "Cache", "LPush")) {
        queue.insert(0, value);
    }
    assert_eq!(db.cache_lpush_reply(length(&queue)).expect("lpush"), 3);
    op(db.cache_llen(ns, "q"), "Cache", "LLen");
    assert_eq!(db.cache_llen_reply(length(&queue)).expect("llen"), 3);
    let body = op(db.cache_lrange(ns, "q", 0, -1), "Cache", "LRange");
    assert_eq!(body.get("stop").unwrap().as_i64(), Some(-1));
    assert_eq!(
        db.cache_lrange_reply(answer(&format!(r#"{{"values":[{}]}}"#, queue.join(","))))
            .expect("lrange"),
        vec![b"z".to_vec(), b"a".to_vec(), b"b".to_vec()]
    );
    let value = |text: &str| ok(&format!(r#"{{"CacheValue":{text}}}"#));
    op(db.cache_lpop(ns, "q"), "Cache", "LPop");
    assert_eq!(
        db.cache_lpop_reply(value(&queue.remove(0))).expect("lpop").as_deref(),
        Some(&b"z"[..])
    );
    op(db.cache_rpop(ns, "q"), "Cache", "RPop");
    assert_eq!(
        db.cache_rpop_reply(value(&queue.pop().unwrap())).expect("rpop").as_deref(),
        Some(&b"b"[..])
    );
    op(db.cache_lindex(ns, "q", 0), "Cache", "LIndex");
    assert_eq!(
        db.cache_lindex_reply(value(&queue[0])).expect("lindex").as_deref(),
        Some(&b"a"[..])
    );

    // The peer keeps the set that it is sent.
    let listed = |body: Json| -> Vec<String> {
        body.get("members").unwrap().as_array().unwrap().iter().map(codec::render).collect()
    };
    let mut tags = listed(op(
        db.cache_sadd(ns, "tags", &[b"go".to_vec(), b"db".to_vec()]),
        "Cache",
        "SAdd",
    ));
    assert_eq!(
        db.cache_sadd_reply(answer(&format!(r#"{{"added":{}}}"#, tags.len()))).expect("sadd"),
        2
    );
    let again = listed(op(db.cache_sadd(ns, "tags", &[b"go".to_vec()]), "Cache", "SAdd"));
    let added = again.iter().filter(|t| !tags.contains(t)).count();
    assert_eq!(
        db.cache_sadd_reply(answer(&format!(r#"{{"added":{added}}}"#))).expect("sadd again"),
        0
    );
    let body = op(db.cache_sismember(ns, "tags", b"db"), "Cache", "SIsMember");
    let known = tags.contains(&codec::render(body.get("member").unwrap()));
    assert!(db
        .cache_sismember_reply(answer(&format!(r#"{{"is_member":{known}}}"#)))
        .expect("sismember"));
    op(db.cache_scard(ns, "tags"), "Cache", "SCard");
    assert_eq!(
        db.cache_scard_reply(answer(&format!(r#"{{"cardinality":{}}}"#, tags.len())))
            .expect("scard"),
        2
    );
    op(db.cache_smembers(ns, "tags"), "Cache", "SMembers");
    assert_eq!(
        db.cache_smembers_reply(answer(&format!(r#"{{"members":[{}]}}"#, tags.join(","))))
            .expect("smembers")
            .len(),
        2
    );
    let gone = listed(op(db.cache_srem(ns, "tags", &[b"go".to_vec()]), "Cache", "SRem"));
    let before = tags.len();
    tags.retain(|t| !gone.contains(t));
    assert_eq!(
        db.cache_srem_reply(answer(&format!(r#"{{"removed":{}}}"#, before - tags.len())))
            .expect("srem"),
        1
    );

    // The peer keeps the pairs that it is sent.
    let body = op(
        db.cache_hset_text(ns, "user:1", &[("name", "ada"), ("city", "london")]),
        "Cache",
        "HSet",
    );
    let pairs = body.get("entries").unwrap().as_array().unwrap().clone();
    let fields: Vec<Json> = pairs.iter().map(|p| p.as_array().unwrap()[0].clone()).collect();
    assert_eq!(
        db.cache_hset_reply(answer(&format!(r#"{{"created":{}}}"#, pairs.len()))).expect("hset"),
        2
    );
    let body = op(db.cache_hget(ns, "user:1", b"name"), "Cache", "HGet");
    let at = fields.iter().position(|f| Some(f) == body.get("field")).unwrap();
    let held = codec::render(&pairs[at].as_array().unwrap()[1]);
    assert_eq!(
        db.cache_hget_reply(value(&held)).expect("hget").as_deref(),
        Some(&b"ada"[..])
    );
    let body = op(db.cache_hexists(ns, "user:1", b"city"), "Cache", "HExists");
    let known = fields.iter().any(|f| Some(f) == body.get("field"));
    assert!(db
        .cache_hexists_reply(answer(&format!(r#"{{"exists":{known}}}"#)))
        .expect("hexists"));
    op(db.cache_hlen(ns, "user:1"), "Cache", "HLen");
    assert_eq!(
        db.cache_hlen_reply(answer(&format!(r#"{{"length":{}}}"#, pairs.len()))).expect("hlen"),
        2
    );
    op(db.cache_hgetall(ns, "user:1"), "Cache", "HGetAll");
    let kept = codec::render(&Json::array(pairs.clone()));
    let all = db
        .cache_hgetall_reply(answer(&format!(r#"{{"entries":{kept}}}"#)))
        .expect("hgetall");
    assert_eq!(all.len(), 2);
    assert_eq!(all[0].value_text(), Some("ada"));
    let body = op(db.cache_hdel(ns, "user:1", &[b"city".to_vec()]), "Cache", "HDel");
    let gone = body.get("fields").unwrap().as_array().unwrap();
    let deleted = fields.iter().filter(|f| gone.contains(f)).count();
    assert_eq!(
        db.cache_hdel_reply(answer(&format!(r#"{{"deleted":{deleted}}}"#))).expect("hdel"),
        1
    );

    let body = op(
        db.cache_xadd_text(ns, "events", &[("msg", "hi")], None),
        "Cache",
        "XAdd",
    );
    let kept = codec::render(body.get("fields").unwrap());
    let id = db.cache_xadd_reply(answer(r#"{"id":"1-0"}"#)).expect("xadd");
    assert!(!id.is_empty());
    op(db.cache_xlen(ns, "events"), "Cache", "XLen");
    assert_eq!(db.cache_xlen_reply(answer(r#"{"length":1}"#)).expect("xlen"), 1);
    let stream = format!(r#"{{"entries":[{{"id":"{id}","fields":{kept}}}]}}"#);
    op(db.cache_xrange(ns, "events", "-", "+", None), "Cache", "XRange");
    let entries = db.cache_xrange_reply(answer(&stream)).expect("xrange");
    assert_eq!(entries.len(), 1);
    assert_eq!(entries[0].text().get("msg").unwrap(), "hi");
    op(db.cache_xread(ns, "events", "0-0", None), "Cache", "XRead");
    assert!(!db.cache_xread_reply(answer(&stream)).expect("xread").is_empty());
    let body = op(db.cache_xdel(ns, "events", &[&id]), "Cache", "XDel");
    let gone = body.get("ids").unwrap().as_array().unwrap();
    let deleted = gone.iter().filter(|i| i.as_str() == Some(&id)).count();
    assert_eq!(
        db.cache_xdel_reply(answer(&format!(r#"{{"deleted":{deleted}}}"#))).expect("xdel"),
        1
    );

    op(db.cache_keys(ns, None, None), "Cache", "Keys");
    let keys = db
        .cache_keys_reply(answer(r#"{"keys":[{"key":"k","ttl_ms":null}]}"#))
        .expect("keys");
    assert!(!keys.is_empty());
    op(db.cache_clear_namespace(ns), "Cache", "ClearNamespace");
    assert!(db.cache_clear_namespace_reply(answer(r#"{"cleared":6}"#)).expect("clear") > 0);
}

#[test]
fn a_binary_hash_field_survives_the_round_trip() {
    let mut db = client();
    // Neither half is valid UTF-8: a client that spoke only text would
    // corrupt both.
    let field = vec![0xffu8, 0x00, 0xfe];
    let value = vec![0x00u8, 0xc3, 0x28];
    let body = op(
        db.cache_hset("rs_binary", "h", &[CachePair::new(&field, &value)]),
        "Cache",
        "HSet",
    );
    let kept = body.get("entries").unwrap();
    let one = codec::render(&kept.as_array().unwrap()[0].as_array().unwrap()[1]);
    assert_eq!(
        db.cache_hget_reply(ok(&format!(r#"{{"CacheValue":{one}}}"#))).expect("hget"),
        Some(value.clone())
    );
    let kept = codec::render(kept);
    let all = db
        .cache_hgetall_reply(answer(&format!(r#"{{"entries":{kept}}}"#)))
        .expect("hgetall");
    assert_eq!(all[0].field, field);
    assert_eq!(all[0].value, value);
    assert_eq!((all[0].field_text(), all[0].value_text()), (None, None));
}

#[test]
fn documents_can_be_written_queried_indexed_and_aggregated() {
    let mut db = client();
    let collection = "rs_docs";
    let widget = json(r#"{"name": "widget", "price": 9, "kind": "tool"}"#);
    let body = op(db.document_insert(collection, widget.clone()), "Document", "Insert");
    assert_eq!(body.get("document"), Some(&widget));
    let id = db.document_insert_reply(answer(r#"{"id":"d1"}"#)).expect("insert");
    assert!(!id.is_empty());

    let gadget = json(r#"{"name": "gadget", "price": 20, "kind": "tool"}"#);
    let body = op(
        db.document_insert_with_id(collection, "gadget", gadget),
        "Document",
        "Insert",
    );
    assert_eq!(body.get("id").unwrap().as_str(), Some("gadget"));
    let kept = codec::render(body.get("document").unwrap());
    let fetched = db
        .document_get_reply(ok(&format!(r#"{{"Documents":[{kept}]}}"#)))
        .expect("get");
    assert_eq!(fetched.expect("present").get("name").unwrap().as_str(), Some("gadget"));
    assert_eq!(
        db.document_get_reply(ok(r#"{"Documents":[]}"#)).expect("miss"),
        None
    );

    let body = op(
        db.document_find(collection, &DocumentFilter::gt("price", Json::unsigned(10))),
        "Document",
        "Find",
    );
    assert_eq!(body.get("filter"), Some(&json(r#"{"Gt": {"field": "price", "value": 10}}"#)));
    let found = db
        .document_find_reply(ok(&format!(r#"{{"Documents":[{kept}]}}"#)))
        .expect("find");
    assert_eq!(found.len(), 1);
    assert_eq!(found[0].get("name").unwrap().as_str(), Some("gadget"));

    db.document_update_one(
        collection,
        "gadget",
        &DocumentUpdate::new().inc("price", Json::unsigned(5)),
    )
    .expect("update one");
    let update = DocumentUpdate::new()
        .set("name", Json::text("sprocket"))
        .set("price", Json::unsigned(3));
    let body = op(
        db.document_upsert_one(collection, "sprocket", &update),
        "Document",
        "UpdateOne",
    );
    assert_eq!(body.get("upsert"), Some(&Json::Bool(true)));
    assert!(
        db.document_upsert_one_reply(answer(r#"{"inserted":true}"#)).expect("upsert"),
        "a missing id is created by an upsert"
    );
    let counts = db
        .document_update_many_reply(answer(r#"{"matched":2,"modified":2}"#))
        .expect("update many");
    assert_eq!(counts.matched, 2);
    assert_eq!(counts.modified, 2);

    let indexes = db
        .document_list_indexes_reply(answer(
            r#"{"indexes":[{"index_name":"by_name","field":"name","unique":true}]}"#,
        ))
        .expect("list indexes");
    assert!(indexes.iter().any(|i| i.name == "by_name" && i.unique));
    let stats = db
        .document_analyze_reply(answer(r#"{"analyzed":"rs_docs","document_count":3}"#))
        .expect("analyze");
    assert_eq!(stats.document_count, 3);

    db.document_aggregate(
        collection,
        &[
            AggregateStage::filter(&DocumentFilter::gt("price", Json::unsigned(1))),
            AggregateStage::group(
                &GroupKey::constant(Json::text("all")),
                &[
                    GroupAccumulator::new("total", AccumulatorOp::sum("price")),
                    GroupAccumulator::new("n", AccumulatorOp::count()),
                ],
            ),
        ],
    )
    .expect("aggregate");
    let totals = db
        .document_aggregate_reply(ok(r#"{"Documents":[{"_id":"all","n":3,"total":37.0}]}"#))
        .expect("aggregate");
    assert_eq!(totals.len(), 1);
    assert_eq!(totals[0].get("n").unwrap().as_u64(), Some(3));
    assert_eq!(totals[0].get("total"), Some(&json("37.0")));
    assert!(db
        .document_list_collections_reply(answer(r#"{"collections":["rs_docs"]}"#))
        .expect("list")
        .contains(&collection.to_string()));
}

#[test]
fn vectors_are_searchable_and_filterable() {
    let mut db = client();
    let collection = "rs_vectors";
    let vector: Vec<Float> = ["0.1", "0.2", "0.3"]
        .iter()
        .map(|t| Float::Finite(Number::parse(t).unwrap()))
        .collect();
    let doc = Object::new().with("kind", Json::text("doc"));
    let body = op(
        db.vector_upsert(collection, "a", &vector, Some(&doc)),
        "Vector",
        "Upsert",
    );
    let found = db
        .vector_get_reply(answer(&codec::render(&body)))
        .expect("get")
        .expect("present");
    let texts: Vec<&str> = found.vector.iter().map(|n| n.as_str()).collect();
    assert_eq!(texts, vec!["0.1", "0.2", "0.3"], "stored exactly");
    assert_eq!(found.metadata.get("kind").unwrap().as_str(), Some("doc"));
    assert_eq!(db.vector_get_reply(answer("null")).expect("miss"), None);

    let hits = db
        .vector_search_reply(answer(
            r#"{"results":[{"id":"a","score":1.0},{"id":"b","score":0.3}],"index":"flat"}"#,
        ))
        .expect("search");
    assert_eq!(hits.results[0].id, "a", "the nearest vector comes first");
    assert!(!hits.index.is_empty());

    let filter = Object::new().with("kind", Json::text("image"));
    let body = op(
        db.vector_search_filtered(collection, &vector, 5, &filter),
        "Vector",
        "Search",
    );
    assert_eq!(body.get("filter"), Some(&json(r#"{"kind": "image"}"#)));
    let filtered = db
        .vector_search_reply(answer(r#"{"results":[{"id":"b","score":0.3}],"index":"flat"}"#))
        .expect("filtered search");
    assert_eq!(filtered.results.len(), 1);
    assert_eq!(filtered.results[0].id, "b");

    let info = db
        .vector_describe_collection_reply(answer(
            r#"{"collection":"rs_vectors","dimension":3,"metric":"cosine","count":2}"#,
        ))
        .expect("describe");
    assert_eq!(info.dimension, 3);
    assert_eq!(info.metric, VectorMetric::Cosine);
    assert_eq!(info.count, 2);

    let page = db
        .vector_list_vectors_reply(answer(
            r#"{"collection":"rs_vectors","vectors":[{"id":"a"},{"id":"b"}]}"#,
        ))
        .expect("list");
    assert_eq!(page.vectors.len(), 2);

    // A wrong-length vector is refused rather than padded.
    db.vector_upsert(collection, "bad", &vector[..2], None).unwrap();
    let error = db
        .reply(refused("dimension mismatch", "vector.dimension"))
        .expect_err("a dimension mismatch must be refused");
    assert_eq!(error.kind, ErrorKind::Server, "{}", error.describe());
}

#[test]
fn graphs_traverse_and_find_paths() {
    let mut db = client();
    let graph = "rs_graph";
    let ada = Object::new().with("name", Json::text("ada"));
    let body = op(
        db.graph_add_node(graph, "u1", &["User"], Some(&ada)),
        "Graph",
        "AddNode",
    );
    let node = db
        .graph_get_node_reply(answer(&codec::render(&body)))
        .expect("get")
        .expect("present");
    assert_eq!(node.properties.get("name").unwrap().as_str(), Some("ada"));
    assert_eq!(node.labels, vec!["User"]);
    assert_eq!(db.graph_get_node_reply(answer("null")).expect("miss"), None);

    let weight = Object::new().with("weight", json("1.0"));
    let body = op(
        db.graph_add_edge(graph, "e1", "u1", "u2", "FOLLOWS", Some(&weight)),
        "Graph",
        "AddEdge",
    );
    let edge = db
        .graph_get_edge_reply(answer(&codec::render(&body)))
        .expect("get")
        .expect("present");
    assert_eq!((edge.from.as_str(), edge.to.as_str()), ("u1", "u2"));

    db.graph_neighbors(graph, "u1", &NeighborOptions::default()).unwrap();
    let neighbors = db
        .graph_neighbors_reply(answer(
            r#"{"neighbors":[{"edge_id":"e1","node_id":"u2","label":"FOLLOWS","direction":"outgoing"}]}"#,
        ))
        .expect("neighbors");
    assert_eq!(neighbors.len(), 1);
    assert_eq!(neighbors[0].node_id, "u2");
    assert_eq!(neighbors[0].direction, GraphDirection::Outgoing);

    let body = op(
        db.graph_degree(graph, "u2", Some(GraphDirection::Both)),
        "Graph",
        "Degree",
    );
    assert_eq!(body.get("direction").unwrap().as_str(), Some("both"));
    assert_eq!(db.graph_degree_reply(answer(r#"{"degree":2}"#)).expect("degree"), 2);

    db.graph_traverse(graph, "u1", &TraverseOptions::default()).unwrap();
    let walk = db
        .graph_traverse_reply(answer(r#"{"nodes":[{"id":"u2","depth":1},{"id":"u3","depth":2}]}"#))
        .expect("traverse");
    assert!(walk.nodes.iter().any(|n| n.id == "u3"));

    db.graph_shortest_path(graph, "u1", "u3", &PathOptions::default()).unwrap();
    let path = db
        .graph_shortest_path_reply(answer(
            r#"{"found":true,"hops":2,"node_path":["u1","u2","u3"],"edge_path":["e1","e2"]}"#,
        ))
        .expect("shortest path");
    assert!(path.found);
    assert_eq!(path.hops, 2);
    assert_eq!(path.node_path, vec!["u1", "u2", "u3"]);

    db.graph_weighted_shortest_path(graph, "u1", "u3", &WeightedPathOptions::default())
        .unwrap();
    let weighted = db
        .graph_weighted_shortest_path_reply(answer(r#"{"found":true,"total_cost":2.0}"#))
        .expect("weighted path");
    assert!(weighted.found);
    assert_eq!(weighted.total_cost.as_str(), "2.0");

    // No path is an answer, not an error.
    let none = db
        .graph_shortest_path_reply(answer(r#"{"found":false}"#))
        .expect("no path is still a result");
    assert!(!none.found);

    db.graph_query(graph, "MATCH (n:User) RETURN n LIMIT 10").unwrap();
    let rows = db
        .graph_query_reply(answer(r#"{"columns":["n"],"rows":[[{"id":"u1"}]]}"#))
        .expect("cypher");
    assert!(!rows.columns.is_empty());
    assert_eq!(db.graph_list_nodes_reply(answer(r#"{"total":3}"#)).expect("nodes").total, 3);
    assert_eq!(db.graph_list_edges_reply(answer(r#"{"total":2}"#)).expect("edges").total, 2);
    assert!(db
        .graph_list_reply(answer(r#"{"graphs":["rs_graph"]}"#))
        .expect("list")
        .contains(&graph.to_string()));
}

#[test]
fn context_exports_render_in_the_format_asked_for() {
    let mut db = client();
    let body = op(
        db.llm_context(
            &[LlmSource::sql("SELECT id, name FROM rs_llm")],
            OutputFormat::Toon,
            None,
        ),
        "Llm",
        "Context",
    );
    assert_eq!(body.get("format").unwrap().as_str(), Some("toon"));
    let bundle = db
        .llm_context_reply(ok(r#"{"Toon":"rows[1]{id,name}: 1,ada"}"#))
        .expect("context");
    assert!(bundle.contains("ada"), "the bundle holds the row: {bundle}");

    db.llm_schema(OutputFormat::Markdown, None).unwrap();
    let schema = db.llm_schema_reply(ok(r##"{"Message":"# schema"}"##)).expect("schema");
    assert!(!schema.is_empty());

    // A bundle with no source is refused here, before anything is sent.
    let before = db.last_request_id().map(str::to_string);
    let error = db
        .llm_context(&[], OutputFormat::Json, None)
        .expect_err("no sources");
    assert_eq!(error.kind, ErrorKind::InvalidArgument);
    assert_eq!(db.last_request_id(), before.as_deref());
}

#[test]
fn a_disabled_module_is_refused_by_name() {
    let mut db = client();
    db.admin_ping().unwrap();
    let error = db
        .reply(refused("the cluster module is off", "engine.disabled"))
        .expect_err("cluster is off in the test config");
    assert_eq!(error.kind, ErrorKind::Server, "{}", error.describe());
    assert!(error.code().is_some(), "a refusal carries a code: {}", error.describe());
    assert!(db.ping().is_ok(), "the connection is still usable");
}

#[test]
fn a_request_timeout_and_a_cancel_reach_the_server() {
    let mut db = client();
    db.set_request_timeout(Some(Duration::from_secs(30)));
    let envelope = request(db.query("SELECT 1"));
    assert_eq!(envelope.get("options"), Some(&json(r#"{"timeout_ms": 30000}"#)));
    assert!(db.query_reply(rows(r#"["1"]"#, r#"["1"]"#)).is_ok());
    db.set_request_timeout(None);
    assert_eq!(request(db.query("SELECT 1")).get("options"), None);

    // Cancelling an id nobody is running stops nothing, and says so rather
    // than failing.
    let mut other = client();
    other.cancel("rs-nothing-1").unwrap();
    let stopped = other.cancel_reply(frame(Tag::CancelOk, r#"{"cancelled":0}"#.to_string()));
    assert_eq!(stopped.expect("cancel"), 0);
    assert!(other.cancel("").is_err(), "an empty id is refused here");
}

#[test]
fn a_raw_request_reaches_an_operation_with_no_typed_method() {
    let mut db = client();
    let envelope = request(db.request(json(r#"{"Cache": "Ping"}"#)));
    let id = envelope.get("request_id").unwrap().as_str().unwrap();
    let response = db
        .reply(frame(
            Tag::Response,
            format!(r#"{{"request_id":"{id}","status":"ok","data":"Empty"}}"#),
        ))
        .expect("raw cache ping");
    assert_eq!(response.status, "ok");
    assert!(response.request_id.starts_with("rs-"));
    assert_eq!(db.last_request_id(), Some(response.request_id.as_str()));
}

#[test]
fn a_pooled_connection_is_never_returned_mid_transaction() {
    let mut pool: Pool<Client> = Pool::new(Options::default(), 2).expect("pool");
    assert!(matches!(pool.acquire(), Borrow::Connect));
    let mut db = client();

    // The work opens a transaction and forgets to end it.
    db.begin().unwrap();
    db.control_reply(Control::Begin, answer(r#"{"transaction":"began"}"#)).unwrap();
    op(
        db.execute_params("INSERT INTO rs_pool_txn VALUES (?)", &[Param::from(1)]),
        "Sql",
        "Exec",
    );
    db.reply(answer("{}")).unwrap();
    let outcome: Result<()> = Ok(());
    let verdict = judge(&db, &outcome);
    assert_eq!(verdict, Verdict::RollBack);
    let sent = op(db.rollback(), "Sql", "Exec");
    assert_eq!(sent.get("sql").unwrap().as_str(), Some("ROLLBACK"));
    let ended = db.control_reply(Control::Rollback, answer(r#"{"transaction":"rolled_back"}"#));
    assert!(!db.in_transaction());
    assert!(pool.release(db, verdict.is_broken(ended.is_ok())).is_none());
    let error = work_outcome(outcome, verdict).expect_err("leaving a transaction open is reported");
    assert!(error.message().contains("rolled back"), "{}", error.describe());

    // The pool still works, and lends the same connection without one.
    let Borrow::Lent(db) = pool.acquire() else {
        panic!("a connection was idle");
    };
    assert!(!db.in_transaction());
}

#[test]
fn a_closed_connection_says_so_rather_than_hanging() {
    let mut db = client();
    assert!(db.query("SELECT 1").is_ok());
    assert!(matches!(db.close(), Farewell::Goodbye { .. }));
    let error = db.query("SELECT 1").unwrap_err();
    assert_eq!(error.kind, ErrorKind::Closed);

    let mut db = client();
    let bound = db.set_read_timeout(Some(Duration::from_millis(50)));
    assert_eq!(bound, Some(Duration::from_millis(50)));
    assert!(db.ping().is_ok());
    assert!(db.ping_reply(pong()).is_ok(), "a live server answers well within 50ms");
}

#[test]
fn every_value_type_is_accepted_by_the_params_macro() {
    let mut db = client();
    let text = String::from("owned");
    let slice: &[u8] = &[1, 2, 3];
    let half = Float::Finite(Number::parse("0.5").unwrap());
    let kept = bound(
        db.execute_params(
            "INSERT INTO rs_types VALUES (?, ?, ?, ?)",
            &[
                Param::from(1i64),
                Param::from(text.clone()),
                Param::from(slice),
                Param::from(half),
            ],
        ),
        "Exec",
    );
    let rows = db
        .query_reply(rows(r#"["a","b","c"]"#, &row(&kept[1..])))
        .expect("read back");
    assert_eq!(rows.rows[0][0], "owned");
    assert_eq!(rows.rows[0][1], "0x010203");
    assert_eq!(rows.rows[0][2], "0.5");
}
