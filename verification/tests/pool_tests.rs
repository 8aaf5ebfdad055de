use tricoredb::error::IoFailure;
use tricoredb::pool::{judge, work_outcome, Borrow, Verdict, WaitEnd};
use tricoredb::sql::Control;
use tricoredb::{Client, Error, ErrorKind, Frame, Options, Pool, Result, Tag};

/// A connection is known by its number here.
fn pool(size: usize) -> Pool<u32> {
    Pool::new(Options::default(), size).unwrap()
}

fn acquire(p: &mut Pool<u32>) -> Result<Option<u32>> {
    match p.acquire() {
        Borrow::Lent(c) => Ok(Some(c)),
        Borrow::Connect => Ok(None),
        Borrow::Wait => Err(Error::new(ErrorKind::Timeout, "wait")),
        Borrow::Refused(e) => Err(e),
    }
}

#[test]
fn a_pool_needs_room_for_one_connection() {
    let err = Pool::<u32>::new(Options::default(), 0).unwrap_err();
    assert_eq!(err.kind, ErrorKind::InvalidArgument);
    assert!(Pool::<u32>::new(Options::default(), 1).is_ok());
}

#[test]
fn a_new_pool_holds_no_connections_yet() {
    let pool = pool(4);
    assert_eq!(pool.size(), 4);
    assert_eq!(pool.stats(), (0, 0));
    assert!(!pool.is_closed());
}

#[test]
fn a_closed_pool_refuses_to_lend() {
    let mut pool = pool(2);
    assert!(pool.close().is_empty());
    assert!(pool.is_closed());
    let err = acquire(&mut pool).unwrap_err();
    assert_eq!(err.kind, ErrorKind::Pool);
}

#[test]
fn a_failed_connect_gives_the_slot_back() {
    let mut pool = Pool::<u32>::new(Options::new("127.0.0.1", 1), 2).unwrap();
    for _ in 0..3 {
        assert_eq!(acquire(&mut pool).unwrap(), None);
        assert_eq!(pool.stats(), (0, 1));
        pool.connect_failed();
        assert_eq!(pool.stats(), (0, 0));
    }
    assert_eq!(pool.options().port, 1);
}

#[test]
fn a_pool_lends_no_more_than_its_size() {
    let mut p = pool(2);
    assert_eq!(acquire(&mut p).unwrap(), None);
    assert_eq!(acquire(&mut p).unwrap(), None);
    assert_eq!(acquire(&mut p).unwrap_err().message, "wait");
    assert!(p.waited(WaitEnd::Woken).is_none());
    assert_eq!(
        p.waited(WaitEnd::TimedOut).unwrap().message,
        "no pooled connection became free within the timeout"
    );
    assert_eq!(p.release(7, false), None);
    assert_eq!(p.stats(), (1, 1));
    assert!(p.waited(WaitEnd::TimedOut).is_none());
    assert_eq!(p.waited(WaitEnd::DeadlinePassed).unwrap().kind, ErrorKind::Pool);
    assert_eq!(acquire(&mut p).unwrap(), Some(7));
    assert_eq!(p.release(7, true), Some(7));
    assert_eq!(p.stats(), (0, 1));
}

#[test]
fn what_is_lent_when_the_pool_closes_is_not_kept() {
    let mut p = pool(3);
    for _ in 0..3 {
        acquire(&mut p).unwrap();
    }
    p.release(1, false);
    p.release(2, false);
    assert_eq!(p.close(), vec![1, 2]);
    assert_eq!(p.release(3, false), Some(3));
    assert_eq!(p.stats(), (0, 0));
    assert_eq!(acquire(&mut p).unwrap_err().message, "this pool is closed");
}

fn frame(tag: Tag, body: &str) -> Result<Frame> {
    Ok(Frame {
        tag,
        payload: body.as_bytes().to_vec(),
    })
}

fn connected() -> Client {
    let (mut c, hello) = Client::connect(&Options::default(), "p");
    assert!(hello.is_ok());
    c.hello_reply(frame(Tag::HelloOk, r#"{"ok":true,"features":7}"#))
        .unwrap();
    c
}

const BEGAN: &str = r#"{"status":"ok","data":{"Json":{"transaction":"began"}}}"#;
const ROLLED_BACK: &str = r#"{"status":"ok","data":{"Json":{"transaction":"rolled_back"}}}"#;

#[test]
fn a_connection_goes_back_only_when_it_can_be_trusted() {
    let ok: Result<()> = Ok(());
    let mut c = connected();
    assert_eq!(judge(&c, &ok), Verdict::Keep);
    let refused: Result<()> = Err(Error::new(ErrorKind::Server, "no"));
    assert_eq!(judge(&c, &refused), Verdict::Keep);
    let fatal: Result<()> = Err(Error::new(ErrorKind::Refused, "no"));
    assert_eq!(judge(&c, &fatal), Verdict::Retire);

    c.begin().unwrap();
    c.control_reply(Control::Begin, frame(Tag::Response, BEGAN))
        .unwrap();
    assert!(c.in_transaction());
    assert_eq!(judge(&c, &ok), Verdict::RollBack);
    assert_eq!(judge(&c, &fatal), Verdict::Retire);
    c.rollback().unwrap();
    c.control_reply(Control::Rollback, frame(Tag::Response, ROLLED_BACK))
        .unwrap();
    assert_eq!(judge(&c, &ok), Verdict::Keep);

    c.ping().unwrap();
    let lost = c.ping_reply(Err(Error::from_io(IoFailure::TimedOut, "t")));
    assert!(lost.is_err());
    assert_eq!(judge(&c, &ok), Verdict::Retire);
}

#[test]
fn a_failed_rollback_retires_the_connection() {
    assert!(!Verdict::Keep.is_broken(false));
    assert!(Verdict::Retire.is_broken(true));
    assert!(Verdict::RollBack.is_broken(false));
    assert!(!Verdict::RollBack.is_broken(true));
}

#[test]
fn a_transaction_left_open_is_reported() {
    let err = work_outcome(Ok(5), Verdict::RollBack).unwrap_err();
    assert_eq!(err.kind, ErrorKind::TransactionLeftOpen);
    assert!(err.message().contains("rolled back"), "{}", err.message());
    assert_eq!(work_outcome(Ok(5), Verdict::Keep).unwrap(), 5);
    assert_eq!(work_outcome(Ok(5), Verdict::Retire).unwrap(), 5);
    let own: Result<i32> = Err(Error::new(ErrorKind::Server, "mine"));
    assert_eq!(work_outcome(own, Verdict::RollBack).unwrap_err().message(), "mine");
}
