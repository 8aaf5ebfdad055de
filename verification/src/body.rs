//! The fields that the body of a frame names, in the order of its text.
//!
//! A body is a record. A record that names one of its fields twice says two
//! things: it is refused. A member that is no field of it is passed over,
//! whatever it holds. The values themselves are read and passed over by
//! `serde_json`; what is read here is the punctuation between them.

use crate::codec;
use crate::decode::Decode;
use crate::json::Json;
#[allow(unused_imports)]
use crate::json::JsonTree;
#[allow(unused_imports)]
use crate::response::parse_view;
use crate::text;
use vstd::prelude::*;
use vstd::slice::slice_subrange;

verus! {

/// What is said of a body that names a field twice.
pub const REPEATED: &'static str = "a field is named twice";

/// Whether a byte is white space between JSON values.
pub open spec fn blank(b: u8) -> bool {
    b == 0x20 || b == 0x09 || b == 0x0a || b == 0x0d
}

/// Bytes without the white space at their start.
pub open spec fn trimmed(bytes: Seq<u8>) -> Seq<u8>
    decreases bytes.len(),
{
    if bytes.len() > 0 && blank(bytes[0]) {
        trimmed(bytes.skip(1))
    } else {
        bytes
    }
}

/// What follows this mark, when the bytes start with it behind white space.
pub open spec fn past(bytes: Seq<u8>, mark: u8) -> Option<Seq<u8>> {
    let rest = trimmed(bytes);
    if rest.len() > 0 && rest[0] == mark {
        Some(rest.skip(1))
    } else {
        None
    }
}

/// The mark that opens a record: one with names is an object, one without is an
/// array.
pub open spec fn opening(named: bool) -> u8 {
    if named {
        0x7b
    } else {
        0x5b
    }
}

/// The mark that closes a record.
pub open spec fn closing(named: bool) -> u8 {
    if named {
        0x7d
    } else {
        0x5d
    }
}

/// One part of a record: the member of an object, or the item of an array,
/// which has no name.
#[verifier::ext_equal]
pub struct PartView {
    /// Its name.
    pub name: Seq<char>,
    /// The text of its name.
    pub head: Seq<u8>,
    /// The text of its value.
    pub value: Seq<u8>,
}

/// The part at the start of the bytes, and what follows it.
pub open spec fn first_part(bytes: Seq<u8>, named: bool) -> Option<(PartView, Seq<u8>)> {
    if named {
        match codec::leading_text(bytes) {
            Some((name, n)) => match past(bytes.skip(n as int), 0x3a) {
                Some(rest) => match codec::leading_value(rest) {
                    Some(m) => Some(
                        (
                            PartView {
                                name,
                                head: bytes.take(n as int),
                                value: rest.take(m as int),
                            },
                            rest.skip(m as int),
                        ),
                    ),
                    None => None,
                },
                None => None,
            },
            None => None,
        }
    } else {
        match codec::leading_value(bytes) {
            Some(m) => Some(
                (
                    PartView {
                        name: Seq::empty(),
                        head: Seq::empty(),
                        value: bytes.take(m as int),
                    },
                    bytes.skip(m as int),
                ),
            ),
            None => None,
        }
    }
}

/// The parts of a record in the order of the text, from the bytes behind its
/// opening mark or behind a comma, and what follows its closing mark.
pub open spec fn parts_from(bytes: Seq<u8>, named: bool) -> Option<(Seq<PartView>, Seq<u8>)>
    decreases bytes.len(),
{
    match first_part(bytes, named) {
        None => None,
        Some((part, rest)) => match past(rest, 0x2c) {
            Some(more) => if more.len() < bytes.len() {
                behind_parts(seq![part], parts_from(more, named))
            } else {
                None
            },
            None => match past(rest, closing(named)) {
                Some(end) => Some((seq![part], end)),
                None => None,
            },
        },
    }
}

/// Parts that were read before others.
pub open spec fn behind_parts(
    before: Seq<PartView>,
    after: Option<(Seq<PartView>, Seq<u8>)>,
) -> Option<(Seq<PartView>, Seq<u8>)> {
    match after {
        Some((parts, end)) => Some((before + parts, end)),
        None => None,
    }
}

/// The parts of the record that these bytes are the text of, in order.
pub open spec fn parts_of(bytes: Seq<u8>, named: bool) -> Option<Seq<PartView>> {
    match past(bytes, opening(named)) {
        None => None,
        Some(inside) => match (match past(inside, closing(named)) {
            Some(end) => Some((Seq::empty(), end)),
            None => parts_from(inside, named),
        }) {
            Some((parts, end)) => if trimmed(end).len() == 0 {
                Some(parts)
            } else {
                None
            },
            None => None,
        },
    }
}

/// Whether one of these names is that of two parts.
pub open spec fn twice(parts: Seq<PartView>, names: Seq<Seq<char>>) -> bool {
    exists|i: int, j: int|
        0 <= i < j < parts.len() && (#[trigger] parts[i]).name == (#[trigger] parts[j]).name
            && names.contains(parts[i].name)
}

/// Whether these bytes are the text of an object that names one of these twice.
pub open spec fn named_twice(bytes: Seq<u8>, names: Seq<Seq<char>>) -> bool {
    parts_of(bytes, true) matches Some(parts) && twice(parts, names)
}

/// The parts with one of these names, in order.
pub open spec fn kept(parts: Seq<PartView>, names: Seq<Seq<char>>) -> Seq<PartView>
    decreases parts.len(),
{
    if parts.len() == 0 {
        Seq::empty()
    } else if names.contains(parts.last().name) {
        kept(parts.drop_last(), names).push(parts.last())
    } else {
        kept(parts.drop_last(), names)
    }
}

/// The text of a part.
pub open spec fn part_text(part: PartView, named: bool) -> Seq<u8> {
    if named {
        part.head + seq![0x3au8] + part.value
    } else {
        part.value
    }
}

/// The texts of parts, with commas between them.
pub open spec fn joined(parts: Seq<PartView>, named: bool) -> Seq<u8>
    decreases parts.len(),
{
    if parts.len() == 0 {
        Seq::empty()
    } else if parts.len() == 1 {
        part_text(parts[0], named)
    } else {
        joined(parts.drop_last(), named) + seq![0x2cu8] + part_text(parts.last(), named)
    }
}

/// The text of a record with these parts.
pub open spec fn record_text(parts: Seq<PartView>, named: bool) -> Seq<u8> {
    seq![opening(named)] + joined(parts, named) + seq![closing(named)]
}

/// The text of an object without the members that have none of these names.
/// Another text is not changed.
pub open spec fn slim(bytes: Seq<u8>, names: Seq<Seq<char>>) -> Seq<u8> {
    match parts_of(bytes, true) {
        Some(parts) => record_text(kept(parts, names), true),
        None => bytes,
    }
}

/// One part of a record.
pub struct Part {
    /// Its name. An item of an array has none.
    pub name: String,
    /// The text of its name.
    pub head: Vec<u8>,
    /// The text of its value.
    pub value: Vec<u8>,
}

impl View for Part {
    type V = PartView;

    open spec fn view(&self) -> PartView {
        PartView { name: self.name@, head: self.head@, value: self.value@ }
    }
}

/// What these parts are.
pub open spec fn part_views(parts: Seq<Part>) -> Seq<PartView> {
    Seq::new(parts.len(), |i: int| parts[i]@)
}

/// What these names are.
pub open spec fn name_views(names: Seq<&str>) -> Seq<Seq<char>> {
    Seq::new(names.len(), |i: int| names[i]@)
}

fn trim(bytes: &[u8]) -> (r: &[u8])
    ensures
        r@ == trimmed(bytes@),
        r@.len() <= bytes@.len(),
{
    let mut i: usize = 0;
    assert(bytes@.skip(0) =~= bytes@);
    while i < bytes.len() && (bytes[i] == 0x20 || bytes[i] == 0x09 || bytes[i] == 0x0a || bytes[i]
        == 0x0d)
        invariant
            i <= bytes@.len(),
            trimmed(bytes@.skip(i as int)) == trimmed(bytes@),
        decreases bytes@.len() - i,
    {
        assert(bytes@.skip(i as int).skip(1) =~= bytes@.skip(i + 1));
        i = i + 1;
    }
    behind(bytes, i)
}

fn behind(bytes: &[u8], n: usize) -> (r: &[u8])
    requires
        n <= bytes@.len(),
    ensures
        r@ == bytes@.skip(n as int),
        r@.len() == bytes@.len() - n,
{
    assert(bytes@.subrange(n as int, bytes@.len() as int) =~= bytes@.skip(n as int));
    slice_subrange(bytes, n, bytes.len())
}

fn until(bytes: &[u8], n: usize) -> (r: Vec<u8>)
    requires
        n <= bytes@.len(),
    ensures
        r@ == bytes@.take(n as int),
{
    assert(bytes@.subrange(0, n as int) =~= bytes@.take(n as int));
    vstd::slice::slice_to_vec(slice_subrange(bytes, 0, n))
}

fn go_past(bytes: &[u8], mark: u8) -> (r: Option<&[u8]>)
    ensures
        past(bytes@, mark) == (match r { Some(rest) => Some(rest@), None => None::<Seq<u8>> }),
        r matches Some(rest) ==> rest@.len() < bytes@.len(),
{
    let rest = trim(bytes);
    if rest.len() > 0 && rest[0] == mark {
        Some(behind(rest, 1))
    } else {
        None
    }
}

fn read_part(bytes: &[u8], named: bool) -> (r: Option<(Part, &[u8])>)
    ensures
        first_part(bytes@, named) == (match r {
            Some((part, rest)) => Some((part@, rest@)),
            None => None::<(PartView, Seq<u8>)>,
        }),
        r matches Some((_, rest)) ==> rest@.len() < bytes@.len(),
{
    let mut name = String::new();
    let mut head: Vec<u8> = Vec::new();
    let mut at = bytes;
    if named {
        match codec::next_text(bytes) {
            Some((s, n)) => {
                name = s;
                head = until(bytes, n);
                match go_past(behind(bytes, n), 0x3a) {
                    Some(rest) => {
                        at = rest;
                    },
                    None => {
                        return None;
                    },
                }
            },
            None => {
                return None;
            },
        }
    }
    match codec::skip_value(at) {
        Some(m) => Some((Part { name, head, value: until(at, m) }, behind(at, m))),
        None => None,
    }
}

/// The parts of the record that these bytes are the text of, in order.
pub fn parts(bytes: &[u8], named: bool) -> (r: Option<Vec<Part>>)
    ensures
        parts_of(bytes@, named) == (match r {
            Some(parts) => Some(part_views(parts@)),
            None => None::<Seq<PartView>>,
        }),
{
    let (open, close): (u8, u8) = if named {
        (0x7b, 0x7d)
    } else {
        (0x5b, 0x5d)
    };
    let mut out: Vec<Part> = Vec::new();
    let inside = match go_past(bytes, open) {
        Some(inside) => inside,
        None => {
            return None;
        },
    };
    let end = match go_past(inside, close) {
        Some(end) => {
            assert(part_views(out@) =~= Seq::<PartView>::empty());
            end
        },
        None => match read_parts(inside, named, &mut out) {
            Some(end) => end,
            None => {
                return None;
            },
        },
    };
    if trim(end).len() == 0 {
        Some(out)
    } else {
        None
    }
}

fn read_parts<'a>(bytes: &'a [u8], named: bool, out: &mut Vec<Part>) -> (r: Option<&'a [u8]>)
    requires
        old(out)@.len() == 0,
    ensures
        parts_from(bytes@, named) == (match r {
            Some(end) => Some((part_views(final(out)@), end@)),
            None => None::<(Seq<PartView>, Seq<u8>)>,
        }),
{
    let close: u8 = if named {
        0x7d
    } else {
        0x5d
    };
    let mut at: &'a [u8] = bytes;
    proof {
        if let Some((all, _)) = parts_from(bytes@, named) {
            assert(part_views(out@) + all =~= all);
        }
    }
    loop
        invariant
            close == closing(named),
            parts_from(bytes@, named) == behind_parts(
                part_views(out@),
                parts_from(at@, named),
            ),
        decreases at@.len(),
    {
        let ghost before = part_views(out@);
        match read_part(at, named) {
            Some((part, rest)) => {
                let ghost one = part@;
                out.push(part);
                assert(part_views(out@) =~= before + seq![one]);
                match go_past(rest, 0x2c) {
                    Some(more) => {
                        proof {
                            if let Some((tail, _)) = parts_from(more@, named) {
                                assert(before + (seq![one] + tail) =~= before + seq![one] + tail);
                            }
                        }
                        at = more;
                    },
                    None => {
                        return go_past(rest, close);
                    },
                }
            },
            None => {
                return None;
            },
        }
    }
}

fn among(name: &str, names: &[&str]) -> (b: bool)
    ensures
        b == name_views(names@).contains(name@),
{
    let mut i: usize = 0;
    while i < names.len()
        invariant
            i <= names@.len(),
            forall|k: int| 0 <= k < i ==> #[trigger] name_views(names@)[k] != name@,
        decreases names@.len() - i,
    {
        if text::same(names[i], name) {
            assert(name_views(names@)[i as int] == name@);
            return true;
        }
        i = i + 1;
    }
    false
}

fn any_twice(parts: &Vec<Part>, names: &[&str]) -> (b: bool)
    ensures
        b == twice(part_views(parts@), name_views(names@)),
{
    let ghost all = part_views(parts@);
    let mut j: usize = 0;
    while j < parts.len()
        invariant
            j <= parts@.len(),
            all == part_views(parts@),
            forall|a: int, b: int|
                0 <= a < b < j ==> (#[trigger] all[a]).name != (#[trigger] all[b]).name
                    || !name_views(names@).contains(all[a].name),
        decreases parts@.len() - j,
    {
        if among(parts[j].name.as_str(), names) {
            let mut i: usize = 0;
            while i < j
                invariant
                    i <= j < parts@.len(),
                    all == part_views(parts@),
                    name_views(names@).contains(all[j as int].name),
                    forall|a: int| 0 <= a < i ==> (#[trigger] all[a]).name != all[j as int].name,
                decreases j - i,
            {
                if text::same(parts[i].name.as_str(), parts[j].name.as_str()) {
                    assert(all[i as int].name == all[j as int].name);
                    return true;
                }
                i = i + 1;
            }
        }
        j = j + 1;
    }
    false
}

/// Whether these bytes are the text of an object that names one of these twice.
pub fn names_twice(bytes: &[u8], names: &[&str]) -> (b: bool)
    ensures
        b == named_twice(bytes@, name_views(names@)),
{
    match parts(bytes, true) {
        Some(parts) => any_twice(&parts, names),
        None => false,
    }
}

impl Clone for Part {
    fn clone(&self) -> (r: Part)
        ensures
            r@ == self@,
    {
        let head = self.head.clone();
        let value = self.value.clone();
        assert(head@ =~= self.head@);
        assert(value@ =~= self.value@);
        Part { name: self.name.clone(), head, value }
    }
}

/// The parts with one of these names, in order.
pub fn keep_named(parts: &Vec<Part>, names: &[&str]) -> (r: Vec<Part>)
    ensures
        part_views(r@) == kept(part_views(parts@), name_views(names@)),
{
    let ghost all = part_views(parts@);
    let ghost wanted = name_views(names@);
    let mut out: Vec<Part> = Vec::new();
    let mut i: usize = 0;
    assert(part_views(out@) =~= kept(all.take(0), wanted));
    while i < parts.len()
        invariant
            i <= parts@.len(),
            all == part_views(parts@),
            wanted == name_views(names@),
            part_views(out@) == kept(all.take(i as int), wanted),
        decreases parts@.len() - i,
    {
        let ghost before = part_views(out@);
        assert(all.take(i + 1).drop_last() =~= all.take(i as int));
        assert(all.take(i + 1).last() == parts@[i as int]@);
        if among(parts[i].name.as_str(), names) {
            out.push(parts[i].clone());
            assert(part_views(out@) =~= before.push(parts@[i as int]@));
        }
        i = i + 1;
    }
    assert(all.take(i as int) =~= all);
    out
}

fn push_bytes(out: &mut Vec<u8>, bytes: &[u8])
    ensures
        final(out)@ == old(out)@ + bytes@,
{
    let mut i: usize = 0;
    assert(out@ =~= old(out)@ + bytes@.take(0));
    while i < bytes.len()
        invariant
            i <= bytes@.len(),
            out@ == old(out)@ + bytes@.take(i as int),
        decreases bytes@.len() - i,
    {
        out.push(bytes[i]);
        assert(bytes@.take(i + 1) =~= bytes@.take(i as int).push(bytes@[i as int]));
        i = i + 1;
    }
    assert(bytes@.take(i as int) =~= bytes@);
}

/// Writes a record with these parts.
pub fn write_record(parts: &Vec<Part>, named: bool) -> (r: Vec<u8>)
    ensures
        r@ == record_text(part_views(parts@), named),
{
    let ghost all = part_views(parts@);
    let (open, close): (u8, u8) = if named {
        (0x7b, 0x7d)
    } else {
        (0x5b, 0x5d)
    };
    let mut out: Vec<u8> = Vec::new();
    out.push(open);
    let mut i: usize = 0;
    assert(out@ =~= seq![open] + joined(all.take(0), named));
    while i < parts.len()
        invariant
            i <= parts@.len(),
            all == part_views(parts@),
            out@ == seq![open] + joined(all.take(i as int), named),
        decreases parts@.len() - i,
    {
        let part = &parts[i];
        let ghost before = out@;
        assert(all.take(i + 1).drop_last() =~= all.take(i as int));
        assert(all.take(i + 1).last() == part@);
        if i > 0 {
            out.push(0x2c);
        }
        if named {
            push_bytes(&mut out, part.head.as_slice());
            out.push(0x3a);
        }
        push_bytes(&mut out, part.value.as_slice());
        proof {
            if i > 0 {
                assert(out@ =~= before + (seq![0x2cu8] + part_text(part@, named)));
                assert(out@ =~= seq![open] + (joined(all.take(i as int), named) + seq![0x2cu8]
                    + part_text(part@, named)));
            } else {
                assert(out@ =~= before + part_text(part@, named));
                assert(out@ =~= seq![open] + part_text(part@, named));
            }
        }
        i = i + 1;
    }
    assert(all.take(i as int) =~= all);
    out.push(close);
    out
}

/// Writes the text of an object without the members that have none of these
/// names. Another text is not changed.
pub fn slimmed(bytes: &[u8], names: &[&str]) -> (r: Vec<u8>)
    ensures
        r@ == slim(bytes@, name_views(names@)),
{
    match parts(bytes, true) {
        Some(all) => write_record(&keep_named(&all, names), true),
        None => vstd::slice::slice_to_vec(bytes),
    }
}

/// The body of a frame.
pub trait Body: Decode {
    /// Whether the text of a body names a field twice.
    spec fn repeats(bytes: Seq<u8>) -> bool;

    /// The text of a body without what is no field of it.
    spec fn essence(bytes: Seq<u8>) -> Seq<u8>;

    /// Whether the text of a body names a field twice.
    fn check(bytes: &[u8]) -> (b: bool)
        ensures
            b == Self::repeats(bytes@),
    ;

    /// The text of a body without what is no field of it.
    fn reduce(bytes: &[u8]) -> (r: Vec<u8>)
        ensures
            r@ == Self::essence(bytes@),
    ;
}

/// What the text of a body is read as: a value, or what is wrong with it. What
/// is no field of the body cannot make it unreadable.
pub open spec fn strict<T: Body>(bytes: Seq<u8>) -> Result<JsonTree, Seq<char>> {
    match lenient::<T>(bytes) {
        Err(complaint) => Err(complaint),
        Ok(t) => if T::repeats(bytes) {
            Err(REPEATED@)
        } else {
            Ok(t)
        },
    }
}

/// What the text of a body is read as, as a whole or without what is no field
/// of it.
pub open spec fn lenient<T: Body>(bytes: Seq<u8>) -> Result<JsonTree, Seq<char>> {
    match codec::parsed(bytes) {
        Ok(t) => Ok(t),
        Err(complaint) => match codec::parsed(T::essence(bytes)) {
            Ok(t) => Ok(t),
            Err(_) => Err(complaint),
        },
    }
}

/// Reads the text of a body.
pub fn parse_strictly<T: Body>(bytes: &[u8]) -> (r: Result<Json, String>)
    ensures
        parse_view(r) == strict::<T>(bytes@),
{
    let read = match codec::parse(bytes) {
        Ok(j) => Ok(j),
        Err(complaint) => match codec::parse(T::reduce(bytes).as_slice()) {
            Ok(j) => Ok(j),
            Err(_) => Err(complaint),
        },
    };
    match read {
        Ok(j) => if T::check(bytes) {
            Err(REPEATED.to_owned())
        } else {
            Ok(j)
        },
        Err(e) => Err(e),
    }
}

/// The blanks before a text are passed over, and nothing else.
pub proof fn blanks_are_passed_over(blanks: Seq<u8>, core: Seq<u8>)
    requires
        forall|i: int|
            0 <= i < blanks.len() ==> seq![' ' as u8, '\t' as u8, '\n' as u8, '\r' as u8].contains(
                #[trigger] blanks[i],
            ),
        core.len() > 0 ==> !seq![' ' as u8, '\t' as u8, '\n' as u8, '\r' as u8].contains(core[0]),
    ensures
        trimmed(blanks + core) == core,
    decreases blanks.len(),
{
    let all = seq![' ' as u8, '\t' as u8, '\n' as u8, '\r' as u8];
    assert(all[0] == 0x20 && all[1] == 0x09 && all[2] == 0x0a && all[3] == 0x0d);
    if blanks.len() > 0 {
        assert(all.contains(blanks[0]));
        blanks_are_passed_over(blanks.skip(1), core);
        assert((blanks + core)[0] == blanks[0]);
        assert((blanks + core).skip(1) =~= blanks.skip(1) + core);
    } else {
        assert(blanks + core =~= core);
    }
}

/// A mark is passed when it comes first behind the blanks.
pub proof fn a_mark_is_passed_when_it_comes_first(
    blanks: Seq<u8>,
    core: Seq<u8>,
    mark: u8,
)
    requires
        forall|i: int|
            0 <= i < blanks.len() ==> seq![' ' as u8, '\t' as u8, '\n' as u8, '\r' as u8].contains(
                #[trigger] blanks[i],
            ),
        core.len() > 0 ==> !seq![' ' as u8, '\t' as u8, '\n' as u8, '\r' as u8].contains(core[0]),
    ensures
        past(blanks + core, mark) == if core.len() > 0 && core[0] == mark {
            Some(core.skip(1))
        } else {
            None
        },
{
    blanks_are_passed_over(blanks, core);
}

/// The marks round a record and round a list.
pub proof fn records_and_lists_have_their_own_marks()
    ensures
        opening(true) == '{' as u8,
        closing(true) == '}' as u8,
        opening(false) == '[' as u8,
        closing(false) == ']' as u8,
{
}

/// A member is a name, a colon and a value, and what follows the value is left.
pub proof fn a_member_is_a_name_and_a_value(
    bytes: Seq<u8>,
    name: Seq<char>,
    n: nat,
    rest: Seq<u8>,
    m: nat,
)
    ensures
        codec::leading_text(bytes) == Some((name, n)) && past(bytes.skip(n as int), ':' as u8)
            == Some(rest) && codec::leading_value(rest) == Some(m) ==> first_part(bytes, true)
            == Some(
            (
                PartView { name, head: bytes.take(n as int), value: rest.take(m as int) },
                rest.skip(m as int),
            ),
        ),
        codec::leading_text(bytes) is None ==> first_part(bytes, true) is None,
        codec::leading_text(bytes) == Some((name, n)) && past(bytes.skip(n as int), ':' as u8)
            is None ==> first_part(bytes, true) is None,
        codec::leading_text(bytes) == Some((name, n)) && past(bytes.skip(n as int), ':' as u8)
            == Some(rest) && codec::leading_value(rest) is None ==> first_part(bytes, true) is None,
{
}

/// An item is a value, and what follows it is left.
pub proof fn an_item_is_a_value(bytes: Seq<u8>, m: nat)
    ensures
        codec::leading_value(bytes) == Some(m) ==> first_part(bytes, false) == Some(
            (
                PartView {
                    name: Seq::empty(),
                    head: Seq::empty(),
                    value: bytes.take(m as int),
                },
                bytes.skip(m as int),
            ),
        ),
        codec::leading_value(bytes) is None ==> first_part(bytes, false) is None,
{
}

/// Parts follow one another behind commas, in order, up to the closing mark.
pub proof fn parts_follow_one_another(
    bytes: Seq<u8>,
    named: bool,
    part: PartView,
    rest: Seq<u8>,
    more: Seq<u8>,
    parts: Seq<PartView>,
    end: Seq<u8>,
)
    requires
        first_part(bytes, named) == Some((part, rest)),
    ensures
        past(rest, ',' as u8) == Some(more) && more.len() < bytes.len() && parts_from(more, named)
            == Some((parts, end)) ==> parts_from(bytes, named) == Some((seq![part] + parts, end)),
        past(rest, ',' as u8) == Some(more) && parts_from(more, named) is None ==> parts_from(
            bytes,
            named,
        ) is None,
        past(rest, ',' as u8) is None && past(rest, closing(named)) == Some(end) ==> parts_from(
            bytes,
            named,
        ) == Some((seq![part], end)),
        past(rest, ',' as u8) is None && past(rest, closing(named)) is None ==> parts_from(
            bytes,
            named,
        ) is None,
{
}

/// The parts of a text are all of those between its marks, and there are none where
/// anything stands behind them.
pub proof fn parts_fill_the_text(
    bytes: Seq<u8>,
    named: bool,
    inside: Seq<u8>,
    parts: Seq<PartView>,
    end: Seq<u8>,
)
    ensures
        past(bytes, opening(named)) is None ==> parts_of(bytes, named) is None,
        past(bytes, opening(named)) == Some(inside) && past(inside, closing(named)) == Some(end)
            && trimmed(end).len() == 0 ==> parts_of(bytes, named) == Some(
            Seq::<PartView>::empty(),
        ),
        past(bytes, opening(named)) == Some(inside) && past(inside, closing(named)) == Some(end)
            && trimmed(end).len() > 0 ==> parts_of(bytes, named) is None,
        past(bytes, opening(named)) == Some(inside) && past(inside, closing(named)) is None
            && parts_from(inside, named) == Some((parts, end)) ==> parts_of(bytes, named) == if
            trimmed(end).len() == 0 {
            Some(parts)
        } else {
            None
        },
        past(bytes, opening(named)) == Some(inside) && past(inside, closing(named)) is None
            && parts_from(inside, named) is None ==> parts_of(bytes, named) is None,
{
}

/// A field is named twice when two parts have its name, and parts of other names do
/// not count.
pub proof fn a_field_named_twice_is_noticed(
    parts: Seq<PartView>,
    names: Seq<Seq<char>>,
    i: int,
    j: int,
)
    ensures
        0 <= i < j < parts.len() && parts[i].name == parts[j].name && names.contains(
            parts[i].name,
        ) ==> twice(parts, names),
        (forall|a: int, b: int|
            0 <= a < b < parts.len() ==> (#[trigger] parts[a]).name != (#[trigger] parts[b]).name)
            ==> !twice(parts, names),
        (forall|a: int| 0 <= a < parts.len() ==> !names.contains((#[trigger] parts[a]).name))
            ==> !twice(parts, names),
{
}

/// The text of a body names a field twice when its parts do.
pub proof fn a_text_names_twice_what_its_parts_do(bytes: Seq<u8>, names: Seq<Seq<char>>)
    ensures
        parts_of(bytes, true) matches Some(parts) ==> named_twice(bytes, names) == twice(
            parts,
            names,
        ),
        parts_of(bytes, true) is None ==> !named_twice(bytes, names),
{
}

/// Of all parts, those of the given names are kept, in order, and no others.
pub proof fn parts_are_kept_by_name(parts: Seq<PartView>, names: Seq<Seq<char>>)
    ensures
        kept(parts, names) == parts.filter(|p: PartView| names.contains(p.name)),
    decreases parts.len(),
{
    reveal(Seq::filter);
    if parts.len() > 0 {
        parts_are_kept_by_name(parts.drop_last(), names);
    } else {
        assert(kept(parts, names) =~= parts.filter(|p: PartView| names.contains(p.name)));
    }
}

/// Parts are written in order with a comma between any two, a member as its name, a
/// colon and its value.
pub proof fn parts_are_written_in_order(parts: Seq<PartView>, part: PartView, named: bool)
    ensures
        part_text(part, true) == part.head.push(':' as u8) + part.value,
        part_text(part, false) == part.value,
        joined(Seq::empty(), named).len() == 0,
        joined(seq![part], named) == part_text(part, named),
        parts.len() > 0 ==> joined(parts.push(part), named) == joined(parts, named).push(
            ',' as u8,
        ) + part_text(part, named),
        record_text(parts, true) == seq!['{' as u8] + joined(parts, true) + seq!['}' as u8],
        record_text(parts, false) == seq!['[' as u8] + joined(parts, false) + seq![']' as u8],
{
    assert(part_text(part, true) =~= part.head.push(':' as u8) + part.value);
    assert(parts.push(part).drop_last() =~= parts);
    assert(joined(parts, named) + seq![0x2cu8] =~= joined(parts, named).push(',' as u8));
}

/// A body without what is no field of it is the record of the parts that are kept. A
/// text that is no record is left as it is.
pub proof fn a_slim_body_is_the_record_of_its_fields(bytes: Seq<u8>, names: Seq<Seq<char>>)
    ensures
        parts_of(bytes, true) matches Some(parts) ==> slim(bytes, names) == record_text(
            kept(parts, names),
            true,
        ),
        parts_of(bytes, true) is None ==> slim(bytes, names) == bytes,
{
}

/// A part is its name, the text of its name and the text of its value.
pub proof fn parts_are_what_they_hold(part: Part, parts: Seq<Part>, names: Seq<&str>, i: int)
    ensures
        part@.name == part.name@,
        part@.head == part.head@,
        part@.value == part.value@,
        part_views(parts).len() == parts.len(),
        0 <= i < parts.len() ==> part_views(parts)[i] == parts[i]@,
        name_views(names).len() == names.len(),
        0 <= i < names.len() ==> name_views(names)[i] == names[i]@,
{
}

/// A body is what its text reads as. One that cannot be read may still be read without
/// what is no field of it, and the first complaint stands when it cannot. A body that
/// names a field twice is refused.
pub proof fn a_body_is_what_its_text_reads_as<T: Body>(bytes: Seq<u8>, t: JsonTree)
    ensures
        codec::parsed(bytes) == Ok::<JsonTree, Seq<char>>(t) ==> lenient::<T>(bytes) == Ok::<
            JsonTree,
            Seq<char>,
        >(t),
        codec::parsed(bytes) is Err && codec::parsed(T::essence(bytes)) == Ok::<
            JsonTree,
            Seq<char>,
        >(t) ==> lenient::<T>(bytes) == Ok::<JsonTree, Seq<char>>(t),
        codec::parsed(bytes) is Err && codec::parsed(T::essence(bytes)) is Err ==> lenient::<T>(
            bytes,
        ) == codec::parsed(bytes),
        T::repeats(bytes) && lenient::<T>(bytes) is Ok ==> strict::<T>(bytes) == Err::<
            JsonTree,
            Seq<char>,
        >("a field is named twice"@),
        !T::repeats(bytes) || lenient::<T>(bytes) is Err ==> strict::<T>(bytes) == lenient::<T>(
            bytes,
        ),
{
}

} // verus!
