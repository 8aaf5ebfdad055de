//! JSON values: the library's own type, and the conversion from and to bytes.

use crate::codec;
use crate::text;
use vstd::prelude::*;
#[allow(unused_imports)]
use vstd::std_specs::cmp::PartialEqSpec;

verus! {

/// What a JSON value holds. A number is its text; the members of an object
/// have no order.
#[verifier::ext_equal]
pub enum JsonTree {
    Null,
    Bool(bool),
    Number(Seq<char>),
    Text(Seq<char>),
    Array(Seq<JsonTree>),
    Object(Map<Seq<char>, JsonTree>),
}

/// One JSON value.
#[derive(Debug)]
pub enum Json {
    Null,
    Bool(bool),
    Number(Number),
    Text(String),
    Array(Vec<Json>),
    Object(Object),
}

/// A JSON number, kept as its text so that no digit is lost.
#[derive(Debug, PartialEq, Eq)]
pub struct Number {
    text: String,
}

/// The members of a JSON object. No name occurs twice.
#[derive(Debug)]
pub struct Object {
    entries: Vec<(String, Json)>,
}

/// The first index at or after `i` that is not a digit.
pub open spec fn digits_end(s: Seq<char>, i: int) -> int
    decreases s.len() - i,
{
    if 0 <= i < s.len() && text::is_digit(s[i]) {
        digits_end(s, i + 1)
    } else {
        i
    }
}

/// Where the integer part of a number begins: after the sign.
pub open spec fn integer_start(s: Seq<char>) -> int {
    if s.len() > 0 && s[0] == '-' {
        1
    } else {
        0
    }
}

/// Where the fraction of a number ends: the end of the integer part when there
/// is none.
pub open spec fn fraction_end(s: Seq<char>, i: int) -> int {
    if i < s.len() && s[i] == '.' {
        digits_end(s, i + 1)
    } else {
        i
    }
}

/// The form of a JSON number: a sign or none, digits without a leading zero, a
/// fraction or none, and an exponent with its sign or none.
pub open spec fn is_number(s: Seq<char>) -> bool {
    let start = integer_start(s);
    let whole = digits_end(s, start);
    let fraction = fraction_end(s, whole);
    &&& whole > start
    &&& whole > start + 1 ==> s[start] != '0'
    &&& whole < s.len() && s[whole] == '.' ==> fraction > whole + 1
    &&& fraction == s.len() || {
        &&& s[fraction] == 'e'
        &&& fraction + 1 < s.len()
        &&& s[fraction + 1] == '+' || s[fraction + 1] == '-'
        &&& digits_end(s, fraction + 2) > fraction + 2
        &&& digits_end(s, fraction + 2) == s.len()
    }
}

/// Every number in the value has the form of a JSON number.
pub open spec fn numbers_ok(t: JsonTree) -> bool
    decreases t,
{
    match t {
        JsonTree::Number(s) => is_number(s),
        JsonTree::Array(items) => forall|i: int|
            0 <= i < items.len() ==> numbers_ok(#[trigger] items[i]),
        JsonTree::Object(members) => forall|k: Seq<char>|
            members.dom().contains(k) ==> numbers_ok(#[trigger] members[k]),
        _ => true,
    }
}

proof fn digits_end_bounds(s: Seq<char>, i: int)
    requires
        0 <= i <= s.len(),
    ensures
        i <= digits_end(s, i) <= s.len(),
        forall|k: int| i <= k < digits_end(s, i) ==> text::is_digit(#[trigger] s[k]),
        digits_end(s, i) < s.len() ==> !text::is_digit(s[digits_end(s, i)]),
    decreases s.len() - i,
{
    if i < s.len() && text::is_digit(s[i]) {
        digits_end_bounds(s, i + 1);
    }
}

proof fn digits_end_all(s: Seq<char>, i: int)
    requires
        0 <= i <= s.len(),
        forall|k: int| i <= k < s.len() ==> text::is_digit(#[trigger] s[k]),
    ensures
        digits_end(s, i) == s.len(),
    decreases s.len() - i,
{
    if i < s.len() {
        digits_end_all(s, i + 1);
    }
}

/// An integer written in decimal is a JSON number.
pub proof fn integers_are_numbers(i: int)
    ensures
        is_number(text::integer(i)),
{
    text::decimal_reads_back(i);
    let s = text::integer(i);
    let start = integer_start(s);
    assert forall|k: int| start <= k < s.len() implies text::is_digit(#[trigger] s[k]) by {
        if i < 0 {
            assert(s.skip(1)[k - 1] == s[k]);
        }
    }
    if i < 0 {
        assert(s.skip(1).len() > 0);
    }
    digits_end_all(s, start);
}

fn scan_digits(s: &Vec<char>, from: usize) -> (end: usize)
    requires
        from <= s@.len(),
    ensures
        end == digits_end(s@, from as int),
        from <= end <= s@.len(),
{
    let mut i: usize = from;
    while i < s.len() && s[i] >= '0' && s[i] <= '9'
        invariant
            from <= i <= s@.len(),
            digits_end(s@, from as int) == digits_end(s@, i as int),
        decreases s@.len() - i,
    {
        i = i + 1;
    }
    i
}

impl Number {
    #[verifier::type_invariant]
    spec fn well_formed(self) -> bool {
        is_number(self.text@)
    }

    /// The number's text.
    pub closed spec fn spec_text(&self) -> Seq<char> {
        self.text@
    }

    /// Reads a number from its text. `None` when the text does not have the
    /// form of a JSON number with the sign of its exponent written out.
    pub fn parse(s: &str) -> (r: Option<Number>)
        ensures
            r is Some <==> is_number(s@),
            r matches Some(n) ==> n@ == s@,
    {
        let c = text::characters(s);
        let start: usize = if c.len() > 0 && c[0] == '-' { 1 } else { 0 };
        let whole: usize = scan_digits(&c, start);
        if whole == start || (whole > start + 1 && c[start] == '0') {
            return None;
        }
        let mut end: usize = whole;
        if whole < c.len() && c[whole] == '.' {
            end = scan_digits(&c, whole + 1);
            if end == whole + 1 {
                return None;
            }
        }
        if end < c.len() {
            if c[end] != 'e' || c.len() - end < 2 || (c[end + 1] != '+' && c[end + 1] != '-') {
                return None;
            }
            let exponent: usize = scan_digits(&c, end + 2);
            if exponent == end + 2 || exponent < c.len() {
                return None;
            }
        }
        Some(Number { text: s.to_owned() })
    }

    /// The number for a signed integer.
    pub fn from_i128(i: i128) -> (n: Number)
        ensures
            n@ == text::integer(i as int),
    {
        proof {
            integers_are_numbers(i as int);
        }
        Number { text: text::integer_text(i) }
    }

    /// The number for an unsigned integer.
    pub fn from_u128(i: u128) -> (n: Number)
        ensures
            n@ == text::integer(i as int),
    {
        proof {
            integers_are_numbers(i as int);
        }
        Number { text: text::decimal_text(i) }
    }

    /// The number's text.
    pub fn as_str(&self) -> (s: &str)
        ensures
            s@ == self@,
            is_number(self@),
    {
        proof {
            use_type_invariant(self);
        }
        self.text.as_str()
    }

    /// The number as a `u64`, when it is written as one.
    pub fn as_u64(&self) -> (r: Option<u64>)
        ensures
            r == as_unsigned(JsonTree::Number(self@)),
    {
        match text::parse_natural(self.text.as_str(), 0xffff_ffff_ffff_ffffu128) {
            Some(n) => Some(n as u64),
            None => None,
        }
    }

    /// The number as an `i64`, when it is written as one.
    pub fn as_i64(&self) -> (r: Option<i64>)
        ensures
            r == as_signed(JsonTree::Number(self@)),
    {
        text::parse_i64(self.text.as_str())
    }
}

/// The unsigned integer that a value is, when it is a number written as one.
pub open spec fn as_unsigned(t: JsonTree) -> Option<u64> {
    match t {
        JsonTree::Number(s) => match text::read_natural(s) {
            Some(n) => if n <= u64::MAX {
                Some(n as u64)
            } else {
                None
            },
            None => None,
        },
        _ => None,
    }
}

/// The signed integer that a value is, when it is a number written as one.
pub open spec fn as_signed(t: JsonTree) -> Option<i64> {
    match t {
        JsonTree::Number(s) => match text::read_integer(s) {
            Some(n) => if i64::MIN <= n <= i64::MAX {
                Some(n as i64)
            } else {
                None
            },
            None => None,
        },
        _ => None,
    }
}

impl View for Number {
    type V = Seq<char>;

    open spec fn view(&self) -> Seq<char> {
        self.spec_text()
    }
}

impl Clone for Number {
    fn clone(&self) -> (r: Number)
        ensures
            r@ == self@,
    {
        proof {
            use_type_invariant(self);
        }
        Number { text: self.text.clone() }
    }
}

/// The members that a list of entries makes: a later entry replaces an earlier
/// one of the same name.
spec fn members(entries: Seq<(String, Json)>) -> Map<Seq<char>, JsonTree>
    decreases entries,
{
    if entries.len() == 0 {
        Map::empty()
    } else {
        members(entries.subrange(0, entries.len() - 1)).insert(
            entries[entries.len() - 1].0@,
            entries[entries.len() - 1].1.tree(),
        )
    }
}

spec fn distinct(entries: Seq<(String, Json)>) -> bool {
    forall|i: int, j: int|
        #![trigger entries[i].0@, entries[j].0@]
        0 <= i < j < entries.len() ==> entries[i].0@ != entries[j].0@
}

proof fn members_of_distinct(entries: Seq<(String, Json)>)
    requires
        distinct(entries),
    ensures
        forall|i: int|
            0 <= i < entries.len() ==> members(entries).dom().contains(#[trigger] entries[i].0@)
                && members(entries)[entries[i].0@] == entries[i].1.tree(),
        forall|k: Seq<char>| #[trigger]
            members(entries).dom().contains(k) ==> exists|i: int|
                0 <= i < entries.len() && #[trigger] entries[i].0@ == k,
    decreases entries.len(),
{
    if entries.len() > 0 {
        let rest = entries.subrange(0, entries.len() - 1);
        let last = entries.len() - 1;
        assert(forall|i: int| 0 <= i < rest.len() ==> #[trigger] rest[i] == entries[i]);
        members_of_distinct(rest);
        assert forall|i: int| 0 <= i < entries.len() implies members(entries).dom().contains(
            #[trigger] entries[i].0@,
        ) && members(entries)[entries[i].0@] == entries[i].1.tree() by {
            if i < last {
                assert(rest[i].0@ == entries[i].0@);
                assert(entries[i].0@ != entries[last].0@);
            }
        }
        assert forall|k: Seq<char>| #[trigger] members(entries).dom().contains(k) implies exists|
            i: int,
        |
            0 <= i < entries.len() && #[trigger] entries[i].0@ == k by {
            if k == entries[last].0@ {
            } else {
                assert(members(rest).dom().contains(k));
                let i = choose|i: int| 0 <= i < rest.len() && #[trigger] rest[i].0@ == k;
                assert(entries[i].0@ == k);
            }
        }
    }
}

impl Object {
    #[verifier::type_invariant]
    spec fn well_formed(self) -> bool {
        distinct(self.entries@)
    }

    /// The members by name.
    pub closed spec fn map(&self) -> Map<Seq<char>, JsonTree>
        decreases self,
    {
        members(self.entries@)
    }

    /// An object without members.
    pub fn new() -> (o: Object)
        ensures
            o@ == Map::<Seq<char>, JsonTree>::empty(),
    {
        Object { entries: Vec::new() }
    }

    fn position(&self, name: &str) -> (r: Option<usize>)
        ensures
            r matches Some(i) ==> i < self.entries@.len() && self.entries@[i as int].0@ == name@,
            r is None ==> forall|i: int|
                0 <= i < self.entries@.len() ==> #[trigger] self.entries@[i].0@ != name@,
    {
        let mut i: usize = 0;
        while i < self.entries.len()
            invariant
                i <= self.entries@.len(),
                forall|k: int| 0 <= k < i ==> #[trigger] self.entries@[k].0@ != name@,
            decreases self.entries@.len() - i,
        {
            if text::same(self.entries[i].0.as_str(), name) {
                return Some(i);
            }
            i = i + 1;
        }
        None
    }

    /// Sets a member, in place of an earlier one of the same name.
    pub fn insert(&mut self, name: &str, value: Json)
        ensures
            final(self)@ == old(self)@.insert(name@, value@),
    {
        let ghost before = self.entries@;
        proof {
            use_type_invariant(&*self);
            members_of_distinct(before);
        }
        let found = self.position(name);
        let mut entries: Vec<(String, Json)> = Vec::new();
        std::mem::swap(&mut entries, &mut self.entries);
        let entry = (name.to_owned(), value);
        match found {
            Some(i) => {
                entries.set(i, entry);
                proof {
                    assert forall|j: int| 0 <= j < entries@.len() implies #[trigger] entries@[j].0@
                        == before[j].0@ by {}
                    assert(distinct(entries@));
                }
            },
            None => {
                entries.push(entry);
                assert(
                    forall|j: int| 0 <= j < before.len() ==> #[trigger] entries@[j] == before[j]
                );
                assert(distinct(entries@));
            },
        }
        proof {
            members_of_distinct(entries@);
            let after = members(entries@);
            let wanted = members(before).insert(name@, value@);
            assert forall|k: Seq<char>| after.dom().contains(k) implies wanted.dom().contains(k) && after[k]
                == wanted[k] by {
                let j = choose|j: int| 0 <= j < entries@.len() && #[trigger] entries@[j].0@ == k;
                if j < before.len() {
                    assert(before[j].0@ == k);
                }
            }
            assert forall|k: Seq<char>| wanted.dom().contains(k) implies after.dom().contains(k) by {
                if k == name@ {
                    let at = match found {
                        Some(i) => i as int,
                        None => before.len() as int,
                    };
                    assert(entries@[at].0@ == k);
                } else {
                    let j = choose|j: int| 0 <= j < before.len() && #[trigger] before[j].0@ == k;
                    assert(entries@[j].0@ == k);
                }
            }
            assert(after =~= wanted);
        }
        self.entries = entries;
    }

    /// The object with one more member, in place of an earlier one of the same
    /// name.
    pub fn with(self, name: &str, value: Json) -> (o: Object)
        ensures
            o@ == self@.insert(name@, value@),
    {
        let mut o = self;
        o.insert(name, value);
        o
    }

    /// The member of this name.
    pub fn get(&self, name: &str) -> (r: Option<&Json>)
        ensures
            r is Some <==> self@.dom().contains(name@),
            r matches Some(v) ==> v@ == self@[name@],
    {
        proof {
            use_type_invariant(self);
            members_of_distinct(self.entries@);
        }
        match self.position(name) {
            Some(i) => {
                assert(self.entries@[i as int].0@ == name@);
                Some(&self.entries[i].1)
            },
            None => None,
        }
    }

    /// The member whose name comes first in dictionary order.
    pub fn take_first(self) -> (r: Option<(String, Json)>)
        ensures
            r is Some <==> self@ != Map::<Seq<char>, JsonTree>::empty(),
            r matches Some(e) ==> is_first(self@, e.0@) && e.0@ == first_name(self@) && e.1@ == self@[e.0@],
    {
        proof {
            use_type_invariant(&self);
            members_of_distinct(self.entries@);
        }
        if self.entries.len() == 0 {
            assert(self@ =~= Map::<Seq<char>, JsonTree>::empty());
            return None;
        }
        let mut at: usize = 0;
        let mut i: usize = 1;
        while i < self.entries.len()
            invariant
                at < i <= self.entries@.len(),
                forall|k: int|
                    0 <= k < i && k != at ==> text::before(
                        self.entries@[at as int].0@,
                        #[trigger] self.entries@[k].0@,
                    ),
                distinct(self.entries@),
            decreases self.entries@.len() - i,
        {
            let ghost old_at = at;
            proof {
                text::before_is_total(self.entries@[at as int].0@, self.entries@[i as int].0@);
            }
            if text::precedes(self.entries[i].0.as_str(), self.entries[at].0.as_str()) {
                proof {
                    assert forall|k: int| 0 <= k < i && k != old_at implies text::before(
                        self.entries@[i as int].0@,
                        #[trigger] self.entries@[k].0@,
                    ) by {
                        text::before_is_transitive(
                            self.entries@[i as int].0@,
                            self.entries@[old_at as int].0@,
                            self.entries@[k].0@,
                        );
                    }
                }
                at = i;
            }
            i = i + 1;
        }
        proof {
            let name = self.entries@[at as int].0@;
            assert(self@.dom().contains(name));
            assert forall|x: Seq<char>| #[trigger] self@.dom().contains(x) implies x == name
                || text::before(name, x) by {
                let k = choose|k: int| 0 <= k < self.entries@.len() && #[trigger] self.entries@[k].0@ == x;
            }
            assert(is_first(self@, name));
            first_name_is_unique(self@, name);
        }
        let mut entries = self.entries;
        Some(entries.remove(at))
    }

    /// The member of an object that has only one.
    pub fn only(&self) -> (r: Option<(&str, &Json)>)
        ensures
            match r {
                Some(e) => self@ == no_members().insert(e.0@, e.1@),
                None => forall|name: Seq<char>, value: JsonTree| self@ != #[trigger] no_members().insert(
                    name,
                    value,
                ),
            },
    {
        proof {
            use_type_invariant(self);
            members_len(self.entries@);
        }
        if self.entries.len() == 1 {
            let e = &self.entries[0];
            assert(self.entries@.subrange(0, 0) =~= Seq::<(String, Json)>::empty());
            assert(members(self.entries@.subrange(0, 0)) == no_members());
            Some((e.0.as_str(), &e.1))
        } else {
            proof {
                assert forall|name: Seq<char>, value: JsonTree| self@ != #[trigger] no_members().insert(
                    name,
                    value,
                ) by {
                    let one = no_members().insert(name, value);
                    assert(one.dom() =~= Set::<Seq<char>>::empty().insert(name));
                    assert(one.dom().len() == 1);
                }
            }
            None
        }
    }

    /// How many members there are.
    pub fn len(&self) -> (n: usize)
        ensures
            n == 0 <==> self@ == Map::<Seq<char>, JsonTree>::empty(),
            n == self@.dom().len(),
            self@.dom().finite(),
    {
        proof {
            use_type_invariant(self);
            members_of_distinct(self.entries@);
            members_len(self.entries@);
            if self.entries@.len() > 0 {
                assert(members(self.entries@).dom().contains(self.entries@[0].0@));
            } else {
                assert(self@ =~= Map::<Seq<char>, JsonTree>::empty());
            }
        }
        self.entries.len()
    }

    /// Whether there are no members.
    pub fn is_empty(&self) -> (b: bool)
        ensures
            b == (self@ == Map::<Seq<char>, JsonTree>::empty()),
    {
        self.len() == 0
    }

    /// The names of the members, each once.
    pub fn names(&self) -> (r: Vec<String>)
        ensures
            forall|k: Seq<char>|
                #![trigger self@.dom().contains(k)]
                self@.dom().contains(k) <==> exists|i: int|
                    0 <= i < r@.len() && #[trigger] r@[i]@ == k,
            forall|i: int, j: int|
                0 <= i < j < r@.len() ==> #[trigger] r@[i]@ != #[trigger] r@[j]@,
    {
        proof {
            use_type_invariant(self);
            members_of_distinct(self.entries@);
        }
        let mut out: Vec<String> = Vec::new();
        let mut i: usize = 0;
        while i < self.entries.len()
            invariant
                i <= self.entries@.len(),
                out@.len() == i,
                forall|k: int| 0 <= k < i ==> #[trigger] out@[k]@ == self.entries@[k].0@,
            decreases self.entries@.len() - i,
        {
            out.push(self.entries[i].0.clone());
            i = i + 1;
        }
        assert forall|k: Seq<char>| #[trigger] self@.dom().contains(k) implies exists|i: int|
            0 <= i < out@.len() && #[trigger] out@[i]@ == k by {
            let i = choose|i: int| 0 <= i < self.entries@.len() && #[trigger] self.entries@[i].0@ == k;
            assert(out@[i]@ == k);
        }
        out
    }
}

/// Whether a member's name comes before all others.
pub open spec fn is_first(m: Map<Seq<char>, JsonTree>, name: Seq<char>) -> bool {
    &&& m.dom().contains(name)
    &&& forall|x: Seq<char>| #[trigger] m.dom().contains(x) ==> x == name || text::before(name, x)
}

/// The member's name that comes before all others.
pub open spec fn first_name(m: Map<Seq<char>, JsonTree>) -> Seq<char> {
    choose|name: Seq<char>| #[trigger] is_first(m, name)
}

/// Only one name comes first.
pub proof fn first_name_is_unique(m: Map<Seq<char>, JsonTree>, name: Seq<char>)
    requires
        is_first(m, name),
    ensures
        first_name(m) == name,
{
    let other = first_name(m);
    assert(is_first(m, other));
    assert(m.dom().contains(other));
    text::before_is_total(name, other);
}

proof fn members_len(entries: Seq<(String, Json)>)
    requires
        distinct(entries),
    ensures
        members(entries).dom().finite(),
        members(entries).dom().len() == entries.len(),
    decreases entries.len(),
{
    if entries.len() > 0 {
        let rest = entries.subrange(0, entries.len() - 1);
        let last = entries[entries.len() - 1].0@;
        assert(forall|i: int| 0 <= i < rest.len() ==> #[trigger] rest[i] == entries[i]);
        members_len(rest);
        members_of_distinct(rest);
        assert(!members(rest).dom().contains(last)) by {
            if members(rest).dom().contains(last) {
                let i = choose|i: int| 0 <= i < rest.len() && #[trigger] rest[i].0@ == last;
                assert(entries[i].0@ == last);
                assert(entries[entries.len() - 1].0@ == last);
            }
        }
        assert(members(entries).dom() =~= members(rest).dom().insert(last));
    } else {
        assert(members(entries).dom() =~= Set::<Seq<char>>::empty());
    }
}

impl View for Object {
    type V = Map<Seq<char>, JsonTree>;

    open spec fn view(&self) -> Map<Seq<char>, JsonTree> {
        self.map()
    }
}

impl View for Json {
    type V = JsonTree;

    open spec fn view(&self) -> JsonTree {
        self.tree()
    }
}

/// What a list of values holds.
pub open spec fn trees(items: Seq<Json>) -> Seq<JsonTree> {
    Seq::new(items.len(), |i: int| items[i].tree())
}

impl Json {
    /// What the value holds.
    pub open spec fn tree(&self) -> JsonTree
        decreases self,
    {
        match self {
            Json::Null => JsonTree::Null,
            Json::Bool(b) => JsonTree::Bool(*b),
            Json::Number(n) => JsonTree::Number(n@),
            Json::Text(t) => JsonTree::Text(t@),
            Json::Array(items) => JsonTree::Array(
                Seq::new(
                    items@.len(),
                    |i: int|
                        if 0 <= i < items@.len() {
                            items@[i].tree()
                        } else {
                            JsonTree::Null
                        },
                ),
            ),
            Json::Object(o) => JsonTree::Object(o.map()),
        }
    }
}

/// The view of an array lists the views of its items.
pub broadcast proof fn array_tree(items: Vec<Json>)
    ensures
        #[trigger] Json::Array(items).tree() == JsonTree::Array(trees(items@)),
{
    assert(Json::Array(items).tree()->Array_0 =~= trees(items@));
}

/// The member of an object, when the value is an object that has it.
pub open spec fn member(t: JsonTree, name: Seq<char>) -> Option<JsonTree> {
    match t {
        JsonTree::Object(m) => if m.dom().contains(name) {
            Some(m[name])
        } else {
            None
        },
        _ => None,
    }
}

/// The text that a value is.
pub open spec fn as_text(t: JsonTree) -> Option<Seq<char>> {
    match t {
        JsonTree::Text(s) => Some(s),
        _ => None,
    }
}

impl Json {
    /// A text value.
    pub fn text(s: &str) -> (j: Json)
        ensures
            j@ == JsonTree::Text(s@),
    {
        Json::Text(s.to_owned())
    }

    /// An unsigned integer.
    pub fn unsigned(n: u64) -> (j: Json)
        ensures
            j@ == JsonTree::Number(text::integer(n as int)),
    {
        Json::Number(Number::from_u128(n as u128))
    }

    /// A signed integer.
    pub fn signed(n: i64) -> (j: Json)
        ensures
            j@ == JsonTree::Number(text::integer(n as int)),
    {
        Json::Number(Number::from_i128(n as i128))
    }

    /// A list of values.
    pub fn array(items: Vec<Json>) -> (j: Json)
        ensures
            j@ == JsonTree::Array(trees(items@)),
    {
        proof {
            array_tree(items);
        }
        Json::Array(items)
    }

    /// A list of texts.
    pub fn texts(items: &[&str]) -> (j: Json)
        ensures
            j@ == texts_tree(items@),
    {
        let mut out: Vec<Json> = Vec::new();
        let mut i: usize = 0;
        while i < items.len()
            invariant
                i <= items@.len(),
                out@.len() == i,
                forall|k: int| 0 <= k < i ==> #[trigger] out@[k].tree() == JsonTree::Text(items@[k]@),
            decreases items@.len() - i,
        {
            out.push(Json::text(items[i]));
            i = i + 1;
        }
        assert(trees(out@) =~= texts_tree(items@)->Array_0);
        Json::array(out)
    }

    /// A text, or `null`.
    pub fn text_or_null(s: Option<&str>) -> (j: Json)
        ensures
            j@ == (match s { Some(t) => JsonTree::Text(t@), None => JsonTree::Null }),
    {
        match s {
            Some(t) => Json::text(t),
            None => Json::Null,
        }
    }

    /// A size, if one other than zero was chosen.
    pub fn positive(n: Option<usize>) -> (r: Option<Json>)
        ensures
            optional_tree(r) == positive_tree(n),
    {
        match n {
            Some(n) => if n > 0 {
                Some(Json::unsigned(n as u64))
            } else {
                None
            },
            None => None,
        }
    }

    /// An object, or `null`.
    pub fn object_or_null(o: Option<&Object>) -> (j: Json)
        ensures
            j@ == optional_members(o),
    {
        match o {
            Some(o) => Json::Object(o.clone()),
            None => Json::Null,
        }
    }

    /// A size, or `null`.
    pub fn size_or_null(n: Option<usize>) -> (j: Json)
        ensures
            j@ == size_tree(n),
    {
        match n {
            Some(n) => Json::unsigned(n as u64),
            None => Json::Null,
        }
    }

    /// An object with one member.
    pub fn wrap(name: &str, value: Json) -> (j: Json)
        ensures
            j@ == wrapped(name@, value@),
    {
        Json::Object(Object::new().with(name, value))
    }

    /// The member of an object.
    pub fn get(&self, name: &str) -> (r: Option<&Json>)
        ensures
            member(self@, name@) == (match r { Some(v) => Some(v@), None => None::<JsonTree> }),
    {
        match self {
            Json::Object(o) => o.get(name),
            _ => None,
        }
    }

    /// The text that the value is.
    pub fn as_str(&self) -> (r: Option<&str>)
        ensures
            as_text(self@) == (match r { Some(s) => Some(s@), None => None::<Seq<char>> }),
    {
        match self {
            Json::Text(s) => Some(s.as_str()),
            _ => None,
        }
    }

    /// The items of an array.
    pub fn as_array(&self) -> (r: Option<&Vec<Json>>)
        ensures
            r is Some <==> self@ is Array,
            r matches Some(items) ==> self@ == JsonTree::Array(trees(items@)),
    {
        match self {
            Json::Array(items) => {
                proof {
                    array_tree(*items);
                }
                Some(items)
            },
            _ => None,
        }
    }

    /// The unsigned integer that the value is.
    pub fn as_u64(&self) -> (r: Option<u64>)
        ensures
            r == as_unsigned(self@),
    {
        match self {
            Json::Number(n) => n.as_u64(),
            _ => None,
        }
    }

    /// The signed integer that the value is.
    pub fn as_i64(&self) -> (r: Option<i64>)
        ensures
            r == as_signed(self@),
    {
        match self {
            Json::Number(n) => n.as_i64(),
            _ => None,
        }
    }

    /// Whether two values hold the same.
    pub fn equals(&self, other: &Json) -> (b: bool)
        ensures
            b == (self@ == other@),
        decreases self, 0nat,
    {
        match (self, other) {
            (Json::Null, Json::Null) => true,
            (Json::Bool(a), Json::Bool(b)) => *a == *b,
            (Json::Number(a), Json::Number(b)) => text::same(a.as_str(), b.as_str()),
            (Json::Text(a), Json::Text(b)) => text::same(a.as_str(), b.as_str()),
            (Json::Array(a), Json::Array(b)) => {
                proof {
                    array_tree(*a);
                    array_tree(*b);
                }
                same_items(a, b)
            },
            (Json::Object(a), Json::Object(b)) => a.equals(b),
            _ => false,
        }
    }
}

impl Object {
    /// The members as entries of the outside JSON type.
    pub(crate) fn to_entries(&self) -> (r: Vec<(String, serde_json::Value)>)
        ensures
            codec::pairs_map(codec::owned_pairs(r@)) == self@,
            numbers_ok(JsonTree::Object(self@)),
        decreases self,
    {
        let mut out: Vec<(String, serde_json::Value)> = Vec::new();
        let mut i: usize = 0;
        assert(
            codec::pairs_map(codec::owned_pairs(out@)) =~= members(self.entries@.subrange(0, 0))
        );
        while i < self.entries.len()
            invariant
                i <= self.entries@.len(),
                out@.len() == i,
                codec::pairs_map(codec::owned_pairs(out@)) == members(self.entries@.subrange(0, i as int)),
                numbers_ok(JsonTree::Object(codec::pairs_map(codec::owned_pairs(out@)))),
            decreases self.entries@.len() - i,
        {
            let ghost before = out@;
            let e = &self.entries[i];
            let value = codec::to_value(&e.1);
            out.push((e.0.clone(), value));
            proof {
                let part = self.entries@.subrange(0, i + 1);
                assert(part.subrange(0, part.len() - 1) =~= self.entries@.subrange(0, i as int));
                assert(codec::owned_pairs(out@).drop_last() =~= codec::owned_pairs(before));
                let had = codec::pairs_map(codec::owned_pairs(before));
                let has = codec::pairs_map(codec::owned_pairs(out@));
                assert(numbers_ok(JsonTree::Object(had)));
                assert(has == had.insert(e.0@, e.1@));
                assert forall|k: Seq<char>| has.dom().contains(k) implies numbers_ok(
                    #[trigger] has[k],
                ) by {
                    if k != e.0@ {
                        assert(had.dom().contains(k));
                        assert(numbers_ok(JsonTree::Object(had)->Object_0[k]));
                    }
                }
            }
            i = i + 1;
        }
        assert(self.entries@.subrange(0, i as int) =~= self.entries@);
        out
    }

    /// Whether two objects have the same members.
    pub fn equals(&self, other: &Object) -> (b: bool)
        ensures
            b == (self@ == other@),
        decreases self, 1nat,
    {
        if !self.covered_by(other) {
            return false;
        }
        let mut i: usize = 0;
        proof {
            use_type_invariant(other);
            members_of_distinct(other.entries@);
        }
        while i < other.entries.len()
            invariant
                i <= other.entries@.len(),
                forall|k: int|
                    0 <= k < other.entries@.len() ==> other@.dom().contains(
                        #[trigger] other.entries@[k].0@,
                    ),
                forall|k: int|
                    0 <= k < i ==> self@.dom().contains(#[trigger] other.entries@[k].0@),
            decreases other.entries@.len() - i,
        {
            if self.get(other.entries[i].0.as_str()).is_none() {
                assert(other@.dom().contains(other.entries@[i as int].0@));
                return false;
            }
            i = i + 1;
        }
        proof {
            assert forall|k: Seq<char>| other@.dom().contains(k) implies self@.dom().contains(k) by {
                let j = choose|j: int|
                    0 <= j < other.entries@.len() && #[trigger] other.entries@[j].0@ == k;
            }
            assert(self@ =~= other@);
        }
        true
    }

    /// Whether every member is a member of the other object, with the same
    /// value.
    fn covered_by(&self, other: &Object) -> (b: bool)
        ensures
            b == (forall|k: Seq<char>| #[trigger]
                self@.dom().contains(k) ==> other@.dom().contains(k) && other@[k] == self@[k]),
        decreases self, 0nat,
    {
        proof {
            use_type_invariant(self);
            members_of_distinct(self.entries@);
        }
        let mut i: usize = 0;
        while i < self.entries.len()
            invariant
                i <= self.entries@.len(),
                forall|k: int|
                    0 <= k < self.entries@.len() ==> self@.dom().contains(#[trigger] self.entries@[k].0@)
                        && self@[self.entries@[k].0@] == self.entries@[k].1.tree(),
                forall|k: int|
                    0 <= k < i ==> other@.dom().contains(#[trigger] self.entries@[k].0@)
                        && other@[self.entries@[k].0@] == self@[self.entries@[k].0@],
            decreases self.entries@.len() - i,
        {
            let e = &self.entries[i];
            assert(self@.dom().contains(self.entries@[i as int].0@));
            match other.get(e.0.as_str()) {
                Some(v) => {
                    if !e.1.equals(v) {
                        return false;
                    }
                },
                None => {
                    return false;
                },
            }
            i = i + 1;
        }
        proof {
            assert forall|k: Seq<char>| #[trigger] self@.dom().contains(k) implies other@.dom().contains(k)
                && other@[k] == self@[k] by {
                let j = choose|j: int| 0 <= j < self.entries@.len() && #[trigger] self.entries@[j].0@ == k;
            }
        }
        true
    }
}

/// A type whose values have a form on the wire.
pub trait OnWire: View<V = JsonTree> + Sized {
    /// The value on the wire.
    fn to_json(&self) -> (j: Json)
        ensures
            j@ == self@,
    ;
}

/// What the items of a list are on the wire.
pub open spec fn wire_views<T: OnWire>(items: Seq<T>) -> Seq<JsonTree> {
    Seq::new(items.len(), |i: int| items[i]@)
}

/// A list on the wire.
pub fn wire_list<T: OnWire>(items: &[T]) -> (j: Json)
    ensures
        j@ == JsonTree::Array(wire_views(items@)),
{
    let mut out: Vec<Json> = Vec::new();
    let mut i: usize = 0;
    while i < items.len()
        invariant
            i <= items@.len(),
            out@.len() == i,
            forall|k: int| 0 <= k < i ==> #[trigger] out@[k].tree() == items@[k]@,
        decreases items@.len() - i,
    {
        out.push(items[i].to_json());
        i = i + 1;
    }
    assert(trees(out@) =~= wire_views(items@));
    Json::array(out)
}

/// A list of texts.
pub open spec fn texts_tree(items: Seq<&str>) -> JsonTree {
    JsonTree::Array(Seq::new(items.len(), |i: int| JsonTree::Text(items[i]@)))
}

/// An integer.
pub open spec fn number_tree(n: int) -> JsonTree {
    JsonTree::Number(text::integer(n))
}

/// A size, or `null`.
pub open spec fn size_tree(n: Option<usize>) -> JsonTree {
    match n {
        Some(n) => JsonTree::Number(text::integer(n as int)),
        None => JsonTree::Null,
    }
}

/// What an optional value holds.
pub open spec fn optional_tree(j: Option<Json>) -> Option<JsonTree> {
    match j {
        Some(j) => Some(j@),
        None => None,
    }
}

/// A size on the wire, if one other than zero was chosen.
pub open spec fn positive_tree(n: Option<usize>) -> Option<JsonTree> {
    match n {
        Some(n) => if n > 0 {
            Some(number_tree(n as int))
        } else {
            None
        },
        None => None,
    }
}

/// An object on the wire, or `null`.
pub open spec fn optional_members(o: Option<&Object>) -> JsonTree {
    match o {
        Some(o) => JsonTree::Object(o@),
        None => JsonTree::Null,
    }
}

/// Members with one more, if there is a value for it.
pub open spec fn put_members(
    members: Map<Seq<char>, JsonTree>,
    name: Seq<char>,
    value: Option<JsonTree>,
) -> Map<Seq<char>, JsonTree> {
    match value {
        Some(v) => members.insert(name, v),
        None => members,
    }
}

/// Write a value only when the caller chose one, so an unset option lands on
/// the server's default instead of being sent as an empty string.
pub fn put(body: Object, name: &str, value: Option<Json>) -> (o: Object)
    ensures
        o@ == put_members(body@, name@, optional_tree(value)),
{
    match value {
        Some(v) => body.with(name, v),
        None => body,
    }
}

/// No members at all.
pub open spec fn no_members() -> Map<Seq<char>, JsonTree> {
    Map::empty()
}

/// An object with one member.
pub open spec fn wrapped(name: Seq<char>, value: JsonTree) -> JsonTree {
    JsonTree::Object(Map::<Seq<char>, JsonTree>::empty().insert(name, value))
}

fn same_items(a: &Vec<Json>, b: &Vec<Json>) -> (r: bool)
    ensures
        r == (trees(a@) == trees(b@)),
    decreases a, 0nat,
{
    if a.len() != b.len() {
        assert(trees(a@).len() != trees(b@).len());
        return false;
    }
    let mut i: usize = 0;
    while i < a.len()
        invariant
            i <= a@.len(),
            a@.len() == b@.len(),
            forall|k: int| 0 <= k < i ==> #[trigger] a@[k].tree() == b@[k].tree(),
        decreases a@.len() - i,
    {
        if !a[i].equals(&b[i]) {
            assert(trees(a@)[i as int] != trees(b@)[i as int]);
            return false;
        }
        i = i + 1;
    }
    assert(trees(a@) =~= trees(b@));
    true
}

fn clone_items(items: &Vec<Json>) -> (r: Vec<Json>)
    ensures
        trees(r@) == trees(items@),
    decreases items,
{
    let mut out: Vec<Json> = Vec::new();
    let mut i: usize = 0;
    while i < items.len()
        invariant
            i <= items@.len(),
            out@.len() == i,
            forall|k: int| 0 <= k < i ==> #[trigger] out@[k].tree() == items@[k].tree(),
        decreases items@.len() - i,
    {
        let item = (&items[i]).clone();
        out.push(item);
        i = i + 1;
    }
    assert(trees(out@) =~= trees(items@));
    out
}

impl Clone for Json {
    fn clone(&self) -> (r: Json)
        ensures
            r@ == self@,
        decreases self,
    {
        match self {
            Json::Null => Json::Null,
            Json::Bool(b) => Json::Bool(*b),
            Json::Number(n) => Json::Number(n.clone()),
            Json::Text(t) => Json::Text(t.clone()),
            Json::Array(items) => {
                proof {
                    array_tree(*items);
                }
                Json::array(clone_items(items))
            },
            Json::Object(o) => Json::Object(o.clone()),
        }
    }
}

proof fn same_members(a: Seq<(String, Json)>, b: Seq<(String, Json)>)
    requires
        a.len() == b.len(),
        forall|i: int| #![trigger a[i]] #![trigger b[i]] 0 <= i < a.len() ==> a[i].0@ == b[i].0@ && a[i].1.tree() == b[i].1.tree(),
    ensures
        members(a) == members(b),
        distinct(a) ==> distinct(b),
    decreases a.len(),
{
    if a.len() > 0 {
        same_members(a.subrange(0, a.len() - 1), b.subrange(0, b.len() - 1));
    }
    if distinct(a) {
        assert forall|i: int, j: int|
            #![trigger b[i].0@, b[j].0@]
            0 <= i < j < b.len() implies b[i].0@ != b[j].0@ by {
            assert(a[i].0@ != a[j].0@);
        }
    }
}

impl Clone for Object {
    fn clone(&self) -> (r: Object)
        ensures
            r@ == self@,
        decreases self,
    {
        let mut out: Vec<(String, Json)> = Vec::new();
        let mut i: usize = 0;
        while i < self.entries.len()
            invariant
                i <= self.entries@.len(),
                out@.len() == i,
                forall|k: int|
                    #![trigger out@[k]]
                    0 <= k < i ==> self.entries@[k].0@ == out@[k].0@ && self.entries@[k].1.tree() == out@[k].1.tree(),
            decreases self.entries@.len() - i,
        {
            let e = &self.entries[i];
            let value = (&e.1).clone();
            out.push((e.0.clone(), value));
            i = i + 1;
        }
        proof {
            use_type_invariant(self);
            same_members(self.entries@, out@);
        }
        Object { entries: out }
    }
}

impl PartialEq for Object {
    fn eq(&self, other: &Object) -> (b: bool) {
        self.equals(other)
    }
}

impl vstd::std_specs::cmp::PartialEqSpecImpl for Object {
    open spec fn obeys_eq_spec() -> bool {
        true
    }

    open spec fn eq_spec(&self, other: &Object) -> bool {
        self@ == other@
    }
}

impl PartialEq for Json {
    fn eq(&self, other: &Json) -> (b: bool) {
        self.equals(other)
    }
}

impl vstd::std_specs::cmp::PartialEqSpecImpl for Json {
    open spec fn obeys_eq_spec() -> bool {
        true
    }

    open spec fn eq_spec(&self, other: &Json) -> bool {
        self@ == other@
    }
}

/// A run of digits goes on to the first character that is none.
pub proof fn digits_run_to_another_character(s: Seq<char>, run: int, i: int)
    requires
        0 <= i <= run <= s.len(),
        forall|k: int| i <= k < run ==> '0' <= #[trigger] s[k] && s[k] <= '9',
        run == s.len() || s[run] < '0' || s[run] > '9',
    ensures
        digits_end(s, i) == run,
    decreases run - i,
{
    if i < run {
        assert('0' <= s[i] && s[i] <= '9');
        digits_run_to_another_character(s, run, i + 1);
    }
}

/// A number is digits that do not begin with a needless zero. It may have a minus sign
/// in front, a point with digits behind, and an exponent with a sign and digits.
pub proof fn numbers_are_written_so(
    minus: bool,
    whole: Seq<char>,
    part: Seq<char>,
    sign: char,
    power: Seq<char>,
)
    requires
        forall|k: int| 0 <= k < whole.len() ==> '0' <= #[trigger] whole[k] && whole[k] <= '9',
        forall|k: int| 0 <= k < part.len() ==> '0' <= #[trigger] part[k] && part[k] <= '9',
        forall|k: int| 0 <= k < power.len() ==> '0' <= #[trigger] power[k] && power[k] <= '9',
    ensures
        ({
            let front = if minus {
                seq!['-'] + whole
            } else {
                whole
            };
            let good = whole.len() > 0 && (whole.len() > 1 ==> whole[0] != '0');
            &&& is_number(front) <==> good
            &&& is_number(front.push('.') + part) <==> good && part.len() > 0
            &&& is_number(front.push('e').push(sign) + power) <==> good && power.len() > 0 && (sign
                == '+' || sign == '-')
            &&& is_number(front.push('.') + part + seq!['e', sign] + power) <==> good && part.len()
                > 0 && power.len() > 0 && (sign == '+' || sign == '-')
        }),
{
    let front = if minus {
        seq!['-'] + whole
    } else {
        whole
    };
    let start: int = if minus {
        1
    } else {
        0
    };
    let n = front.len() as int;
    assert forall|k: int| start <= k < n implies '0' <= #[trigger] front[k] && front[k] <= '9' by {
        assert(front[k] == whole[k - start]);
    }
    assert(whole.len() > 0 ==> front[start] == whole[0]);
    // Digits alone.
    assert(integer_start(front) == start || whole.len() == 0);
    if whole.len() > 0 || minus {
        assert(integer_start(front) == start);
        digits_run_to_another_character(front, n, start);
    }
    // With a point.
    let pointed = front.push('.') + part;
    assert forall|k: int| 0 <= k < n implies #[trigger] pointed[k] == front[k] by {}
    assert(pointed[n] == '.');
    assert forall|k: int| n < k < pointed.len() implies '0' <= #[trigger] pointed[k] && pointed[k]
        <= '9' by {
        assert(pointed[k] == part[k - n - 1]);
    }
    assert(integer_start(pointed) == start);
    digits_run_to_another_character(pointed, n, start);
    digits_run_to_another_character(pointed, pointed.len() as int, n + 1);
    // With an exponent.
    let scaled = front.push('e').push(sign) + power;
    assert forall|k: int| 0 <= k < n implies #[trigger] scaled[k] == front[k] by {}
    assert(scaled[n] == 'e');
    assert(scaled[n + 1] == sign);
    assert forall|k: int| n + 1 < k < scaled.len() implies '0' <= #[trigger] scaled[k] && scaled[k]
        <= '9' by {
        assert(scaled[k] == power[k - n - 2]);
    }
    assert(integer_start(scaled) == start);
    digits_run_to_another_character(scaled, n, start);
    digits_run_to_another_character(scaled, scaled.len() as int, n + 2);
    // With both.
    let both = front.push('.') + part + seq!['e', sign] + power;
    let m = n + 1 + part.len();
    assert forall|k: int| 0 <= k < m implies #[trigger] both[k] == pointed[k] by {}
    assert(both[m] == 'e');
    assert(both[m + 1] == sign);
    assert forall|k: int| m + 1 < k < both.len() implies '0' <= #[trigger] both[k] && both[k]
        <= '9' by {
        assert(both[k] == power[k - m - 2]);
    }
    assert(both[n] == '.');
    assert(integer_start(both) == start);
    digits_run_to_another_character(both, n, start);
    digits_run_to_another_character(both, m, n + 1);
    digits_run_to_another_character(both, both.len() as int, m + 2);
}

/// An integer is taken from a number of its value alone, when it fits.
pub proof fn integers_are_taken_when_they_fit(i: int, t: JsonTree)
    ensures
        0 <= i <= u64::MAX ==> as_unsigned(JsonTree::Number(text::integer(i))) == Some(i as u64),
        i < 0 || i > u64::MAX ==> as_unsigned(JsonTree::Number(text::integer(i))) is None,
        i64::MIN <= i <= i64::MAX ==> as_signed(JsonTree::Number(text::integer(i))) == Some(
            i as i64,
        ),
        i < i64::MIN || i > i64::MAX ==> as_signed(JsonTree::Number(text::integer(i))) is None,
        !(t is Number) ==> as_unsigned(t) is None && as_signed(t) is None,
        forall|s: Seq<char>, k: int|
            #![trigger as_unsigned(JsonTree::Number(s)), s[k]]
            0 <= k < s.len() && (s[k] < '0' || s[k] > '9') ==> as_unsigned(JsonTree::Number(s))
                is None,
        forall|s: Seq<char>, k: int|
            #![trigger as_signed(JsonTree::Number(s)), s[k]]
            0 < k < s.len() && (s[k] < '0' || s[k] > '9') ==> as_signed(JsonTree::Number(s))
                is None,
{
    text::decimal_reads_back(i);
    if i < 0 {
        assert(text::integer(i)[0] == '-');
        assert(!text::is_digit(text::integer(i)[0]));
    }
    assert forall|s: Seq<char>, k: int|
        #![trigger as_signed(JsonTree::Number(s)), s[k]]
        0 < k < s.len() && (s[k] < '0' || s[k] > '9') implies as_signed(JsonTree::Number(s))
        is None by {
        if s[0] == '-' {
            assert(s.skip(1)[k - 1] == s[k]);
        } else {
            assert(!text::is_digit(s[k]));
        }
    }
}

/// A member is found by its name, in an object alone, and a text in a text alone.
pub proof fn members_are_found_by_name(
    m: Map<Seq<char>, JsonTree>,
    name: Seq<char>,
    value: JsonTree,
    t: JsonTree,
    s: Seq<char>,
)
    ensures
        member(JsonTree::Object(m.insert(name, value)), name) == Some(value),
        member(JsonTree::Object(m.remove(name)), name) is None,
        !(t is Object) ==> member(t, name) is None,
        as_text(JsonTree::Text(s)) == Some(s),
        !(t is Text) ==> as_text(t) is None,
{
}

/// A value under one name is an object of that one member.
pub proof fn a_wrapped_value_is_the_only_member(
    name: Seq<char>,
    value: JsonTree,
    other: Seq<char>,
)
    ensures
        wrapped(name, value) == JsonTree::Object(map![name => value]),
        member(wrapped(name, value), name) == Some(value),
        other != name ==> member(wrapped(name, value), other) is None,
        no_members() == Map::<Seq<char>, JsonTree>::empty(),
{
    assert(Map::<Seq<char>, JsonTree>::empty().insert(name, value) =~= map![name => value]);
}

/// An optional member is there exactly when it has a value, and leaves the others as
/// they are.
pub proof fn an_optional_member_is_there_when_it_has_a_value(
    m: Map<Seq<char>, JsonTree>,
    name: Seq<char>,
    value: JsonTree,
    other: Seq<char>,
)
    ensures
        put_members(m, name, None) == m,
        put_members(m, name, Some(value)).dom().contains(name),
        put_members(m, name, Some(value))[name] == value,
        other != name ==> {
            &&& put_members(m, name, Some(value)).dom().contains(other) <==> m.dom().contains(other)
            &&& m.dom().contains(other) ==> put_members(m, name, Some(value))[other] == m[other]
        },
{
}

/// What the request builders send for a number, a size, texts and members.
pub proof fn request_values_are_sent_as_they_are(
    n: usize,
    i: int,
    items: Seq<&str>,
    j: Json,
    o: &Object,
)
    ensures
        number_tree(i) == JsonTree::Number(text::integer(i)),
        size_tree(Some(n)) == JsonTree::Number(text::integer(n as int)),
        size_tree(None) == JsonTree::Null,
        positive_tree(None) is None,
        positive_tree(Some(0)) is None,
        n > 0 ==> positive_tree(Some(n)) == Some(JsonTree::Number(text::integer(n as int))),
        optional_tree(None) is None,
        optional_tree(Some(j)) == Some(j@),
        optional_members(None) == JsonTree::Null,
        optional_members(Some(o)) == JsonTree::Object(o@),
        texts_tree(items) is Array,
        texts_tree(items)->Array_0.len() == items.len(),
        forall|k: int|
            0 <= k < items.len() ==> #[trigger] texts_tree(items)->Array_0[k] == JsonTree::Text(
                items[k]@,
            ),
{
}

/// A value is what it holds, lists whole and in order.
pub proof fn values_are_what_they_hold(
    b: bool,
    n: Number,
    s: String,
    v: Vec<Json>,
    o: Object,
    i: int,
)
    ensures
        Json::Null@ == JsonTree::Null,
        Json::Bool(b)@ == JsonTree::Bool(b),
        Json::Number(n)@ == JsonTree::Number(n@),
        Json::Text(s)@ == JsonTree::Text(s@),
        Json::Object(o)@ == JsonTree::Object(o@),
        Json::Array(v)@ is Array,
        Json::Array(v)@->Array_0.len() == v@.len(),
        0 <= i < v@.len() ==> Json::Array(v)@->Array_0[i] == v@[i]@,
        trees(v@).len() == v@.len(),
        0 <= i < v@.len() ==> trees(v@)[i] == v@[i]@,
{
}

/// What is sent for a list of values is a list of what is sent for each.
pub proof fn lists_are_sent_item_by_item<T: OnWire>(items: Seq<T>, i: int)
    requires
        0 <= i < items.len(),
    ensures
        wire_views(items).len() == items.len(),
        wire_views(items)[i] == items[i]@,
{
}

/// Every number in a value is written as numbers are.
pub proof fn every_number_in_a_value_is_one(
    s: Seq<char>,
    items: Seq<JsonTree>,
    m: Map<Seq<char>, JsonTree>,
    i: int,
    name: Seq<char>,
)
    ensures
        numbers_ok(JsonTree::Number(s)) <==> is_number(s),
        numbers_ok(JsonTree::Null),
        numbers_ok(JsonTree::Text(s)),
        numbers_ok(JsonTree::Array(items)) && 0 <= i < items.len() ==> numbers_ok(items[i]),
        numbers_ok(JsonTree::Object(m)) && m.dom().contains(name) ==> numbers_ok(m[name]),
        (forall|k: int| 0 <= k < items.len() ==> numbers_ok(#[trigger] items[k])) ==> numbers_ok(
            JsonTree::Array(items),
        ),
        (forall|k: Seq<char>| m.dom().contains(k) ==> numbers_ok(#[trigger] m[k])) ==> numbers_ok(
            JsonTree::Object(m),
        ),
{
    let list = JsonTree::Array(items);
    if numbers_ok(list) && 0 <= i < items.len() {
        assert(list->Array_0[i] == items[i]);
        assert(numbers_ok(list->Array_0[i]));
    }
    let object = JsonTree::Object(m);
    if numbers_ok(object) && m.dom().contains(name) {
        assert(numbers_ok(object->Object_0[name]));
    }
}

/// Values are equal when they hold the same, in whatever order their members were put.
pub proof fn values_are_equal_when_they_hold_the_same(a: Json, b: Json, x: Object, y: Object)
    ensures
        a.eq_spec(&b) <==> a@ == b@,
        x.eq_spec(&y) <==> x@ == y@,
{
}

/// The first name of an object comes before every other.
pub proof fn the_first_name_comes_before_the_others(
    a: Seq<char>,
    b: Seq<char>,
    x: JsonTree,
    y: JsonTree,
)
    requires
        text::before(a, b),
    ensures
        first_name(map![a => x, b => y]) == a,
        first_name(map![a => x]) == a,
{
    text::before_is_total(a, b);
    let both = map![a => x, b => y];
    assert(both.dom().contains(a));
    assert(is_first(both, a)) by {
        assert forall|n: Seq<char>| #[trigger] both.dom().contains(n) implies n == a
            || text::before(a, n) by {
            assert(n == a || n == b);
        }
    }
    first_name_is_unique(both, a);
    let one = map![a => x];
    assert(is_first(one, a));
    first_name_is_unique(one, a);
}

/// A number holds digits, signs, points and exponents alone, and begins with a digit or
/// a minus sign.
pub proof fn numbers_hold_nothing_else(s: Seq<char>, i: int)
    requires
        is_number(s),
        0 <= i < s.len(),
    ensures
        "0123456789+-.e"@.contains(s[i]),
        s[0] == '-' || '0' <= s[0] && s[0] <= '9',
{
    reveal_strlit("0123456789+-.e");
    let allowed = "0123456789+-.e"@;
    let start = integer_start(s);
    let whole = digits_end(s, start);
    digits_end_bounds(s, start);
    let fraction = fraction_end(s, whole);
    if whole < s.len() && s[whole] == '.' {
        digits_end_bounds(s, whole + 1);
    }
    if fraction < s.len() {
        digits_end_bounds(s, fraction + 2);
    }
    assert(text::is_digit(s[start]));
    assert(allowed[10] == '+' && allowed[11] == '-' && allowed[12] == '.' && allowed[13] == 'e');
    if text::is_digit(s[i]) {
        let d = s[i] as int - 48;
        assert(0 <= d < 10);
        assert(allowed[d] == s[i]);
    } else if i < start {
        assert(s[i] == allowed[11]);
    } else if i == whole && i < fraction {
        assert(s[i] == allowed[12]);
    } else if i == fraction {
        assert(s[i] == allowed[13]);
    } else {
        assert(i == fraction + 1);
        assert(s[i] == allowed[10] || s[i] == allowed[11]);
    }
}

/// What `==` gives on values and objects.
pub proof fn values_compare_by_what_they_hold(a: &Json, b: &Json, x: &Object, y: &Object, r: bool)
    ensures
        call_ensures(<Json as PartialEq>::eq, (a, b), r) ==> (r <==> a@ == b@),
        call_ensures(<Object as PartialEq>::eq, (x, y), r) ==> (r <==> x@ == y@),
{
}

/// What two calls have to do with one another: what was put under a name is found under
/// it, and what stands under another name is left.
pub proof fn what_was_put_is_found(
    o: &mut Object,
    name: &str,
    value: Json,
    other: &str,
    found: Option<&Json>,
    before: Option<&Json>,
)
    requires
        call_ensures(Object::insert, (o, name, value), ()),
    ensures
        call_ensures(Object::get, (final(o), name), found) ==> found is Some && found->0@ == value@,
        other@ != name@ && call_ensures(Object::get, (final(o), other), found) && call_ensures(
            Object::get,
            (old(o), other),
            before,
        ) ==> (found is Some <==> before is Some) && (found is Some ==> found->0@ == before->0@),
{
}

/// What the makers of numbers and values give.
pub proof fn values_are_made_of_what_was_given(
    i: i128,
    u: u128,
    n: Number,
    s: &str,
    r: Option<Number>,
    w: u64,
    z: i64,
    j: Json,
    items: Vec<Json>,
    texts: &[&str],
    o: Object,
)
    ensures
        call_ensures(Number::from_i128, (i,), n) ==> text::read_integer(n@) == Some(i as int),
        call_ensures(Number::from_u128, (u,), n) ==> text::read_integer(n@) == Some(u as int),
        call_ensures(Number::parse, (s,), r) ==> (r is Some <==> is_number(s@)),
        call_ensures(Number::parse, (s,), r) ==> (r matches Some(x) ==> x@ == s@),
        call_ensures(Object::new, (), o) ==> o@ == Map::<Seq<char>, JsonTree>::empty(),
        call_ensures(Json::text, (s,), j) ==> j@ == JsonTree::Text(s@),
        call_ensures(Json::unsigned, (w,), j) ==> j@ is Number && text::read_integer(j@->Number_0)
            == Some(w as int),
        call_ensures(Json::signed, (z,), j) ==> j@ is Number && text::read_integer(j@->Number_0)
            == Some(z as int),
        call_ensures(Json::array, (items,), j) ==> j@ is Array && j@->Array_0 == trees(items@),
        call_ensures(Json::texts, (texts,), j) ==> j@ == texts_tree(texts@),
{
    text::decimal_reads_back(i as int);
    text::decimal_reads_back(u as int);
    text::decimal_reads_back(w as int);
    text::decimal_reads_back(z as int);
}

/// What the readers of values give.
pub proof fn values_are_read_as_they_are(
    j: &Json,
    name: &str,
    v: Option<&Json>,
    s: Option<&str>,
    items: Option<&Vec<Json>>,
    u: Option<u64>,
    i: Option<i64>,
    o: &Object,
    n: usize,
    b: bool,
)
    ensures
        call_ensures(Json::get, (j, name), v) ==> (v is Some <==> j@ is Object
            && j@->Object_0.dom().contains(name@)),
        call_ensures(Json::get, (j, name), v) ==> (v matches Some(x) ==> x@ == j@->Object_0[name@]),
        call_ensures(Json::as_str, (j,), s) ==> (s is Some <==> j@ is Text),
        call_ensures(Json::as_str, (j,), s) ==> (s matches Some(t) ==> j@ == JsonTree::Text(t@)),
        call_ensures(Json::as_array, (j,), items) ==> (items is Some <==> j@ is Array),
        call_ensures(Json::as_u64, (j,), u) ==> u == as_unsigned(j@),
        call_ensures(Json::as_i64, (j,), i) ==> i == as_signed(j@),
        call_ensures(Object::len, (o,), n) ==> n == o@.dom().len(),
        call_ensures(Object::is_empty, (o,), b) ==> (b <==> o@ == Map::<
            Seq<char>,
            JsonTree,
        >::empty()),
{
}

} // verus!
