//! Typed values from JSON values.
//!
//! A record is read from an object by the names of its fields, or from an array
//! by their positions.

use crate::json::{as_signed, as_unsigned, Json, JsonTree, Number, Object};
#[allow(unused_imports)]
use crate::json::{member, no_members, trees};
use vstd::prelude::*;

verus! {

/// What is said of a payload that does not have the expected form.
pub const WRONG_SHAPE: &'static str = "a field is missing or has the wrong type";

/// A type that can be read from a JSON value.
pub trait Decode: Sized {
    /// What a value of the type is.
    type V;

    /// What a JSON value is read as, if it can be read.
    spec fn decoded(t: JsonTree) -> Option<Self::V>;

    /// What this value is.
    spec fn model(&self) -> Self::V;

    /// Reads a JSON value. `None` when it does not have the form of the type.
    fn decode(j: &Json) -> (r: Option<Self>)
        ensures
            match r {
                Some(x) => Self::decoded(j@) == Some(x.model()),
                None => Self::decoded(j@) is None,
            },
    ;
}

/// The field of a record: the member of an object, or the item of an array.
pub open spec fn field(t: JsonTree, position: nat, name: Seq<char>) -> Option<JsonTree> {
    match t {
        JsonTree::Array(items) => if position < items.len() {
            Some(items[position as int])
        } else {
            None
        },
        _ => member(t, name),
    }
}

/// Whether a value can be a record of so many fields.
pub open spec fn is_record(t: JsonTree, fields: nat) -> bool {
    match t {
        JsonTree::Object(_) => true,
        JsonTree::Array(items) => items.len() <= fields,
        _ => false,
    }
}

/// A field that must be there.
pub open spec fn required<T: Decode>(t: JsonTree, position: nat, name: Seq<char>) -> Option<T::V> {
    match field(t, position, name) {
        Some(x) => T::decoded(x),
        None => None,
    }
}

/// A field with a value to take when it is absent.
pub open spec fn or_absent<T: Decode>(
    t: JsonTree,
    position: nat,
    name: Seq<char>,
    default: T::V,
) -> Option<T::V> {
    match field(t, position, name) {
        Some(x) => T::decoded(x),
        None => Some(default),
    }
}

/// A field with a value to take when it is absent or `null`.
pub open spec fn or_null<T: Decode>(
    t: JsonTree,
    position: nat,
    name: Seq<char>,
    default: T::V,
) -> Option<T::V> {
    match field(t, position, name) {
        Some(x) => if x is Null {
            Some(default)
        } else {
            T::decoded(x)
        },
        None => Some(default),
    }
}

/// The field of a record.
pub fn find<'a>(j: &'a Json, position: usize, name: &str) -> (r: Option<&'a Json>)
    ensures
        field(j@, position as nat, name@) == (match r {
            Some(x) => Some(x@),
            None => None::<JsonTree>,
        }),
{
    match j {
        Json::Array(items) => {
            proof {
                crate::json::array_tree(*items);
            }
            if position < items.len() {
                assert(trees(items@)[position as int] == items@[position as int]@);
                Some(&items[position])
            } else {
                None
            }
        },
        _ => j.get(name),
    }
}

/// Whether the value can be a record of so many fields.
pub fn check_record(j: &Json, fields: usize) -> (b: bool)
    ensures
        b == is_record(j@, fields as nat),
{
    match j {
        Json::Object(_) => true,
        Json::Array(items) => items.len() <= fields,
        _ => false,
    }
}

/// Reads a field that must be there.
pub fn take<T: Decode>(j: &Json, position: usize, name: &str) -> (r: Option<T>)
    ensures
        match r {
            Some(x) => required::<T>(j@, position as nat, name@) == Some(x.model()),
            None => required::<T>(j@, position as nat, name@) is None,
        },
{
    match find(j, position, name) {
        Some(x) => T::decode(x),
        None => None,
    }
}

/// Reads a field, with a value to take when it is absent.
pub fn take_or<T: Decode>(j: &Json, position: usize, name: &str, default: T) -> (r: Option<T>)
    ensures
        match r {
            Some(x) => or_absent::<T>(j@, position as nat, name@, default.model()) == Some(x.model()),
            None => or_absent::<T>(j@, position as nat, name@, default.model()) is None,
        },
{
    match find(j, position, name) {
        Some(x) => T::decode(x),
        None => Some(default),
    }
}

/// Reads a field, with a value to take when it is absent or `null`.
pub fn take_or_null<T: Decode>(j: &Json, position: usize, name: &str, default: T) -> (r: Option<T>)
    ensures
        match r {
            Some(x) => or_null::<T>(j@, position as nat, name@, default.model()) == Some(x.model()),
            None => or_null::<T>(j@, position as nat, name@, default.model()) is None,
        },
{
    match find(j, position, name) {
        Some(Json::Null) => Some(default),
        Some(x) => T::decode(x),
        None => Some(default),
    }
}

impl Decode for bool {
    type V = bool;

    open spec fn decoded(t: JsonTree) -> Option<bool> {
        match t {
            JsonTree::Bool(b) => Some(b),
            _ => None,
        }
    }

    open spec fn model(&self) -> bool {
        *self
    }

    fn decode(j: &Json) -> (r: Option<bool>) {
        match j {
            Json::Bool(b) => Some(*b),
            _ => None,
        }
    }
}

impl Decode for u64 {
    type V = u64;

    open spec fn decoded(t: JsonTree) -> Option<u64> {
        as_unsigned(t)
    }

    open spec fn model(&self) -> u64 {
        *self
    }

    fn decode(j: &Json) -> (r: Option<u64>) {
        j.as_u64()
    }
}

impl Decode for i64 {
    type V = i64;

    open spec fn decoded(t: JsonTree) -> Option<i64> {
        as_signed(t)
    }

    open spec fn model(&self) -> i64 {
        *self
    }

    fn decode(j: &Json) -> (r: Option<i64>) {
        j.as_i64()
    }
}

impl Decode for String {
    type V = Seq<char>;

    open spec fn decoded(t: JsonTree) -> Option<Seq<char>> {
        match t {
            JsonTree::Text(s) => Some(s),
            _ => None,
        }
    }

    open spec fn model(&self) -> Seq<char> {
        self@
    }

    fn decode(j: &Json) -> (r: Option<String>) {
        match j {
            Json::Text(s) => Some(s.clone()),
            _ => None,
        }
    }
}

impl Decode for Number {
    type V = Seq<char>;

    open spec fn decoded(t: JsonTree) -> Option<Seq<char>> {
        match t {
            JsonTree::Number(s) => Some(s),
            _ => None,
        }
    }

    open spec fn model(&self) -> Seq<char> {
        self@
    }

    fn decode(j: &Json) -> (r: Option<Number>) {
        match j {
            Json::Number(n) => Some(n.clone()),
            _ => None,
        }
    }
}

impl Decode for Json {
    type V = JsonTree;

    open spec fn decoded(t: JsonTree) -> Option<JsonTree> {
        Some(t)
    }

    open spec fn model(&self) -> JsonTree {
        self@
    }

    fn decode(j: &Json) -> (r: Option<Json>) {
        Some(j.clone())
    }
}

impl Decode for Object {
    type V = Map<Seq<char>, JsonTree>;

    open spec fn decoded(t: JsonTree) -> Option<Map<Seq<char>, JsonTree>> {
        match t {
            JsonTree::Object(m) => Some(m),
            _ => None,
        }
    }

    open spec fn model(&self) -> Map<Seq<char>, JsonTree> {
        self@
    }

    fn decode(j: &Json) -> (r: Option<Object>) {
        match j {
            Json::Object(o) => Some(o.clone()),
            _ => None,
        }
    }
}

impl<T: Decode> Decode for Option<T> {
    type V = Option<T::V>;

    open spec fn decoded(t: JsonTree) -> Option<Option<T::V>> {
        if t is Null {
            Some(None)
        } else {
            match T::decoded(t) {
                Some(x) => Some(Some(x)),
                None => None,
            }
        }
    }

    open spec fn model(&self) -> Option<T::V> {
        match self {
            Some(x) => Some(x.model()),
            None => None,
        }
    }

    fn decode(j: &Json) -> (r: Option<Option<T>>) {
        match j {
            Json::Null => Some(None),
            _ => match T::decode(j) {
                Some(x) => Some(Some(x)),
                None => None,
            },
        }
    }
}

/// What the items of a list are.
pub open spec fn models<T: Decode>(items: Seq<T>) -> Seq<T::V> {
    Seq::new(items.len(), |i: int| items[i].model())
}

impl<T: Decode> Decode for Vec<T> {
    type V = Seq<T::V>;

    open spec fn decoded(t: JsonTree) -> Option<Seq<T::V>> {
        match t {
            JsonTree::Array(items) => if forall|i: int|
                0 <= i < items.len() ==> T::decoded(#[trigger] items[i]) is Some {
                Some(Seq::new(items.len(), |i: int| T::decoded(items[i])->0))
            } else {
                None
            },
            _ => None,
        }
    }

    open spec fn model(&self) -> Seq<T::V> {
        models(self@)
    }

    fn decode(j: &Json) -> (r: Option<Vec<T>>) {
        match j {
            Json::Array(items) => {
                proof {
                    crate::json::array_tree(*items);
                }
                let ghost t = trees(items@);
                let mut out: Vec<T> = Vec::new();
                let mut i: usize = 0;
                while i < items.len()
                    invariant
                        i <= items@.len(),
                        t == trees(items@),
                        j@ == JsonTree::Array(t),
                        out@.len() == i,
                        forall|k: int|
                            0 <= k < i ==> T::decoded(t[k]) == Some(#[trigger] out@[k].model()),
                    decreases items@.len() - i,
                {
                    assert(t[i as int] == items@[i as int]@);
                    match T::decode(&items[i]) {
                        Some(x) => {
                            out.push(x);
                        },
                        None => {
                            return None;
                        },
                    }
                    i = i + 1;
                }
                proof {
                    assert forall|k: int| 0 <= k < t.len() implies T::decoded(#[trigger] t[k]) is Some by {
                        assert(T::decoded(t[k]) == Some(out@[k].model()));
                    }
                    assert(models(out@) =~= Seq::new(t.len(), |k: int| T::decoded(t[k])->0));
                }
                Some(out)
            },
            _ => None,
        }
    }
}

/// The only field of a record, with a value to take when it is absent.
pub open spec fn single_of<T: Decode>(t: JsonTree, name: Seq<char>, default: T::V) -> Option<T::V> {
    if is_record(t, 1) {
        or_absent::<T>(t, 0, name, default)
    } else {
        None
    }
}

/// Reads a record of one field, with a value to take when it is absent.
pub fn single<T: Decode>(j: &Json, name: &str, default: T) -> (r: Option<T>)
    ensures
        match r {
            Some(x) => single_of::<T>(j@, name@, default.model()) == Some(x.model()),
            None => single_of::<T>(j@, name@, default.model()) is None,
        },
{
    if check_record(j, 1) {
        take_or(j, 0, name, default)
    } else {
        None
    }
}

impl Decode for usize {
    type V = usize;

    open spec fn decoded(t: JsonTree) -> Option<usize> {
        match as_unsigned(t) {
            Some(n) => if n <= usize::MAX {
                Some(n as usize)
            } else {
                None
            },
            None => None,
        }
    }

    open spec fn model(&self) -> usize {
        *self
    }

    fn decode(j: &Json) -> (r: Option<usize>) {
        match j.as_u64() {
            Some(n) => if n <= usize::MAX as u64 {
                Some(n as usize)
            } else {
                None
            },
            None => None,
        }
    }
}

/// The name of a variant without a payload: a bare text, or the only member of
/// an object with `null` in it.
pub open spec fn unit_name(t: JsonTree) -> Option<Seq<char>> {
    match t {
        JsonTree::Text(s) => Some(s),
        JsonTree::Object(m) => if exists|name: Seq<char>|
            m == #[trigger] no_members().insert(name, JsonTree::Null) {
            Some(choose|name: Seq<char>| m == #[trigger] no_members().insert(name, JsonTree::Null))
        } else {
            None
        },
        _ => None,
    }
}

/// Reads the name of a variant without a payload.
pub fn read_unit_name(j: &Json) -> (r: Option<&str>)
    ensures
        unit_name(j@) == (match r { Some(s) => Some(s@), None => None::<Seq<char>> }),
{
    match j {
        Json::Text(s) => Some(s.as_str()),
        Json::Object(o) => match o.only() {
            Some((name, Json::Null)) => {
                proof {
                    let other = choose|n: Seq<char>|
                        o@ == #[trigger] no_members().insert(n, JsonTree::Null);
                    assert(o@ == no_members().insert(name@, JsonTree::Null));
                    assert(o@ == no_members().insert(other, JsonTree::Null));
                    assert(o@.dom().contains(name@));
                }
                Some(name)
            },
            Some((name, value)) => {
                proof {
                    assert(o@[name@] == value@);
                    assert forall|n: Seq<char>| o@ != #[trigger] no_members().insert(n, JsonTree::Null) by {
                        if o@ == no_members().insert(n, JsonTree::Null) {
                            assert(o@.dom().contains(name@));
                        }
                    }
                }
                None
            },
            None => None,
        },
        _ => None,
    }
}

/// The number zero as a float.
pub fn zero() -> (n: Number)
    ensures
        n@ == "0.0"@,
{
    proof {
        reveal_strlit("0.0");
        reveal_with_fuel(crate::json::digits_end, 3);
    }
    match Number::parse("0.0") {
        Some(n) => n,
        None => Number::from_u128(0),
    }
}

/// A scalar is read as exactly itself.
pub proof fn scalars_read_as_themselves(b: bool, s: Seq<char>, u: u64, i: i64, n: usize)
    ensures
        bool::decoded(JsonTree::Bool(b)) == Some(b),
        String::decoded(JsonTree::Text(s)) == Some(s),
        Number::decoded(JsonTree::Number(s)) == Some(s),
        u64::decoded(JsonTree::Number(crate::text::integer(u as int))) == Some(u),
        i64::decoded(JsonTree::Number(crate::text::integer(i as int))) == Some(i),
        usize::decoded(JsonTree::Number(crate::text::integer(n as int))) == Some(n),
{
    crate::text::decimal_reads_back(u as int);
    crate::text::decimal_reads_back(i as int);
    crate::text::decimal_reads_back(n as int);
}

/// An integer is read as nothing but the number that its digits are.
pub proof fn integers_are_read_from_their_digits(t: JsonTree)
    ensures
        u64::decoded(t) matches Some(n) ==> t is Number && crate::text::read_natural(t->Number_0)
            == Some(n as nat),
        usize::decoded(t) matches Some(n) ==> t is Number && crate::text::read_natural(
            t->Number_0,
        ) == Some(n as nat),
        i64::decoded(t) matches Some(n) ==> t is Number && crate::text::read_integer(t->Number_0)
            == Some(n as int),
{
}

/// A value of another kind is not read.
pub proof fn other_kinds_are_not_read(t: JsonTree)
    ensures
        !(t is Bool) ==> bool::decoded(t) is None,
        !(t is Text) ==> String::decoded(t) is None,
        !(t is Number) ==> Number::decoded(t) is None,
        !(t is Number) ==> u64::decoded(t) is None,
        !(t is Number) ==> i64::decoded(t) is None,
        !(t is Number) ==> usize::decoded(t) is None,
        !(t is Object) ==> Object::decoded(t) is None,
        !(t is Array) ==> Vec::<String>::decoded(t) is None,
{
}

/// Any value can be taken as it is, and an object with all its members.
pub proof fn values_are_taken_as_they_are(t: JsonTree, m: Map<Seq<char>, JsonTree>)
    ensures
        Json::decoded(t) == Some(t),
        Object::decoded(JsonTree::Object(m)) == Some(m),
{
}

/// What a value is said to be is what it holds.
pub proof fn models_are_what_values_hold(
    b: bool,
    u: u64,
    i: i64,
    n: usize,
    s: String,
    number: Number,
    json: Json,
    object: Object,
)
    ensures
        b.model() == b,
        u.model() == u,
        i.model() == i,
        n.model() == n,
        s.model() == s@,
        number.model() == number@,
        json.model() == json@,
        object.model() == object@,
{
}

/// `null` is the absence of an optional value, and nothing else is.
pub proof fn null_alone_is_absent<T: Decode>(t: JsonTree, x: Option<T>)
    ensures
        Option::<T>::decoded(JsonTree::Null) == Some(None::<T::V>),
        !(t is Null) ==> (Option::<T>::decoded(t) is Some <==> T::decoded(t) is Some),
        !(t is Null) && T::decoded(t) is Some ==> Option::<T>::decoded(t) == Some(T::decoded(t)),
        x.model() == (match x {
            Some(y) => Some(y.model()),
            None => None,
        }),
{
}

/// A list is read item by item, all of them and in order, or not at all.
pub proof fn lists_are_read_item_by_item<T: Decode>(items: Seq<JsonTree>, xs: Vec<T>)
    ensures
        Vec::<T>::decoded(JsonTree::Array(items)) is Some <==> forall|i: int|
            0 <= i < items.len() ==> T::decoded(#[trigger] items[i]) is Some,
        Vec::<T>::decoded(JsonTree::Array(items)) matches Some(read) ==> read.len() == items.len()
            && forall|i: int|
            0 <= i < items.len() ==> T::decoded(#[trigger] items[i]) == Some(read[i]),
        xs.model().len() == xs@.len(),
        forall|i: int| 0 <= i < xs@.len() ==> #[trigger] xs.model()[i] == xs@[i].model(),
{
}

/// A list of values that each read back reads back.
pub proof fn lists_read_back<T: Decode>(items: Seq<JsonTree>, xs: Vec<T>)
    requires
        items.len() == xs@.len(),
        forall|i: int|
            0 <= i < items.len() ==> T::decoded(#[trigger] items[i]) == Some(xs@[i].model()),
    ensures
        Vec::<T>::decoded(JsonTree::Array(items)) == Some(xs.model()),
{
    assert(Seq::new(items.len(), |i: int| T::decoded(items[i])->0) =~= xs.model());
}

/// A list of texts reads back.
pub proof fn texts_read_back(xs: Vec<String>)
    ensures
        Vec::<String>::decoded(
            JsonTree::Array(Seq::new(xs@.len(), |i: int| JsonTree::Text(xs@[i]@))),
        ) == Some(xs.model()),
        xs.model() == Seq::new(xs@.len(), |i: int| xs@[i]@),
{
    lists_read_back(Seq::new(xs@.len(), |i: int| JsonTree::Text(xs@[i]@)), xs);
    assert(xs.model() =~= Seq::new(xs@.len(), |i: int| xs@[i]@));
}

/// A record finds its fields by their names in an object and by their positions
/// in an array, and nowhere else.
pub proof fn fields_are_found_by_name_or_position(
    m: Map<Seq<char>, JsonTree>,
    items: Seq<JsonTree>,
    position: nat,
    name: Seq<char>,
    fields: nat,
)
    ensures
        m.dom().contains(name) ==> field(JsonTree::Object(m), position, name) == Some(m[name]),
        !m.dom().contains(name) ==> field(JsonTree::Object(m), position, name) is None,
        position < items.len() ==> field(JsonTree::Array(items), position, name) == Some(
            items[position as int],
        ),
        position >= items.len() ==> field(JsonTree::Array(items), position, name) is None,
        is_record(JsonTree::Object(m), fields),
        is_record(JsonTree::Array(items), fields) <==> items.len() <= fields,
        !is_record(JsonTree::Null, fields),
{
}

/// A field that is there is read, and one that is not has the value to take
/// then. A field that must be there is missed.
pub proof fn present_fields_are_read<T: Decode>(
    m: Map<Seq<char>, JsonTree>,
    position: nat,
    name: Seq<char>,
    default: T::V,
)
    ensures
        m.dom().contains(name) ==> required::<T>(JsonTree::Object(m), position, name)
            == T::decoded(m[name]) && or_absent::<T>(JsonTree::Object(m), position, name, default)
            == T::decoded(m[name]) && single_of::<T>(JsonTree::Object(m), name, default)
            == T::decoded(m[name]),
        m.dom().contains(name) && !(m[name] is Null) ==> or_null::<T>(
            JsonTree::Object(m),
            position,
            name,
            default,
        ) == T::decoded(m[name]),
        m.dom().contains(name) && m[name] is Null ==> or_null::<T>(
            JsonTree::Object(m),
            position,
            name,
            default,
        ) == Some(default),
        !m.dom().contains(name) ==> required::<T>(JsonTree::Object(m), position, name) is None
            && or_absent::<T>(JsonTree::Object(m), position, name, default) == Some(default)
            && or_null::<T>(JsonTree::Object(m), position, name, default) == Some(default)
            && single_of::<T>(JsonTree::Object(m), name, default) == Some(default),
{
}

/// A variant without a payload is named by a bare text or by the only member of
/// an object, with `null` in it.
pub proof fn unit_variants_are_named(name: Seq<char>, value: JsonTree)
    ensures
        unit_name(JsonTree::Text(name)) == Some(name),
        unit_name(JsonTree::Object(Map::<Seq<char>, JsonTree>::empty().insert(name, JsonTree::Null)))
            == Some(name),
        !(value is Null) ==> unit_name(
            JsonTree::Object(Map::<Seq<char>, JsonTree>::empty().insert(name, value)),
        ) is None,
{
    let none = Map::<Seq<char>, JsonTree>::empty();
    let m = none.insert(name, JsonTree::Null);
    assert(m == no_members().insert(name, JsonTree::Null));
    let found = choose|n: Seq<char>| m == #[trigger] no_members().insert(n, JsonTree::Null);
    assert(m.dom().contains(found));
    assert(found == name);
    let other = none.insert(name, value);
    assert forall|n: Seq<char>| other == #[trigger] no_members().insert(n, JsonTree::Null) implies
        value is Null by {
        assert(other.dom().contains(n));
        assert(other[name] == value);
        assert(n == name);
    }
}

/// A record of one field is that field alone. One that was not sent has its default,
/// and anything but a record is refused.
pub proof fn a_single_field_is_read_alone<T: Decode>(
    m: Map<Seq<char>, JsonTree>,
    items: Seq<JsonTree>,
    name: Seq<char>,
    default: T::V,
    t: JsonTree,
)
    ensures
        m.dom().contains(name) ==> single_of::<T>(JsonTree::Object(m), name, default) == T::decoded(
            m[name],
        ),
        !m.dom().contains(name) ==> single_of::<T>(JsonTree::Object(m), name, default) == Some(
            default,
        ),
        items.len() == 0 ==> single_of::<T>(JsonTree::Array(items), name, default) == Some(default),
        items.len() == 1 ==> single_of::<T>(JsonTree::Array(items), name, default) == T::decoded(
            items[0],
        ),
        items.len() > 1 ==> single_of::<T>(JsonTree::Array(items), name, default) is None,
        !(t is Object) && !(t is Array) ==> single_of::<T>(t, name, default) is None,
{
}

/// Only a text, and an object whose one member is null, names a variant.
pub proof fn nothing_else_names_a_variant(
    t: JsonTree,
    m: Map<Seq<char>, JsonTree>,
    a: Seq<char>,
    b: Seq<char>,
)
    ensures
        !(t is Text) && !(t is Object) ==> unit_name(t) is None,
        unit_name(JsonTree::Object(Map::empty())) is None,
        a != b && m.dom().contains(a) && m.dom().contains(b) ==> unit_name(JsonTree::Object(m))
            is None,
        m.dom().contains(a) && !(m[a] is Null) ==> unit_name(JsonTree::Object(m)) is None,
{
    assert forall|n: Seq<char>| m == #[trigger] no_members().insert(n, JsonTree::Null) implies {
        &&& m.dom().contains(a) ==> a == n
        &&& m.dom().contains(b) ==> b == n
        &&& m[n] is Null
    } by {}
    let none = Map::<Seq<char>, JsonTree>::empty();
    assert forall|n: Seq<char>| none != #[trigger] no_members().insert(n, JsonTree::Null) by {
        assert(no_members().insert(n, JsonTree::Null).dom().contains(n));
        assert(!none.dom().contains(n));
    }
}

} // verus!
