//! SQL parameter values and their wire encoding.
//!
//! Parameters travel as JSON scalars bound by the server. The encoding rules:
//!
//! | Value | Sent as |
//! | --- | --- |
//! | `None` / [`Param::Null`] | `null` |
//! | `bool` | `true` / `false` |
//! | any integer up to `i128`/`u128` | an exact JSON number |
//! | [`Float`] | a JSON number; NaN and infinities are refused |
//! | [`Param::decimal`] | a plain-digit string with no exponent |
//! | `Vec<u8>` / `&[u8]` / [`Param::bytes`] | `"0x"` + lowercase hex |
//! | `&str` / `String` | a JSON string (timestamps, UUIDs, JSON text) |
//!
//! A value wider than `i64` binds as a decimal on the server.

use crate::error::{Error, ErrorKind, Result};
#[allow(unused_imports)]
use crate::error::{plain, ErrorView};
use crate::json::{Json, JsonTree, Number};
use crate::text;
use vstd::prelude::*;
#[allow(unused_imports)]
use vstd::std_specs::cmp::PartialEqSpec;
#[allow(unused_imports)]
use vstd::std_specs::convert::FromSpec;

verus! {

/// A floating-point number: the decimal text of a finite one, or which of the
/// others it is.
#[derive(Debug)]
pub enum Float {
    /// A finite number, as its shortest decimal text.
    Finite(Number),
    /// Not a number.
    NotANumber,
    /// Positive infinity.
    Infinity,
    /// Negative infinity.
    NegativeInfinity,
}

/// What a [`Float`] is.
pub enum FloatView {
    Finite(Seq<char>),
    NotANumber,
    Infinity,
    NegativeInfinity,
}

impl View for Float {
    type V = FloatView;

    open spec fn view(&self) -> FloatView {
        match self {
            Float::Finite(n) => FloatView::Finite(n@),
            Float::NotANumber => FloatView::NotANumber,
            Float::Infinity => FloatView::Infinity,
            Float::NegativeInfinity => FloatView::NegativeInfinity,
        }
    }
}

/// Whether the text of a number is that of zero: no digit but `0` stands before
/// its exponent.
pub open spec fn is_zero(s: Seq<char>) -> bool {
    forall|i: int|
        0 <= i < s.len() && '1' <= #[trigger] s[i] && s[i] <= '9' ==> exists|j: int|
            0 <= j < i && (#[trigger] s[j] == 'e' || s[j] == 'E')
}

/// Whether two floats are equal, as floats are: what is not a number equals
/// nothing, and the two zeros are equal.
pub open spec fn same_float(a: FloatView, b: FloatView) -> bool {
    match (a, b) {
        (FloatView::Finite(x), FloatView::Finite(y)) => x == y || is_zero(x) && is_zero(y),
        (FloatView::Infinity, FloatView::Infinity) => true,
        (FloatView::NegativeInfinity, FloatView::NegativeInfinity) => true,
        _ => false,
    }
}

fn zero(s: &str) -> (b: bool)
    ensures
        b == is_zero(s@),
{
    let c = text::characters(s);
    let mut i: usize = 0;
    while i < c.len()
        invariant
            i <= c@.len(),
            c@ == s@,
            forall|k: int|
                0 <= k < i ==> !('1' <= #[trigger] c@[k] && c@[k] <= '9') && c@[k] != 'e' && c@[k]
                    != 'E',
        decreases c@.len() - i,
    {
        let ch = c[i];
        if ch == 'e' || ch == 'E' {
            assert(is_zero(s@)) by {
                assert forall|k: int|
                    0 <= k < s@.len() && '1' <= #[trigger] s@[k] && s@[k] <= '9' implies exists|j: int|
                    0 <= j < k && (#[trigger] s@[j] == 'e' || s@[j] == 'E') by {
                    assert(k > i);
                    assert(s@[i as int] == 'e' || s@[i as int] == 'E');
                }
            }
            return true;
        }
        if ch >= '1' && ch <= '9' {
            assert('1' <= s@[i as int] && s@[i as int] <= '9');
            return false;
        }
        i = i + 1;
    }
    true
}

impl PartialEq for Float {
    fn eq(&self, other: &Float) -> (b: bool) {
        match (self, other) {
            (Float::Finite(x), Float::Finite(y)) => text::same(x.as_str(), y.as_str()) || (zero(
                x.as_str(),
            ) && zero(y.as_str())),
            (Float::Infinity, Float::Infinity) => true,
            (Float::NegativeInfinity, Float::NegativeInfinity) => true,
            _ => false,
        }
    }
}

impl vstd::std_specs::cmp::PartialEqSpecImpl for Float {
    open spec fn obeys_eq_spec() -> bool {
        true
    }

    open spec fn eq_spec(&self, other: &Float) -> bool {
        same_float(self@, other@)
    }
}

/// How a number is written that is not finite.
pub open spec fn non_finite_text(f: FloatView) -> Seq<char> {
    match f {
        FloatView::Finite(n) => n,
        FloatView::NotANumber => "NaN"@,
        FloatView::Infinity => "inf"@,
        FloatView::NegativeInfinity => "-inf"@,
    }
}

/// A float on the wire: JSON has no form for one that is not finite, so that is
/// `null`.
pub open spec fn float_tree(f: FloatView) -> JsonTree {
    match f {
        FloatView::Finite(n) => JsonTree::Number(n),
        _ => JsonTree::Null,
    }
}

impl Float {
    /// The float on the wire.
    pub fn wire(&self) -> (j: Json)
        ensures
            j@ == float_tree(self@),
    {
        match self {
            Float::Finite(n) => Json::Number(n.clone()),
            _ => Json::Null,
        }
    }
}

impl Clone for Float {
    fn clone(&self) -> (f: Float)
        ensures
            f@ == self@,
    {
        match self {
            Float::Finite(n) => Float::Finite(n.clone()),
            Float::NotANumber => Float::NotANumber,
            Float::Infinity => Float::Infinity,
            Float::NegativeInfinity => Float::NegativeInfinity,
        }
    }
}

/// One SQL parameter.
#[derive(Debug)]
#[non_exhaustive]
pub enum Param {
    /// SQL `NULL`.
    Null,
    /// A boolean.
    Bool(bool),
    /// A signed integer of any width up to 128 bits.
    Int(i128),
    /// An unsigned integer of any width up to 128 bits.
    UInt(u128),
    /// A floating-point number. Only a finite one can be bound.
    Float(Float),
    /// An exact decimal as plain digits (validated by [`Param::decimal`]).
    Decimal(String),
    /// Raw bytes, sent as `0x` hex text.
    Bytes(Vec<u8>),
    /// Text.
    Text(String),
}

/// What a [`Param`] is.
#[verifier::ext_equal]
pub enum ParamView {
    Null,
    Bool(bool),
    Int(int),
    UInt(int),
    Float(FloatView),
    Decimal(Seq<char>),
    Bytes(Seq<u8>),
    Text(Seq<char>),
}

impl View for Param {
    type V = ParamView;

    open spec fn view(&self) -> ParamView {
        match self {
            Param::Null => ParamView::Null,
            Param::Bool(b) => ParamView::Bool(*b),
            Param::Int(i) => ParamView::Int(*i as int),
            Param::UInt(i) => ParamView::UInt(*i as int),
            Param::Float(f) => ParamView::Float(f@),
            Param::Decimal(s) => ParamView::Decimal(s@),
            Param::Bytes(b) => ParamView::Bytes(b@),
            Param::Text(s) => ParamView::Text(s@),
        }
    }
}

/// Whether two parameters are equal.
pub open spec fn same_param(a: ParamView, b: ParamView) -> bool {
    match (a, b) {
        (ParamView::Float(x), ParamView::Float(y)) => same_float(x, y),
        _ => a == b,
    }
}

impl PartialEq for Param {
    fn eq(&self, other: &Param) -> (b: bool) {
        match (self, other) {
            (Param::Null, Param::Null) => true,
            (Param::Bool(x), Param::Bool(y)) => *x == *y,
            (Param::Int(x), Param::Int(y)) => *x == *y,
            (Param::UInt(x), Param::UInt(y)) => *x == *y,
            (Param::Float(x), Param::Float(y)) => x == y,
            (Param::Decimal(x), Param::Decimal(y)) => text::same(x.as_str(), y.as_str()),
            (Param::Bytes(x), Param::Bytes(y)) => text::same_bytes(x.as_slice(), y.as_slice()),
            (Param::Text(x), Param::Text(y)) => text::same(x.as_str(), y.as_str()),
            _ => false,
        }
    }
}

impl vstd::std_specs::cmp::PartialEqSpecImpl for Param {
    open spec fn obeys_eq_spec() -> bool {
        true
    }

    open spec fn eq_spec(&self, other: &Param) -> bool {
        same_param(self@, other@)
    }
}

/// What follows the sign of a decimal.
pub open spec fn without_sign(s: Seq<char>) -> Seq<char> {
    if s.len() > 0 && (s[0] == '-' || s[0] == '+') {
        s.skip(1)
    } else {
        s
    }
}

/// A plain decimal: after a sign or none, at least one digit, no more than one
/// point, and nothing else.
pub open spec fn is_plain_decimal(s: Seq<char>) -> bool {
    let body = without_sign(s);
    &&& exists|i: int| 0 <= i < body.len() && text::is_digit(#[trigger] body[i])
    &&& forall|i: int|
        0 <= i < body.len() ==> text::is_digit(#[trigger] body[i]) || body[i] == '.'
    &&& forall|i: int, j: int|
        0 <= i < j < body.len() ==> #[trigger] body[i] != '.' || #[trigger] body[j] != '.'
}

/// The refusal of a text that is not a plain decimal.
pub open spec fn not_decimal(s: Seq<char>) -> ErrorView {
    plain(
        ErrorKind::InvalidArgument,
        "`"@ + s
            + "` is not a plain decimal: use digits with an optional sign and fractional part, and no exponent"@,
    )
}

/// Why the parameter at this index cannot be bound, if it cannot.
pub open spec fn param_problem(p: ParamView, index: nat) -> Option<ErrorView> {
    match p {
        ParamView::Float(f) => if f is Finite {
            None
        } else {
            Some(
                plain(
                    ErrorKind::InvalidArgument,
                    "parameter "@ + text::decimal(index + 1) + " is "@ + non_finite_text(f)
                        + ", which has no SQL representation; only finite floats can be bound"@,
                ),
            )
        },
        ParamView::Decimal(s) => if is_plain_decimal(s) {
            None
        } else {
            Some(not_decimal(s))
        },
        _ => None,
    }
}

/// A parameter on the wire.
pub open spec fn param_tree(p: ParamView) -> JsonTree {
    match p {
        ParamView::Null => JsonTree::Null,
        ParamView::Bool(b) => JsonTree::Bool(b),
        ParamView::Int(i) => JsonTree::Number(text::integer(i)),
        ParamView::UInt(i) => JsonTree::Number(text::integer(i)),
        ParamView::Float(f) => float_tree(f),
        ParamView::Decimal(s) => JsonTree::Text(s),
        ParamView::Bytes(b) => JsonTree::Text("0x"@ + text::hex_text(b)),
        ParamView::Text(s) => JsonTree::Text(s),
    }
}

/// What a list of parameters is.
pub open spec fn param_views(params: Seq<Param>) -> Seq<ParamView> {
    Seq::new(params.len(), |i: int| params[i]@)
}

/// A list of parameters on the wire.
pub open spec fn params_tree(params: Seq<ParamView>) -> JsonTree {
    JsonTree::Array(Seq::new(params.len(), |i: int| param_tree(params[i])))
}

/// An integer of any width travels as exactly itself: its digits read back as
/// the same integer.
pub proof fn integers_travel_exactly(i: int)
    ensures
        param_tree(ParamView::Int(i)) is Number,
        text::read_integer(param_tree(ParamView::Int(i))->Number_0) == Some(i),
        param_tree(ParamView::UInt(i)) == param_tree(ParamView::Int(i)),
{
    text::decimal_reads_back(i);
}

/// Bytes travel as text from which each byte can be told: different bytes have
/// different texts.
pub proof fn bytes_travel_exactly(a: Seq<u8>, b: Seq<u8>)
    requires
        param_tree(ParamView::Bytes(a)) == param_tree(ParamView::Bytes(b)),
    ensures
        a == b,
{
    let s = "0x"@ + text::hex_text(a);
    let t = "0x"@ + text::hex_text(b);
    assert(s.skip("0x"@.len() as int) =~= text::hex_text(a));
    assert(t.skip("0x"@.len() as int) =~= text::hex_text(b));
    let x = text::hex_text(a);
    let y = text::hex_text(b);
    assert(x.len() == y.len());
    assert forall|i: int| 0 <= i < a.len() implies a[i] == b[i] by {
        assert(x[2 * i] == y[2 * i]);
        assert(x[2 * i + 1] == y[2 * i + 1]);
        assert((2 * i) / 2 == i && (2 * i) % 2 == 0);
        assert((2 * i + 1) / 2 == i && (2 * i + 1) % 2 == 1);
        assert(x[2 * i] == text::hex_digit(a[i] as int / 16));
        assert(x[2 * i + 1] == text::hex_digit(a[i] as int % 16));
        assert(y[2 * i] == text::hex_digit(b[i] as int / 16));
        assert(y[2 * i + 1] == text::hex_digit(b[i] as int % 16));
    }
    assert(a =~= b);
}

fn validate_decimal(s: &str) -> (r: Result<()>)
    ensures
        match r {
            Ok(_) => is_plain_decimal(s@),
            Err(e) => !is_plain_decimal(s@) && e@ == not_decimal(s@),
        },
{
    if plain_decimal(s) {
        Ok(())
    } else {
        Err(
            Error::invalid(
                text::join3(
                    "`",
                    s,
                    "` is not a plain decimal: use digits with an optional sign and fractional part, and no exponent",
                ).as_str(),
            ),
        )
    }
}

fn plain_decimal(s: &str) -> (b: bool)
    ensures
        b == is_plain_decimal(s@),
{
    let c = text::characters(s);
    let start: usize = if c.len() > 0 && (c[0] == '-' || c[0] == '+') {
        1
    } else {
        0
    };
    let ghost body = without_sign(s@);
    assert(body =~= c@.skip(start as int));
    let mut digits: bool = false;
    let mut points: bool = false;
    let ghost mut point_at: int = 0;
    let ghost mut digit_at: int = 0;
    let mut i: usize = start;
    while i < c.len()
        invariant
            start <= i <= c@.len(),
            body == c@.skip(start as int),
            digits ==> 0 <= digit_at < i - start && text::is_digit(body[digit_at]),
            !digits ==> forall|k: int| 0 <= k < i - start ==> !text::is_digit(#[trigger] body[k]),
            forall|k: int|
                0 <= k < i - start ==> text::is_digit(#[trigger] body[k]) || body[k] == '.',
            points ==> 0 <= point_at < i - start && body[point_at] == '.',
            forall|k: int|
                0 <= k < i - start ==> (#[trigger] body[k] == '.' <==> points && k == point_at),
            body == without_sign(s@),
        decreases c@.len() - i,
    {
        let ch = c[i];
        assert(body[i - start] == ch);
        if ch >= '0' && ch <= '9' {
            digits = true;
            proof {
                digit_at = i - start;
            }
        } else if ch == '.' && !points {
            points = true;
            proof {
                point_at = i - start;
            }
        } else {
            if ch == '.' {
                assert(body[point_at] == '.');
            }
            return false;
        }
        i = i + 1;
    }
    if digits {
        assert(text::is_digit(body[digit_at]));
    }
    digits
}

impl Param {
    /// An exact decimal from its text form, such as `"-12.500"`.
    ///
    /// The text must be an optional sign, digits, and an optional fractional
    /// part. Exponents are refused because the server would read `1.5E+3` as a
    /// `DOUBLE`. Scale and precision limits (18 and 38) are enforced by the server.
    pub fn decimal(text: &str) -> (r: Result<Param>)
        ensures
            match r {
                Ok(p) => is_plain_decimal(text@) && p@ == ParamView::Decimal(text@),
                Err(e) => !is_plain_decimal(text@) && e@ == not_decimal(text@),
            },
    {
        match validate_decimal(text) {
            Ok(_) => Ok(Param::Decimal(text.to_owned())),
            Err(e) => Err(e),
        }
    }

    /// Raw bytes for a `BLOB` column.
    pub fn bytes(bytes: &[u8]) -> (p: Param)
        ensures
            p@ == ParamView::Bytes(bytes@),
    {
        Param::Bytes(vstd::slice::slice_to_vec(bytes))
    }

    /// Text.
    pub fn text(text: &str) -> (p: Param)
        ensures
            p@ == ParamView::Text(text@),
    {
        Param::Text(text.to_owned())
    }

    /// Whether the parameter at this index can be bound.
    pub fn validate(&self, index: usize) -> (r: Result<()>)
        ensures
            match r {
                Ok(_) => param_problem(self@, index as nat) is None,
                Err(e) => param_problem(self@, index as nat) == Some(e@),
            },
    {
        match self {
            Param::Float(f) => {
                let text = match f {
                    Float::Finite(_) => {
                        return Ok(());
                    },
                    Float::NotANumber => "NaN",
                    Float::Infinity => "inf",
                    Float::NegativeInfinity => "-inf",
                };
                let mut message = "parameter ".to_owned();
                text::push_decimal(&mut message, index as u128 + 1);
                message.append(" is ");
                message.append(text);
                message.append(
                    ", which has no SQL representation; only finite floats can be bound",
                );
                Err(Error::invalid(message.as_str()))
            },
            Param::Decimal(d) => validate_decimal(d.as_str()),
            _ => Ok(()),
        }
    }

    /// The parameter on the wire.
    pub fn wire(&self) -> (j: Json)
        ensures
            j@ == param_tree(self@),
    {
        match self {
            Param::Null => Json::Null,
            Param::Bool(b) => Json::Bool(*b),
            Param::Int(i) => Json::Number(Number::from_i128(*i)),
            Param::UInt(i) => Json::Number(Number::from_u128(*i)),
            Param::Float(f) => f.wire(),
            Param::Decimal(d) => Json::text(d.as_str()),
            Param::Bytes(b) => Json::Text(
                text::join("0x", text::hex(b.as_slice()).as_str()),
            ),
            Param::Text(t) => Json::text(t.as_str()),
        }
    }
}

/// A list of parameters on the wire.
pub fn wire_params(params: &[Param]) -> (j: Json)
    ensures
        j@ == params_tree(param_views(params@)),
{
    let mut out: Vec<Json> = Vec::new();
    let mut i: usize = 0;
    while i < params.len()
        invariant
            i <= params@.len(),
            out@.len() == i,
            forall|k: int| 0 <= k < i ==> #[trigger] out@[k].tree() == param_tree(params@[k]@),
        decreases params@.len() - i,
    {
        out.push(params[i].wire());
        i = i + 1;
    }
    assert(crate::json::trees(out@) =~= params_tree(param_views(params@))->Array_0);
    Json::array(out)
}

impl Clone for Param {
    fn clone(&self) -> (p: Param)
        ensures
            p@ == self@,
    {
        match self {
            Param::Null => Param::Null,
            Param::Bool(b) => Param::Bool(*b),
            Param::Int(i) => Param::Int(*i),
            Param::UInt(i) => Param::UInt(*i),
            Param::Float(f) => Param::Float(f.clone()),
            Param::Decimal(s) => Param::Decimal(s.clone()),
            Param::Bytes(b) => Param::Bytes(vstd::slice::slice_to_vec(b.as_slice())),
            Param::Text(s) => Param::Text(s.clone()),
        }
    }
}

impl From<i8> for Param {
    fn from(v: i8) -> (p: Param) {
        Param::Int(v as i128)
    }
}

impl vstd::std_specs::convert::FromSpecImpl<i8> for Param {
    open spec fn obeys_from_spec() -> bool {
        true
    }

    open spec fn from_spec(v: i8) -> Param {
        Param::Int(v as i128)
    }
}

impl From<i16> for Param {
    fn from(v: i16) -> (p: Param) {
        Param::Int(v as i128)
    }
}

impl vstd::std_specs::convert::FromSpecImpl<i16> for Param {
    open spec fn obeys_from_spec() -> bool {
        true
    }

    open spec fn from_spec(v: i16) -> Param {
        Param::Int(v as i128)
    }
}

impl From<i32> for Param {
    fn from(v: i32) -> (p: Param) {
        Param::Int(v as i128)
    }
}

impl vstd::std_specs::convert::FromSpecImpl<i32> for Param {
    open spec fn obeys_from_spec() -> bool {
        true
    }

    open spec fn from_spec(v: i32) -> Param {
        Param::Int(v as i128)
    }
}

impl From<i64> for Param {
    fn from(v: i64) -> (p: Param) {
        Param::Int(v as i128)
    }
}

impl vstd::std_specs::convert::FromSpecImpl<i64> for Param {
    open spec fn obeys_from_spec() -> bool {
        true
    }

    open spec fn from_spec(v: i64) -> Param {
        Param::Int(v as i128)
    }
}

impl From<i128> for Param {
    fn from(v: i128) -> (p: Param) {
        Param::Int(v)
    }
}

impl vstd::std_specs::convert::FromSpecImpl<i128> for Param {
    open spec fn obeys_from_spec() -> bool {
        true
    }

    open spec fn from_spec(v: i128) -> Param {
        Param::Int(v)
    }
}

impl From<isize> for Param {
    fn from(v: isize) -> (p: Param) {
        Param::Int(v as i128)
    }
}

impl vstd::std_specs::convert::FromSpecImpl<isize> for Param {
    open spec fn obeys_from_spec() -> bool {
        true
    }

    open spec fn from_spec(v: isize) -> Param {
        Param::Int(v as i128)
    }
}

impl From<u8> for Param {
    fn from(v: u8) -> (p: Param) {
        Param::UInt(v as u128)
    }
}

impl vstd::std_specs::convert::FromSpecImpl<u8> for Param {
    open spec fn obeys_from_spec() -> bool {
        true
    }

    open spec fn from_spec(v: u8) -> Param {
        Param::UInt(v as u128)
    }
}

impl From<u16> for Param {
    fn from(v: u16) -> (p: Param) {
        Param::UInt(v as u128)
    }
}

impl vstd::std_specs::convert::FromSpecImpl<u16> for Param {
    open spec fn obeys_from_spec() -> bool {
        true
    }

    open spec fn from_spec(v: u16) -> Param {
        Param::UInt(v as u128)
    }
}

impl From<u32> for Param {
    fn from(v: u32) -> (p: Param) {
        Param::UInt(v as u128)
    }
}

impl vstd::std_specs::convert::FromSpecImpl<u32> for Param {
    open spec fn obeys_from_spec() -> bool {
        true
    }

    open spec fn from_spec(v: u32) -> Param {
        Param::UInt(v as u128)
    }
}

impl From<u64> for Param {
    fn from(v: u64) -> (p: Param) {
        Param::UInt(v as u128)
    }
}

impl vstd::std_specs::convert::FromSpecImpl<u64> for Param {
    open spec fn obeys_from_spec() -> bool {
        true
    }

    open spec fn from_spec(v: u64) -> Param {
        Param::UInt(v as u128)
    }
}

impl From<u128> for Param {
    fn from(v: u128) -> (p: Param) {
        Param::UInt(v)
    }
}

impl vstd::std_specs::convert::FromSpecImpl<u128> for Param {
    open spec fn obeys_from_spec() -> bool {
        true
    }

    open spec fn from_spec(v: u128) -> Param {
        Param::UInt(v)
    }
}

impl From<usize> for Param {
    fn from(v: usize) -> (p: Param) {
        Param::UInt(v as u128)
    }
}

impl vstd::std_specs::convert::FromSpecImpl<usize> for Param {
    open spec fn obeys_from_spec() -> bool {
        true
    }

    open spec fn from_spec(v: usize) -> Param {
        Param::UInt(v as u128)
    }
}

impl From<bool> for Param {
    fn from(v: bool) -> (p: Param) {
        Param::Bool(v)
    }
}

impl vstd::std_specs::convert::FromSpecImpl<bool> for Param {
    open spec fn obeys_from_spec() -> bool {
        true
    }

    open spec fn from_spec(v: bool) -> Param {
        Param::Bool(v)
    }
}

impl From<Float> for Param {
    fn from(v: Float) -> (p: Param) {
        Param::Float(v)
    }
}

impl vstd::std_specs::convert::FromSpecImpl<Float> for Param {
    open spec fn obeys_from_spec() -> bool {
        true
    }

    open spec fn from_spec(v: Float) -> Param {
        Param::Float(v)
    }
}

impl From<String> for Param {
    fn from(v: String) -> (p: Param) {
        Param::Text(v)
    }
}

impl vstd::std_specs::convert::FromSpecImpl<String> for Param {
    open spec fn obeys_from_spec() -> bool {
        true
    }

    open spec fn from_spec(v: String) -> Param {
        Param::Text(v)
    }
}

impl From<Vec<u8>> for Param {
    fn from(v: Vec<u8>) -> (p: Param) {
        Param::Bytes(v)
    }
}

impl vstd::std_specs::convert::FromSpecImpl<Vec<u8>> for Param {
    open spec fn obeys_from_spec() -> bool {
        true
    }

    open spec fn from_spec(v: Vec<u8>) -> Param {
        Param::Bytes(v)
    }
}

impl From<&str> for Param {
    fn from(v: &str) -> (p: Param)
        ensures
            p@ == ParamView::Text(v@),
    {
        Param::Text(v.to_owned())
    }
}

impl vstd::std_specs::convert::FromSpecImpl<&str> for Param {
    open spec fn obeys_from_spec() -> bool {
        false
    }

    open spec fn from_spec(v: &str) -> Param {
        Param::Null
    }
}

impl From<&String> for Param {
    fn from(v: &String) -> (p: Param)
        ensures
            p@ == ParamView::Text(v@),
    {
        Param::Text(v.clone())
    }
}

impl vstd::std_specs::convert::FromSpecImpl<&String> for Param {
    open spec fn obeys_from_spec() -> bool {
        false
    }

    open spec fn from_spec(v: &String) -> Param {
        Param::Null
    }
}

impl From<&[u8]> for Param {
    fn from(v: &[u8]) -> (p: Param)
        ensures
            p@ == ParamView::Bytes(v@),
    {
        Param::Bytes(vstd::slice::slice_to_vec(v))
    }
}

impl vstd::std_specs::convert::FromSpecImpl<&[u8]> for Param {
    open spec fn obeys_from_spec() -> bool {
        false
    }

    open spec fn from_spec(v: &[u8]) -> Param {
        Param::Null
    }
}

impl<T: Into<Param>> From<Option<T>> for Param {
    fn from(v: Option<T>) -> (p: Param)
        ensures
            v is None ==> p@ == ParamView::Null,
            v matches Some(t) ==> call_ensures(T::into, (t,), p),
    {
        match v {
            Some(t) => t.into(),
            None => Param::Null,
        }
    }
}

impl<T: Into<Param>> vstd::std_specs::convert::FromSpecImpl<Option<T>> for Param {
    open spec fn obeys_from_spec() -> bool {
        false
    }

    open spec fn from_spec(v: Option<T>) -> Param {
        Param::Null
    }
}

/// A boolean is bound as itself, so the two are told apart.
pub proof fn booleans_travel_exactly(b: bool, c: bool)
    ensures
        param_tree(ParamView::Bool(b)) == JsonTree::Bool(b),
        b != c ==> param_tree(ParamView::Bool(b)) != param_tree(ParamView::Bool(c)),
{
}

/// Text, a decimal and a finite float are bound with the very characters they hold.
/// Null is bound as null, and a float that is not finite never becomes a number.
pub proof fn texts_travel_exactly(s: Seq<char>)
    ensures
        param_tree(ParamView::Null) == JsonTree::Null,
        param_tree(ParamView::Text(s)) == JsonTree::Text(s),
        param_tree(ParamView::Decimal(s)) == JsonTree::Text(s),
        param_tree(ParamView::Float(FloatView::Finite(s))) == JsonTree::Number(s),
        param_tree(ParamView::Float(FloatView::NotANumber)) == JsonTree::Null,
        param_tree(ParamView::Float(FloatView::Infinity)) == JsonTree::Null,
        param_tree(ParamView::Float(FloatView::NegativeInfinity)) == JsonTree::Null,
{
}

/// Bytes are bound as `0x` and two digits for each byte, the higher first.
pub proof fn bytes_travel_in_order(bytes: Seq<u8>, b: u8)
    ensures
        param_tree(ParamView::Bytes(Seq::empty())) == JsonTree::Text(seq!['0', 'x']),
        param_tree(ParamView::Bytes(bytes)) is Text,
        param_tree(ParamView::Bytes(bytes.push(b))) == JsonTree::Text(
            param_tree(ParamView::Bytes(bytes))->Text_0.push("0123456789abcdef"@[b as int / 16]).push(
                "0123456789abcdef"@[b as int % 16],
            ),
        ),
{
    reveal_strlit("0x");
    text::bytes_are_written_two_digits_each(bytes, b);
    text::bytes_are_written_two_digits_each(Seq::empty(), b);
    assert("0x"@ + text::hex_text(Seq::empty()) =~= seq!['0', 'x']);
    let high = "0123456789abcdef"@[b as int / 16];
    let low = "0123456789abcdef"@[b as int % 16];
    assert("0x"@ + text::hex_text(bytes).push(high).push(low) =~= ("0x"@ + text::hex_text(
        bytes,
    )).push(high).push(low));
}

/// A list of parameters is bound whole, each in its own place.
pub proof fn lists_travel_whole(params: Seq<Param>, i: int)
    requires
        0 <= i < params.len(),
    ensures
        params_tree(param_views(params)) is Array,
        params_tree(param_views(params))->Array_0.len() == params.len(),
        params_tree(param_views(params))->Array_0[i] == param_tree(params[i]@),
{
}

/// A parameter is what it was made of.
pub proof fn parameters_are_what_they_hold(
    b: bool,
    i: i128,
    u: u128,
    f: Float,
    n: Number,
    s: String,
    v: Vec<u8>,
)
    ensures
        Param::Null@ == ParamView::Null,
        Param::Bool(b)@ == ParamView::Bool(b),
        Param::Int(i)@ == ParamView::Int(i as int),
        Param::UInt(u)@ == ParamView::UInt(u as int),
        Param::Float(f)@ == ParamView::Float(f@),
        Param::Decimal(s)@ == ParamView::Decimal(s@),
        Param::Bytes(v)@ == ParamView::Bytes(v@),
        Param::Text(s)@ == ParamView::Text(s@),
        Float::Finite(n)@ == FloatView::Finite(n@),
        Float::NotANumber@ == FloatView::NotANumber,
        Float::Infinity@ == FloatView::Infinity,
        Float::NegativeInfinity@ == FloatView::NegativeInfinity,
{
}

/// An integer of any width becomes a parameter of the same value.
pub proof fn integers_convert_exactly(
    i8_value: i8,
    i16_value: i16,
    i32_value: i32,
    i64_value: i64,
    i128_value: i128,
    isize_value: isize,
    u8_value: u8,
    u16_value: u16,
    u32_value: u32,
    u64_value: u64,
    u128_value: u128,
    usize_value: usize,
)
    ensures
        <Param as FromSpec<i8>>::from_spec(i8_value)@ == ParamView::Int(i8_value as int),
        <Param as FromSpec<i16>>::from_spec(i16_value)@ == ParamView::Int(i16_value as int),
        <Param as FromSpec<i32>>::from_spec(i32_value)@ == ParamView::Int(i32_value as int),
        <Param as FromSpec<i64>>::from_spec(i64_value)@ == ParamView::Int(i64_value as int),
        <Param as FromSpec<i128>>::from_spec(i128_value)@ == ParamView::Int(i128_value as int),
        <Param as FromSpec<isize>>::from_spec(isize_value)@ == ParamView::Int(isize_value as int),
        <Param as FromSpec<u8>>::from_spec(u8_value)@ == ParamView::UInt(u8_value as int),
        <Param as FromSpec<u16>>::from_spec(u16_value)@ == ParamView::UInt(u16_value as int),
        <Param as FromSpec<u32>>::from_spec(u32_value)@ == ParamView::UInt(u32_value as int),
        <Param as FromSpec<u64>>::from_spec(u64_value)@ == ParamView::UInt(u64_value as int),
        <Param as FromSpec<u128>>::from_spec(u128_value)@ == ParamView::UInt(u128_value as int),
        <Param as FromSpec<usize>>::from_spec(usize_value)@ == ParamView::UInt(usize_value as int),
{
}

/// A boolean, a float, a text and bytes become a parameter that holds them.
pub proof fn values_convert_exactly(b: bool, f: Float, s: String, v: Vec<u8>)
    ensures
        <Param as FromSpec<bool>>::from_spec(b)@ == ParamView::Bool(b),
        <Param as FromSpec<Float>>::from_spec(f)@ == ParamView::Float(f@),
        <Param as FromSpec<String>>::from_spec(s)@ == ParamView::Text(s@),
        <Param as FromSpec<Vec<u8>>>::from_spec(v)@ == ParamView::Bytes(v@),
{
}

/// Only a float that is not finite and a decimal that is not plain are refused, and
/// each is refused by its own words.
pub proof fn only_unbindable_values_are_refused(p: ParamView, index: nat)
    ensures
        param_problem(p, index) is Some <==> {
            ||| p == ParamView::Float(FloatView::NotANumber)
            ||| p == ParamView::Float(FloatView::Infinity)
            ||| p == ParamView::Float(FloatView::NegativeInfinity)
            ||| (p matches ParamView::Decimal(s) && !is_plain_decimal(s))
        },
        param_problem(p, index) matches Some(e) ==> e.kind == ErrorKind::InvalidArgument && e.code
            is None && e.leader_hint is None,
        p is Float ==> (param_problem(p, index) matches Some(e) ==> e.message == "parameter "@
            + text::integer((index + 1) as int) + " is "@ + (if p->Float_0 is NotANumber {
            "NaN"@
        } else if p->Float_0 is Infinity {
            "inf"@
        } else {
            "-inf"@
        }) + ", which has no SQL representation; only finite floats can be bound"@),
        p matches ParamView::Decimal(s) ==> (param_problem(p, index) matches Some(e) ==> e.message
            == "`"@ + s
            + "` is not a plain decimal: use digits with an optional sign and fractional part, and no exponent"@),
{
}

/// A plain decimal has digits, at most one point among them, and a sign at most in
/// front.
pub proof fn plain_decimals_are_digits_round_one_point(
    whole: Seq<char>,
    part: Seq<char>,
    s: Seq<char>,
    i: int,
)
    requires
        forall|k: int| 0 <= k < whole.len() ==> '0' <= #[trigger] whole[k] && whole[k] <= '9',
        forall|k: int| 0 <= k < part.len() ==> '0' <= #[trigger] part[k] && part[k] <= '9',
        0 <= i < s.len(),
    ensures
        whole.len() > 0 ==> is_plain_decimal(whole),
        is_plain_decimal(whole.push('.') + part) <==> whole.len() + part.len() > 0,
        !is_plain_decimal(Seq::empty()),
        is_plain_decimal(s) && i > 0 ==> '0' <= s[i] && s[i] <= '9' || s[i] == '.',
        is_plain_decimal(s) && i == 0 ==> '0' <= s[i] && s[i] <= '9' || s[i] == '.' || s[i] == '-'
            || s[i] == '+',
        forall|k: int|
            is_plain_decimal(s) && 0 <= k < s.len() && k != i && s[i] == '.' ==> #[trigger] s[k]
                != '.',
{
    let pointed = whole.push('.') + part;
    assert(without_sign(whole) == whole);
    assert(without_sign(pointed) == pointed);
    assert(pointed[whole.len() as int] == '.');
    if whole.len() > 0 {
        assert(text::is_digit(whole[0]));
        assert(pointed[0] == whole[0]);
        assert(text::is_digit(pointed[0]));
    }
    if part.len() > 0 {
        assert(pointed[(whole.len() + 1) as int] == part[0]);
        assert(text::is_digit(pointed[(whole.len() + 1) as int]));
    }
    if whole.len() + part.len() == 0 {
        assert forall|k: int| 0 <= k < pointed.len() implies
            !text::is_digit(#[trigger] pointed[k]) by {
            assert(k == 0);
        }
    }
    let body = without_sign(s);
    if is_plain_decimal(s) {
        let shift = s.len() - body.len();
        assert forall|k: int| shift <= k < s.len() implies s[k] == body[k - shift] by {}
        if i >= shift {
            assert(text::is_digit(body[i - shift]) || body[i - shift] == '.');
        }
        assert forall|k: int| 0 <= k < s.len() && k != i && s[i] == '.' implies #[trigger] s[k]
            != '.' by {
            if k >= shift {
                if k < i {
                    assert(body[k - shift] != '.' || body[i - shift] != '.');
                } else {
                    assert(body[i - shift] != '.' || body[k - shift] != '.');
                }
            }
        }
    }
}

/// A sign in front of a decimal that has none changes nothing.
pub proof fn a_sign_leaves_a_decimal_plain(s: Seq<char>)
    requires
        s.len() > 0 ==> s[0] != '-' && s[0] != '+',
    ensures
        is_plain_decimal(seq!['-'] + s) <==> is_plain_decimal(s),
        is_plain_decimal(seq!['+'] + s) <==> is_plain_decimal(s),
{
    assert((seq!['-'] + s).skip(1) =~= s);
    assert((seq!['+'] + s).skip(1) =~= s);
    assert((seq!['-'] + s)[0] == '-');
    assert((seq!['+'] + s)[0] == '+');
    assert(without_sign(seq!['-'] + s) == without_sign(s));
    assert(without_sign(seq!['+'] + s) == without_sign(s));
}

/// Parameters are equal when they hold the same value. A float is equal to no NaN,
/// and the two zeros are equal.
pub proof fn equality_is_of_values(a: ParamView, b: ParamView, x: Seq<char>, y: Seq<char>)
    ensures
        !(a is Float && b is Float) ==> (same_param(a, b) <==> a == b),
        same_param(a, b) <==> same_param(b, a),
        !same_param(ParamView::Float(FloatView::NotANumber), a),
        !same_param(a, ParamView::Float(FloatView::NotANumber)),
        same_param(
            ParamView::Float(FloatView::Infinity),
            ParamView::Float(FloatView::Infinity),
        ),
        same_param(
            ParamView::Float(FloatView::NegativeInfinity),
            ParamView::Float(FloatView::NegativeInfinity),
        ),
        !same_param(
            ParamView::Float(FloatView::Infinity),
            ParamView::Float(FloatView::NegativeInfinity),
        ),
        !same_param(
            ParamView::Float(FloatView::Finite(x)),
            ParamView::Float(FloatView::NegativeInfinity),
        ),
        !same_param(
            ParamView::Float(FloatView::Finite(x)),
            ParamView::Float(FloatView::Infinity),
        ),
        same_param(
            ParamView::Float(FloatView::Finite(x)),
            ParamView::Float(FloatView::Finite(y)),
        ) <==> x == y || is_zero(x) && is_zero(y),
{
}

/// A number is zero when no digit before its exponent is another one.
pub proof fn zeros_have_no_other_digit(before: Seq<char>, c: char, rest: Seq<char>)
    requires
        forall|i: int| 0 <= i < before.len() ==> #[trigger] before[i] != 'e' && before[i] != 'E',
        forall|i: int| 0 <= i < before.len() ==> #[trigger] before[i] < '1' || before[i] > '9',
    ensures
        is_zero(before),
        c == 'e' || c == 'E' ==> is_zero(before.push(c) + rest),
        '1' <= c && c <= '9' ==> !is_zero(before.push(c) + rest),
{
    let whole = before.push(c) + rest;
    let n = before.len() as int;
    assert(whole[n] == c);
    assert forall|i: int| 0 <= i < n implies whole[i] == before[i] by {}
    if c == 'e' || c == 'E' {
        assert forall|i: int| 0 <= i < whole.len() && '1' <= #[trigger] whole[i] && whole[i]
            <= '9' implies exists|j: int|
            0 <= j < i && (#[trigger] whole[j] == 'e' || whole[j] == 'E') by {
            if i < n {
                assert(whole[i] == before[i]);
            }
            assert(whole[n] == c);
        }
    }
    if '1' <= c && c <= '9' {
        assert forall|j: int| 0 <= j < n implies #[trigger] whole[j] != 'e' && whole[j] != 'E' by {
            assert(whole[j] == before[j]);
        }
    }
}

/// Two parameters compare as what they hold does.
pub proof fn parameters_compare_as_what_they_hold(a: Param, b: Param, x: Float, y: Float)
    ensures
        a.eq_spec(&b) <==> same_param(a@, b@),
        x.eq_spec(&y) <==> same_param(ParamView::Float(x@), ParamView::Float(y@)),
{
}

/// A text that is no plain decimal is refused by itself.
pub proof fn what_is_no_decimal_is_refused_by_itself(s: Seq<char>)
    ensures
        not_decimal(s).kind == ErrorKind::InvalidArgument,
        not_decimal(s).message == "`"@ + s
            + "` is not a plain decimal: use digits with an optional sign and fractional part, and no exponent"@,
        not_decimal(s).code is None,
{
}

/// What `Param::wire` gives for every kind of value: the value itself, never another.
pub proof fn a_parameter_is_sent_as_its_value(
    b: bool,
    i: i128,
    u: u128,
    s: String,
    n: Number,
    j: Json,
)
    ensures
        call_ensures(Param::wire, (&Param::Null,), j) ==> j@ == JsonTree::Null,
        call_ensures(Param::wire, (&Param::Bool(b),), j) ==> j@ == JsonTree::Bool(b),
        call_ensures(Param::wire, (&Param::Int(i),), j) ==> j@ is Number && text::read_integer(
            j@->Number_0,
        ) == Some(i as int),
        call_ensures(Param::wire, (&Param::UInt(u),), j) ==> j@ is Number && text::read_integer(
            j@->Number_0,
        ) == Some(u as int),
        call_ensures(Param::wire, (&Param::Float(Float::Finite(n)),), j) ==> j@
            == JsonTree::Number(n@),
        call_ensures(Param::wire, (&Param::Decimal(s),), j) ==> j@ == JsonTree::Text(s@),
        call_ensures(Param::wire, (&Param::Text(s),), j) ==> j@ == JsonTree::Text(s@),
{
    text::decimal_reads_back(i as int);
    text::decimal_reads_back(u as int);
}

/// What `Param::wire` gives for bytes: `0x` and then, for each byte in its place, its
/// two digits.
pub proof fn bytes_are_sent_in_hexadecimal(v: Vec<u8>, j: Json, i: int)
    requires
        call_ensures(Param::wire, (&Param::Bytes(v),), j),
    ensures
        j@ is Text,
        j@->Text_0.len() == 2 + 2 * v@.len(),
        j@->Text_0[0] == '0' && j@->Text_0[1] == 'x',
        0 <= i < v@.len() ==> j@->Text_0[2 + 2 * i] == "0123456789abcdef"@[v@[i] as int / 16],
        0 <= i < v@.len() ==> j@->Text_0[3 + 2 * i] == "0123456789abcdef"@[v@[i] as int % 16],
{
    reveal_strlit("0x");
    reveal_strlit("0123456789abcdef");
    if 0 <= i < v@.len() {
        assert((2 * i) / 2 == i && (2 * i) % 2 == 0);
        assert((2 * i + 1) / 2 == i && (2 * i + 1) % 2 == 1);
        assert(j@->Text_0[2 + 2 * i] == text::hex_text(v@)[2 * i]);
        assert(j@->Text_0[3 + 2 * i] == text::hex_text(v@)[2 * i + 1]);
    }
}

/// A list of parameters is sent as a list of as many values, each what its parameter is
/// sent as.
pub proof fn a_list_of_parameters_is_sent_whole(params: &[Param], j: Json, i: int, b: bool)
    requires
        call_ensures(wire_params, (params,), j),
    ensures
        j@ is Array,
        j@->Array_0.len() == params@.len(),
        0 <= i < params@.len() ==> j@->Array_0[i] == param_tree(params@[i]@),
        0 <= i < params@.len() && params@[i] == Param::Bool(b) ==> j@->Array_0[i]
            == JsonTree::Bool(b),
{
}

/// What `Param::validate` and `Param::decimal` accept.
pub proof fn only_bindable_parameters_are_accepted(
    p: &Param,
    index: usize,
    text: &str,
    r: Result<()>,
    d: Result<Param>,
)
    ensures
        call_ensures(Param::validate, (p, index), r) ==> (r is Err <==> {
            ||| p@ == ParamView::Float(FloatView::NotANumber)
            ||| p@ == ParamView::Float(FloatView::Infinity)
            ||| p@ == ParamView::Float(FloatView::NegativeInfinity)
            ||| (p@ matches ParamView::Decimal(s) && !is_plain_decimal(s))
        }),
        call_ensures(Param::decimal, (text,), d) ==> (d is Ok <==> is_plain_decimal(text@)),
        call_ensures(Param::decimal, (text,), d) ==> (d matches Ok(x) ==> x@ == ParamView::Decimal(
            text@,
        )),
{
}

/// What `Param::from` gives for an integer of any width: a parameter of the same value.
pub proof fn an_integer_becomes_its_parameter(
    i8_value: i8,
    i16_value: i16,
    i32_value: i32,
    i64_value: i64,
    i128_value: i128,
    isize_value: isize,
    u8_value: u8,
    u16_value: u16,
    u32_value: u32,
    u64_value: u64,
    u128_value: u128,
    usize_value: usize,
    p: Param,
)
    ensures
        call_ensures(<Param as From<i8>>::from, (i8_value,), p) ==> p@ == ParamView::Int(
            i8_value as int,
        ),
        call_ensures(<Param as From<i16>>::from, (i16_value,), p) ==> p@ == ParamView::Int(
            i16_value as int,
        ),
        call_ensures(<Param as From<i32>>::from, (i32_value,), p) ==> p@ == ParamView::Int(
            i32_value as int,
        ),
        call_ensures(<Param as From<i64>>::from, (i64_value,), p) ==> p@ == ParamView::Int(
            i64_value as int,
        ),
        call_ensures(<Param as From<i128>>::from, (i128_value,), p) ==> p@ == ParamView::Int(
            i128_value as int,
        ),
        call_ensures(<Param as From<isize>>::from, (isize_value,), p) ==> p@ == ParamView::Int(
            isize_value as int,
        ),
        call_ensures(<Param as From<u8>>::from, (u8_value,), p) ==> p@ == ParamView::UInt(
            u8_value as int,
        ),
        call_ensures(<Param as From<u16>>::from, (u16_value,), p) ==> p@ == ParamView::UInt(
            u16_value as int,
        ),
        call_ensures(<Param as From<u32>>::from, (u32_value,), p) ==> p@ == ParamView::UInt(
            u32_value as int,
        ),
        call_ensures(<Param as From<u64>>::from, (u64_value,), p) ==> p@ == ParamView::UInt(
            u64_value as int,
        ),
        call_ensures(<Param as From<u128>>::from, (u128_value,), p) ==> p@ == ParamView::UInt(
            u128_value as int,
        ),
        call_ensures(<Param as From<usize>>::from, (usize_value,), p) ==> p@ == ParamView::UInt(
            usize_value as int,
        ),
{
}

/// What `Param::from` gives for everything else: a parameter that holds it, and null for
/// a value that is missing.
pub proof fn a_value_becomes_its_parameter(
    b: bool,
    f: Float,
    s: String,
    t: &str,
    o: &String,
    v: Vec<u8>,
    w: &[u8],
    p: Param,
)
    ensures
        call_ensures(<Param as From<bool>>::from, (b,), p) ==> p@ == ParamView::Bool(b),
        call_ensures(<Param as From<Float>>::from, (f,), p) ==> p@ == ParamView::Float(f@),
        call_ensures(<Param as From<String>>::from, (s,), p) ==> p@ == ParamView::Text(s@),
        call_ensures(<Param as From<&str>>::from, (t,), p) ==> p@ == ParamView::Text(t@),
        call_ensures(<Param as From<&String>>::from, (o,), p) ==> p@ == ParamView::Text(o@),
        call_ensures(<Param as From<Vec<u8>>>::from, (v,), p) ==> p@ == ParamView::Bytes(v@),
        call_ensures(<Param as From<&[u8]>>::from, (w,), p) ==> p@ == ParamView::Bytes(w@),
        call_ensures(<Param as From<Option<bool>>>::from, (None::<bool>,), p) ==> p@
            == ParamView::Null,
{
}

/// What `==` gives on parameters and floats.
pub proof fn parameters_are_equal_by_value(a: &Param, b: &Param, x: &Float, y: &Float, r: bool)
    ensures
        call_ensures(<Param as PartialEq>::eq, (a, b), r) ==> (r <==> same_param(a@, b@)),
        call_ensures(<Float as PartialEq>::eq, (x, y), r) ==> (r <==> same_float(x@, y@)),
{
}

} // verus!
