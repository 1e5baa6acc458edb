//! Argument values: numbers, vectors of numbers, lists of vectors, flags and
//! strings, and how each is rendered as a value fragment.
use vstd::prelude::*;
use crate::scad::{
    emit_spec, ref_text, Assignment, AssignmentType, AssignmentView, Formatter, FormatterView, Scad,
};
use crate::text::{number_text, push_number};

verus! {

/// A decimal number: `magnitude / 10^places`, negated where `negative`.
#[derive(Clone, Copy, Debug, PartialEq, Eq, Structural, Default)]
pub struct Number {
    pub negative: bool,
    pub magnitude: u64,
    pub places: u8,
}

impl Number {
    /// The number's text: the shortest decimal spelling, without a fraction
    /// when it is whole.
    pub open spec fn text(self) -> Seq<char> {
        number_text(self.negative, self.magnitude as nat, self.places as nat)
    }

    pub open spec fn from_int_spec(v: i64) -> Number {
        Number {
            negative: v < 0,
            magnitude: (if v < 0 { -(v as int) } else { v as int }) as u64,
            places: 0,
        }
    }

    /// The whole number `v`.
    pub fn from_int(v: i64) -> (r: Number)
        ensures
            r == Number::from_int_spec(v),
    {
        let magnitude: u64 = if v < 0 { (-(v as i128)) as u64 } else { v as u64 };
        Number { negative: v < 0, magnitude, places: 0 }
    }

    /// `mantissa / 10^places`.
    pub fn decimal(mantissa: i64, places: u8) -> (r: Number)
        ensures
            r == (Number { places, ..Number::from_int_spec(mantissa) }),
    {
        Number { places, ..Number::from_int(mantissa) }
    }

    /// The same magnitude with the other sign.
    pub fn negate(self) -> (r: Number)
        ensures
            r == (Number { negative: !self.negative, ..self }),
    {
        Number { negative: !self.negative, ..self }
    }

    /// The signed magnitude, `value * 10^places`.
    pub open spec fn signed(self) -> int {
        if self.negative { -(self.magnitude as int) } else { self.magnitude as int }
    }

    /// `self <= other` as numbers: compared over the common scale
    /// `10^(self.places + other.places)`.
    pub open spec fn le(self, other: Number) -> bool {
        self.signed() * crate::text::pow10(other.places as nat) <= other.signed() * crate::text::pow10(self.places as nat)
    }

    /// The larger of two numbers; `self` when they are equal.
    pub open spec fn larger(self, other: Number) -> Number {
        if other.le(self) { self } else { other }
    }

    /// Half of the number: five times the magnitude, one more place.
    pub fn half(self) -> (r: Number)
        requires
            self.magnitude <= u64::MAX / 5,
            self.places < 255,
        ensures
            r == (Number { negative: self.negative, magnitude: (self.magnitude * 5) as u64, places: (self.places + 1) as u8 }),
    {
        Number { negative: self.negative, magnitude: self.magnitude * 5, places: self.places + 1 }
    }

    /// Twice the number.
    pub fn double(self) -> (r: Number)
        requires
            self.magnitude <= u64::MAX / 2,
        ensures
            r == (Number { magnitude: (self.magnitude * 2) as u64, ..self }),
    {
        Number { magnitude: self.magnitude * 2, ..self }
    }

    /// The larger of two numbers; `self` when they are equal.
    pub fn max(self, other: Number) -> (r: Number)
        requires
            self.places <= 18,
            other.places <= 18,
        ensures
            r == self.larger(other),
            self.le(r),
            other.le(r),
    {
        let pa = crate::text::pow10_u64(self.places);
        let pb = crate::text::pow10_u64(other.places);
        let a: i128 = if self.negative { -(self.magnitude as i128) } else { self.magnitude as i128 };
        let b: i128 = if other.negative { -(other.magnitude as i128) } else { other.magnitude as i128 };
        proof {
            crate::text::lemma_pow10_monotone(self.places as nat, 18);
            crate::text::lemma_pow10_monotone(other.places as nat, 18);
            crate::text::lemma_pow10_20();
            assert(crate::text::pow10(18) == 1_000_000_000_000_000_000) by {
                reveal_with_fuel(crate::text::pow10, 19);
            }
            crate::text::lemma_pow10_positive(self.places as nat);
            crate::text::lemma_pow10_positive(other.places as nat);
            lemma_product_fits(a as int, pb as int);
            lemma_product_fits(b as int, pa as int);
        }
        let x = a * (pb as i128);
        let y = b * (pa as i128);
        if y <= x { self } else { other }
    }

    /// The number's text.
    pub fn to_text(&self) -> (r: String)
        ensures
            r@ == self.text(),
    {
        let mut s = String::new();
        push_number(&mut s, self.negative, self.magnitude, self.places);
        assert(s@ =~= self.text());
        s
    }
}

proof fn lemma_product_fits(a: int, p: int)
    requires
        -0x1_0000_0000_0000_0000 < a < 0x1_0000_0000_0000_0000,
        1 <= p <= 1_000_000_000_000_000_000,
    ensures
        -0x7fff_ffff_ffff_ffff_ffff_ffff_ffff_ffff <= a * p <= 0x7fff_ffff_ffff_ffff_ffff_ffff_ffff_ffff,
{
    assert(-0x1_0000_0000_0000_0000 * 1_000_000_000_000_000_000 <= a * p <= 0x1_0000_0000_0000_0000 * 1_000_000_000_000_000_000) by (nonlinear_arith)
        requires
            -0x1_0000_0000_0000_0000 < a < 0x1_0000_0000_0000_0000,
            1 <= p <= 1_000_000_000_000_000_000,
    ;
}

/// What an argument [`Value`] denotes.
pub enum ValueView {
    Bool(bool),
    Text(Seq<char>),
    Number(Number),
    List(Seq<Number>),
    Table(Seq<Seq<Number>>),
}

/// An argument value, as a call hands it to the formatter.
#[derive(Clone, Debug, PartialEq)]
pub enum Value {
    Bool(bool),
    Text(String),
    Number(Number),
    List(Vec<Number>),
    Table(Vec<Vec<Number>>),
}

impl View for Value {
    type V = ValueView;

    open spec fn view(&self) -> ValueView {
        match self {
            Value::Bool(b) => ValueView::Bool(*b),
            Value::Text(s) => ValueView::Text(s@),
            Value::Number(n) => ValueView::Number(*n),
            Value::List(l) => ValueView::List(l@),
            Value::Table(t) => ValueView::Table(t@.map_values(|r: Vec<Number>| r@)),
        }
    }
}

/// The text of a string as a literal of the target language: its debug form,
/// in double quotes with escapes.
pub uninterp spec fn quoted(s: Seq<char>) -> Seq<char>;

/// Relies on `<str as Debug>::fmt`: it writes the string in double quotes,
/// escaping quotes, backslashes and control characters; the text depends on
/// the characters alone.
#[verifier::external_body]
pub(crate) fn quote_text(s: &str) -> (r: String)
    ensures
        r@ == quoted(s@),
{
    format!("{:?}", s)
}

/// `true` or `false`.
pub open spec fn bool_text(b: bool) -> Seq<char> {
    if b { seq!['t', 'r', 'u', 'e'] } else { seq!['f', 'a', 'l', 's', 'e'] }
}

/// References joined by `", "`.
pub open spec fn join_refs(rs: Seq<AssignmentView>) -> Seq<char>
    decreases rs.len(),
{
    if rs.len() == 0 {
        seq![]
    } else if rs.len() == 1 {
        ref_text(rs[0])
    } else {
        join_refs(rs.drop_last()) + seq![',', ' '] + ref_text(rs.last())
    }
}

/// `[r1, r2, ...]`.
pub open spec fn list_text(rs: Seq<AssignmentView>) -> Seq<char> {
    seq!['['] + join_refs(rs) + seq![']']
}

/// Records each number as a value, in order.
pub open spec fn numbers_rendered(s: FormatterView, nums: Seq<Number>) -> (FormatterView, Seq<AssignmentView>)
    decreases nums.len(),
{
    if nums.len() == 0 {
        (s, seq![])
    } else {
        let (s1, rs) = numbers_rendered(s, nums.drop_last());
        let (s2, r) = emit_spec(s1, nums.last().text(), AssignmentType::Function);
        (s2, rs.push(r))
    }
}

/// Records each number, then the list of their references, as values.
pub open spec fn list_rendered(s: FormatterView, nums: Seq<Number>) -> (FormatterView, AssignmentView) {
    let (s1, rs) = numbers_rendered(s, nums);
    emit_spec(s1, list_text(rs), AssignmentType::Function)
}

/// Records each row as a list, in order.
pub open spec fn rows_rendered(s: FormatterView, rows: Seq<Seq<Number>>) -> (FormatterView, Seq<AssignmentView>)
    decreases rows.len(),
{
    if rows.len() == 0 {
        (s, seq![])
    } else {
        let (s1, rs) = rows_rendered(s, rows.drop_last());
        let (s2, r) = list_rendered(s1, rows.last());
        (s2, rs.push(r))
    }
}

/// Renders a value: a flag, a quoted string or a number is recorded as one
/// value; a list records its numbers first; a table records its rows first.
pub open spec fn value_rendered(s: FormatterView, v: ValueView) -> (FormatterView, AssignmentView) {
    match v {
        ValueView::Bool(b) => emit_spec(s, bool_text(b), AssignmentType::Function),
        ValueView::Text(t) => emit_spec(s, quoted(t), AssignmentType::Function),
        ValueView::Number(n) => emit_spec(s, n.text(), AssignmentType::Function),
        ValueView::List(l) => list_rendered(s, l),
        ValueView::Table(t) => {
            let (s1, rs) = rows_rendered(s, t);
            emit_spec(s1, list_text(rs), AssignmentType::Function)
        },
    }
}

fn assign_numbers(nums: &Vec<Number>, f: &mut Formatter) -> (r: Assignment)
    requires
        old(f)@.wf(),
    ensures
        final(f)@.wf(),
        (final(f)@, r@) == list_rendered(old(f)@, nums@),
{
    let ghost s0 = f@;
    let ghost mut rs: Seq<AssignmentView> = seq![];
    let mut out = String::new();
    proof { reveal_strlit("["); }
    out.append("[");
    let n = nums.len();
    let mut i: usize = 0;
    while i < n
        invariant
            n == nums@.len(),
            i <= n,
            f@.wf(),
            (f@, rs) == numbers_rendered(s0, nums@.take(i as int)),
            out@ == seq!['['] + join_refs(rs),
            rs.len() == i,
        decreases n - i,
    {
        proof { reveal_strlit(", "); }
        let t = nums[i].to_text();
        let a = f.value(t);
        if i > 0 {
            out.append(", ");
        }
        let at = a.to_scad();
        out.append(at.as_str());
        proof {
            assert(nums@.take(i as int + 1).drop_last() =~= nums@.take(i as int));
            let prev = rs;
            rs = prev.push(a@);
            assert(rs.drop_last() =~= prev);
            assert(rs.last() == a@);
            assert(out@ =~= seq!['['] + join_refs(rs));
        }
        i = i + 1;
    }
    proof { reveal_strlit("]"); }
    out.append("]");
    assert(nums@.take(n as int) =~= nums@);
    assert(out@ =~= list_text(rs));
    f.value(out)
}

fn bool_string(b: bool) -> (r: String)
    ensures
        r@ == bool_text(b),
{
    proof {
        reveal_strlit("true");
        reveal_strlit("false");
    }
    let t = if b { String::from_str("true") } else { String::from_str("false") };
    assert(t@ =~= bool_text(b));
    t
}

impl Scad for Value {
    open spec fn rendered(&self, s: FormatterView) -> (FormatterView, AssignmentView) {
        value_rendered(s, self@)
    }

    fn assign(&self, f: &mut Formatter) -> (r: Assignment) {
        let ghost s0 = f@;
        let r = match self {
            Value::Bool(b) => {
                let t = bool_string(*b);
                let r = f.value(t);
                assert((f@, r@) == value_rendered(old(f)@, self@));
                r
            },
            Value::Text(s) => {
                let t = quote_text(s.as_str());
                let r = f.value(t);
                assert((f@, r@) == value_rendered(old(f)@, self@));
                r
            },
            Value::Number(n) => {
                let t = n.to_text();
                let r = f.value(t);
                assert((f@, r@) == value_rendered(old(f)@, self@));
                r
            },
            Value::List(l) => {
                let r = assign_numbers(l, f);
                assert((f@, r@) == value_rendered(old(f)@, self@));
                r
            },
            Value::Table(rows) => {
                let ghost s0 = f@;
                let ghost rv = rows@.map_values(|r: Vec<Number>| r@);
                let ghost mut rs: Seq<AssignmentView> = seq![];
                let mut out = String::new();
                proof { reveal_strlit("["); }
                out.append("[");
                let n = rows.len();
                let mut i: usize = 0;
                while i < n
                    invariant
                        n == rows@.len(),
                        rv == rows@.map_values(|r: Vec<Number>| r@),
                        i <= n,
                        f@.wf(),
                        (f@, rs) == rows_rendered(s0, rv.take(i as int)),
                        out@ == seq!['['] + join_refs(rs),
                        rs.len() == i,
                    decreases n - i,
                {
                    proof { reveal_strlit(", "); }
                    let a = assign_numbers(&rows[i], f);
                    if i > 0 {
                        out.append(", ");
                    }
                    let at = a.to_scad();
                    out.append(at.as_str());
                    proof {
                        assert(rv.take(i as int + 1).drop_last() =~= rv.take(i as int));
                        assert(rv.take(i as int + 1).last() == rows@[i as int]@);
                        let prev = rs;
                        rs = prev.push(a@);
                        assert(rs.drop_last() =~= prev);
                        assert(rs.last() == a@);
                        assert(out@ =~= seq!['['] + join_refs(rs));
                    }
                    i = i + 1;
                }
                proof { reveal_strlit("]"); }
                out.append("]");
                assert(rv.take(n as int) =~= rv);
                assert(out@ =~= list_text(rs));
                let r = f.value(out);
                assert((f@, r@) == value_rendered(old(f)@, self@));
                r
            },
        };
        assert(old(f)@ == s0);
        assert((f@, r@) == value_rendered(s0, self@));
        assert((f@, r@) == self.rendered(s0));
        r
    }
}

/// A value that can stand as an argument of a call.
pub trait Argument {
    /// The value this argument denotes.
    spec fn value_view(&self) -> ValueView;

    /// The argument as a [`Value`].
    fn to_value(&self) -> (r: Value)
        ensures
            r@ == self.value_view(),
    ;
}

/// The value an optional argument denotes, if present.
pub open spec fn opt_value<T: Argument>(o: Option<T>) -> Option<ValueView> {
    match o {
        Some(v) => Some(v.value_view()),
        None => None,
    }
}

/// What an optional [`Value`] denotes.
pub open spec fn opt_value_view(o: Option<Value>) -> Option<ValueView> {
    match o {
        Some(v) => Some(v@),
        None => None,
    }
}

/// An optional argument as an optional [`Value`].
pub fn opt_to_value<T: Argument>(o: &Option<T>) -> (r: Option<Value>)
    ensures
        opt_value_view(r) == opt_value(*o),
{
    match o {
        Some(v) => Some(v.to_value()),
        None => None,
    }
}

impl Argument for bool {
    open spec fn value_view(&self) -> ValueView {
        ValueView::Bool(*self)
    }

    fn to_value(&self) -> (r: Value) {
        Value::Bool(*self)
    }
}

impl Scad for bool {
    open spec fn rendered(&self, s: FormatterView) -> (FormatterView, AssignmentView) {
        value_rendered(s, self.value_view())
    }

    fn assign(&self, f: &mut Formatter) -> (r: Assignment) {
        self.to_value().assign(f)
    }
}

impl Argument for String {
    open spec fn value_view(&self) -> ValueView {
        ValueView::Text(self@)
    }

    fn to_value(&self) -> (r: Value) {
        Value::Text(self.clone())
    }
}

impl Scad for String {
    open spec fn rendered(&self, s: FormatterView) -> (FormatterView, AssignmentView) {
        value_rendered(s, self.value_view())
    }

    fn assign(&self, f: &mut Formatter) -> (r: Assignment) {
        self.to_value().assign(f)
    }
}

/// An angle in degrees.
#[derive(Clone, Copy, Debug, PartialEq, Eq, Structural, Default)]
pub struct Angle(pub Number);

impl From<i64> for Angle {
    fn from(v: i64) -> (r: Self) {
        Angle(Number::from_int(v))
    }
}

impl vstd::std_specs::convert::FromSpecImpl<i64> for Angle {
    open spec fn obeys_from_spec() -> bool {
        true
    }

    open spec fn from_spec(v: i64) -> Self {
        Angle(Number::from_int_spec(v))
    }
}

impl From<Number> for Angle {
    fn from(v: Number) -> (r: Self) {
        Angle(v)
    }
}

impl vstd::std_specs::convert::FromSpecImpl<Number> for Angle {
    open spec fn obeys_from_spec() -> bool {
        true
    }

    open spec fn from_spec(v: Number) -> Self {
        Angle(v)
    }
}

impl Angle {
    /// The number's text.
    pub fn to_text(&self) -> (r: String)
        ensures
            r@ == self.0.text(),
    {
        self.0.to_text()
    }
}

impl Argument for Angle {
    open spec fn value_view(&self) -> ValueView {
        ValueView::Number(self.0)
    }

    fn to_value(&self) -> (r: Value) {
        Value::Number(self.0)
    }
}

impl Scad for Angle {
    open spec fn rendered(&self, s: FormatterView) -> (FormatterView, AssignmentView) {
        value_rendered(s, self.value_view())
    }

    fn assign(&self, f: &mut Formatter) -> (r: Assignment) {
        self.to_value().assign(f)
    }
}

impl core::ops::Neg for Angle {
    type Output = Angle;

    fn neg(self) -> (r: Angle) {
        Angle(self.0.negate())
    }
}

impl vstd::std_specs::ops::NegSpecImpl for Angle {
    open spec fn obeys_neg_spec() -> bool {
        true
    }

    open spec fn neg_req(self) -> bool {
        true
    }

    open spec fn neg_spec(self) -> Angle {
        Angle(Number { negative: !self.0.negative, ..self.0 })
    }
}

/// A length.
#[derive(Clone, Copy, Debug, PartialEq, Eq, Structural, Default)]
pub struct Length(pub Number);

impl From<i64> for Length {
    fn from(v: i64) -> (r: Self) {
        Length(Number::from_int(v))
    }
}

impl vstd::std_specs::convert::FromSpecImpl<i64> for Length {
    open spec fn obeys_from_spec() -> bool {
        true
    }

    open spec fn from_spec(v: i64) -> Self {
        Length(Number::from_int_spec(v))
    }
}

impl From<Number> for Length {
    fn from(v: Number) -> (r: Self) {
        Length(v)
    }
}

impl vstd::std_specs::convert::FromSpecImpl<Number> for Length {
    open spec fn obeys_from_spec() -> bool {
        true
    }

    open spec fn from_spec(v: Number) -> Self {
        Length(v)
    }
}

impl Length {
    /// The number's text.
    pub fn to_text(&self) -> (r: String)
        ensures
            r@ == self.0.text(),
    {
        self.0.to_text()
    }
}

impl Argument for Length {
    open spec fn value_view(&self) -> ValueView {
        ValueView::Number(self.0)
    }

    fn to_value(&self) -> (r: Value) {
        Value::Number(self.0)
    }
}

impl Scad for Length {
    open spec fn rendered(&self, s: FormatterView) -> (FormatterView, AssignmentView) {
        value_rendered(s, self.value_view())
    }

    fn assign(&self, f: &mut Formatter) -> (r: Assignment) {
        self.to_value().assign(f)
    }
}

impl core::ops::Neg for Length {
    type Output = Length;

    fn neg(self) -> (r: Length) {
        Length(self.0.negate())
    }
}

impl vstd::std_specs::ops::NegSpecImpl for Length {
    open spec fn obeys_neg_spec() -> bool {
        true
    }

    open spec fn neg_req(self) -> bool {
        true
    }

    open spec fn neg_spec(self) -> Length {
        Length(Number { negative: !self.0.negative, ..self.0 })
    }
}

/// A factor or a plain count.
#[derive(Clone, Copy, Debug, PartialEq, Eq, Structural, Default)]
pub struct Scalar(pub Number);

impl From<i64> for Scalar {
    fn from(v: i64) -> (r: Self) {
        Scalar(Number::from_int(v))
    }
}

impl vstd::std_specs::convert::FromSpecImpl<i64> for Scalar {
    open spec fn obeys_from_spec() -> bool {
        true
    }

    open spec fn from_spec(v: i64) -> Self {
        Scalar(Number::from_int_spec(v))
    }
}

impl From<Number> for Scalar {
    fn from(v: Number) -> (r: Self) {
        Scalar(v)
    }
}

impl vstd::std_specs::convert::FromSpecImpl<Number> for Scalar {
    open spec fn obeys_from_spec() -> bool {
        true
    }

    open spec fn from_spec(v: Number) -> Self {
        Scalar(v)
    }
}

impl Scalar {
    /// The number's text.
    pub fn to_text(&self) -> (r: String)
        ensures
            r@ == self.0.text(),
    {
        self.0.to_text()
    }
}

impl Argument for Scalar {
    open spec fn value_view(&self) -> ValueView {
        ValueView::Number(self.0)
    }

    fn to_value(&self) -> (r: Value) {
        Value::Number(self.0)
    }
}

impl Scad for Scalar {
    open spec fn rendered(&self, s: FormatterView) -> (FormatterView, AssignmentView) {
        value_rendered(s, self.value_view())
    }

    fn assign(&self, f: &mut Formatter) -> (r: Assignment) {
        self.to_value().assign(f)
    }
}

impl core::ops::Neg for Scalar {
    type Output = Scalar;

    fn neg(self) -> (r: Scalar) {
        Scalar(self.0.negate())
    }
}

impl vstd::std_specs::ops::NegSpecImpl for Scalar {
    open spec fn obeys_neg_spec() -> bool {
        true
    }

    open spec fn neg_req(self) -> bool {
        true
    }

    open spec fn neg_spec(self) -> Scalar {
        Scalar(Number { negative: !self.0.negative, ..self.0 })
    }
}

/// A number of fragments.
#[derive(Clone, Copy, Debug, PartialEq, Eq, Structural, Default)]
pub struct FragmentResolution(pub Number);

impl From<i64> for FragmentResolution {
    fn from(v: i64) -> (r: Self) {
        FragmentResolution(Number::from_int(v))
    }
}

impl vstd::std_specs::convert::FromSpecImpl<i64> for FragmentResolution {
    open spec fn obeys_from_spec() -> bool {
        true
    }

    open spec fn from_spec(v: i64) -> Self {
        FragmentResolution(Number::from_int_spec(v))
    }
}

impl From<Number> for FragmentResolution {
    fn from(v: Number) -> (r: Self) {
        FragmentResolution(v)
    }
}

impl vstd::std_specs::convert::FromSpecImpl<Number> for FragmentResolution {
    open spec fn obeys_from_spec() -> bool {
        true
    }

    open spec fn from_spec(v: Number) -> Self {
        FragmentResolution(v)
    }
}

impl FragmentResolution {
    /// The number's text.
    pub fn to_text(&self) -> (r: String)
        ensures
            r@ == self.0.text(),
    {
        self.0.to_text()
    }
}

impl Argument for FragmentResolution {
    open spec fn value_view(&self) -> ValueView {
        ValueView::Number(self.0)
    }

    fn to_value(&self) -> (r: Value) {
        Value::Number(self.0)
    }
}

impl Scad for FragmentResolution {
    open spec fn rendered(&self, s: FormatterView) -> (FormatterView, AssignmentView) {
        value_rendered(s, self.value_view())
    }

    fn assign(&self, f: &mut Formatter) -> (r: Assignment) {
        self.to_value().assign(f)
    }
}

/// 2 components of [`Angle`].
#[derive(Clone, Copy, Debug, PartialEq, Eq, Default)]
pub struct Angle2(pub [Angle; 2]);

impl Angle2 {
    /// The components' numbers, in order.
    pub open spec fn numbers(self) -> Seq<Number> {
        self.0@.map_values(|c: Angle| c.0)
    }

    /// The vector of the given components.
    pub fn new(c: [Angle; 2]) -> (r: Angle2)
        ensures
            r.0@ == c@,
    {
        Angle2(c)
    }

    /// Every component `v`.
    pub fn splat(v: Angle) -> (r: Angle2)
        ensures
            forall|i: int| 0 <= i < 2 ==> r.0@[i] == v,
    {
        Angle2([v, v])
    }

    /// The whole-number components of `v`.
    pub fn from_ints(v: [i64; 2]) -> (r: Angle2)
        ensures
            forall|i: int| 0 <= i < 2 ==> r.0@[i] == Angle(Number::from_int_spec(v@[i])),
    {
        Angle2([Angle(Number::from_int(v[0])), Angle(Number::from_int(v[1]))])
    }
}

impl Argument for Angle2 {
    open spec fn value_view(&self) -> ValueView {
        ValueView::List(self.numbers())
    }

    fn to_value(&self) -> (r: Value) {
        let v = vec![self.0[0].0, self.0[1].0];
        assert(v@ =~= self.numbers());
        Value::List(v)
    }
}

impl Scad for Angle2 {
    open spec fn rendered(&self, s: FormatterView) -> (FormatterView, AssignmentView) {
        value_rendered(s, self.value_view())
    }

    fn assign(&self, f: &mut Formatter) -> (r: Assignment) {
        self.to_value().assign(f)
    }
}

/// A list of [`Angle2`].
#[derive(Clone, Debug, PartialEq, Default)]
pub struct VecAngle2(pub Vec<Angle2>);

impl VecAngle2 {
    /// The rows' numbers, in order.
    pub open spec fn rows(self) -> Seq<Seq<Number>> {
        self.0@.map_values(|p: Angle2| p.numbers())
    }
}

impl From<Vec<Angle2>> for VecAngle2 {
    fn from(v: Vec<Angle2>) -> (r: Self) {
        VecAngle2(v)
    }
}

impl vstd::std_specs::convert::FromSpecImpl<Vec<Angle2>> for VecAngle2 {
    open spec fn obeys_from_spec() -> bool {
        true
    }

    open spec fn from_spec(v: Vec<Angle2>) -> Self {
        VecAngle2(v)
    }
}

impl Argument for VecAngle2 {
    open spec fn value_view(&self) -> ValueView {
        ValueView::Table(self.rows())
    }

    fn to_value(&self) -> (r: Value) {
        let mut rows: Vec<Vec<Number>> = Vec::new();
        let n = self.0.len();
        let mut i: usize = 0;
        while i < n
            invariant
                n == self.0@.len(),
                i <= n,
                rows@.len() == i,
                forall|k: int| 0 <= k < i ==> #[trigger] rows@[k]@ == self.0@[k].numbers(),
            decreases n - i,
        {
            let p = self.0[i];
            let row = vec![p.0[0].0, p.0[1].0];
            assert(row@ =~= p.numbers());
            rows.push(row);
            i = i + 1;
        }
        assert(rows@.map_values(|r: Vec<Number>| r@) =~= self.rows());
        let r = Value::Table(rows);
        r
    }
}

impl Scad for VecAngle2 {
    open spec fn rendered(&self, s: FormatterView) -> (FormatterView, AssignmentView) {
        value_rendered(s, self.value_view())
    }

    fn assign(&self, f: &mut Formatter) -> (r: Assignment) {
        self.to_value().assign(f)
    }
}

/// 3 components of [`Angle`].
#[derive(Clone, Copy, Debug, PartialEq, Eq, Default)]
pub struct Angle3(pub [Angle; 3]);

impl Angle3 {
    /// The components' numbers, in order.
    pub open spec fn numbers(self) -> Seq<Number> {
        self.0@.map_values(|c: Angle| c.0)
    }

    /// The vector of the given components.
    pub fn new(c: [Angle; 3]) -> (r: Angle3)
        ensures
            r.0@ == c@,
    {
        Angle3(c)
    }

    /// Every component `v`.
    pub fn splat(v: Angle) -> (r: Angle3)
        ensures
            forall|i: int| 0 <= i < 3 ==> r.0@[i] == v,
    {
        Angle3([v, v, v])
    }

    /// The whole-number components of `v`.
    pub fn from_ints(v: [i64; 3]) -> (r: Angle3)
        ensures
            forall|i: int| 0 <= i < 3 ==> r.0@[i] == Angle(Number::from_int_spec(v@[i])),
    {
        Angle3([Angle(Number::from_int(v[0])), Angle(Number::from_int(v[1])), Angle(Number::from_int(v[2]))])
    }
}

impl Argument for Angle3 {
    open spec fn value_view(&self) -> ValueView {
        ValueView::List(self.numbers())
    }

    fn to_value(&self) -> (r: Value) {
        let v = vec![self.0[0].0, self.0[1].0, self.0[2].0];
        assert(v@ =~= self.numbers());
        Value::List(v)
    }
}

impl Scad for Angle3 {
    open spec fn rendered(&self, s: FormatterView) -> (FormatterView, AssignmentView) {
        value_rendered(s, self.value_view())
    }

    fn assign(&self, f: &mut Formatter) -> (r: Assignment) {
        self.to_value().assign(f)
    }
}

/// A list of [`Angle3`].
#[derive(Clone, Debug, PartialEq, Default)]
pub struct VecAngle3(pub Vec<Angle3>);

impl VecAngle3 {
    /// The rows' numbers, in order.
    pub open spec fn rows(self) -> Seq<Seq<Number>> {
        self.0@.map_values(|p: Angle3| p.numbers())
    }
}

impl From<Vec<Angle3>> for VecAngle3 {
    fn from(v: Vec<Angle3>) -> (r: Self) {
        VecAngle3(v)
    }
}

impl vstd::std_specs::convert::FromSpecImpl<Vec<Angle3>> for VecAngle3 {
    open spec fn obeys_from_spec() -> bool {
        true
    }

    open spec fn from_spec(v: Vec<Angle3>) -> Self {
        VecAngle3(v)
    }
}

impl Argument for VecAngle3 {
    open spec fn value_view(&self) -> ValueView {
        ValueView::Table(self.rows())
    }

    fn to_value(&self) -> (r: Value) {
        let mut rows: Vec<Vec<Number>> = Vec::new();
        let n = self.0.len();
        let mut i: usize = 0;
        while i < n
            invariant
                n == self.0@.len(),
                i <= n,
                rows@.len() == i,
                forall|k: int| 0 <= k < i ==> #[trigger] rows@[k]@ == self.0@[k].numbers(),
            decreases n - i,
        {
            let p = self.0[i];
            let row = vec![p.0[0].0, p.0[1].0, p.0[2].0];
            assert(row@ =~= p.numbers());
            rows.push(row);
            i = i + 1;
        }
        assert(rows@.map_values(|r: Vec<Number>| r@) =~= self.rows());
        let r = Value::Table(rows);
        r
    }
}

impl Scad for VecAngle3 {
    open spec fn rendered(&self, s: FormatterView) -> (FormatterView, AssignmentView) {
        value_rendered(s, self.value_view())
    }

    fn assign(&self, f: &mut Formatter) -> (r: Assignment) {
        self.to_value().assign(f)
    }
}

/// 2 components of [`Length`].
#[derive(Clone, Copy, Debug, PartialEq, Eq, Default)]
pub struct Length2(pub [Length; 2]);

impl Length2 {
    /// The components' numbers, in order.
    pub open spec fn numbers(self) -> Seq<Number> {
        self.0@.map_values(|c: Length| c.0)
    }

    /// The vector of the given components.
    pub fn new(c: [Length; 2]) -> (r: Length2)
        ensures
            r.0@ == c@,
    {
        Length2(c)
    }

    /// Every component `v`.
    pub fn splat(v: Length) -> (r: Length2)
        ensures
            forall|i: int| 0 <= i < 2 ==> r.0@[i] == v,
    {
        Length2([v, v])
    }

    /// The whole-number components of `v`.
    pub fn from_ints(v: [i64; 2]) -> (r: Length2)
        ensures
            forall|i: int| 0 <= i < 2 ==> r.0@[i] == Length(Number::from_int_spec(v@[i])),
    {
        Length2([Length(Number::from_int(v[0])), Length(Number::from_int(v[1]))])
    }
}

impl Argument for Length2 {
    open spec fn value_view(&self) -> ValueView {
        ValueView::List(self.numbers())
    }

    fn to_value(&self) -> (r: Value) {
        let v = vec![self.0[0].0, self.0[1].0];
        assert(v@ =~= self.numbers());
        Value::List(v)
    }
}

impl Scad for Length2 {
    open spec fn rendered(&self, s: FormatterView) -> (FormatterView, AssignmentView) {
        value_rendered(s, self.value_view())
    }

    fn assign(&self, f: &mut Formatter) -> (r: Assignment) {
        self.to_value().assign(f)
    }
}

/// A list of [`Length2`].
#[derive(Clone, Debug, PartialEq, Default)]
pub struct VecLength2(pub Vec<Length2>);

impl VecLength2 {
    /// The rows' numbers, in order.
    pub open spec fn rows(self) -> Seq<Seq<Number>> {
        self.0@.map_values(|p: Length2| p.numbers())
    }
}

impl From<Vec<Length2>> for VecLength2 {
    fn from(v: Vec<Length2>) -> (r: Self) {
        VecLength2(v)
    }
}

impl vstd::std_specs::convert::FromSpecImpl<Vec<Length2>> for VecLength2 {
    open spec fn obeys_from_spec() -> bool {
        true
    }

    open spec fn from_spec(v: Vec<Length2>) -> Self {
        VecLength2(v)
    }
}

impl Argument for VecLength2 {
    open spec fn value_view(&self) -> ValueView {
        ValueView::Table(self.rows())
    }

    fn to_value(&self) -> (r: Value) {
        let mut rows: Vec<Vec<Number>> = Vec::new();
        let n = self.0.len();
        let mut i: usize = 0;
        while i < n
            invariant
                n == self.0@.len(),
                i <= n,
                rows@.len() == i,
                forall|k: int| 0 <= k < i ==> #[trigger] rows@[k]@ == self.0@[k].numbers(),
            decreases n - i,
        {
            let p = self.0[i];
            let row = vec![p.0[0].0, p.0[1].0];
            assert(row@ =~= p.numbers());
            rows.push(row);
            i = i + 1;
        }
        assert(rows@.map_values(|r: Vec<Number>| r@) =~= self.rows());
        let r = Value::Table(rows);
        r
    }
}

impl Scad for VecLength2 {
    open spec fn rendered(&self, s: FormatterView) -> (FormatterView, AssignmentView) {
        value_rendered(s, self.value_view())
    }

    fn assign(&self, f: &mut Formatter) -> (r: Assignment) {
        self.to_value().assign(f)
    }
}

/// 3 components of [`Length`].
#[derive(Clone, Copy, Debug, PartialEq, Eq, Default)]
pub struct Length3(pub [Length; 3]);

impl Length3 {
    /// The components' numbers, in order.
    pub open spec fn numbers(self) -> Seq<Number> {
        self.0@.map_values(|c: Length| c.0)
    }

    /// The vector of the given components.
    pub fn new(c: [Length; 3]) -> (r: Length3)
        ensures
            r.0@ == c@,
    {
        Length3(c)
    }

    /// Every component `v`.
    pub fn splat(v: Length) -> (r: Length3)
        ensures
            forall|i: int| 0 <= i < 3 ==> r.0@[i] == v,
    {
        Length3([v, v, v])
    }

    /// The whole-number components of `v`.
    pub fn from_ints(v: [i64; 3]) -> (r: Length3)
        ensures
            forall|i: int| 0 <= i < 3 ==> r.0@[i] == Length(Number::from_int_spec(v@[i])),
    {
        Length3([Length(Number::from_int(v[0])), Length(Number::from_int(v[1])), Length(Number::from_int(v[2]))])
    }
}

impl Argument for Length3 {
    open spec fn value_view(&self) -> ValueView {
        ValueView::List(self.numbers())
    }

    fn to_value(&self) -> (r: Value) {
        let v = vec![self.0[0].0, self.0[1].0, self.0[2].0];
        assert(v@ =~= self.numbers());
        Value::List(v)
    }
}

impl Scad for Length3 {
    open spec fn rendered(&self, s: FormatterView) -> (FormatterView, AssignmentView) {
        value_rendered(s, self.value_view())
    }

    fn assign(&self, f: &mut Formatter) -> (r: Assignment) {
        self.to_value().assign(f)
    }
}

/// A list of [`Length3`].
#[derive(Clone, Debug, PartialEq, Default)]
pub struct VecLength3(pub Vec<Length3>);

impl VecLength3 {
    /// The rows' numbers, in order.
    pub open spec fn rows(self) -> Seq<Seq<Number>> {
        self.0@.map_values(|p: Length3| p.numbers())
    }
}

impl From<Vec<Length3>> for VecLength3 {
    fn from(v: Vec<Length3>) -> (r: Self) {
        VecLength3(v)
    }
}

impl vstd::std_specs::convert::FromSpecImpl<Vec<Length3>> for VecLength3 {
    open spec fn obeys_from_spec() -> bool {
        true
    }

    open spec fn from_spec(v: Vec<Length3>) -> Self {
        VecLength3(v)
    }
}

impl Argument for VecLength3 {
    open spec fn value_view(&self) -> ValueView {
        ValueView::Table(self.rows())
    }

    fn to_value(&self) -> (r: Value) {
        let mut rows: Vec<Vec<Number>> = Vec::new();
        let n = self.0.len();
        let mut i: usize = 0;
        while i < n
            invariant
                n == self.0@.len(),
                i <= n,
                rows@.len() == i,
                forall|k: int| 0 <= k < i ==> #[trigger] rows@[k]@ == self.0@[k].numbers(),
            decreases n - i,
        {
            let p = self.0[i];
            let row = vec![p.0[0].0, p.0[1].0, p.0[2].0];
            assert(row@ =~= p.numbers());
            rows.push(row);
            i = i + 1;
        }
        assert(rows@.map_values(|r: Vec<Number>| r@) =~= self.rows());
        let r = Value::Table(rows);
        r
    }
}

impl Scad for VecLength3 {
    open spec fn rendered(&self, s: FormatterView) -> (FormatterView, AssignmentView) {
        value_rendered(s, self.value_view())
    }

    fn assign(&self, f: &mut Formatter) -> (r: Assignment) {
        self.to_value().assign(f)
    }
}

/// 2 components of [`Scalar`].
#[derive(Clone, Copy, Debug, PartialEq, Eq, Default)]
pub struct Scalar2(pub [Scalar; 2]);

impl Scalar2 {
    /// The components' numbers, in order.
    pub open spec fn numbers(self) -> Seq<Number> {
        self.0@.map_values(|c: Scalar| c.0)
    }

    /// The vector of the given components.
    pub fn new(c: [Scalar; 2]) -> (r: Scalar2)
        ensures
            r.0@ == c@,
    {
        Scalar2(c)
    }

    /// Every component `v`.
    pub fn splat(v: Scalar) -> (r: Scalar2)
        ensures
            forall|i: int| 0 <= i < 2 ==> r.0@[i] == v,
    {
        Scalar2([v, v])
    }

    /// The whole-number components of `v`.
    pub fn from_ints(v: [i64; 2]) -> (r: Scalar2)
        ensures
            forall|i: int| 0 <= i < 2 ==> r.0@[i] == Scalar(Number::from_int_spec(v@[i])),
    {
        Scalar2([Scalar(Number::from_int(v[0])), Scalar(Number::from_int(v[1]))])
    }
}

impl Argument for Scalar2 {
    open spec fn value_view(&self) -> ValueView {
        ValueView::List(self.numbers())
    }

    fn to_value(&self) -> (r: Value) {
        let v = vec![self.0[0].0, self.0[1].0];
        assert(v@ =~= self.numbers());
        Value::List(v)
    }
}

impl Scad for Scalar2 {
    open spec fn rendered(&self, s: FormatterView) -> (FormatterView, AssignmentView) {
        value_rendered(s, self.value_view())
    }

    fn assign(&self, f: &mut Formatter) -> (r: Assignment) {
        self.to_value().assign(f)
    }
}

/// A list of [`Scalar2`].
#[derive(Clone, Debug, PartialEq, Default)]
pub struct VecScalar2(pub Vec<Scalar2>);

impl VecScalar2 {
    /// The rows' numbers, in order.
    pub open spec fn rows(self) -> Seq<Seq<Number>> {
        self.0@.map_values(|p: Scalar2| p.numbers())
    }
}

impl From<Vec<Scalar2>> for VecScalar2 {
    fn from(v: Vec<Scalar2>) -> (r: Self) {
        VecScalar2(v)
    }
}

impl vstd::std_specs::convert::FromSpecImpl<Vec<Scalar2>> for VecScalar2 {
    open spec fn obeys_from_spec() -> bool {
        true
    }

    open spec fn from_spec(v: Vec<Scalar2>) -> Self {
        VecScalar2(v)
    }
}

impl Argument for VecScalar2 {
    open spec fn value_view(&self) -> ValueView {
        ValueView::Table(self.rows())
    }

    fn to_value(&self) -> (r: Value) {
        let mut rows: Vec<Vec<Number>> = Vec::new();
        let n = self.0.len();
        let mut i: usize = 0;
        while i < n
            invariant
                n == self.0@.len(),
                i <= n,
                rows@.len() == i,
                forall|k: int| 0 <= k < i ==> #[trigger] rows@[k]@ == self.0@[k].numbers(),
            decreases n - i,
        {
            let p = self.0[i];
            let row = vec![p.0[0].0, p.0[1].0];
            assert(row@ =~= p.numbers());
            rows.push(row);
            i = i + 1;
        }
        assert(rows@.map_values(|r: Vec<Number>| r@) =~= self.rows());
        let r = Value::Table(rows);
        r
    }
}

impl Scad for VecScalar2 {
    open spec fn rendered(&self, s: FormatterView) -> (FormatterView, AssignmentView) {
        value_rendered(s, self.value_view())
    }

    fn assign(&self, f: &mut Formatter) -> (r: Assignment) {
        self.to_value().assign(f)
    }
}

/// 3 components of [`Scalar`].
#[derive(Clone, Copy, Debug, PartialEq, Eq, Default)]
pub struct Scalar3(pub [Scalar; 3]);

impl Scalar3 {
    /// The components' numbers, in order.
    pub open spec fn numbers(self) -> Seq<Number> {
        self.0@.map_values(|c: Scalar| c.0)
    }

    /// The vector of the given components.
    pub fn new(c: [Scalar; 3]) -> (r: Scalar3)
        ensures
            r.0@ == c@,
    {
        Scalar3(c)
    }

    /// Every component `v`.
    pub fn splat(v: Scalar) -> (r: Scalar3)
        ensures
            forall|i: int| 0 <= i < 3 ==> r.0@[i] == v,
    {
        Scalar3([v, v, v])
    }

    /// The whole-number components of `v`.
    pub fn from_ints(v: [i64; 3]) -> (r: Scalar3)
        ensures
            forall|i: int| 0 <= i < 3 ==> r.0@[i] == Scalar(Number::from_int_spec(v@[i])),
    {
        Scalar3([Scalar(Number::from_int(v[0])), Scalar(Number::from_int(v[1])), Scalar(Number::from_int(v[2]))])
    }
}

impl Argument for Scalar3 {
    open spec fn value_view(&self) -> ValueView {
        ValueView::List(self.numbers())
    }

    fn to_value(&self) -> (r: Value) {
        let v = vec![self.0[0].0, self.0[1].0, self.0[2].0];
        assert(v@ =~= self.numbers());
        Value::List(v)
    }
}

impl Scad for Scalar3 {
    open spec fn rendered(&self, s: FormatterView) -> (FormatterView, AssignmentView) {
        value_rendered(s, self.value_view())
    }

    fn assign(&self, f: &mut Formatter) -> (r: Assignment) {
        self.to_value().assign(f)
    }
}

/// A list of [`Scalar3`].
#[derive(Clone, Debug, PartialEq, Default)]
pub struct VecScalar3(pub Vec<Scalar3>);

impl VecScalar3 {
    /// The rows' numbers, in order.
    pub open spec fn rows(self) -> Seq<Seq<Number>> {
        self.0@.map_values(|p: Scalar3| p.numbers())
    }
}

impl From<Vec<Scalar3>> for VecScalar3 {
    fn from(v: Vec<Scalar3>) -> (r: Self) {
        VecScalar3(v)
    }
}

impl vstd::std_specs::convert::FromSpecImpl<Vec<Scalar3>> for VecScalar3 {
    open spec fn obeys_from_spec() -> bool {
        true
    }

    open spec fn from_spec(v: Vec<Scalar3>) -> Self {
        VecScalar3(v)
    }
}

impl Argument for VecScalar3 {
    open spec fn value_view(&self) -> ValueView {
        ValueView::Table(self.rows())
    }

    fn to_value(&self) -> (r: Value) {
        let mut rows: Vec<Vec<Number>> = Vec::new();
        let n = self.0.len();
        let mut i: usize = 0;
        while i < n
            invariant
                n == self.0@.len(),
                i <= n,
                rows@.len() == i,
                forall|k: int| 0 <= k < i ==> #[trigger] rows@[k]@ == self.0@[k].numbers(),
            decreases n - i,
        {
            let p = self.0[i];
            let row = vec![p.0[0].0, p.0[1].0, p.0[2].0];
            assert(row@ =~= p.numbers());
            rows.push(row);
            i = i + 1;
        }
        assert(rows@.map_values(|r: Vec<Number>| r@) =~= self.rows());
        let r = Value::Table(rows);
        r
    }
}

impl Scad for VecScalar3 {
    open spec fn rendered(&self, s: FormatterView) -> (FormatterView, AssignmentView) {
        value_rendered(s, self.value_view())
    }

    fn assign(&self, f: &mut Formatter) -> (r: Assignment) {
        self.to_value().assign(f)
    }
}


} // verus!
