//! The order of strings: element by element, and a string before every
//! string that it begins.

use vstd::prelude::*;
use core::cmp::Ordering;
use vstd::std_specs::cmp::{PartialEqSpec, PartialEqSpecImpl, PartialOrdSpec, PartialOrdSpecImpl};
use crate::raw::is_c_string;
use crate::string::{AString, WString};
use crate::windy_str::{AStr, WStr};

verus! {

/// The sign of `a` against `b` in the lexicographic order: -1 where `a`
/// comes first, 0 where the two are the same, 1 where `b` comes first.
pub open spec fn lex(a: Seq<int>, b: Seq<int>) -> int
    decreases a.len(),
{
    if a.len() == 0 {
        if b.len() == 0 {
            0
        } else {
            -1
        }
    } else if b.len() == 0 {
        1
    } else if a[0] < b[0] {
        -1
    } else if a[0] > b[0] {
        1
    } else {
        lex(a.drop_first(), b.drop_first())
    }
}

/// The values of bytes.
pub open spec fn byte_values(s: Seq<u8>) -> Seq<int> {
    Seq::new(s.len(), |i: int| s[i] as int)
}

/// The values of wide units.
pub open spec fn unit_values(s: Seq<u16>) -> Seq<int> {
    Seq::new(s.len(), |i: int| s[i] as int)
}

/// Two strings that agree in their first `i` elements compare as what
/// follows these.
pub proof fn lemma_lex_skip(a: Seq<int>, b: Seq<int>, i: int)
    requires
        0 <= i <= a.len(),
        i <= b.len(),
        a.take(i) == b.take(i),
    ensures
        lex(a, b) == lex(a.skip(i), b.skip(i)),
    decreases i,
{
    if i == 0 {
        assert(a.skip(0) =~= a);
        assert(b.skip(0) =~= b);
    } else {
        assert(a.take(i)[0] == a[0]);
        assert(b.take(i)[0] == b[0]);
        let a1 = a.drop_first();
        let b1 = b.drop_first();
        assert forall|j: int| 0 <= j < i - 1 implies #[trigger] a1.take(i - 1)[j] == b1.take(
            i - 1,
        )[j] by {
            assert(a1.take(i - 1)[j] == a[j + 1]);
            assert(b1.take(i - 1)[j] == b[j + 1]);
            assert(a.take(i)[j + 1] == a[j + 1]);
            assert(b.take(i)[j + 1] == b[j + 1]);
        }
        assert(a1.take(i - 1) =~= b1.take(i - 1));
        lemma_lex_skip(a1, b1, i - 1);
        assert(a1.skip(i - 1) =~= a.skip(i));
        assert(b1.skip(i - 1) =~= b.skip(i));
    }
}

/// Two strings compare as equal exactly when they are the same string.
pub proof fn lemma_lex_equal(a: Seq<int>, b: Seq<int>)
    ensures
        lex(a, b) == 0 <==> a == b,
    decreases a.len(),
{
    if a.len() == 0 || b.len() == 0 {
        if a.len() == 0 && b.len() == 0 {
            assert(a =~= b);
        }
    } else {
        lemma_lex_equal(a.drop_first(), b.drop_first());
        if a[0] == b[0] && a.drop_first() == b.drop_first() {
            assert forall|i: int| 0 <= i < a.len() implies a[i] == b[i] by {
                if i > 0 {
                    assert(a[i] == a.drop_first()[i - 1]);
                    assert(b[i] == b.drop_first()[i - 1]);
                }
            }
            assert(a.len() == a.drop_first().len() + 1);
            assert(b.len() == b.drop_first().len() + 1);
            assert(a =~= b);
        }
    }
}

/// A terminator appended to both strings does not change their order, where
/// neither holds the terminator's value, nor anything below it.
pub proof fn lemma_lex_terminated(a: Seq<int>, b: Seq<int>, nul: int)
    requires
        forall|i: int| 0 <= i < a.len() ==> a[i] > nul,
        forall|i: int| 0 <= i < b.len() ==> b[i] > nul,
    ensures
        lex(a.push(nul), b.push(nul)) == lex(a, b),
    decreases a.len(),
{
    let an = a.push(nul);
    let bn = b.push(nul);
    if a.len() == 0 {
        assert(an[0] == nul);
        if b.len() == 0 {
            assert(bn[0] == nul);
            assert(an.drop_first().len() == 0);
            assert(bn.drop_first().len() == 0);
            assert(lex(an.drop_first(), bn.drop_first()) == 0);
        } else {
            assert(bn[0] == b[0] && b[0] > nul);
        }
    } else if b.len() == 0 {
        assert(bn[0] == nul);
        assert(an[0] == a[0] && a[0] > nul);
    } else {
        assert(an[0] == a[0]);
        assert(bn[0] == b[0]);
        let a1 = a.drop_first();
        let b1 = b.drop_first();
        assert forall|i: int| 0 <= i < a1.len() implies a1[i] > nul by {
            assert(a1[i] == a[i + 1]);
        }
        assert forall|i: int| 0 <= i < b1.len() implies b1[i] > nul by {
            assert(b1[i] == b[i + 1]);
        }
        lemma_lex_terminated(a1, b1, nul);
        assert(an.drop_first() =~= a1.push(nul));
        assert(bn.drop_first() =~= b1.push(nul));
    }
}

/// Whether two byte strings are the same.
pub fn same_bytes(a: &[u8], b: &[u8]) -> (same: bool)
    ensures
        same == (a@ == b@),
{
    if a.len() != b.len() {
        return false;
    }
    let n: usize = a.len();
    let mut i: usize = 0;
    while i < n
        invariant
            n == a@.len(),
            n == b@.len(),
            0 <= i <= n,
            forall|j: int| 0 <= j < i ==> a@[j] == b@[j],
        decreases n - i,
    {
        if a[i] != b[i] {
            return false;
        }
        i += 1;
    }
    assert(a@ =~= b@);
    true
}

/// Whether two wide strings are the same.
pub fn same_units(a: &[u16], b: &[u16]) -> (same: bool)
    ensures
        same == (a@ == b@),
{
    if a.len() != b.len() {
        return false;
    }
    let n: usize = a.len();
    let mut i: usize = 0;
    while i < n
        invariant
            n == a@.len(),
            n == b@.len(),
            0 <= i <= n,
            forall|j: int| 0 <= j < i ==> a@[j] == b@[j],
        decreases n - i,
    {
        if a[i] != b[i] {
            return false;
        }
        i += 1;
    }
    assert(a@ =~= b@);
    true
}

/// The sign of `a` against `b` in the lexicographic order of byte strings.
pub fn order_bytes(a: &[u8], b: &[u8]) -> (sign: i8)
    ensures
        sign == lex(byte_values(a@), byte_values(b@)),
{
    let ghost av = byte_values(a@);
    let ghost bv = byte_values(b@);
    let mut i: usize = 0;
    while i < a.len() && i < b.len() && a[i] == b[i]
        invariant
            0 <= i <= a@.len(),
            i <= b@.len(),
            av == byte_values(a@),
            bv == byte_values(b@),
            av.take(i as int) == bv.take(i as int),
        decreases a@.len() - i,
    {
        i += 1;
        assert(av.take(i as int) =~= av.take(i - 1).push(av[i - 1]));
        assert(bv.take(i as int) =~= bv.take(i - 1).push(bv[i - 1]));
    }
    proof {
        lemma_lex_skip(av, bv, i as int);
        if i < a@.len() && i < b@.len() {
            assert(av.skip(i as int)[0] == a@[i as int]);
            assert(bv.skip(i as int)[0] == b@[i as int]);
        }
    }
    if i == a.len() {
        if i == b.len() {
            0
        } else {
            -1
        }
    } else if i == b.len() {
        1
    } else if a[i] < b[i] {
        -1
    } else {
        1
    }
}

/// The sign of `a` against `b` in the lexicographic order of wide strings.
pub fn order_units(a: &[u16], b: &[u16]) -> (sign: i8)
    ensures
        sign == lex(unit_values(a@), unit_values(b@)),
{
    let ghost av = unit_values(a@);
    let ghost bv = unit_values(b@);
    let mut i: usize = 0;
    while i < a.len() && i < b.len() && a[i] == b[i]
        invariant
            0 <= i <= a@.len(),
            i <= b@.len(),
            av == unit_values(a@),
            bv == unit_values(b@),
            av.take(i as int) == bv.take(i as int),
        decreases a@.len() - i,
    {
        i += 1;
        assert(av.take(i as int) =~= av.take(i - 1).push(av[i - 1]));
        assert(bv.take(i as int) =~= bv.take(i - 1).push(bv[i - 1]));
    }
    proof {
        lemma_lex_skip(av, bv, i as int);
        if i < a@.len() && i < b@.len() {
            assert(av.skip(i as int)[0] == a@[i as int]);
            assert(bv.skip(i as int)[0] == b@[i as int]);
        }
    }
    if i == a.len() {
        if i == b.len() {
            0
        } else {
            -1
        }
    } else if i == b.len() {
        1
    } else if a[i] < b[i] {
        -1
    } else {
        1
    }
}

/// The order that a sign stands for.
pub open spec fn sign_order(sign: int) -> Option<Ordering> {
    if sign < 0 {
        Some(Ordering::Less)
    } else if sign == 0 {
        Some(Ordering::Equal)
    } else {
        Some(Ordering::Greater)
    }
}

fn order_of(sign: i8) -> (r: Option<Ordering>)
    ensures
        sign < 0 ==> r == Some(Ordering::Less),
        sign == 0 ==> r == Some(Ordering::Equal),
        sign > 0 ==> r == Some(Ordering::Greater),
{
    if sign < 0 {
        Some(Ordering::Less)
    } else if sign == 0 {
        Some(Ordering::Equal)
    } else {
        Some(Ordering::Greater)
    }
}

/// Two views are equal where their strings are, whatever stands in the
/// place of the terminator.
impl<'a> PartialEq for WStr<'a> {
    fn eq(&self, other: &Self) -> (r: bool) {
        same_units(self.to_bytes(), other.to_bytes())
    }
}

impl<'a> PartialEqSpecImpl for WStr<'a> {
    open spec fn obeys_eq_spec() -> bool {
        true
    }

    open spec fn eq_spec(&self, other: &Self) -> bool {
        self@ == other@
    }
}

impl<'a> Eq for WStr<'a> {

}

/// Views are ordered as their strings are.
impl<'a> PartialOrd for WStr<'a> {
    fn partial_cmp(&self, other: &Self) -> (r: Option<Ordering>) {
        order_of(order_units(self.to_bytes(), other.to_bytes()))
    }
}

impl<'a> PartialOrdSpecImpl for WStr<'a> {
    open spec fn obeys_partial_cmp_spec() -> bool {
        true
    }

    open spec fn partial_cmp_spec(&self, other: &Self) -> Option<Ordering> {
        sign_order(lex(unit_values(self@), unit_values(other@)))
    }
}

/// Two views are equal where their strings are, whatever stands in the
/// place of the terminator.
impl<'a> PartialEq for AStr<'a> {
    fn eq(&self, other: &Self) -> (r: bool) {
        same_bytes(self.to_bytes(), other.to_bytes())
    }
}

impl<'a> PartialEqSpecImpl for AStr<'a> {
    open spec fn obeys_eq_spec() -> bool {
        true
    }

    open spec fn eq_spec(&self, other: &Self) -> bool {
        self@ == other@
    }
}

impl<'a> Eq for AStr<'a> {

}

/// Views are ordered as their strings are.
impl<'a> PartialOrd for AStr<'a> {
    fn partial_cmp(&self, other: &Self) -> (r: Option<Ordering>) {
        order_of(order_bytes(self.to_bytes(), other.to_bytes()))
    }
}

impl<'a> PartialOrdSpecImpl for AStr<'a> {
    open spec fn obeys_partial_cmp_spec() -> bool {
        true
    }

    open spec fn partial_cmp_spec(&self, other: &Self) -> Option<Ordering> {
        sign_order(lex(byte_values(self@), byte_values(other@)))
    }
}

/// Two owned strings are equal where their buffers are.
impl PartialEq for WString {
    fn eq(&self, other: &Self) -> (r: bool) {
        same_units(self.as_bytes_with_nul(), other.as_bytes_with_nul())
    }
}

impl PartialEqSpecImpl for WString {
    open spec fn obeys_eq_spec() -> bool {
        true
    }

    open spec fn eq_spec(&self, other: &Self) -> bool {
        self.with_nul() == other.with_nul()
    }
}

/// Owned strings are ordered as their buffers are.
impl PartialOrd for WString {
    fn partial_cmp(&self, other: &Self) -> (r: Option<Ordering>) {
        order_of(order_units(self.as_bytes_with_nul(), other.as_bytes_with_nul()))
    }
}

impl PartialOrdSpecImpl for WString {
    open spec fn obeys_partial_cmp_spec() -> bool {
        true
    }

    open spec fn partial_cmp_spec(&self, other: &Self) -> Option<Ordering> {
        sign_order(lex(unit_values(self.with_nul()), unit_values(other.with_nul())))
    }
}

/// Two owned strings are equal where their buffers are.
impl PartialEq for AString {
    fn eq(&self, other: &Self) -> (r: bool) {
        same_bytes(self.as_bytes_with_nul(), other.as_bytes_with_nul())
    }
}

impl PartialEqSpecImpl for AString {
    open spec fn obeys_eq_spec() -> bool {
        true
    }

    open spec fn eq_spec(&self, other: &Self) -> bool {
        self.with_nul() == other.with_nul()
    }
}

/// Owned strings are ordered as their buffers are.
impl PartialOrd for AString {
    fn partial_cmp(&self, other: &Self) -> (r: Option<Ordering>) {
        order_of(order_bytes(self.as_bytes_with_nul(), other.as_bytes_with_nul()))
    }
}

impl PartialOrdSpecImpl for AString {
    open spec fn obeys_partial_cmp_spec() -> bool {
        true
    }

    open spec fn partial_cmp_spec(&self, other: &Self) -> Option<Ordering> {
        sign_order(lex(byte_values(self.with_nul()), byte_values(other.with_nul())))
    }
}

/// Two null-terminated buffers are the same exactly when the strings before
/// their terminators are: equality looks at the string alone.
pub proof fn lemma_equal_ignores_terminator<T>(a: Seq<T>, b: Seq<T>, nul: T)
    requires
        is_c_string(a, nul),
        is_c_string(b, nul),
    ensures
        a == b <==> a.drop_last() == b.drop_last(),
{
    if a.drop_last() == b.drop_last() {
        assert(a =~= a.drop_last().push(nul));
        assert(b =~= b.drop_last().push(nul));
    }
}

/// Two owned wide strings compare as the strings before their terminators
/// do, in equality and in order.
pub proof fn lemma_wide_order_ignores_terminator(a: WString, b: WString)
    requires
        a.wf(),
        b.wf(),
    ensures
        PartialEqSpec::eq_spec(&a, &b) <==> a@ == b@,
        PartialOrdSpec::partial_cmp_spec(&a, &b) == sign_order(
            lex(unit_values(a@), unit_values(b@)),
        ),
        PartialOrdSpec::partial_cmp_spec(&a, &b) == Some(Ordering::Equal) <==> a@ == b@,
{
    lemma_equal_ignores_terminator(a.with_nul(), b.with_nul(), 0u16);
    let av = unit_values(a@);
    let bv = unit_values(b@);
    assert(unit_values(a.with_nul()) =~= av.push(0));
    assert(unit_values(b.with_nul()) =~= bv.push(0));
    lemma_lex_terminated(av, bv, 0);
    lemma_lex_equal(unit_values(a.with_nul()), unit_values(b.with_nul()));
    if unit_values(a.with_nul()) == unit_values(b.with_nul()) {
        assert forall|i: int| 0 <= i < a.with_nul().len() implies a.with_nul()[i] == b.with_nul()[i] by {
            assert(unit_values(a.with_nul())[i] == unit_values(b.with_nul())[i]);
        }
        assert(a.with_nul().len() == unit_values(a.with_nul()).len());
        assert(b.with_nul().len() == unit_values(b.with_nul()).len());
        assert(a.with_nul() =~= b.with_nul());
    }
}

/// Two owned multi-byte strings compare as the strings before their
/// terminators do, in equality and in order.
pub proof fn lemma_multi_byte_order_ignores_terminator(a: AString, b: AString)
    requires
        a.wf(),
        b.wf(),
    ensures
        PartialEqSpec::eq_spec(&a, &b) <==> a@ == b@,
        PartialOrdSpec::partial_cmp_spec(&a, &b) == sign_order(
            lex(byte_values(a@), byte_values(b@)),
        ),
        PartialOrdSpec::partial_cmp_spec(&a, &b) == Some(Ordering::Equal) <==> a@ == b@,
{
    lemma_equal_ignores_terminator(a.with_nul(), b.with_nul(), 0u8);
    let av = byte_values(a@);
    let bv = byte_values(b@);
    assert(byte_values(a.with_nul()) =~= av.push(0));
    assert(byte_values(b.with_nul()) =~= bv.push(0));
    lemma_lex_terminated(av, bv, 0);
    lemma_lex_equal(byte_values(a.with_nul()), byte_values(b.with_nul()));
    if byte_values(a.with_nul()) == byte_values(b.with_nul()) {
        assert forall|i: int| 0 <= i < a.with_nul().len() implies a.with_nul()[i] == b.with_nul()[i] by {
            assert(byte_values(a.with_nul())[i] == byte_values(b.with_nul())[i]);
        }
        assert(a.with_nul().len() == byte_values(a.with_nul()).len());
        assert(b.with_nul().len() == byte_values(b.with_nul()).len());
        assert(a.with_nul() =~= b.with_nul());
    }
}

} // verus!
