//! The "scopes" concept: a set of named flags, each one bit of a `u64`,
//! and [`Bitfield`], the accumulated value of such flags.

use vstd::prelude::*;
use core::marker::PhantomData;
use crate::text::{lemma_seq_lt_transitive, seq_lt};

verus! {

/// The largest element of `s`, or `0` when `s` is empty.
pub open spec fn seq_max(s: Seq<u64>) -> u64
    decreases s.len(),
{
    if s.len() == 0 {
        0
    } else {
        let m = seq_max(s.drop_last());
        if s.last() > m { s.last() } else { m }
    }
}

/// The view of a flag table entry: its name as characters and its bit.
pub open spec fn flag_view(p: (&'static str, u64)) -> (Seq<char>, u64) {
    (p.0@, p.1)
}

/// Views of all entries of a flag table.
pub open spec fn flag_views(s: Seq<(&'static str, u64)>) -> Seq<(Seq<char>, u64)> {
    s.map_values(|p: (&'static str, u64)| flag_view(p))
}

/// `b` is a single bit: a power of two.
pub open spec fn single_bit(b: u64) -> bool {
    b != 0 && b & ((b - 1) as u64) == 0
}

/// The bitwise OR of all elements of `s`.
pub open spec fn or_all(s: Seq<u64>) -> u64
    decreases s.len(),
{
    if s.len() == 0 {
        0
    } else {
        or_all(s.drop_last()) | s.last()
    }
}

/// The bits of a flag table, in order.
pub open spec fn flag_bits(s: Seq<(Seq<char>, u64)>) -> Seq<u64> {
    s.map_values(|p: (Seq<char>, u64)| p.1)
}

/// The names of a flag table strictly ascend: ordered by name, none twice.
pub open spec fn names_ascending(s: Seq<(Seq<char>, u64)>) -> bool {
    forall|i: int, j: int| 0 <= i < j < s.len() ==> seq_lt(#[trigger] s[i].0, #[trigger] s[j].0)
}

/// Each name of a flag table comes before the next one.
pub open spec fn names_ascend_stepwise(s: Seq<(Seq<char>, u64)>) -> bool {
    forall|i: int| 0 <= i < s.len() - 1 ==> seq_lt(#[trigger] s[i].0, s[i + 1].0)
}

/// Names that ascend step by step ascend.
pub proof fn lemma_names_ascending(s: Seq<(Seq<char>, u64)>)
    requires
        names_ascend_stepwise(s),
    ensures
        names_ascending(s),
{
    assert forall|i: int, j: int| 0 <= i < j < s.len() implies seq_lt(#[trigger] s[i].0, #[trigger] s[j].0) by {
        lemma_names_chain(s, i, j);
    }
}

/// The chain of steps from `i` to `j`.
proof fn lemma_names_chain(s: Seq<(Seq<char>, u64)>, i: int, j: int)
    requires
        names_ascend_stepwise(s),
        0 <= i < j < s.len(),
    ensures
        seq_lt(s[i].0, s[j].0),
    decreases j - i,
{
    if j > i + 1 {
        lemma_names_chain(s, i, j - 1);
        assert(seq_lt(s[j - 1].0, s[j].0));
        lemma_seq_lt_transitive(s[i].0, s[j - 1].0, s[j].0);
    }
}

/// Keeping some entries of a table whose names ascend keeps the names
/// ascending, and every kept entry is an entry of the table.
proof fn lemma_filter_ascending(s: Seq<(Seq<char>, u64)>, pred: spec_fn((Seq<char>, u64)) -> bool)
    requires
        names_ascending(s),
    ensures
        names_ascending(s.filter(pred)),
        forall|k: int| 0 <= k < s.filter(pred).len() ==> exists|j: int| 0 <= j < s.len() && #[trigger] s.filter(pred)[k] == s[j],
    decreases s.len(),
{
    if s.len() == 0 {
        assert(s.filter(pred) =~= s);
    } else {
        let init = s.drop_last();
        let x = s.last();
        assert(names_ascending(init)) by {
            assert forall|i: int, j: int| 0 <= i < j < init.len() implies seq_lt(#[trigger] init[i].0, #[trigger] init[j].0) by {
                assert(init[i] == s[i] && init[j] == s[j]);
            }
        }
        lemma_filter_ascending(init, pred);
        assert(s =~= init.push(x));
        init.lemma_filter_push(x, pred);
        let f = init.filter(pred);
        assert forall|k: int| 0 <= k < f.len() implies exists|j: int| 0 <= j < s.len() && #[trigger] f[k] == s[j] by {
            let j = choose|j: int| 0 <= j < init.len() && f[k] == init[j];
            assert(s[j] == init[j]);
        }
        if pred(x) {
            let g = f.push(x);
            assert forall|i: int, j: int| 0 <= i < j < g.len() implies seq_lt(#[trigger] g[i].0, #[trigger] g[j].0) by {
                if j == g.len() - 1 {
                    let m = choose|m: int| 0 <= m < init.len() && f[i] == init[m];
                    assert(s[m] == init[m]);
                    assert(seq_lt(s[m].0, s[s.len() - 1].0));
                } else {
                    assert(g[i] == f[i] && g[j] == f[j]);
                }
            }
            assert forall|k: int| 0 <= k < g.len() implies exists|j: int| 0 <= j < s.len() && #[trigger] g[k] == s[j] by {
                if k == g.len() - 1 {
                    assert(g[k] == s[s.len() - 1]);
                } else {
                    assert(g[k] == f[k]);
                    let j = choose|j: int| 0 <= j < s.len() && f[k] == s[j];
                    assert(g[k] == s[j]);
                }
            }
        }
    }
}

/// Whether a flag table entry shares a bit with the value `v`.
pub open spec fn flag_in(v: u64) -> spec_fn((Seq<char>, u64)) -> bool {
    |p: (Seq<char>, u64)| v & p.1 != 0
}

/// A type whose values are flags, each standing for one bit of a `u64`.
///
/// `flags` lists every flag by its humane name, ordered by name; `values`
/// lists every bit, ordered by bit.
pub trait Bitflags: Sized {
    /// Every bit, in the order of [`Bitflags::values`].
    spec fn spec_values() -> Seq<u64>;

    /// Every `(name, bit)` pair, in the order of [`Bitflags::flags`].
    spec fn spec_flags() -> Seq<(Seq<char>, u64)>;

    /// Every value is a single bit, and the flags hold the same bits as the
    /// values: each flag's bit is a value, and each value is a flag's bit.
    /// The flags are ordered by name, no name twice.
    proof fn lemma_flags_are_values()
        ensures
            forall|j: int| 0 <= j < Self::spec_values().len() ==> single_bit(#[trigger] Self::spec_values()[j]),
            forall|i: int| 0 <= i < Self::spec_flags().len() ==> Self::spec_values().contains(#[trigger] Self::spec_flags()[i].1),
            forall|j: int| 0 <= j < Self::spec_values().len() ==> flag_bits(Self::spec_flags()).contains(#[trigger] Self::spec_values()[j]),
            names_ascending(Self::spec_flags()),
    ;

    /// Returns every flag as a `(name, bit)` pair, ordered by name.
    fn flags() -> (r: Vec<(&'static str, u64)>)
        ensures
            flag_views(r@) == Self::spec_flags(),
            names_ascending(flag_views(r@)),
    ;

    /// Returns every available bit.
    fn values() -> (r: Vec<u64>)
        ensures
            r@ == Self::spec_values(),
    ;

    /// The largest bit, or `0` if there is none.
    fn max() -> (r: u64)
        ensures
            r == seq_max(Self::spec_values()),
    {
        let v = Self::values();
        let mut m: u64 = 0;
        let mut i: usize = 0;
        while i < v.len()
            invariant
                v@ == Self::spec_values(),
                i <= v@.len(),
                m == seq_max(v@.subrange(0, i as int)),
            decreases v@.len() - i,
        {
            assert(v@.subrange(0, i + 1).drop_last() =~= v@.subrange(0, i as int));
            if v[i] > m {
                m = v[i];
            }
            i = i + 1;
        }
        assert(v@.subrange(0, v@.len() as int) =~= v@);
        m
    }
}

/// A value that converts into one bit-pattern, like `Into<u64>`.
pub trait AsBit {
    /// The bit-pattern of this value.
    spec fn spec_bit(&self) -> u64;

    /// Returns the bit-pattern of this value.
    fn bit(&self) -> (r: u64)
        ensures
            r == self.spec_bit(),
    ;
}

impl AsBit for u64 {
    open spec fn spec_bit(&self) -> u64 {
        *self
    }

    fn bit(&self) -> (r: u64) {
        *self
    }
}

/// The bit-patterns of a list of values.
pub open spec fn bits_of<B: AsBit>(s: Seq<B>) -> Seq<u64> {
    s.map_values(|b: B| b.spec_bit())
}

/// Whether `add` and `remove` take `e` into account: `u64::MAX` and anything
/// above the largest flag are skipped.
pub open spec fn accepted(e: u64, max: u64) -> bool {
    e != u64::MAX && e <= max
}

/// The bitwise OR of the accepted elements of `vals`.
pub open spec fn mask_of(vals: Seq<u64>, max: u64) -> u64
    decreases vals.len(),
{
    if vals.len() == 0 {
        0
    } else {
        let m = mask_of(vals.drop_last(), max);
        if accepted(vals.last(), max) { m | vals.last() } else { m }
    }
}

/// Every accepted element of `vals` lies within `mask_of(vals, max)`.
pub proof fn lemma_mask_covers(vals: Seq<u64>, max: u64, i: int)
    requires
        0 <= i < vals.len(),
        accepted(vals[i], max),
    ensures
        vals[i] & mask_of(vals, max) == vals[i],
    decreases vals.len(),
{
    let m = mask_of(vals.drop_last(), max);
    let e = vals.last();
    if i == vals.len() - 1 {
        assert(e & (m | e) == e) by (bit_vector);
    } else {
        lemma_mask_covers(vals.drop_last(), max, i);
        let x = vals[i];
        assert(vals.drop_last()[i] == x);
        if accepted(e, max) {
            assert(x & m == x ==> x & (m | e) == x) by (bit_vector);
        }
    }
}

/// Computes `mask_of(vals, max)`.
fn mask(vals: &[u64], max: u64) -> (r: u64)
    ensures
        r == mask_of(vals@, max),
{
    let mut m: u64 = 0;
    let mut i: usize = 0;
    while i < vals.len()
        invariant
            i <= vals@.len(),
            m == mask_of(vals@.subrange(0, i as int), max),
        decreases vals@.len() - i,
    {
        assert(vals@.subrange(0, i + 1).drop_last() =~= vals@.subrange(0, i as int));
        let e = vals[i];
        if e != u64::MAX && e <= max {
            m = m | e;
        }
        i = i + 1;
    }
    assert(vals@.subrange(0, vals@.len() as int) =~= vals@);
    m
}

/// Accumulated value of flags of type `F`.
pub struct Bitfield<F: Bitflags>(u64, PhantomData<F>);

impl<F: Bitflags> View for Bitfield<F> {
    type V = u64;

    closed spec fn view(&self) -> u64 {
        self.0
    }
}

impl<F: Bitflags> Clone for Bitfield<F> {
    fn clone(&self) -> (r: Self)
        ensures
            r@ == self@,
    {
        Bitfield(self.0, PhantomData)
    }
}

impl<F: Bitflags> Default for Bitfield<F> {
    fn default() -> (r: Self)
        ensures
            r@ == 0,
    {
        Bitfield(0, PhantomData)
    }
}

/// What `add(vals)` makes of the value `v`.
pub open spec fn added(v: u64, vals: Seq<u64>, max: u64) -> u64 {
    v | mask_of(vals, max)
}

/// What `remove(vals)` makes of the value `v`: the accepted bits of `vals`
/// are cleared.
pub open spec fn removed(v: u64, vals: Seq<u64>, max: u64) -> u64 {
    v & !mask_of(vals, max)
}

impl<F: Bitflags> Bitfield<F> {
    /// Creates a new [`Bitfield`] holding `value`.
    pub fn new(value: u64) -> (r: Bitfield<F>)
        ensures
            r@ == value,
    {
        Bitfield(value, PhantomData)
    }

    /// Returns the current bit value stored in this [`Bitfield`].
    pub fn value(&self) -> (r: u64)
        ensures
            r == self@,
    {
        self.0
    }

    /// Determines if `bit` shares a bit with the stored value.
    pub fn contains<B: AsBit>(&self, bit: B) -> (r: bool)
        ensures
            r == (self@ & bit.spec_bit() != 0),
    {
        (self.0 & bit.bit()) != 0
    }

    /// Adds every accepted bit of `values` to this [`Bitfield`]; `u64::MAX`
    /// and values above `F::max()` are skipped.
    pub fn add<B: AsBit>(&mut self, values: &[B])
        ensures
            final(self)@ == added(old(self)@, bits_of(values@), seq_max(F::spec_values())),
    {
        let bits = to_bits(values);
        let m = mask(bits.as_slice(), F::max());
        self.0 = self.0 | m;
    }

    /// Removes every accepted bit of `values` from this [`Bitfield`]; the
    /// other bits stay as they are.
    pub fn remove<B: AsBit>(&mut self, values: &[B])
        ensures
            final(self)@ == removed(old(self)@, bits_of(values@), seq_max(F::spec_values())),
    {
        let bits = to_bits(values);
        let m = mask(bits.as_slice(), F::max());
        self.0 = self.0 & !m;
    }

    /// A bitfield holding the accepted bits of `values`.
    pub fn from_iter(values: &[u64]) -> (r: Bitfield<F>)
        ensures
            r@ == added(0, values@, seq_max(F::spec_values())),
    {
        let mut b = Bitfield::<F>::new(0);
        b.add(values);
        assert(bits_of(values@) =~= values@);
        b
    }

    /// Returns every flag of `F` whose bit is set in this [`Bitfield`],
    /// ordered by name.
    pub fn flags(&self) -> (r: Vec<(&'static str, u64)>)
        ensures
            flag_views(r@) == F::spec_flags().filter(flag_in(self@)),
            names_ascending(flag_views(r@)),
    {
        let all = F::flags();
        let ghost pred = flag_in(self@);
        let mut out: Vec<(&'static str, u64)> = Vec::new();
        let mut i: usize = 0;
        while i < all.len()
            invariant
                flag_views(all@) == F::spec_flags(),
                i <= all@.len(),
                pred == flag_in(self@),
                flag_views(out@) == flag_views(all@).subrange(0, i as int).filter(pred),
            decreases all@.len() - i,
        {
            let entry = all[i];
            proof {
                let s = flag_views(all@).subrange(0, i as int);
                assert(flag_views(all@).subrange(0, i + 1) =~= s.push(flag_view(entry)));
                s.lemma_filter_push(flag_view(entry), pred);
            }
            let ghost before = out@;
            if self.contains(entry.1) {
                out.push(entry);
                assert(flag_views(out@) =~= flag_views(before).push(flag_view(entry)));
            }
            i = i + 1;
        }
        assert(flag_views(all@).subrange(0, all@.len() as int) =~= flag_views(all@));
        proof {
            lemma_filter_ascending(F::spec_flags(), pred);
        }
        out
    }
}

/// The bit-patterns of `values`.
fn to_bits<B: AsBit>(values: &[B]) -> (r: Vec<u64>)
    ensures
        r@ == bits_of(values@),
{
    let mut out: Vec<u64> = Vec::new();
    let mut i: usize = 0;
    while i < values.len()
        invariant
            i <= values@.len(),
            out@ == bits_of(values@.subrange(0, i as int)),
        decreases values@.len() - i,
    {
        let b = values[i].bit();
        out.push(b);
        i = i + 1;
        assert(out@ =~= bits_of(values@.subrange(0, i as int)));
    }
    assert(values@.subrange(0, values@.len() as int) =~= values@);
    out
}


/// After `add(vals)`, every accepted non-zero element of `vals` is contained
/// in the bitfield.
pub proof fn law_add_then_contains(v: u64, vals: Seq<u64>, max: u64, i: int)
    requires
        0 <= i < vals.len(),
        accepted(vals[i], max),
        vals[i] != 0,
    ensures
        added(v, vals, max) & vals[i] != 0,
{
    lemma_mask_covers(vals, max, i);
    let m = mask_of(vals, max);
    let e = vals[i];
    assert(e & m == e && e != 0 ==> (v | m) & e != 0) by (bit_vector);
}

/// `add` never drops a bit that was already set.
pub proof fn law_add_keeps_bits(v: u64, vals: Seq<u64>, max: u64)
    ensures
        added(v, vals, max) & v == v,
{
    let m = mask_of(vals, max);
    assert((v | m) & v == v) by (bit_vector);
}

/// Adding the same values twice is the same as adding them once.
pub proof fn law_add_idempotent(v: u64, vals: Seq<u64>, max: u64)
    ensures
        added(added(v, vals, max), vals, max) == added(v, vals, max),
{
    let m = mask_of(vals, max);
    assert((v | m) | m == v | m) by (bit_vector);
}

/// After `remove(vals)`, no accepted element of `vals` shares a bit with the
/// bitfield.
pub proof fn law_remove_then_not_contains(v: u64, vals: Seq<u64>, max: u64, i: int)
    requires
        0 <= i < vals.len(),
        accepted(vals[i], max),
    ensures
        removed(v, vals, max) & vals[i] == 0,
{
    lemma_mask_covers(vals, max, i);
    let m = mask_of(vals, max);
    let e = vals[i];
    assert(e & m == e ==> (v & !m) & e == 0) by (bit_vector);
}

/// `remove` leaves every bit outside the removed values as it was.
pub proof fn law_remove_keeps_other_bits(v: u64, vals: Seq<u64>, max: u64, b: u64)
    requires
        b & mask_of(vals, max) == 0,
    ensures
        removed(v, vals, max) & b == v & b,
{
    let m = mask_of(vals, max);
    assert(b & m == 0 ==> (v & !m) & b == v & b) by (bit_vector);
}

/// Removing what was just added gives the same value as removing it from the
/// value before the addition.
pub proof fn law_add_then_remove(v: u64, vals: Seq<u64>, max: u64)
    ensures
        removed(added(v, vals, max), vals, max) == removed(v, vals, max),
{
    let m = mask_of(vals, max);
    assert((v | m) & !m == v & !m) by (bit_vector);
}

/// Adding what was just removed gives the same value as adding it to the
/// value before the removal.
pub proof fn law_remove_then_add(v: u64, vals: Seq<u64>, max: u64)
    ensures
        added(removed(v, vals, max), vals, max) == added(v, vals, max),
{
    let m = mask_of(vals, max);
    assert((v & !m) | m == v | m) by (bit_vector);
}

/// The OR of the bits of the single-bit entries of `s` that share a bit
/// with `v` is `v` masked by the OR of all bits of `s`.
proof fn lemma_or_of_kept(s: Seq<(Seq<char>, u64)>, v: u64)
    requires
        forall|i: int| 0 <= i < s.len() ==> single_bit(#[trigger] s[i].1),
    ensures
        or_all(flag_bits(s.filter(flag_in(v)))) == v & or_all(flag_bits(s)),
    decreases s.len(),
{
    let pred = flag_in(v);
    if s.len() == 0 {
        assert(s.filter(pred) =~= s);
        assert(flag_bits(s) =~= Seq::<u64>::empty());
        assert(v & 0u64 == 0u64) by (bit_vector);
    } else {
        let init = s.drop_last();
        let x = s.last();
        let b = x.1;
        assert(flag_bits(s).drop_last() =~= flag_bits(init));
        assert forall|i: int| 0 <= i < init.len() implies single_bit(#[trigger] init[i].1) by {
            assert(init[i] == s[i]);
        }
        lemma_or_of_kept(init, v);
        assert(s =~= init.push(x));
        init.lemma_filter_push(x, pred);
        let kept = init.filter(pred);
        let m = or_all(flag_bits(init));
        let k = or_all(flag_bits(kept));
        assert(k == v & m);
        if v & b != 0 {
            assert(flag_bits(kept.push(x)).drop_last() =~= flag_bits(kept));
            assert(single_bit(s[s.len() - 1].1));
            assert(b != 0 && b & ((b - 1) as u64) == 0 && v & b != 0 ==> (v & m) | b == v & (m | b))
                by (bit_vector);
        } else {
            assert(v & b == 0 ==> v & m == v & (m | b)) by (bit_vector);
        }
    }
}

/// Every element of `s` lies within the OR of `s`.
proof fn lemma_within_or(s: Seq<u64>, i: int)
    requires
        0 <= i < s.len(),
    ensures
        s[i] & or_all(s) == s[i],
    decreases s.len(),
{
    let m = or_all(s.drop_last());
    let e = s.last();
    if i == s.len() - 1 {
        assert(e & (m | e) == e) by (bit_vector);
    } else {
        lemma_within_or(s.drop_last(), i);
        let x = s[i];
        assert(s.drop_last()[i] == x);
        assert(x & m == x ==> x & (m | e) == x) by (bit_vector);
    }
}

/// When every element of `a` occurs in `b`, the OR of `a` lies within the
/// OR of `b`.
proof fn lemma_or_within(a: Seq<u64>, b: Seq<u64>)
    requires
        forall|i: int| 0 <= i < a.len() ==> b.contains(#[trigger] a[i]),
    ensures
        or_all(a) & or_all(b) == or_all(a),
    decreases a.len(),
{
    let mb = or_all(b);
    if a.len() == 0 {
        assert(0u64 & mb == 0u64) by (bit_vector);
    } else {
        let init = a.drop_last();
        let x = a.last();
        assert forall|i: int| 0 <= i < init.len() implies b.contains(#[trigger] init[i]) by {
            assert(init[i] == a[i]);
        }
        lemma_or_within(init, b);
        assert(b.contains(a[a.len() - 1]));
        let j = choose|j: int| 0 <= j < b.len() && b[j] == x;
        lemma_within_or(b, j);
        let ma = or_all(init);
        assert(ma & mb == ma && x & mb == x ==> (ma | x) & mb == (ma | x)) by (bit_vector);
    }
}

/// The flags that `Bitfield::flags` keeps for a value `v` hold, together,
/// exactly the bits of `v` that belong to some flag: their OR is `v` masked
/// by the OR of all values of `F`.
pub proof fn law_kept_flags_cover_value<F: Bitflags>(v: u64)
    ensures
        or_all(flag_bits(F::spec_flags().filter(flag_in(v)))) == v & or_all(F::spec_values()),
{
    F::lemma_flags_are_values();
    let flags = F::spec_flags();
    let values = F::spec_values();
    let fb = flag_bits(flags);
    assert forall|i: int| 0 <= i < flags.len() implies single_bit(#[trigger] flags[i].1) by {
        assert(values.contains(flags[i].1));
        let j = choose|j: int| 0 <= j < values.len() && values[j] == flags[i].1;
        assert(single_bit(values[j]));
    }
    lemma_or_of_kept(flags, v);
    assert forall|i: int| 0 <= i < fb.len() implies values.contains(#[trigger] fb[i]) by {
        assert(fb[i] == flags[i].1);
    }
    lemma_or_within(fb, values);
    lemma_or_within(values, fb);
    let x = or_all(fb);
    let y = or_all(values);
    assert(x & y == x && y & x == y ==> x == y) by (bit_vector);
}

/// The largest element of a sequence is at least each of its elements.
proof fn lemma_seq_max_bound(s: Seq<u64>, j: int)
    requires
        0 <= j < s.len(),
    ensures
        s[j] <= seq_max(s),
    decreases s.len(),
{
    if j < s.len() - 1 {
        lemma_seq_max_bound(s.drop_last(), j);
        assert(s.drop_last()[j] == s[j]);
    }
}

/// Every flag of `F`, the largest one too, is taken into account by `add`
/// and `remove`: adding it sets its bit and removing it clears its bit,
/// whatever the value was before.
pub proof fn law_every_flag_is_accepted<F: Bitflags>(v: u64, j: int)
    requires
        0 <= j < F::spec_values().len(),
    ensures
        accepted(F::spec_values()[j], seq_max(F::spec_values())),
        added(v, seq![F::spec_values()[j]], seq_max(F::spec_values())) & F::spec_values()[j] == F::spec_values()[j],
        removed(v, seq![F::spec_values()[j]], seq_max(F::spec_values())) & F::spec_values()[j] == 0,
{
    F::lemma_flags_are_values();
    let values = F::spec_values();
    let b = values[j];
    let max = seq_max(values);
    lemma_seq_max_bound(values, j);
    assert(single_bit(b));
    assert(b != 0 && b & ((b - 1) as u64) == 0 ==> b != 0xffff_ffff_ffff_ffffu64) by (bit_vector);
    let one = seq![b];
    assert(one.drop_last() =~= Seq::<u64>::empty());
    assert(mask_of(one.drop_last(), max) == 0u64);
    assert(one.last() == b);
    assert(accepted(b, max));
    assert(mask_of(one, max) == 0u64 | b);
    assert((v | (0u64 | b)) & b == b) by (bit_vector);
    assert((v & !(0u64 | b)) & b == 0) by (bit_vector);
}

} // verus!
