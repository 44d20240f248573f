//! Character-level string helpers with exact specifications over `Seq<char>`.

use vstd::prelude::*;
use vstd::string::*;

verus! {

/// The ASCII digit for `d < 10`.
pub open spec fn digit_char(d: nat) -> char {
    if d == 0 { '0' }
    else if d == 1 { '1' }
    else if d == 2 { '2' }
    else if d == 3 { '3' }
    else if d == 4 { '4' }
    else if d == 5 { '5' }
    else if d == 6 { '6' }
    else if d == 7 { '7' }
    else if d == 8 { '8' }
    else { '9' }
}

/// Base-ten rendering of a natural number, without leading zeros.
pub open spec fn decimal(n: nat) -> Seq<char>
    decreases n,
{
    if n < 10 {
        seq![digit_char(n)]
    } else {
        decimal(n / 10).push(digit_char(n % 10))
    }
}

/// A one-character string holding the digit `d`.
pub fn digit_str(d: u64) -> (r: &'static str)
    requires
        d < 10,
    ensures
        r@ == seq![digit_char(d as nat)],
{
    if d == 0 {
        proof { reveal_strlit("0"); }
        "0"
    } else if d == 1 {
        proof { reveal_strlit("1"); }
        "1"
    } else if d == 2 {
        proof { reveal_strlit("2"); }
        "2"
    } else if d == 3 {
        proof { reveal_strlit("3"); }
        "3"
    } else if d == 4 {
        proof { reveal_strlit("4"); }
        "4"
    } else if d == 5 {
        proof { reveal_strlit("5"); }
        "5"
    } else if d == 6 {
        proof { reveal_strlit("6"); }
        "6"
    } else if d == 7 {
        proof { reveal_strlit("7"); }
        "7"
    } else if d == 8 {
        proof { reveal_strlit("8"); }
        "8"
    } else {
        proof { reveal_strlit("9"); }
        "9"
    }
}

/// Renders `n` in base ten, as `n.to_string()` does.
pub fn u64_to_decimal(n: u64) -> (r: String)
    ensures
        r@ == decimal(n as nat),
    decreases n,
{
    if n < 10 {
        String::from_str(digit_str(n))
    } else {
        let mut s = u64_to_decimal(n / 10);
        s.append(digit_str(n % 10));
        s
    }
}

/// `a` followed by `b`.
pub fn concat(a: &str, b: &str) -> (r: String)
    ensures
        r@ == a@ + b@,
{
    let s = String::from_str(a);
    s.concat(b)
}

/// Exact equality of two string slices.
pub fn str_eq(a: &str, b: &str) -> (r: bool)
    ensures
        r == (a@ == b@),
{
    let x = String::from_str(a);
    let y = String::from_str(b);
    x == y
}


/// Appends one character; `String::push` as documented by std.
#[verifier::external_body]
pub(crate) fn push_char(s: &mut String, c: char)
    ensures
        final(s)@ == old(s)@.push(c),
{
    s.push(c);
}

/// The characters of `s`, in order.
pub fn chars_of(s: &str) -> (r: Vec<char>)
    ensures
        r@ == s@,
{
    let n = s.unicode_len();
    let mut out: Vec<char> = Vec::new();
    let mut i: usize = 0;
    while i < n
        invariant
            n == s@.len(),
            i <= n,
            out@ == s@.subrange(0, i as int),
        decreases n - i,
    {
        let c = s.get_char(i);
        out.push(c);
        i = i + 1;
        assert(out@ =~= s@.subrange(0, i as int));
    }
    assert(out@ =~= s@);
    out
}

/// A `String` holding exactly the characters `cs[from..to]`.
pub fn string_from_chars(cs: &Vec<char>, from: usize, to: usize) -> (r: String)
    requires
        from <= to <= cs@.len(),
    ensures
        r@ == cs@.subrange(from as int, to as int),
{
    let mut out = String::new();
    let mut i = from;
    while i < to
        invariant
            from <= i <= to <= cs@.len(),
            out@ == cs@.subrange(from as int, i as int),
        decreases to - i,
    {
        push_char(&mut out, cs[i]);
        i = i + 1;
        assert(out@ =~= cs@.subrange(from as int, i as int));
    }
    out
}

/// Strict lexicographic order on character sequences, comparing code points:
/// the order of `str` in Rust (UTF-8 byte order equals code point order).
pub open spec fn seq_lt(a: Seq<char>, b: Seq<char>) -> bool
    decreases a.len(),
{
    if a.len() == 0 {
        b.len() > 0
    } else if b.len() == 0 {
        false
    } else if (a[0] as u32) < (b[0] as u32) {
        true
    } else if a[0] == b[0] {
        seq_lt(a.drop_first(), b.drop_first())
    } else {
        false
    }
}

/// Non-strict lexicographic order.
pub open spec fn seq_le(a: Seq<char>, b: Seq<char>) -> bool {
    a == b || seq_lt(a, b)
}

/// `seq_lt` is irreflexive.
pub proof fn lemma_seq_lt_irreflexive(a: Seq<char>)
    ensures
        !seq_lt(a, a),
    decreases a.len(),
{
    if a.len() > 0 {
        lemma_seq_lt_irreflexive(a.drop_first());
    }
}

/// `seq_lt` is total on distinct sequences and asymmetric.
pub proof fn lemma_seq_lt_trichotomy(a: Seq<char>, b: Seq<char>)
    ensures
        a != b ==> (seq_lt(a, b) || seq_lt(b, a)),
        !(seq_lt(a, b) && seq_lt(b, a)),
    decreases a.len(),
{
    if a.len() > 0 && b.len() > 0 {
        lemma_seq_lt_trichotomy(a.drop_first(), b.drop_first());
        if a[0] == b[0] && a.drop_first() == b.drop_first() {
            assert(a =~= seq![a[0]] + a.drop_first());
            assert(b =~= seq![b[0]] + b.drop_first());
        }
        if a[0] != b[0] {
            vstd::utf8::char_u32_cast(a[0], a[0] as u32);
            vstd::utf8::char_u32_cast(b[0], b[0] as u32);
            assert((a[0] as u32) != (b[0] as u32));
        }
    } else if a.len() == 0 && b.len() == 0 {
        assert(a =~= b);
    }
}

/// `seq_lt` is transitive.
pub proof fn lemma_seq_lt_transitive(a: Seq<char>, b: Seq<char>, c: Seq<char>)
    requires
        seq_lt(a, b),
        seq_lt(b, c),
    ensures
        seq_lt(a, c),
    decreases a.len(),
{
    if a.len() > 0 && b.len() > 0 && c.len() > 0 {
        if a[0] == b[0] && b[0] == c[0] {
            lemma_seq_lt_transitive(a.drop_first(), b.drop_first(), c.drop_first());
        }
    }
}

/// Two sequences that agree on their first `k` characters and differ at
/// position `k` by a smaller code point in `a` are in order.
pub proof fn lemma_seq_lt_at(a: Seq<char>, b: Seq<char>, k: int)
    requires
        0 <= k < a.len(),
        k < b.len(),
        a.take(k) == b.take(k),
        (a[k] as u32) < (b[k] as u32),
    ensures
        seq_lt(a, b),
    decreases k,
{
    if k > 0 {
        assert(a.take(k)[0] == a[0] && b.take(k)[0] == b[0]);
        assert(a[0] == b[0]);
        let a1 = a.drop_first();
        let b1 = b.drop_first();
        assert forall|i: int| 0 <= i < k - 1 implies #[trigger] a1.take(k - 1)[i] == b1.take(k - 1)[i] by {
            assert(a.take(k)[i + 1] == a[i + 1] && b.take(k)[i + 1] == b[i + 1]);
            assert(a1[i] == a[i + 1] && b1[i] == b[i + 1]);
        }
        assert(a1.take(k - 1) =~= b1.take(k - 1));
        assert(a1[k - 1] == a[k] && b1[k - 1] == b[k]);
        lemma_seq_lt_at(a1, b1, k - 1);
    }
}

/// A proper prefix comes before the sequence it starts.
pub proof fn lemma_seq_lt_prefix(a: Seq<char>, b: Seq<char>)
    requires
        a.len() < b.len(),
        b.take(a.len() as int) == a,
    ensures
        seq_lt(a, b),
    decreases a.len(),
{
    if a.len() > 0 {
        assert(b.take(a.len() as int)[0] == b[0]);
        assert(a[0] == b[0]);
        let a1 = a.drop_first();
        let b1 = b.drop_first();
        assert forall|i: int| 0 <= i < a1.len() implies #[trigger] b1.take(a1.len() as int)[i] == a1[i] by {
            assert(b.take(a.len() as int)[i + 1] == b[i + 1]);
        }
        assert(b1.take(a1.len() as int) =~= a1);
        lemma_seq_lt_prefix(a1, b1);
    }
}

/// `seq_le` is transitive.
pub proof fn lemma_seq_le_transitive(a: Seq<char>, b: Seq<char>, c: Seq<char>)
    requires
        seq_le(a, b),
        seq_le(b, c),
    ensures
        seq_le(a, c),
{
    if a != b && b != c {
        lemma_seq_lt_transitive(a, b, c);
    }
}

/// Decides `seq_lt(a@, b@)`.
pub fn str_lt(a: &str, b: &str) -> (r: bool)
    ensures
        r == seq_lt(a@, b@),
{
    let x = chars_of(a);
    let y = chars_of(b);
    let mut i: usize = 0;
    assert(a@.skip(0) =~= a@);
    assert(b@.skip(0) =~= b@);
    while i < x.len() && i < y.len()
        invariant
            x@ == a@,
            y@ == b@,
            i <= x@.len(),
            i <= y@.len(),
            seq_lt(a@, b@) == seq_lt(a@.skip(i as int), b@.skip(i as int)),
        decreases x@.len() - i,
    {
        let cx = x[i];
        let cy = y[i];
        assert(a@.skip(i as int)[0] == cx);
        assert(b@.skip(i as int)[0] == cy);
        if (cx as u32) < (cy as u32) {
            return true;
        }
        if cx != cy {
            return false;
        }
        assert(a@.skip(i as int).drop_first() =~= a@.skip(i + 1));
        assert(b@.skip(i as int).drop_first() =~= b@.skip(i + 1));
        i = i + 1;
    }
    i < y.len()
}

/// The character sequences of a list of strings.
pub open spec fn views(v: Seq<String>) -> Seq<Seq<char>> {
    v.map_values(|s: String| s@)
}

/// A sequence of strings in non-decreasing lexicographic order.
pub open spec fn sorted(s: Seq<Seq<char>>) -> bool {
    forall|i: int, j: int| 0 <= i < j < s.len() ==> seq_le(#[trigger] s[i], #[trigger] s[j])
}

proof fn lemma_insert_multiset<A>(s: Seq<A>, i: int, x: A)
    requires
        0 <= i <= s.len(),
    ensures
        s.insert(i, x).to_multiset() =~= s.to_multiset().insert(x),
{
    let t = s.insert(i, x);
    assert(t.remove(i) =~= s);
    t.to_multiset_ensures();
    assert(t[i] == x);
    assert(t.contains(x));
}

/// Sorts strings in ascending lexicographic order, as `Vec::sort` does.
pub fn sort_strings(v: Vec<String>) -> (r: Vec<String>)
    ensures
        sorted(views(r@)),
        views(r@).to_multiset() == views(v@).to_multiset(),
{
    let mut out: Vec<String> = Vec::new();
    let mut k: usize = 0;
    let n = v.len();
    assert(views(out@) =~= views(v@.subrange(0, 0)));
    while k < n
        invariant
            n == v@.len(),
            k <= n,
            sorted(views(out@)),
            views(out@).to_multiset() == views(v@.subrange(0, k as int)).to_multiset(),
        decreases n - k,
    {
        let x = v[k].clone();
        // first position whose element is strictly greater than x
        let mut j: usize = 0;
        while j < out.len() && !str_lt(x.as_str(), out[j].as_str())
            invariant
                j <= out@.len(),
                sorted(views(out@)),
                forall|t: int| 0 <= t < j ==> seq_le(#[trigger] out@[t]@, x@),
            decreases out@.len() - j,
        {
            proof {
                lemma_seq_lt_trichotomy(x@, out@[j as int]@);
            }
            j = j + 1;
        }
        proof {
            if j < out@.len() {
                assert forall|t: int| j <= t < out@.len() implies seq_lt(x@, #[trigger] out@[t]@) by {
                    if t > j {
                        assert(seq_le(views(out@)[j as int], views(out@)[t]));
                        if out@[j as int]@ != out@[t]@ {
                            lemma_seq_lt_transitive(x@, out@[j as int]@, out@[t]@);
                        }
                    }
                }
            }
        }
        let ghost old_out = out@;
        out.insert(j, x);
        proof {
            assert(views(out@) =~= views(old_out).insert(j as int, v@[k as int]@));
            lemma_insert_multiset(views(old_out), j as int, v@[k as int]@);
            assert(v@.subrange(0, k + 1) =~= v@.subrange(0, k as int).push(v@[k as int]));
            assert(views(v@.subrange(0, k + 1)) =~= views(v@.subrange(0, k as int)).push(v@[k as int]@));
            views(v@.subrange(0, k as int)).to_multiset_ensures();
            assert forall|a: int, b: int| 0 <= a < b < out@.len() implies seq_le(
                #[trigger] views(out@)[a],
                #[trigger] views(out@)[b],
            ) by {
                if a < j && b > j {
                    lemma_seq_le_transitive(old_out[a]@, x@, old_out[b - 1]@);
                } else if a < j && b == j {
                } else if a == j && b > j {
                } else if a > j {
                    assert(views(old_out)[a - 1] == views(out@)[a]);
                    assert(views(old_out)[b - 1] == views(out@)[b]);
                } else {
                    assert(views(old_out)[a] == views(out@)[a]);
                    assert(views(old_out)[b] == views(out@)[b]);
                }
            }
        }
        k = k + 1;
    }
    assert(v@.subrange(0, n as int) =~= v@);
    out
}


/// `needle` occurs in `hay` as a contiguous run of characters.
pub open spec fn seq_contains(hay: Seq<char>, needle: Seq<char>) -> bool {
    exists|i: int| 0 <= i <= hay.len() - needle.len() && #[trigger] hay.subrange(i, i + needle.len()) == needle
}

/// Decides `seq_contains(hay@, needle@)`.
pub fn str_contains(hay: &str, needle: &str) -> (r: bool)
    ensures
        r == seq_contains(hay@, needle@),
{
    let h = chars_of(hay);
    let n = chars_of(needle);
    if n.len() == 0 {
        assert(hay@.subrange(0int, 0int + needle@.len()) =~= needle@);
        return true;
    }
    if n.len() > h.len() {
        return false;
    }
    let mut i: usize = 0;
    let last = h.len() - n.len();
    while i <= last
        invariant
            h@ == hay@,
            n@ == needle@,
            n@.len() > 0,
            n@.len() <= h@.len(),
            h@.len() <= usize::MAX,
            last == h@.len() - n@.len(),
            i <= last + 1,
            forall|k: int| 0 <= k < i ==> #[trigger] hay@.subrange(k, k + needle@.len()) != needle@,
        decreases h@.len() - i,
    {
        let mut j: usize = 0;
        while j < n.len() && h[i + j] == n[j]
            invariant
                h@ == hay@,
                n@ == needle@,
                i + n@.len() <= h@.len(),
                h@.len() <= usize::MAX,
                j <= n@.len(),
                forall|t: int| 0 <= t < j ==> h@[i + t] == n@[t],
            decreases n@.len() - j,
        {
            j = j + 1;
        }
        if j == n.len() {
            assert(hay@.subrange(i as int, i + needle@.len()) =~= needle@);
            return true;
        }
        assert(hay@.subrange(i as int, i + needle@.len())[j as int] != needle@[j as int]);
        i = i + 1;
    }
    false
}


/// The index of the first occurrence of `c` in `s`, if any.
pub open spec fn first_index(s: Seq<char>, c: char) -> Option<int>
    decreases s.len(),
{
    if s.len() == 0 {
        None
    } else if s[0] == c {
        Some(0)
    } else {
        match first_index(s.drop_first(), c) {
            Some(i) => Some(i + 1),
            None => None,
        }
    }
}

/// `first_index` finds an occurrence, and nothing before it.
pub proof fn lemma_first_index(s: Seq<char>, c: char)
    ensures
        match first_index(s, c) {
            Some(i) => 0 <= i < s.len() && s[i] == c && forall|j: int| 0 <= j < i ==> s[j] != c,
            None => forall|j: int| 0 <= j < s.len() ==> s[j] != c,
        },
    decreases s.len(),
{
    if s.len() > 0 {
        lemma_first_index(s.drop_first(), c);
        if s[0] != c {
            match first_index(s.drop_first(), c) {
                Some(i) => {
                    assert forall|j: int| 0 <= j < i + 1 implies s[j] != c by {
                        if j > 0 {
                            assert(s[j] == s.drop_first()[j - 1]);
                        }
                    }
                },
                None => {
                    assert forall|j: int| 0 <= j < s.len() implies s[j] != c by {
                        if j > 0 {
                            assert(s[j] == s.drop_first()[j - 1]);
                        }
                    }
                },
            }
        }
    }
}

/// Finds the first occurrence of `c` in `cs`.
pub fn find_char(cs: &Vec<char>, c: char) -> (r: Option<usize>)
    ensures
        match r {
            Some(i) => first_index(cs@, c) == Some(i as int),
            None => first_index(cs@, c) is None,
        },
{
    let mut i: usize = 0;
    proof {
        lemma_first_index(cs@, c);
    }
    while i < cs.len()
        invariant
            i <= cs@.len(),
            forall|j: int| 0 <= j < i ==> cs@[j] != c,
            match first_index(cs@, c) {
                Some(k) => 0 <= k < cs@.len() && cs@[k] == c && forall|j: int| 0 <= j < k ==> cs@[j] != c,
                None => forall|j: int| 0 <= j < cs@.len() ==> cs@[j] != c,
            },
        decreases cs@.len() - i,
    {
        if cs[i] == c {
            return Some(i);
        }
        i = i + 1;
    }
    None
}

/// `s` holds `c` somewhere.
pub open spec fn has_char(s: Seq<char>, c: char) -> bool {
    exists|i: int| 0 <= i < s.len() && s[i] == c
}

/// The two sides of the first `c` in `s`, as `str::split_once` gives them.
pub open spec fn split_once(s: Seq<char>, c: char) -> Option<(Seq<char>, Seq<char>)> {
    match first_index(s, c) {
        Some(i) => Some((s.subrange(0, i), s.subrange(i + 1, s.len() as int))),
        None => None,
    }
}

/// Splits `s` at the first `c`, as `str::split_once` does.
pub fn split_once_char(s: &str, c: char) -> (r: Option<(String, String)>)
    ensures
        match r {
            Some((a, b)) => split_once(s@, c) == Some((a@, b@)),
            None => split_once(s@, c) is None,
        },
{
    let cs = chars_of(s);
    match find_char(&cs, c) {
        Some(i) => {
            proof { lemma_first_index(cs@, c); }
            assert(i < cs.len());
            let a = string_from_chars(&cs, 0, i);
            let b = string_from_chars(&cs, i + 1, cs.len());
            Some((a, b))
        },
        None => None,
    }
}

/// Whether `s` holds the character `c`.
pub fn contains_char(s: &str, c: char) -> (r: bool)
    ensures
        r == has_char(s@, c),
{
    let cs = chars_of(s);
    proof { lemma_first_index(cs@, c); }
    match find_char(&cs, c) {
        Some(_) => true,
        None => false,
    }
}

/// A character of the Unicode `White_Space` property, which is what
/// `char::is_whitespace` and `str::trim` go by.
pub open spec fn is_white_space(c: char) -> bool {
    let u = c as u32;
    (0x09 <= u <= 0x0d) || u == 0x20 || u == 0x85 || u == 0xa0 || u == 0x1680
        || (0x2000 <= u <= 0x200a) || u == 0x2028 || u == 0x2029 || u == 0x202f
        || u == 0x205f || u == 0x3000
}

/// Decides `is_white_space`.
pub fn char_is_white_space(c: char) -> (r: bool)
    ensures
        r == is_white_space(c),
{
    let u = c as u32;
    (0x09 <= u && u <= 0x0d) || u == 0x20 || u == 0x85 || u == 0xa0 || u == 0x1680
        || (0x2000 <= u && u <= 0x200a) || u == 0x2028 || u == 0x2029 || u == 0x202f
        || u == 0x205f || u == 0x3000
}

/// `s` without its leading white space.
pub open spec fn trim_start(s: Seq<char>) -> Seq<char>
    decreases s.len(),
{
    if s.len() > 0 && is_white_space(s[0]) {
        trim_start(s.drop_first())
    } else {
        s
    }
}

/// `s` without its trailing white space.
pub open spec fn trim_end(s: Seq<char>) -> Seq<char>
    decreases s.len(),
{
    if s.len() > 0 && is_white_space(s.last()) {
        trim_end(s.drop_last())
    } else {
        s
    }
}

/// `s` without leading and trailing white space, as `str::trim` gives it.
pub open spec fn trimmed(s: Seq<char>) -> Seq<char> {
    trim_end(trim_start(s))
}

/// Removes leading and trailing white space, as `str::trim` does.
pub fn trim(s: &str) -> (r: String)
    ensures
        r@ == trimmed(s@),
{
    let cs = chars_of(s);
    let n = cs.len();
    let mut i: usize = 0;
    assert(cs@.subrange(0, n as int) =~= s@);
    while i < n && char_is_white_space(cs[i])
        invariant
            cs@ == s@,
            n == cs@.len(),
            i <= n,
            trim_start(s@) == trim_start(cs@.subrange(i as int, n as int)),
        decreases n - i,
    {
        assert(cs@.subrange(i as int, n as int).drop_first() =~= cs@.subrange(i + 1, n as int));
        i = i + 1;
    }
    let mut j: usize = n;
    let ghost front = cs@.subrange(i as int, n as int);
    assert(trim_start(front) == front);
    assert(cs@.subrange(i as int, j as int) == front);
    while j > i && char_is_white_space(cs[j - 1])
        invariant
            cs@ == s@,
            n == cs@.len(),
            i <= j <= n,
            front == cs@.subrange(i as int, n as int),
            trim_start(s@) == front,
            trim_end(front) == trim_end(cs@.subrange(i as int, j as int)),
        decreases j - i,
    {
        assert(cs@.subrange(i as int, j as int).drop_last() =~= cs@.subrange(i as int, j - 1));
        j = j - 1;
    }
    string_from_chars(&cs, i, j)
}

/// `s` with its first `n` occurrences of `c` taken out, as
/// `str::replacen(c, "", n)` gives it.
pub open spec fn without_first(s: Seq<char>, c: char, n: nat) -> Seq<char>
    decreases s.len(),
{
    if s.len() == 0 {
        s
    } else if s[0] == c && n > 0 {
        without_first(s.drop_first(), c, (n - 1) as nat)
    } else {
        seq![s[0]] + without_first(s.drop_first(), c, n)
    }
}

/// Takes out the first `n` occurrences of `c`, as `str::replacen(c, "", n)`
/// does.
pub fn remove_first_n(s: &str, c: char, n: usize) -> (r: String)
    ensures
        r@ == without_first(s@, c, n as nat),
{
    let cs = chars_of(s);
    let mut out = String::new();
    let mut left: usize = n;
    let mut i: usize = 0;
    assert(s@.skip(0) =~= s@);
    while i < cs.len()
        invariant
            cs@ == s@,
            i <= cs@.len(),
            left <= n,
            without_first(s@, c, n as nat) == out@ + without_first(s@.skip(i as int), c, left as nat),
        decreases cs@.len() - i,
    {
        let ghost rest = s@.skip(i as int);
        assert(rest[0] == cs@[i as int]);
        assert(rest.drop_first() =~= s@.skip(i + 1));
        let ghost before = out@;
        if cs[i] == c && left > 0 {
            left = left - 1;
        } else {
            push_char(&mut out, cs[i]);
            assert(out@ + without_first(s@.skip(i + 1), c, left as nat)
                =~= before + (seq![cs@[i as int]] + without_first(s@.skip(i + 1), c, left as nat)));
        }
        i = i + 1;
    }
    assert(s@.skip(cs@.len() as int) =~= Seq::<char>::empty());
    assert(out@ + Seq::<char>::empty() =~= out@);
    out
}

/// `n` spaces.
pub open spec fn spaces(n: nat) -> Seq<char> {
    Seq::new(n, |i: int| ' ')
}

/// `s` padded with spaces on the right to at least `width` characters, as
/// the format `{:<width}` lays a value out.
pub open spec fn pad_right(s: Seq<char>, width: nat) -> Seq<char> {
    if s.len() < width {
        s + spaces((width - s.len()) as nat)
    } else {
        s
    }
}

/// Pads `s` with spaces on the right to `width` characters.
pub fn pad_right_str(s: &str, width: usize) -> (r: String)
    ensures
        r@ == pad_right(s@, width as nat),
{
    let mut out = String::from_str(s);
    let len = s.unicode_len();
    let mut k = len;
    assert(out@ =~= s@ + spaces(0));
    while k < width
        invariant
            len == s@.len(),
            len <= k,
            k <= width || k == len,
            out@ == s@ + spaces((k - len) as nat),
        decreases width - k,
    {
        push_char(&mut out, ' ');
        k = k + 1;
        assert(out@ =~= s@ + spaces((k - len) as nat));
    }
    if len >= width {
        assert(out@ =~= s@);
    }
    out
}

/// The strings of `parts` with `sep` between each two, as `join` gives
/// them.
pub open spec fn joined(parts: Seq<Seq<char>>, sep: Seq<char>) -> Seq<char>
    decreases parts.len(),
{
    if parts.len() == 0 {
        Seq::empty()
    } else if parts.len() == 1 {
        parts[0]
    } else {
        joined(parts.drop_last(), sep) + sep + parts.last()
    }
}

/// Joins `parts` with `sep`.
pub fn join(parts: &Vec<String>, sep: &str) -> (r: String)
    ensures
        r@ == joined(views(parts@), sep@),
{
    let mut out = String::new();
    let mut i: usize = 0;
    while i < parts.len()
        invariant
            i <= parts@.len(),
            out@ == joined(views(parts@.subrange(0, i as int)), sep@),
        decreases parts@.len() - i,
    {
        let ghost prev = views(parts@.subrange(0, i as int));
        let ghost next = views(parts@.subrange(0, i + 1));
        assert(next.drop_last() =~= prev);
        assert(next.last() == parts@[i as int]@);
        if i > 0 {
            out.append(sep);
        } else {
            assert(out@ =~= Seq::<char>::empty());
        }
        out.append(parts[i].as_str());
        i = i + 1;
        assert(out@ =~= joined(next, sep@));
    }
    assert(parts@.subrange(0, parts@.len() as int) =~= parts@);
    out
}

/// Base-ten rendering of an integer, with a minus sign when negative.
pub open spec fn signed_decimal(i: int) -> Seq<char> {
    if i < 0 {
        "-"@ + decimal((-i) as nat)
    } else {
        decimal(i as nat)
    }
}

/// Renders `i` in base ten, as `i.to_string()` does.
pub fn i64_to_decimal(i: i64) -> (r: String)
    ensures
        r@ == signed_decimal(i as int),
{
    if i < 0 {
        let wide: i128 = i as i128;
        let magnitude: u64 = (-wide) as u64;
        concat("-", u64_to_decimal(magnitude).as_str())
    } else {
        u64_to_decimal(i as u64)
    }
}

/// Taking out no occurrence leaves the text as it is.
pub proof fn lemma_without_first_none(s: Seq<char>, c: char)
    ensures
        without_first(s, c, 0) == s,
    decreases s.len(),
{
    if s.len() > 0 {
        lemma_without_first_none(s.drop_first(), c);
        assert(seq![s[0]] + s.drop_first() =~= s);
    }
}

/// A prefix without `c` is kept as it is.
pub proof fn lemma_without_first_prefix(x: Seq<char>, rest: Seq<char>, c: char, n: nat)
    requires
        !has_char(x, c),
    ensures
        without_first(x + rest, c, n) == x + without_first(rest, c, n),
    decreases x.len(),
{
    if x.len() > 0 {
        let t = x.drop_first();
        assert((x + rest).drop_first() =~= t + rest);
        assert((x + rest)[0] == x[0]);
        assert(!has_char(t, c)) by {
            if has_char(t, c) {
                let i = choose|i: int| 0 <= i < t.len() && t[i] == c;
                assert(x[i + 1] == c);
            }
        }
        assert(x[0] != c);
        lemma_without_first_prefix(t, rest, c, n);
        assert(seq![x[0]] + (t + without_first(rest, c, n)) =~= x + without_first(rest, c, n));
    } else {
        assert(x + rest =~= rest);
        assert(x + without_first(rest, c, n) =~= without_first(rest, c, n));
    }
}

} // verus!
