//! Text helpers shared by the analyzers: decimal rendering, string equality,
//! lexicographic ordering, sorted de-duplicated string sets and joining.

use vstd::prelude::*;

verus! {

/// The character for a single decimal digit `d` (expected `0..=9`).
pub open spec fn digit_char(d: nat) -> char {
    (48 + d) as char
}

/// The decimal rendering of `n`, most significant digit first, without
/// leading zeros ("0" for zero).
pub open spec fn decimal(n: nat) -> Seq<char>
    decreases n,
{
    if n < 10 {
        seq![digit_char(n)]
    } else {
        decimal(n / 10).push(digit_char(n % 10))
    }
}

/// Appends one character to a string.
///
/// Trusted: calls `String::push`, which std documents as appending the given
/// `char` to the end of the string.
#[verifier::external_body]
pub(crate) fn push_char(s: &mut String, c: char)
    ensures
        final(s)@ == old(s)@.push(c),
{
    s.push(c);
}

/// The number a string of decimal digits denotes, read most significant
/// digit first.
pub open spec fn digits_value(s: Seq<char>) -> int
    decreases s.len(),
{
    if s.len() == 0 {
        0
    } else {
        10 * digits_value(s.drop_last()) + (s.last() as int - 48)
    }
}

/// The decimal rendering of `n` consists of the digits '0' to '9' only,
/// reads back as `n`, and has no leading zero unless it is "0".
pub proof fn lemma_decimal_reads_back(n: nat)
    ensures
        decimal(n).len() > 0,
        forall|i: int| 0 <= i < decimal(n).len() ==> '0' <= #[trigger] decimal(n)[i] <= '9',
        digits_value(decimal(n)) == n,
        decimal(n)[0] == '0' ==> n == 0,
    decreases n,
{
    let c = digit_char(n % 10);
    assert(c as int == 48 + n % 10);
    if n < 10 {
        assert(decimal(n).drop_last() =~= Seq::<char>::empty());
        assert(decimal(n).last() == c);
        assert(digits_value(Seq::<char>::empty()) == 0);
        assert(digits_value(decimal(n)) == 10 * digits_value(decimal(n).drop_last()) + (c as int - 48));
    } else {
        lemma_decimal_reads_back(n / 10);
        let d = decimal(n);
        assert(d.drop_last() =~= decimal(n / 10));
        assert(d.last() == c);
        assert(d[0] == decimal(n / 10)[0]);
        assert(n == 10 * (n / 10) + n % 10);
        assert(digits_value(d) == 10 * digits_value(d.drop_last()) + (c as int - 48));
        assert(digits_value(d.drop_last()) == n / 10);
    }
}

/// The character of the decimal digit `d`.
pub fn digit_to_char(d: u8) -> (c: char)
    requires
        d < 10,
    ensures
        c == digit_char(d as nat),
{
    let b: u8 = 48 + d;
    b as char
}

/// Renders `n` in decimal, as `format!("{n}")` does.
pub fn usize_to_decimal(n: usize) -> (s: String)
    ensures
        s@ == decimal(n as nat),
    decreases n,
{
    if n < 10 {
        let mut s = String::new();
        push_char(&mut s, digit_to_char(n as u8));
        s
    } else {
        let mut s = usize_to_decimal(n / 10);
        push_char(&mut s, digit_to_char((n % 10) as u8));
        s
    }
}

/// Whether two string slices hold the same characters.
pub fn str_eq(a: &str, b: &str) -> (res: bool)
    ensures
        res == (a@ == b@),
{
    let n = a.unicode_len();
    if n != b.unicode_len() {
        return false;
    }
    let mut i: usize = 0;
    while i < n
        invariant
            n == a@.len(),
            n == b@.len(),
            i <= n,
            forall|j: int| 0 <= j < i ==> a@[j] == b@[j],
        decreases n - i,
    {
        if a.get_char(i) != b.get_char(i) {
            return false;
        }
        i = i + 1;
    }
    assert(a@ =~= b@);
    true
}

/// Three-way lexicographic comparison of character sequences: `-1` when `a`
/// sorts first, `0` when equal, `1` when `b` sorts first. Characters compare
/// by code point, which is also the byte order of their UTF-8 encodings, so
/// this is the order of `str`'s `Ord`.
pub open spec fn seq_order(a: Seq<char>, b: Seq<char>) -> int
    decreases a.len(),
{
    if a.len() == 0 {
        if b.len() == 0 {
            0
        } else {
            -1
        }
    } else if b.len() == 0 {
        1
    } else if a[0] < b[0] {
        -1
    } else if a[0] > b[0] {
        1
    } else {
        seq_order(a.drop_first(), b.drop_first())
    }
}

/// `a` sorts strictly before `b`.
pub open spec fn seq_lt(a: Seq<char>, b: Seq<char>) -> bool {
    seq_order(a, b) == -1
}

/// The comparison is one of -1, 0, 1; it is 0 exactly on equal sequences, and
/// swapping the arguments negates it.
pub proof fn lemma_seq_order_basic(a: Seq<char>, b: Seq<char>)
    ensures
        seq_order(a, b) == -1 || seq_order(a, b) == 0 || seq_order(a, b) == 1,
        (seq_order(a, b) == 0) == (a == b),
        seq_order(b, a) == -seq_order(a, b),
    decreases a.len(),
{
    if a.len() == 0 && b.len() == 0 {
        assert(a =~= b);
    }
    if a.len() != 0 && b.len() != 0 {
        lemma_seq_order_basic(a.drop_first(), b.drop_first());
        if a[0] == b[0] && a.drop_first() == b.drop_first() {
            assert forall|j: int| 0 <= j < a.len() implies a[j] == b[j] by {
                if j > 0 {
                    assert(a[j] == a.drop_first()[j - 1]);
                    assert(b[j] == b.drop_first()[j - 1]);
                }
            }
            assert(a =~= b);
        }
        if a == b {
            assert(a.drop_first() =~= b.drop_first());
        }
    }
}

/// The strict order is transitive.
pub proof fn lemma_seq_lt_transitive(a: Seq<char>, b: Seq<char>, c: Seq<char>)
    requires
        seq_lt(a, b),
        seq_lt(b, c),
    ensures
        seq_lt(a, c),
    decreases a.len(),
{
    if a.len() != 0 && b.len() != 0 && c.len() != 0 {
        if a[0] == b[0] && b[0] == c[0] {
            lemma_seq_lt_transitive(a.drop_first(), b.drop_first(), c.drop_first());
        }
    }
}

/// Comparing two sequences whose first `i` characters agree is the same as
/// comparing what follows those characters.
proof fn lemma_seq_order_skip(a: Seq<char>, b: Seq<char>, i: int)
    requires
        0 <= i <= a.len(),
        i <= b.len(),
        forall|j: int| 0 <= j < i ==> a[j] == b[j],
    ensures
        seq_order(a, b) == seq_order(a.skip(i), b.skip(i)),
    decreases i,
{
    if i > 0 {
        assert(a[0] == b[0]);
        lemma_seq_order_skip(a.drop_first(), b.drop_first(), i - 1);
        assert(a.drop_first().skip(i - 1) =~= a.skip(i));
        assert(b.drop_first().skip(i - 1) =~= b.skip(i));
    } else {
        assert(a.skip(0) =~= a);
        assert(b.skip(0) =~= b);
    }
}

/// Three-way lexicographic comparison of two string slices.
pub fn compare_str(a: &str, b: &str) -> (res: i8)
    ensures
        res as int == seq_order(a@, b@),
{
    let na = a.unicode_len();
    let nb = b.unicode_len();
    let mut i: usize = 0;
    while i < na && i < nb
        invariant
            na == a@.len(),
            nb == b@.len(),
            i <= na,
            i <= nb,
            forall|j: int| 0 <= j < i ==> a@[j] == b@[j],
        decreases na - i,
    {
        let ca = a.get_char(i);
        let cb = b.get_char(i);
        if ca < cb {
            proof {
                lemma_seq_order_skip(a@, b@, i as int);
            }
            return -1;
        }
        if ca > cb {
            proof {
                lemma_seq_order_skip(a@, b@, i as int);
            }
            return 1;
        }
        proof {
            assert(ca == cb);
        }
        i = i + 1;
    }
    proof {
        lemma_seq_order_skip(a@, b@, i as int);
    }
    if na == nb {
        0
    } else if i == na {
        -1
    } else {
        1
    }
}

/// Strictly increasing under the lexicographic order (so also free of
/// duplicates).
pub open spec fn strictly_sorted(s: Seq<Seq<char>>) -> bool {
    forall|i: int, j: int| 0 <= i < j < s.len() ==> seq_lt(#[trigger] s[i], #[trigger] s[j])
}

/// The character sequences of a list of strings.
pub open spec fn string_views(v: Seq<String>) -> Seq<Seq<char>> {
    v.map_values(|s: String| s@)
}

/// Inserts `s` into a strictly sorted list of strings, keeping it strictly
/// sorted; a string already present is not inserted again. This is the
/// behaviour of inserting into a `BTreeSet<String>`.
pub fn insert_sorted_unique(v: &mut Vec<String>, s: String)
    requires
        strictly_sorted(string_views(old(v)@)),
    ensures
        strictly_sorted(string_views(final(v)@)),
        string_views(final(v)@).to_set() == string_views(old(v)@).to_set().insert(s@),
{
    let ghost old_views = string_views(v@);
    let mut k: usize = 0;
    let mut found: i8 = -1;
    while k < v.len() && found == -1
        invariant
            string_views(v@) == old_views,
            old_views.len() == v@.len(),
            strictly_sorted(old_views),
            k <= v.len(),
            forall|j: int| 0 <= j < k ==> seq_lt(#[trigger] old_views[j], s@),
            found == -1 || found == 0 || found == 1,
            found != -1 ==> k < v.len() && found as int == seq_order(old_views[k as int], s@),
        decreases v.len() - k + (if found == -1 { 1int } else { 0int }),
    {
        let c = compare_str(v[k].as_str(), s.as_str());
        assert(old_views[k as int] == v@[k as int]@);
        proof {
            lemma_seq_order_basic(old_views[k as int], s@);
        }
        if c == -1 {
            k = k + 1;
        } else {
            found = c;
        }
    }
    if found == 0 {
        proof {
            lemma_seq_order_basic(old_views[k as int], s@);
            assert(old_views.to_set().insert(s@) =~= old_views.to_set());
        }
        return;
    }
    proof {
        if k < v.len() {
            lemma_seq_order_basic(old_views[k as int], s@);
            assert(seq_lt(s@, old_views[k as int]));
        }
    }
    let ghost sv = s@;
    v.insert(k, s);
    proof {
        let nv = string_views(v@);
        assert(nv =~= old_views.insert(k as int, sv));
        assert forall|i: int, j: int| 0 <= i < j < nv.len() implies seq_lt(
            #[trigger] nv[i],
            #[trigger] nv[j],
        ) by {
            if j == k {
                assert(seq_lt(old_views[i], sv));
            } else if i == k {
                assert(seq_lt(sv, old_views[k as int]));
                if j - 1 > k {
                    lemma_seq_lt_transitive(sv, old_views[k as int], old_views[j - 1]);
                }
            } else if i < k && j > k {
                assert(seq_lt(old_views[i], sv));
                assert(seq_lt(sv, old_views[k as int]));
                lemma_seq_lt_transitive(old_views[i], sv, old_views[k as int]);
                if j - 1 > k {
                    lemma_seq_lt_transitive(old_views[i], old_views[k as int], old_views[j - 1]);
                }
            }
        }
        assert forall|x: Seq<char>| nv.to_set().contains(x) <==> old_views.to_set().insert(
            sv,
        ).contains(x) by {
            if nv.to_set().contains(x) {
                let i = choose|i: int| 0 <= i < nv.len() && nv[i] == x;
                if i < k {
                    assert(old_views[i] == x);
                } else if i > k {
                    assert(old_views[i - 1] == x);
                }
            }
            if old_views.to_set().contains(x) {
                let i = choose|i: int| 0 <= i < old_views.len() && old_views[i] == x;
                if i < k {
                    assert(nv[i] == x);
                } else {
                    assert(nv[i + 1] == x);
                }
            }
            if x == sv {
                assert(nv[k as int] == x);
            }
        }
        assert(nv.to_set() =~= old_views.to_set().insert(sv));
    }
}

/// The parts joined with `sep` between consecutive parts.
pub open spec fn join(parts: Seq<Seq<char>>, sep: Seq<char>) -> Seq<char>
    decreases parts.len(),
{
    if parts.len() == 0 {
        Seq::empty()
    } else if parts.len() == 1 {
        parts[0]
    } else {
        join(parts.drop_last(), sep) + sep + parts.last()
    }
}

/// Joins strings with a separator, as `[String]::join` does.
pub fn join_strings(parts: &Vec<String>, sep: &str) -> (res: String)
    ensures
        res@ == join(string_views(parts@), sep@),
{
    let ghost views = string_views(parts@);
    let mut res = String::new();
    let mut i: usize = 0;
    while i < parts.len()
        invariant
            views == string_views(parts@),
            i <= parts.len(),
            res@ == join(views.take(i as int), sep@),
        decreases parts.len() - i,
    {
        assert(views.take(i + 1).drop_last() =~= views.take(i as int));
        if i != 0 {
            res.append(sep);
        }
        res.append(parts[i].as_str());
        i = i + 1;
    }
    assert(views.take(parts.len() as int) =~= views);
    res
}

} // verus!
