//! Verified string helpers used by the naming and parameter builders:
//! decimal formatting of counters, comma-joining and comma-splitting of
//! identifier lists, and a backwards character search for path handling.

use vstd::prelude::*;
use vstd::string::*;

verus! {

/// The decimal digit character for `d`.
pub open spec fn spec_digit_char(d: int) -> char
    recommends
        0 <= d < 10,
{
    if d == 0 {
        '0'
    } else if d == 1 {
        '1'
    } else if d == 2 {
        '2'
    } else if d == 3 {
        '3'
    } else if d == 4 {
        '4'
    } else if d == 5 {
        '5'
    } else if d == 6 {
        '6'
    } else if d == 7 {
        '7'
    } else if d == 8 {
        '8'
    } else {
        '9'
    }
}

/// The decimal representation of `n`, most significant digit first, with no
/// leading zeros (a single `'0'` for zero).
pub open spec fn spec_decimal(n: int) -> Seq<char>
    recommends
        n >= 0,
    decreases n,
{
    if n < 10 {
        seq![spec_digit_char(n)]
    } else {
        spec_decimal(n / 10).push(spec_digit_char(n % 10))
    }
}

/// A one-character string slice for the decimal digit `d`.
fn digit_str(d: u64) -> (r: &'static str)
    requires
        d < 10,
    ensures
        r@ =~= seq![spec_digit_char(d as int)],
{
    match d {
        0 => {
            proof {
                reveal_strlit("0");
            }
            "0"
        },
        1 => {
            proof {
                reveal_strlit("1");
            }
            "1"
        },
        2 => {
            proof {
                reveal_strlit("2");
            }
            "2"
        },
        3 => {
            proof {
                reveal_strlit("3");
            }
            "3"
        },
        4 => {
            proof {
                reveal_strlit("4");
            }
            "4"
        },
        5 => {
            proof {
                reveal_strlit("5");
            }
            "5"
        },
        6 => {
            proof {
                reveal_strlit("6");
            }
            "6"
        },
        7 => {
            proof {
                reveal_strlit("7");
            }
            "7"
        },
        8 => {
            proof {
                reveal_strlit("8");
            }
            "8"
        },
        _ => {
            proof {
                reveal_strlit("9");
            }
            "9"
        },
    }
}

/// The characters of the digits `ds` (least significant first), read from the
/// last digit down to the first.
pub open spec fn seq_of_rev_digits(ds: Seq<u64>) -> Seq<char>
    decreases ds.len(),
{
    if ds.len() == 0 {
        Seq::empty()
    } else {
        seq![spec_digit_char(ds.last() as int)] + seq_of_rev_digits(ds.drop_last())
    }
}

proof fn lemma_rev_digits_cons(x: u64, t: Seq<u64>)
    ensures
        seq_of_rev_digits(seq![x] + t) == seq_of_rev_digits(t) + seq![
            spec_digit_char(x as int),
        ],
    decreases t.len(),
{
    let s = seq![x] + t;
    if t.len() == 0 {
        assert(s =~= seq![x]);
        assert(s.len() == 1);
        assert(s.last() == x);
        assert(s.drop_last().len() == 0);
        assert(seq_of_rev_digits(s.drop_last()) == Seq::<char>::empty());
        assert(seq_of_rev_digits(t) == Seq::<char>::empty());
        assert(seq_of_rev_digits(s) == seq![spec_digit_char(x as int)] + Seq::<char>::empty());
        assert(seq_of_rev_digits(s) =~= seq_of_rev_digits(t) + seq![spec_digit_char(x as int)]);
    } else {
        assert(s.last() == t.last());
        assert(s.drop_last() =~= seq![x] + t.drop_last());
        lemma_rev_digits_cons(x, t.drop_last());
        assert(seq_of_rev_digits(s) =~= seq_of_rev_digits(t) + seq![spec_digit_char(x as int)]);
    }
}

/// Formats `n` in decimal.
pub fn u64_to_string(n: u64) -> (r: String)
    ensures
        r@ == spec_decimal(n as int),
{
    let mut digits: Vec<u64> = Vec::new();
    let mut m: u64 = n;
    while m >= 10
        invariant
            spec_decimal(n as int) == spec_decimal(m as int) + seq_of_rev_digits(digits@),
            forall|k: int| 0 <= k < digits@.len() ==> digits@[k] < 10,
        decreases m,
    {
        let ghost pre = digits@;
        let d: u64 = m % 10;
        digits.push(d);
        proof {
            assert(digits@.drop_last() =~= pre);
            assert(seq_of_rev_digits(digits@) =~= seq![spec_digit_char(d as int)]
                + seq_of_rev_digits(pre));
            assert(spec_decimal(m as int) == spec_decimal(m as int / 10).push(
                spec_digit_char(m as int % 10),
            ));
            assert(spec_decimal(m as int / 10).push(spec_digit_char(m as int % 10))
                =~= spec_decimal(m as int / 10) + seq![spec_digit_char(d as int)]);
            assert(spec_decimal((m / 10) as int) + seq_of_rev_digits(digits@) =~= spec_decimal(
                m as int,
            ) + seq_of_rev_digits(pre));
        }
        m = m / 10;
    }
    let mut r = String::new();
    r.append(digit_str(m));
    let ghost ds = digits@;
    let mut i: usize = digits.len();
    proof {
        assert(ds.skip(ds.len() as int) =~= Seq::<u64>::empty());
    }
    while i > 0
        invariant
            i <= digits@.len(),
            digits@ == ds,
            forall|k: int| 0 <= k < ds.len() ==> ds[k] < 10,
            m < 10,
            r@ == seq![spec_digit_char(m as int)] + seq_of_rev_digits(ds.skip(i as int)),
            spec_decimal(n as int) == seq![spec_digit_char(m as int)] + seq_of_rev_digits(ds),
        decreases i,
    {
        i = i - 1;
        let d: u64 = digits[i];
        r.append(digit_str(d));
        proof {
            assert(ds.skip(i as int) =~= seq![d] + ds.skip(i as int + 1));
            lemma_rev_digits_cons(d, ds.skip(i as int + 1));
            assert(r@ =~= seq![spec_digit_char(m as int)] + seq_of_rev_digits(ds.skip(i as int)));
        }
    }
    proof {
        assert(ds.skip(0) =~= ds);
    }
    r
}

/// The parts `parts` joined with a single comma between neighbours.
pub open spec fn spec_join_commas(parts: Seq<Seq<char>>) -> Seq<char>
    decreases parts.len(),
{
    if parts.len() == 0 {
        Seq::empty()
    } else if parts.len() == 1 {
        parts[0]
    } else {
        spec_join_commas(parts.drop_last()) + seq![','] + parts.last()
    }
}

/// Joins `parts` with commas.
pub fn join_commas(parts: &Vec<String>) -> (r: String)
    ensures
        r@ == spec_join_commas(parts.deep_view()),
{
    proof {
        reveal_strlit(",");
    }
    let ghost s = parts.deep_view();
    let mut r = String::new();
    let mut i: usize = 0;
    proof {
        assert(s.take(0) =~= Seq::<Seq<char>>::empty());
    }
    while i < parts.len()
        invariant
            i <= parts@.len(),
            s == parts.deep_view(),
            s.len() == parts@.len(),
            r@ == spec_join_commas(s.take(i as int)),
        decreases parts@.len() - i,
    {
        proof {
            reveal_strlit(",");
        }
        if i > 0 {
            r.append(",");
        }
        r.append(parts[i].as_str());
        proof {
            assert(s[i as int] == parts@[i as int]@);
            if i == 0 {
                assert(s.take(1)[0] == s[0]);
                assert(r@ == spec_join_commas(s.take(1)));
            } else {
                assert(s.take(i as int + 1).drop_last() =~= s.take(i as int));
                assert(s.take(i as int + 1).last() == s[i as int]);
                assert(","@ =~= seq![',']);
                assert(r@ =~= spec_join_commas(s.take(i as int)) + seq![','] + s[i as int]);
            }
        }
        i = i + 1;
    }
    proof {
        assert(s.take(s.len() as int) =~= s);
    }
    r
}

/// The index of the first comma in `s`, or `s.len()` when there is none.
pub open spec fn first_comma(s: Seq<char>) -> int
    decreases s.len(),
{
    if s.len() == 0 {
        0
    } else if s[0] == ',' {
        0
    } else {
        1 + first_comma(s.skip(1))
    }
}

proof fn lemma_first_comma_bounds(s: Seq<char>)
    ensures
        0 <= first_comma(s) <= s.len(),
        first_comma(s) < s.len() ==> s[first_comma(s)] == ',',
        forall|j: int| 0 <= j < first_comma(s) ==> s[j] != ',',
    decreases s.len(),
{
    if s.len() == 0 {
    } else if s[0] == ',' {
    } else {
        lemma_first_comma_bounds(s.skip(1));
        assert forall|j: int| 0 <= j < first_comma(s) implies s[j] != ',' by {
            if j > 0 {
                assert(s.skip(1)[j - 1] == s[j]);
            }
        }
    }
}

/// Where the first `k` characters of `t` are not commas and the `k`-th either
/// is one or is the end, the first comma of `t` is at `k`.
proof fn lemma_first_comma_is(t: Seq<char>, k: int)
    requires
        0 <= k <= t.len(),
        forall|j: int| 0 <= j < k ==> t[j] != ',',
        k < t.len() ==> t[k] == ',',
    ensures
        first_comma(t) == k,
    decreases t.len(),
{
    if t.len() == 0 {
    } else if k == 0 {
        if t.len() > 0 && t[0] != ',' {
            lemma_first_comma_bounds(t);
        }
    } else {
        assert(t[0] != ',');
        assert forall|j: int| 0 <= j < k - 1 implies t.skip(1)[j] != ',' by {
            assert(t.skip(1)[j] == t[j + 1]);
        }
        if k - 1 < t.skip(1).len() {
            assert(t.skip(1)[k - 1] == t[k]);
        }
        lemma_first_comma_is(t.skip(1), k - 1);
    }
}

/// The comma-separated parts of `s`: the unique sequence of comma-free parts
/// whose comma-join is `s`.  An empty `s` has one empty part.
pub open spec fn spec_split_commas(s: Seq<char>) -> Seq<Seq<char>>
    decreases s.len(),
{
    let k = first_comma(s);
    if 0 <= k && k < s.len() {
        seq![s.take(k)] + spec_split_commas(s.skip(k + 1))
    } else {
        seq![s]
    }
}

/// Splits `s` at every comma.
pub fn split_commas(s: &str) -> (r: Vec<String>)
    ensures
        r.deep_view() == spec_split_commas(s@),
        r@.len() >= 1,
{
    let n = s.unicode_len();
    let mut out: Vec<String> = Vec::new();
    let mut start: usize = 0;
    let mut i: usize = 0;
    proof {
        assert(s@.skip(0) =~= s@);
        assert(out.deep_view() =~= Seq::<Seq<char>>::empty());
        assert(out.deep_view() + spec_split_commas(s@) =~= spec_split_commas(s@));
    }
    while i < n
        invariant
            start <= i <= n,
            n == s@.len(),
            spec_split_commas(s@) == out.deep_view() + spec_split_commas(
                s@.skip(start as int),
            ),
            forall|j: int| start <= j < i ==> s@[j] != ',',
        decreases n - i,
    {
        let c = s.get_char(i);
        if c == ',' {
            let tok = String::from_str(s.substring_char(start, i));
            let ghost pre = out.deep_view();
            out.push(tok);
            proof {
                let t = s@.skip(start as int);
                assert forall|j: int| 0 <= j < i - start implies t[j] != ',' by {
                    assert(t[j] == s@[start + j]);
                }
                assert(t[i - start] == s@[i as int]);
                lemma_first_comma_is(t, i - start);
                assert(t.take(i - start) =~= s@.subrange(start as int, i as int));
                assert(t.skip(i - start + 1) =~= s@.skip(i as int + 1));
                assert(spec_split_commas(t) == seq![tok@] + spec_split_commas(
                    s@.skip(i as int + 1),
                ));
                assert(out.deep_view() =~= pre.push(tok@));
                assert(out.deep_view() + spec_split_commas(s@.skip(i as int + 1)) =~= pre
                    + spec_split_commas(s@.skip(start as int)));
            }
            start = i + 1;
        }
        i = i + 1;
    }
    let tok = String::from_str(s.substring_char(start, n));
    let ghost pre = out.deep_view();
    out.push(tok);
    proof {
        let t = s@.skip(start as int);
        assert forall|j: int| 0 <= j < t.len() implies t[j] != ',' by {
            assert(t[j] == s@[start + j]);
        }
        lemma_first_comma_is(t, t.len() as int);
        assert(t.take(t.len() as int) =~= t);
        assert(t =~= s@.subrange(start as int, n as int));
        assert(spec_split_commas(t) == seq![tok@]);
        assert(out.deep_view() =~= pre.push(tok@));
        assert(out.deep_view() =~= pre + spec_split_commas(t));
    }
    out
}

/// The index of the last occurrence of `c` in `s`, or `-1` when absent.
pub open spec fn last_index_of(s: Seq<char>, c: char) -> int
    decreases s.len(),
{
    if s.len() == 0 {
        -1
    } else if s.last() == c {
        s.len() - 1
    } else {
        last_index_of(s.drop_last(), c)
    }
}

proof fn lemma_last_index_take(s: Seq<char>, c: char, i: int)
    requires
        0 <= i <= s.len(),
        forall|j: int| i <= j < s.len() ==> s[j] != c,
    ensures
        last_index_of(s, c) == last_index_of(s.take(i), c),
    decreases s.len() - i,
{
    if i == s.len() {
        assert(s.take(i) =~= s);
    } else {
        lemma_last_index_take(s, c, i + 1);
        assert(s.take(i + 1).last() == s[i]);
        assert(s.take(i + 1).drop_last() =~= s.take(i));
    }
}

/// Finds the last occurrence of `c` in `s`.
pub fn rfind_char(s: &str, c: char) -> (r: Option<usize>)
    ensures
        match r {
            Some(k) => k == last_index_of(s@, c) && k < s@.len(),
            None => last_index_of(s@, c) == -1,
        },
{
    let n = s.unicode_len();
    let mut i: usize = n;
    while i > 0
        invariant
            i <= n,
            n == s@.len(),
            forall|j: int| i <= j < s@.len() ==> s@[j] != c,
        decreases i,
    {
        i = i - 1;
        let ch = s.get_char(i);
        if ch == c {
            proof {
                lemma_last_index_take(s@, c, i as int + 1);
                assert(s@.take(i as int + 1).last() == s@[i as int]);
            }
            return Some(i);
        }
    }
    proof {
        lemma_last_index_take(s@, c, 0);
        assert(s@.take(0) =~= Seq::<char>::empty());
    }
    None
}

} // verus!
