//! Small string helpers: exact character-level comparison, decimal
//! formatting of counters for the daemon protocol, and the overlap stripping
//! used when a suggestion is rendered inline after the typed input.

use vstd::prelude::*;

verus! {

use vstd::string::*;

/// Whether two texts hold the same characters.
pub fn str_eq(a: &str, b: &str) -> (r: bool)
    ensures
        r == (a@ == b@),
{
    let an = a.unicode_len();
    let bn = b.unicode_len();
    if an != bn {
        proof {
            assert(a@ != b@) by {
                if a@ == b@ {
                    assert(a@.len() == b@.len());
                }
            }
        }
        return false;
    }
    let mut i: usize = 0;
    while i < an
        invariant
            i <= an,
            an == a@.len(),
            an == b@.len(),
            forall|j: int| 0 <= j < i ==> a@[j] == b@[j],
        decreases an - i,
    {
        if a.get_char(i) != b.get_char(i) {
            proof {
                assert(a@[i as int] != b@[i as int]);
            }
            return false;
        }
        i = i + 1;
    }
    proof {
        assert(a@ =~= b@);
    }
    true
}

/// The character for one decimal digit.
pub open spec fn dec_digit(d: nat) -> char
    recommends
        d < 10,
{
    if d == 0 {
        '0'
    } else if d == 1 {
        '1'
    } else if d == 2 {
        '2'
    } else if d == 3 {
        '3'
    } else if d == 4 {
        '4'
    } else if d == 5 {
        '5'
    } else if d == 6 {
        '6'
    } else if d == 7 {
        '7'
    } else if d == 8 {
        '8'
    } else {
        '9'
    }
}

/// The usual decimal rendering of a number, most significant digit first,
/// with no leading zeros (a lone `0` for zero).
pub open spec fn dec_str(n: nat) -> Seq<char>
    decreases n,
{
    if n < 10 {
        seq![dec_digit(n)]
    } else {
        dec_str(n / 10) + seq![dec_digit(n % 10)]
    }
}

/// A one-character text holding the given decimal digit.
fn digit_str(d: usize) -> (s: &'static str)
    requires
        d < 10,
    ensures
        s@ == seq![dec_digit(d as nat)],
{
    proof {
        reveal_strlit("0");
        reveal_strlit("1");
        reveal_strlit("2");
        reveal_strlit("3");
        reveal_strlit("4");
        reveal_strlit("5");
        reveal_strlit("6");
        reveal_strlit("7");
        reveal_strlit("8");
        reveal_strlit("9");
    }
    let s = match d {
        0 => "0",
        1 => "1",
        2 => "2",
        3 => "3",
        4 => "4",
        5 => "5",
        6 => "6",
        7 => "7",
        8 => "8",
        _ => "9",
    };
    proof {
        assert(s@ =~= seq![dec_digit(d as nat)]);
    }
    s
}

/// Render a number in decimal.
pub fn usize_to_string(n: usize) -> (s: String)
    ensures
        s@ == dec_str(n as nat),
    decreases n,
{
    if n < 10 {
        String::from_str(digit_str(n))
    } else {
        let mut s = usize_to_string(n / 10);
        s.append(digit_str(n % 10));
        s
    }
}

/// `k` trailing characters of `a` are exactly the `k` leading characters of
/// `b`.
pub open spec fn is_overlap(a: Seq<char>, b: Seq<char>, k: int) -> bool {
    &&& 0 <= k <= a.len()
    &&& k <= b.len()
    &&& a.subrange(a.len() - k, a.len() as int) == b.subrange(0, k)
}

/// The largest overlap not above `k`; zero always qualifies.
pub open spec fn max_overlap_from(a: Seq<char>, b: Seq<char>, k: int) -> int
    decreases k,
{
    if k <= 0 {
        0
    } else if is_overlap(a, b, k) {
        k
    } else {
        max_overlap_from(a, b, k - 1)
    }
}

/// The length of the longest suffix of `a` that is also a prefix of `b`.
pub open spec fn max_overlap(a: Seq<char>, b: Seq<char>) -> int {
    max_overlap_from(a, b, if a.len() <= b.len() { a.len() as int } else { b.len() as int })
}

/// What remains of a suggestion `b` once the part the typed input `a`
/// already ends with is stripped from its front.
pub open spec fn stripped(a: Seq<char>, b: Seq<char>) -> Seq<char> {
    b.subrange(max_overlap(a, b), b.len() as int)
}

proof fn lemma_max_overlap_from_found(a: Seq<char>, b: Seq<char>, m: int, k: int)
    requires
        0 <= k <= m,
        is_overlap(a, b, k),
        forall|j: int| k < j <= m ==> !is_overlap(a, b, j),
    ensures
        max_overlap_from(a, b, m) == k,
    decreases m,
{
    if m > k {
        lemma_max_overlap_from_found(a, b, m - 1, k);
    }
}

/// Whether the last `k` characters of `a` match the first `k` of `b`.
fn overlap_at(a: &str, b: &str, k: usize, an: usize, bn: usize) -> (r: bool)
    requires
        an == a@.len(),
        bn == b@.len(),
        k <= an,
        k <= bn,
    ensures
        r == is_overlap(a@, b@, k as int),
{
    let mut j: usize = 0;
    while j < k
        invariant
            j <= k,
            k <= an,
            k <= bn,
            an == a@.len(),
            bn == b@.len(),
            forall|t: int| 0 <= t < j ==> a@[an - k + t] == b@[t],
        decreases k - j,
    {
        if a.get_char(an - k + j) != b.get_char(j) {
            proof {
                assert(a@.subrange(an - k, an as int)[j as int] == a@[an - k + j]);
                assert(b@.subrange(0, k as int)[j as int] == b@[j as int]);
            }
            return false;
        }
        j = j + 1;
    }
    proof {
        assert(a@.subrange(an - k, an as int) =~= b@.subrange(0, k as int));
    }
    true
}

/// Plain text utilities shared by the presentation layer.
pub struct StringTools;

impl StringTools {
    /// Strip from the front of `suggestion` the longest run of characters
    /// that `buffer` already ends with, so that rendering the result right
    /// after the typed input does not duplicate what is on screen.
    pub fn strings_unique(buffer: &str, suggestion: &str) -> (r: String)
        ensures
            r@ == stripped(buffer@, suggestion@),
    {
        let an = buffer.unicode_len();
        let bn = suggestion.unicode_len();
        let m = if an <= bn {
            an
        } else {
            bn
        };
        let mut k: usize = m;
        loop
            invariant
                k <= m,
                an == buffer@.len(),
                bn == suggestion@.len(),
                m == if an <= bn { an } else { bn },
                forall|j: int| k < j <= m ==> !is_overlap(buffer@, suggestion@, j),
            ensures
                k <= m,
                k == 0 || is_overlap(buffer@, suggestion@, k as int),
                forall|j: int| k < j <= m ==> !is_overlap(buffer@, suggestion@, j),
            decreases k,
        {
            if k == 0 {
                break;
            }
            if overlap_at(buffer, suggestion, k, an, bn) {
                break;
            }
            k = k - 1;
        }
        proof {
            if k == 0 {
                assert(buffer@.subrange(an as int, an as int) =~= suggestion@.subrange(0, 0));
            }
            assert(is_overlap(buffer@, suggestion@, k as int));
            lemma_max_overlap_from_found(buffer@, suggestion@, m as int, k as int);
        }
        String::from_str(suggestion.substring_char(k, bn))
    }
}

} // verus!
