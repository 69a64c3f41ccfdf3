//! Character-level helpers shared by the request builders and parsers.
use vstd::prelude::*;
use vstd::string::StringExecFns;

verus! {

/// Whether `pat` occurs somewhere in `s`.
pub open spec fn contains(s: Seq<char>, pat: Seq<char>) -> bool {
    exists|i: int| 0 <= i && i + pat.len() <= s.len() && #[trigger] s.subrange(i, i + pat.len()) == pat
}

/// The pieces of `s[start..]` between non-overlapping occurrences of `sep`,
/// scanning from `k` for the end of the current piece.
pub open spec fn pieces_scan(s: Seq<char>, sep: Seq<char>, start: int, k: int) -> Seq<Seq<char>>
    decreases s.len() - k,
{
    if sep.len() == 0 || k < 0 || k + sep.len() > s.len() {
        seq![s.subrange(start, s.len() as int)]
    } else if s.subrange(k, k + sep.len()) == sep {
        seq![s.subrange(start, k)] + pieces_scan(s, sep, k + sep.len(), k + sep.len())
    } else {
        pieces_scan(s, sep, start, k + 1)
    }
}

/// `s` split on a non-empty separator, left to right, as `str::split` does.
pub open spec fn split_on(s: Seq<char>, sep: Seq<char>) -> Seq<Seq<char>> {
    pieces_scan(s, sep, 0, 0)
}

/// The decimal digit for `d`, a number below ten.
pub open spec fn digit_char(d: nat) -> char {
    seq!['0', '1', '2', '3', '4', '5', '6', '7', '8', '9'][d as int]
}

/// The decimal notation of `n`: no sign, no leading zeros.
pub open spec fn decimal(n: nat) -> Seq<char>
    decreases n,
{
    if n < 10 {
        seq![digit_char(n)]
    } else {
        decimal(n / 10) + seq![digit_char(n % 10)]
    }
}

/// The characters of `s`, in order.
pub fn chars_of(s: &str) -> (r: Vec<char>)
    ensures
        r@ == s@,
{
    let mut out: Vec<char> = Vec::new();
    let ghost whole = s@;
    for c in it: s.chars()
        invariant
            it.seq() == whole,
            out@ == whole.take(it.index() as int),
    {
        out.push(c);
    }
    out
}

/// `a` followed by `b`.
pub fn joined(a: &str, b: &str) -> (r: String)
    ensures
        r@ == a@ + b@,
{
    let mut out = String::from_str(a);
    out.append(b);
    out
}

/// The one-character string of the decimal digit `d`.
fn digit_str(d: u64) -> (r: &'static str)
    requires
        d < 10,
    ensures
        r@ =~= seq![digit_char(d as nat)],
{
    proof {
        reveal_strlit("0");
        reveal_strlit("1");
        reveal_strlit("2");
        reveal_strlit("3");
        reveal_strlit("4");
        reveal_strlit("5");
        reveal_strlit("6");
        reveal_strlit("7");
        reveal_strlit("8");
        reveal_strlit("9");
    }
    match d {
        0 => "0",
        1 => "1",
        2 => "2",
        3 => "3",
        4 => "4",
        5 => "5",
        6 => "6",
        7 => "7",
        8 => "8",
        _ => "9",
    }
}

/// The decimal notation of `n`.
pub fn decimal_text(n: u64) -> (r: String)
    ensures
        r@ == decimal(n as nat),
    decreases n,
{
    if n < 10 {
        String::from_str(digit_str(n))
    } else {
        let mut out = decimal_text(n / 10);
        out.append(digit_str(n % 10));
        out
    }
}

/// Whether `pat` occurs in `s` at position `k`.
pub fn matches_at(s: &Vec<char>, pat: &Vec<char>, k: usize) -> (r: bool)
    requires
        k + pat.len() <= s.len(),
    ensures
        r == (s@.subrange(k as int, k + pat.len()) == pat@),
{
    let mut j: usize = 0;
    while j < pat.len()
        invariant
            j <= pat.len(),
            k + pat.len() <= s.len(),
            forall|t: int| 0 <= t < j ==> s@[k + t] == pat@[t],
        decreases pat.len() - j,
    {
        if s[k + j] != pat[j] {
            assert(s@.subrange(k as int, k + pat.len())[j as int] != pat@[j as int]);
            return false;
        }
        j += 1;
    }
    assert(s@.subrange(k as int, k + pat.len()) =~= pat@);
    true
}

/// Whether `pat` occurs in `s[lo..hi]`.
pub fn contains_within(s: &Vec<char>, lo: usize, hi: usize, pat: &Vec<char>) -> (r: bool)
    requires
        lo <= hi <= s.len(),
    ensures
        r == contains(s@.subrange(lo as int, hi as int), pat@),
{
    let ghost sub = s@.subrange(lo as int, hi as int);
    let m = pat.len();
    if m == 0 {
        assert(sub.subrange(0, 0 + pat@.len() as int) =~= pat@);
        assert(contains(sub, pat@));
        return true;
    }
    let mut i = lo;
    while i <= hi && m <= hi - i
        invariant
            lo <= i,
            m > 0,
            hi <= s.len(),
            m == pat.len(),
            sub == s@.subrange(lo as int, hi as int),
            forall|j: int|
                lo <= j < i && j + m <= hi ==> #[trigger] s@.subrange(j, j + m) != pat@,
        decreases hi + 1 - i,
    {
        if matches_at(s, pat, i) {
            assert(sub.subrange(i - lo, i - lo + m) =~= s@.subrange(i as int, i + m));
            return true;
        }
        i += 1;
    }
    assert forall|j: int| 0 <= j && j + m <= sub.len() implies #[trigger] sub.subrange(j, j + m) != pat@ by {
        assert(sub.subrange(j, j + m) =~= s@.subrange(lo + j, lo + j + m));
    }
    false
}

/// The end of the piece of `s` that starts at `start`, and whether a
/// separator follows it.
pub fn piece_end(s: &Vec<char>, sep: &Vec<char>, start: usize) -> (r: (usize, bool))
    requires
        sep.len() > 0,
        start <= s.len(),
    ensures
        start <= r.0 <= s.len(),
        r.1 ==> r.0 + sep.len() <= s.len() && pieces_scan(s@, sep@, start as int, start as int)
            == seq![s@.subrange(start as int, r.0 as int)] + pieces_scan(
            s@,
            sep@,
            r.0 + sep.len(),
            r.0 + sep.len(),
        ),
        !r.1 ==> r.0 == s.len() && pieces_scan(s@, sep@, start as int, start as int) == seq![
            s@.subrange(start as int, s.len() as int),
        ],
{
    let mut k = start;
    loop
        invariant
            start <= k <= s.len(),
            sep.len() > 0,
            pieces_scan(s@, sep@, start as int, start as int) == pieces_scan(
                s@,
                sep@,
                start as int,
                k as int,
            ),
        decreases s.len() - k,
    {
        if s.len() - k < sep.len() {
            return (s.len(), false);
        }
        if matches_at(s, sep, k) {
            return (k, true);
        }
        k += 1;
    }
}

} // verus!
