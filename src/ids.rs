//! Parsing a comma-separated list of scan ids, as configuration supplies it.
use vstd::prelude::*;
use crate::text::{chars_of, piece_end, pieces_scan, split_on};

verus! {

/// Whether `c` is white space as `char::is_whitespace` defines it (the
/// Unicode `White_Space` property).
pub open spec fn is_white(c: char) -> bool {
    let u = c as u32;
    (0x09 <= u <= 0x0d) || u == 0x20 || u == 0x85 || u == 0xa0 || u == 0x1680 || (0x2000 <= u
        <= 0x200a) || u == 0x2028 || u == 0x2029 || u == 0x202f || u == 0x205f || u == 0x3000
}

/// `s` without its leading white space.
pub open spec fn trim_start(s: Seq<char>) -> Seq<char>
    decreases s.len(),
{
    if s.len() > 0 && is_white(s[0]) {
        trim_start(s.drop_first())
    } else {
        s
    }
}

/// `s` without its trailing white space.
pub open spec fn trim_end(s: Seq<char>) -> Seq<char>
    decreases s.len(),
{
    if s.len() > 0 && is_white(s.last()) {
        trim_end(s.drop_last())
    } else {
        s
    }
}

/// `s` without white space at either end, as `str::trim` gives it.
pub open spec fn trimmed(s: Seq<char>) -> Seq<char> {
    trim_end(trim_start(s))
}

/// Whether `c` is an ASCII decimal digit.
pub open spec fn is_digit(c: char) -> bool {
    '0' <= c <= '9'
}

/// The number that the decimal digits `s` spell.
pub open spec fn digits_value(s: Seq<char>) -> nat
    decreases s.len(),
{
    if s.len() == 0 {
        0
    } else {
        digits_value(s.drop_last()) * 10 + ((s.last() as u32) - ('0' as u32)) as nat
    }
}

/// Whether every character of `d` is a decimal digit.
pub open spec fn all_digits(d: Seq<char>) -> bool {
    forall|i: int| 0 <= i < d.len() ==> is_digit(#[trigger] d[i])
}

/// `s` without one leading `+`.
pub open spec fn unsigned_part(s: Seq<char>) -> Seq<char> {
    if s.len() > 0 && s[0] == '+' {
        s.drop_first()
    } else {
        s
    }
}

/// What `str::parse::<u32>` gives for `s`: an optional `+`, then one or
/// more decimal digits whose value fits in 32 bits.
pub open spec fn parse_u32(s: Seq<char>) -> Option<u32> {
    let d = unsigned_part(s);
    if d.len() > 0 && all_digits(d) && digits_value(d) <= u32::MAX {
        Some(digits_value(d) as u32)
    } else {
        None
    }
}

/// The ids that the trimmed pieces spell, skipping those that do not parse.
pub open spec fn parsed_ids(pieces: Seq<Seq<char>>) -> Seq<u32>
    decreases pieces.len(),
{
    if pieces.len() == 0 {
        seq![]
    } else {
        let first = match parse_u32(trimmed(pieces[0])) {
            Some(v) => seq![v],
            None => seq![],
        };
        first + parsed_ids(pieces.drop_first())
    }
}

/// The scan ids of a comma-separated list; entries that are not numbers are
/// ignored.
pub open spec fn scan_ids_of(text: Seq<char>) -> Seq<u32> {
    parsed_ids(split_on(text, seq![',']))
}

fn is_white_char(c: char) -> (r: bool)
    ensures
        r == is_white(c),
{
    let u = c as u32;
    (0x09 <= u && u <= 0x0d) || u == 0x20 || u == 0x85 || u == 0xa0 || u == 0x1680 || (0x2000
        <= u && u <= 0x200a) || u == 0x2028 || u == 0x2029 || u == 0x202f || u == 0x205f || u
        == 0x3000
}

/// The bounds of `s[lo..hi]` with white space trimmed from both ends.
fn trim_bounds(s: &Vec<char>, lo: usize, hi: usize) -> (r: (usize, usize))
    requires
        lo <= hi <= s.len(),
    ensures
        lo <= r.0 <= r.1 <= hi,
        trimmed(s@.subrange(lo as int, hi as int)) == s@.subrange(r.0 as int, r.1 as int),
{
    let mut a = lo;
    while a < hi && is_white_char(s[a])
        invariant
            lo <= a <= hi <= s.len(),
            trim_start(s@.subrange(lo as int, hi as int)) == trim_start(
                s@.subrange(a as int, hi as int),
            ),
        decreases hi - a,
    {
        assert(s@.subrange(a as int, hi as int).drop_first() =~= s@.subrange(a + 1, hi as int));
        a += 1;
    }
    let mut b = hi;
    while b > a && is_white_char(s[b - 1])
        invariant
            lo <= a <= b <= hi <= s.len(),
            trim_end(s@.subrange(a as int, hi as int)) == trim_end(s@.subrange(a as int, b as int)),
        decreases b - a,
    {
        assert(s@.subrange(a as int, b as int).drop_last() =~= s@.subrange(a as int, b - 1));
        b -= 1;
    }
    (a, b)
}

/// What `str::parse::<u32>` gives for `s[lo..hi]`.
fn parse_u32_within(s: &Vec<char>, lo: usize, hi: usize) -> (r: Option<u32>)
    requires
        lo <= hi <= s.len(),
    ensures
        r == parse_u32(s@.subrange(lo as int, hi as int)),
{
    let ghost whole = s@.subrange(lo as int, hi as int);
    let mut a = lo;
    if a < hi && s[a] == '+' {
        a += 1;
    }
    let ghost d = s@.subrange(a as int, hi as int);
    assert(d =~= unsigned_part(whole));
    let cap: u64 = 0x1_0000_0000;
    let mut acc: u64 = 0;
    let mut digits = true;
    let mut j = a;
    while j < hi
        invariant
            a <= j <= hi <= s.len(),
            cap == 0x1_0000_0000,
            d == s@.subrange(a as int, hi as int),
            digits <==> forall|i: int| a <= i < j ==> is_digit(#[trigger] s@[i]),
            digits ==> acc == if digits_value(s@.subrange(a as int, j as int)) < cap {
                digits_value(s@.subrange(a as int, j as int))
            } else {
                cap as nat
            },
            acc <= cap,
        decreases hi - j,
    {
        let c = s[j];
        assert(s@.subrange(a as int, j + 1).drop_last() =~= s@.subrange(a as int, j as int));
        if '0' <= c && c <= '9' {
            let v = (c as u32 - '0' as u32) as u64;
            if digits {
                let ghost before = digits_value(s@.subrange(a as int, j as int));
                let next = acc * 10 + v;
                assert(next == if before < cap { before * 10 + v } else { cap * 10 + v })
                    by (nonlinear_arith)
                    requires
                        acc == if before < cap { before } else { cap as nat },
                        next == acc * 10 + v,
                ;
                assert(before >= cap ==> before * 10 + v >= cap) by (nonlinear_arith);
                acc = if next < cap {
                    next
                } else {
                    cap
                };
            }
        } else {
            digits = false;
        }
        j += 1;
    }
    assert(s@.subrange(a as int, j as int) =~= d);
    if a < hi && digits && acc < cap {
        assert forall|i: int| 0 <= i < d.len() implies is_digit(#[trigger] d[i]) by {
            assert(d[i] == s@[a + i]);
        }
        Some(acc as u32)
    } else {
        if !digits {
            let ghost bad = choose|i: int| a <= i < j && !is_digit(#[trigger] s@[i]);
            assert(d[bad - a] == s@[bad]);
            assert(!all_digits(d));
        }
        None
    }
}

/// The scan ids of a comma-separated list, in order: each entry is trimmed
/// and parsed as a `u32`, and entries that do not parse are skipped.
pub fn parse_scan_ids(text: &str) -> (r: Vec<u32>)
    ensures
        r@ == scan_ids_of(text@),
{
    let b = chars_of(text);
    let mut sep: Vec<char> = Vec::new();
    sep.push(',');
    let mut out: Vec<u32> = Vec::new();
    let mut start: usize = 0;
    loop
        invariant
            start <= b.len(),
            b@ == text@,
            sep@ == seq![','],
            scan_ids_of(text@) == out@ + parsed_ids(
                pieces_scan(b@, sep@, start as int, start as int),
            ),
        decreases b.len() - start,
    {
        let (end, more) = piece_end(&b, &sep, start);
        let ghost piece = b@.subrange(start as int, end as int);
        let ghost rest = if more {
            pieces_scan(b@, sep@, end + 1, end + 1)
        } else {
            Seq::empty()
        };
        let ghost all = seq![piece] + rest;
        assert(all[0] == piece);
        assert(all.drop_first() =~= rest);
        let (lo, hi) = trim_bounds(&b, start, end);
        let parsed = parse_u32_within(&b, lo, hi);
        let ghost before = out@;
        match parsed {
            Some(v) => {
                out.push(v);
                assert(out@ =~= before + seq![v]);
            },
            None => {
                assert(before + seq![] =~= before);
            },
        }
        if !more {
            assert(parsed_ids(rest) =~= Seq::<u32>::empty());
            assert(out@ =~= out@ + parsed_ids(rest));
            return out;
        }
        start = end + 1;
    }
}

} // verus!
