//! Extraction of the API token embedded in the served `nessus6.js` script.
use vstd::prelude::*;
use crate::error::NessusError;
use crate::text::{chars_of, contains, contains_within, piece_end, split_on};
use vstd::string::{StrSliceExecFns, StringExecFns};

verus! {

/// The delimiter that separates the script's fragments: `:"`.
pub open spec fn fragment_delimiter() -> Seq<char> {
    seq![':', '"']
}

/// The marker that identifies the fragment holding the token.
pub open spec fn token_marker() -> Seq<char> {
    "getApiToken"@
}

/// The first of `frags` that contains `pat`.
pub open spec fn first_containing(frags: Seq<Seq<char>>, pat: Seq<char>) -> Option<Seq<char>>
    decreases frags.len(),
{
    if frags.len() == 0 {
        None
    } else if contains(frags[0], pat) {
        Some(frags[0])
    } else {
        first_containing(frags.drop_first(), pat)
    }
}

/// The fragment of `script` (split on `:"`) that mentions `getApiToken`.
pub open spec fn token_fragment(script: Seq<char>) -> Option<Seq<char>> {
    first_containing(split_on(script, fragment_delimiter()), token_marker())
}

/// The token held by `script`: the third piece of its token fragment split
/// on `"`.
pub open spec fn api_token_of(script: Seq<char>) -> Option<Seq<char>> {
    match token_fragment(script) {
        None => None,
        Some(f) => {
            let p = split_on(f, seq!['"']);
            if p.len() >= 3 {
                Some(p[2])
            } else {
                None
            }
        },
    }
}

/// Finds the fragment of `script` (as characters `b`) that contains the
/// marker, returning its bounds.
fn find_token_fragment(b: &Vec<char>, delim: &Vec<char>, marker: &Vec<char>) -> (r: Option<(usize, usize)>)
    requires
        delim@ == fragment_delimiter(),
        marker@ == token_marker(),
    ensures
        match r {
            None => token_fragment(b@) is None,
            Some((lo, hi)) => lo <= hi <= b.len() && token_fragment(b@) == Some(b@.subrange(lo as int, hi as int)),
        },
{
    let mut start: usize = 0;
    loop
        invariant
            start <= b.len(),
            delim@ == fragment_delimiter(),
            marker@ == token_marker(),
            token_fragment(b@) == first_containing(
                crate::text::pieces_scan(b@, delim@, start as int, start as int),
                marker@,
            ),
        decreases b.len() - start,
    {
        let (end, more) = piece_end(b, delim, start);
        let ghost rest = if more {
            crate::text::pieces_scan(b@, delim@, end + 2, end + 2)
        } else {
            Seq::empty()
        };
        let ghost frags = seq![b@.subrange(start as int, end as int)] + rest;
        assert(frags[0] == b@.subrange(start as int, end as int));
        assert(frags.drop_first() =~= rest);
        if contains_within(b, start, end, marker) {
            return Some((start, end));
        }
        if !more {
            assert(first_containing(rest, marker@) is None);
            return None;
        }
        start = end + 2;
    }
}

/// Extracts the API token from the text of the served script.
///
/// The text is split on `:"`; the first fragment that contains
/// `getApiToken` is split on `"`, and its third piece is the token.
pub fn extract_api_token(script: &str) -> (r: Result<String, NessusError>)
    ensures
        r is Ok <==> api_token_of(script@) is Some,
        r is Ok ==> r->Ok_0@ == api_token_of(script@)->0,
        r is Err ==> r->Err_0 is Parse,
{
    let b = chars_of(script);
    let delim = chars_of(":\"");
    let marker = chars_of("getApiToken");
    proof {
        reveal_strlit(":\"");
        assert(delim@ =~= fragment_delimiter());
    }
    let found = find_token_fragment(&b, &delim, &marker);
    match found {
        None => Err(NessusError::Parse(String::from_str("getApiToken not found in nessus6.js"))),
        Some((lo, hi)) => {
            let f = chars_of(script.substring_char(lo, hi));
            let quote = chars_of("\"");
            proof {
                reveal_strlit("\"");
                assert(quote@ =~= seq!['"']);
            }
            let (e0, m0) = piece_end(&f, &quote, 0);
            if !m0 {
                return Err(NessusError::Parse(String::from_str("Unexpected format while parsing X-API token")));
            }
            let (e1, m1) = piece_end(&f, &quote, e0 + 1);
            if !m1 {
                return Err(NessusError::Parse(String::from_str("Unexpected format while parsing X-API token")));
            }
            let (e2, _m2) = piece_end(&f, &quote, e1 + 1);
            let token = script.substring_char(lo + e1 + 1, lo + e2).to_owned();
            proof {
                assert(token@ =~= f@.subrange(e1 + 1, e2 as int));
            }
            Ok(token)
        },
    }
}

} // verus!
