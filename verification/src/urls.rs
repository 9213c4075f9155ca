//! Request targets on the fixed remote origin: absolute-URL building and
//! decimal rendering of numeric path segments.

use vstd::prelude::*;

verus! {

/// Scheme prefix of every request target.
pub const URL_PREFIX: &'static str = "https://";

/// Fixed origin that every request is addressed to.
pub const DOMAIN: &'static str = "jpdb.io";

/// The absolute form of a relative path on the fixed origin.
pub open spec fn abs_url_spec(rel: Seq<char>) -> Seq<char> {
    "https://"@ + "jpdb.io"@ + rel
}

/// Builds `https://jpdb.io<rel>` from a relative path.
pub fn abs_url(rel: &str) -> (r: String)
    ensures
        r@ == abs_url_spec(rel@),
{
    let mut s = String::from_str("https://");
    s.append("jpdb.io");
    s.append(rel);
    proof {
        assert(s@ =~= abs_url_spec(rel@));
    }
    s
}

/// Relative path of the search page for a word.
pub open spec fn search_path_spec(word: Seq<char>) -> Seq<char> {
    "/search?q="@ + word + "&lang=english#a"@
}

/// Builds the relative search path `/search?q=<word>&lang=english#a`.
pub fn search_path(word: &str) -> (r: String)
    ensures
        r@ == search_path_spec(word@),
{
    let mut s = String::from_str("/search?q=");
    s.append(word);
    s.append("&lang=english#a");
    proof {
        assert(s@ =~= search_path_spec(word@));
    }
    s
}

/// The character for one decimal digit.
pub open spec fn digit_char(d: nat) -> char {
    if d == 0 {
        '0'
    } else if d == 1 {
        '1'
    } else if d == 2 {
        '2'
    } else if d == 3 {
        '3'
    } else if d == 4 {
        '4'
    } else if d == 5 {
        '5'
    } else if d == 6 {
        '6'
    } else if d == 7 {
        '7'
    } else if d == 8 {
        '8'
    } else {
        '9'
    }
}

/// Decimal rendering of a natural number, most significant digit first.
pub open spec fn dec_str(n: nat) -> Seq<char>
    decreases n,
{
    if n < 10 {
        seq![digit_char(n)]
    } else {
        dec_str(n / 10).push(digit_char(n % 10))
    }
}

fn digit_str(d: u64) -> (r: &'static str)
    requires
        d < 10,
    ensures
        r@ == seq![digit_char(d as nat)],
{
    proof {
        reveal_strlit("0");
        reveal_strlit("1");
        reveal_strlit("2");
        reveal_strlit("3");
        reveal_strlit("4");
        reveal_strlit("5");
        reveal_strlit("6");
        reveal_strlit("7");
        reveal_strlit("8");
        reveal_strlit("9");
    }
    let r: &'static str = if d == 0 {
        "0"
    } else if d == 1 {
        "1"
    } else if d == 2 {
        "2"
    } else if d == 3 {
        "3"
    } else if d == 4 {
        "4"
    } else if d == 5 {
        "5"
    } else if d == 6 {
        "6"
    } else if d == 7 {
        "7"
    } else if d == 8 {
        "8"
    } else {
        "9"
    };
    proof {
        assert(r@ =~= seq![digit_char(d as nat)]);
    }
    r
}

fn push_dec(out: &mut String, n: u64)
    ensures
        final(out)@ == old(out)@ + dec_str(n as nat),
    decreases n,
{
    if n < 10 {
        out.append(digit_str(n));
        proof {
            assert(out@ =~= old(out)@ + dec_str(n as nat));
        }
    } else {
        push_dec(out, n / 10);
        out.append(digit_str(n % 10));
        proof {
            assert(out@ =~= old(out)@ + dec_str(n as nat));
        }
    }
}

/// Renders a number in decimal, as it appears in a numeric path segment.
pub fn dec_string(n: u64) -> (r: String)
    ensures
        r@ == dec_str(n as nat),
{
    let mut s = String::new();
    push_dec(&mut s, n);
    proof {
        assert(s@ =~= dec_str(n as nat));
    }
    s
}

} // verus!
