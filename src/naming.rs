use std::collections::hash_map::DefaultHasher;
use vstd::prelude::*;
use vstd::std_specs::hash::DefaultHasherAdditionalSpecFns;
use vstd::utf8::encode_utf8;

verus! {

/// A string parsed as an absolute URL: its canonical serialisation and
/// whether it has a host; `None` where it does not parse.
pub uninterp spec fn parsed_url(s: Seq<char>) -> Option<(Seq<char>, bool)>;

/// The canonical form of `s` where it is an absolute URL with a host.
pub open spec fn canonical_url(s: Seq<char>) -> Option<Seq<char>> {
    match parsed_url(s) {
        Some((u, true)) => Some(u),
        _ => None,
    }
}

/// Relies on `url::Url::parse`, `Url::as_str` and `Url::has_host`. The
/// parser reads a scheme up to the first `:`; with no `:` there is no scheme,
/// and with no base URL that is an error (`RelativeUrlWithoutBase`).
#[verifier::external_body]
fn parse_url(s: &str) -> (r: Option<(String, bool)>)
    ensures
        match r {
            Some((u, h)) => parsed_url(s@) == Some((u@, h)),
            None => parsed_url(s@) is None,
        },
        !s@.contains(':') ==> r is None,
{
    match url::Url::parse(s) {
        Ok(u) => Some((u.as_str().to_string(), u.has_host())),
        Err(_) => None,
    }
}

/// The URL that a download of `s` fetches: its canonical form, where `s` is
/// an absolute URL with a host; `None` otherwise.
pub fn canonicalize(s: &str) -> (r: Option<String>)
    ensures
        crate::extension::view_option(r) == canonical_url(s@),
        !s@.contains(':') ==> r is None,
{
    match parse_url(s) {
        Some((u, true)) => Some(u),
        _ => None,
    }
}

/// The stable 64-bit hash of a URL: `DefaultHasher` fed its UTF-8 bytes.
pub open spec fn url_hash(url: Seq<char>) -> u64 {
    DefaultHasher::spec_finish(seq![encode_utf8(url)])
}

pub open spec fn digit_char(d: nat) -> char {
    if d == 0 { '0' }
    else if d == 1 { '1' }
    else if d == 2 { '2' }
    else if d == 3 { '3' }
    else if d == 4 { '4' }
    else if d == 5 { '5' }
    else if d == 6 { '6' }
    else if d == 7 { '7' }
    else if d == 8 { '8' }
    else { '9' }
}

/// The decimal digits of `n`, most significant first, without leading zeros.
pub open spec fn decimal(n: nat) -> Seq<char>
    decreases n,
{
    if n < 10 {
        seq![digit_char(n)]
    } else {
        decimal(n / 10) + seq![digit_char(n % 10)]
    }
}

/// The name of the cache file for a canonical URL and an extension.
pub open spec fn cache_file_name(url: Seq<char>, ext: Seq<char>) -> Seq<char> {
    decimal(url_hash(url) as nat) + seq!['.'] + ext
}

/// A file name placed under a directory: nothing is added to an empty
/// directory, nor a separator after one that already ends in `/`.
pub open spec fn join_path(dir: Seq<char>, name: Seq<char>) -> Seq<char> {
    if dir.len() == 0 {
        name
    } else if dir.last() == '/' {
        dir + name
    } else {
        dir + seq!['/'] + name
    }
}

fn digit_str(d: u64) -> (r: &'static str)
    requires
        d < 10,
    ensures
        r@ == seq![digit_char(d as nat)],
{
    proof {
        reveal_strlit("0");
        reveal_strlit("1");
        reveal_strlit("2");
        reveal_strlit("3");
        reveal_strlit("4");
        reveal_strlit("5");
        reveal_strlit("6");
        reveal_strlit("7");
        reveal_strlit("8");
        reveal_strlit("9");
    }
    if d == 0 { "0" }
    else if d == 1 { "1" }
    else if d == 2 { "2" }
    else if d == 3 { "3" }
    else if d == 4 { "4" }
    else if d == 5 { "5" }
    else if d == 6 { "6" }
    else if d == 7 { "7" }
    else if d == 8 { "8" }
    else { "9" }
}

/// `n` written in decimal.
pub fn decimal_string(n: u64) -> (r: String)
    ensures
        r@ == decimal(n as nat),
    decreases n,
{
    if n < 10 {
        String::from_str(digit_str(n))
    } else {
        let mut s = decimal_string(n / 10);
        s.append(digit_str(n % 10));
        s
    }
}

/// `name` placed under the directory `dir`.
pub fn join_path_string(dir: &str, name: &str) -> (r: String)
    ensures
        r@ == join_path(dir@, name@),
{
    let n: usize = dir.unicode_len();
    let mut r = String::from_str(dir);
    if n == 0 {
        return String::from_str(name);
    }
    if dir.get_char(n - 1) != '/' {
        proof {
            reveal_strlit("/");
        }
        r.append("/");
    }
    r.append(name);
    r
}

} // verus!
