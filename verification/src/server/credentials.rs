//! Which credentials a request presents: a bearer token, or session
//! cookies in the order they are tried.
use vstd::prelude::*;

use axum_extra::extract::cookie::Cookie;

use crate::auth::VerificationOutcome;
use crate::text::{before_first, eq_ignore_ascii_case_chars, eq_ignore_ascii_case_spec, lemma_before_first_index, string_from_chars, chars_of};

verus! {

broadcast use vstd::string::group_string_axioms;

/// `char::is_whitespace`: the Unicode `White_Space` property.
pub open spec fn is_white_space(c: char) -> bool {
    ||| '\u{9}' <= c <= '\u{d}'
    ||| c == ' '
    ||| c == '\u{85}'
    ||| c == '\u{a0}'
    ||| c == '\u{1680}'
    ||| '\u{2000}' <= c <= '\u{200a}'
    ||| c == '\u{2028}'
    ||| c == '\u{2029}'
    ||| c == '\u{202f}'
    ||| c == '\u{205f}'
    ||| c == '\u{3000}'
}

/// Whether `c` is Unicode white space.
pub fn white_space(c: char) -> (r: bool)
    ensures
        r == is_white_space(c),
{
    ('\u{9}' <= c && c <= '\u{d}') || c == ' ' || c == '\u{85}' || c == '\u{a0}' || c == '\u{1680}'
        || ('\u{2000}' <= c && c <= '\u{200a}') || c == '\u{2028}' || c == '\u{2029}' || c == '\u{202f}'
        || c == '\u{205f}' || c == '\u{3000}'
}

/// `str::trim_start`: `s` without its leading white space.
pub open spec fn trim_start_seq(s: Seq<char>) -> Seq<char>
    decreases s.len(),
{
    if s.len() > 0 && is_white_space(s[0]) {
        trim_start_seq(s.skip(1))
    } else {
        s
    }
}

/// `str::trim_end`: `s` without its trailing white space.
pub open spec fn trim_end_seq(s: Seq<char>) -> Seq<char>
    decreases s.len(),
{
    if s.len() > 0 && is_white_space(s.last()) {
        trim_end_seq(s.drop_last())
    } else {
        s
    }
}

/// `str::trim`: `s` without leading and trailing white space.
pub open spec fn trim_seq(s: Seq<char>) -> Seq<char> {
    trim_end_seq(trim_start_seq(s))
}

/// The characters of `s` without its leading white space.
pub fn trim_start_chars(s: &[char]) -> (r: Vec<char>)
    ensures
        r@ == trim_start_seq(s@),
{
    let mut i: usize = 0;
    assert(s@.skip(0) =~= s@);
    while i < s.len() && white_space(s[i])
        invariant
            i <= s@.len(),
            trim_start_seq(s@) == trim_start_seq(s@.skip(i as int)),
        decreases s@.len() - i,
    {
        assert(s@.skip(i as int).skip(1) =~= s@.skip(i + 1));
        i = i + 1;
    }
    let mut out: Vec<char> = Vec::new();
    let start = i;
    while i < s.len()
        invariant
            start <= i <= s@.len(),
            out@ == s@.subrange(start as int, i as int),
        decreases s@.len() - i,
    {
        out.push(s[i]);
        assert(s@.subrange(start as int, i + 1) =~= s@.subrange(start as int, i as int).push(s@[i as int]));
        i = i + 1;
    }
    assert(s@.subrange(start as int, s@.len() as int) =~= s@.skip(start as int));
    out
}

/// The characters of `s` without its trailing white space.
pub fn trim_end_chars(s: &[char]) -> (r: Vec<char>)
    ensures
        r@ == trim_end_seq(s@),
{
    let mut j: usize = s.len();
    assert(s@.take(s@.len() as int) =~= s@);
    while j > 0 && white_space(s[j - 1])
        invariant
            j <= s@.len(),
            trim_end_seq(s@) == trim_end_seq(s@.take(j as int)),
        decreases j,
    {
        assert(s@.take(j as int).drop_last() =~= s@.take(j - 1));
        j = j - 1;
    }
    let mut out: Vec<char> = Vec::new();
    let mut i: usize = 0;
    while i < j
        invariant
            i <= j <= s@.len(),
            out@ == s@.take(i as int),
        decreases j - i,
    {
        out.push(s[i]);
        assert(s@.take(i + 1) =~= s@.take(i as int).push(s@[i as int]));
        i = i + 1;
    }
    out
}

/// `Bearer`, the authorization scheme accepted (in any ASCII case).
pub open spec fn bearer_scheme() -> Seq<char> {
    seq!['B', 'e', 'a', 'r', 'e', 'r']
}

/// The token of an `Authorization` header value: after leading white
/// space, a scheme equal to `Bearer` ignoring ASCII case, a space, and a
/// token that is not empty once trimmed.
pub open spec fn bearer_token_of(header: Seq<char>) -> Option<Seq<char>> {
    let h = trim_start_seq(header);
    if h.contains(' ') {
        let scheme = before_first(h, ' ');
        let token = trim_seq(h.skip(scheme.len() as int + 1));
        if eq_ignore_ascii_case_spec(scheme, bearer_scheme()) && token.len() > 0 {
            Some(token)
        } else {
            None
        }
    } else {
        None
    }
}

/// The bearer token of the `Authorization` header, if the request has one
/// with the `Bearer` scheme and a non-empty token.
pub fn bearer_token(authorization: Option<&str>) -> (r: Option<String>)
    ensures
        match authorization {
            Some(h) => match bearer_token_of(h@) {
                Some(t) => r matches Some(s) && s@ == t,
                None => r is None,
            },
            None => r is None,
        },
{
    let header = match authorization {
        Some(h) => h,
        None => {
            return None;
        },
    };
    let chars = chars_of(header);
    let h = trim_start_chars(chars.as_slice());
    let mut k: usize = 0;
    while k < h.len() && h[k] != ' '
        invariant
            k <= h@.len(),
            forall|j: int| 0 <= j < k ==> h@[j] != ' ',
        decreases h@.len() - k,
    {
        k = k + 1;
    }
    if k == h.len() {
        assert(!h@.contains(' '));
        return None;
    }
    proof {
        lemma_before_first_index(h@, ' ', k as int);
    }
    let mut scheme: Vec<char> = Vec::new();
    let mut i: usize = 0;
    while i < k
        invariant
            i <= k < h@.len(),
            scheme@ == h@.take(i as int),
        decreases k - i,
    {
        scheme.push(h[i]);
        assert(h@.take(i + 1) =~= h@.take(i as int).push(h@[i as int]));
        i = i + 1;
    }
    let mut rest: Vec<char> = Vec::new();
    let mut i: usize = k + 1;
    while i < h.len()
        invariant
            k < i <= h@.len(),
            rest@ == h@.subrange(k + 1, i as int),
        decreases h@.len() - i,
    {
        rest.push(h[i]);
        assert(h@.subrange(k + 1, i + 1) =~= h@.subrange(k + 1, i as int).push(h@[i as int]));
        i = i + 1;
    }
    assert(h@.subrange(k + 1, h@.len() as int) =~= h@.skip(k + 1));
    let mut expected: Vec<char> = Vec::new();
    expected.push('B');
    expected.push('e');
    expected.push('a');
    expected.push('r');
    expected.push('e');
    expected.push('r');
    assert(expected@ =~= bearer_scheme());
    // RFC 7235 auth scheme names are case-insensitive.
    if !eq_ignore_ascii_case_chars(scheme.as_slice(), expected.as_slice()) {
        return None;
    }
    let start_trimmed = trim_start_chars(rest.as_slice());
    let token = trim_end_chars(start_trimmed.as_slice());
    if token.len() == 0 {
        return None;
    }
    Some(string_from_chars(token.as_slice()))
}

/// The name and value of each piece of a `Cookie` header, in header order,
/// as `Cookie::split_parse` of `cookie` (axum-extra) parses it without
/// percent-decoding; `None` for a piece it rejects.
pub uninterp spec fn parsed_cookie_pairs(header: Seq<char>) -> Seq<Option<(Seq<char>, Seq<char>)>>;

/// The text of parsed cookie pieces.
pub open spec fn parsed_views(v: Seq<Option<(String, String)>>) -> Seq<Option<(Seq<char>, Seq<char>)>> {
    v.map_values(
        |o: Option<(String, String)>|
            match o {
                Some(p) => Some((p.0@, p.1@)),
                None => None,
            },
    )
}

/// `Cookie::split_parse(header)` of `cookie` (through axum-extra): each
/// piece between `;` that is not blank, parsed into its name and value.
#[verifier::external_body]
fn split_cookie_header(header: &str) -> (r: Vec<Option<(String, String)>>)
    ensures
        parsed_views(r@) == parsed_cookie_pairs(header@),
{
    Cookie::split_parse(header).map(|c| c.ok().map(|c| (c.name().to_string(), c.value().to_string()))).collect()
}

/// The pieces that parsed, in order.
pub open spec fn parsed_ok(ps: Seq<Option<(Seq<char>, Seq<char>)>>) -> Seq<(Seq<char>, Seq<char>)>
    decreases ps.len(),
{
    if ps.len() == 0 {
        Seq::empty()
    } else {
        let earlier = parsed_ok(ps.drop_last());
        match ps.last() {
            Some(p) => earlier.push(p),
            None => earlier,
        }
    }
}

/// The cookies of all `Cookie` headers, in header order.
pub open spec fn request_cookies(headers: Seq<Seq<char>>) -> Seq<(Seq<char>, Seq<char>)>
    decreases headers.len(),
{
    if headers.len() == 0 {
        Seq::empty()
    } else {
        request_cookies(headers.drop_last()) + parsed_ok(parsed_cookie_pairs(headers.last()))
    }
}

/// `__session`, the name of Clerk's session cookie.
pub open spec fn session_cookie_name() -> Seq<char> {
    seq!['_', '_', 's', 'e', 's', 's', 'i', 'o', 'n']
}

/// A suffixed session cookie name: `__session_` and a suffix, as Clerk
/// sets when several Clerk apps share a registrable domain.
pub open spec fn is_suffixed_session_name(name: Seq<char>) -> bool {
    crate::text::has_prefix(name, session_cookie_name().push('_'))
}

/// The values of the cookies named exactly `__session`, in order.
pub open spec fn unsuffixed_values(cs: Seq<(Seq<char>, Seq<char>)>) -> Seq<Seq<char>>
    decreases cs.len(),
{
    if cs.len() == 0 {
        Seq::empty()
    } else {
        let earlier = unsuffixed_values(cs.drop_last());
        if cs.last().0 == session_cookie_name() {
            earlier.push(cs.last().1)
        } else {
            earlier
        }
    }
}

/// The cookies with suffixed session names, in order.
pub open spec fn suffixed_cookies(cs: Seq<(Seq<char>, Seq<char>)>) -> Seq<(Seq<char>, Seq<char>)>
    decreases cs.len(),
{
    if cs.len() == 0 {
        Seq::empty()
    } else {
        let earlier = suffixed_cookies(cs.drop_last());
        if is_suffixed_session_name(cs.last().0) {
            earlier.push(cs.last())
        } else {
            earlier
        }
    }
}

/// Lexicographic order of character sequences, which is `str`'s order
/// (the byte order of UTF-8 follows the order of code points).
pub open spec fn chars_le(a: Seq<char>, b: Seq<char>) -> bool
    decreases a.len(),
{
    if a.len() == 0 {
        true
    } else if b.len() == 0 {
        false
    } else if a[0] != b[0] {
        a[0] < b[0]
    } else {
        chars_le(a.skip(1), b.skip(1))
    }
}

/// `sorted` with `x` inserted after every cookie whose name is not
/// greater than `x`'s.
pub open spec fn insert_by_name(sorted: Seq<(Seq<char>, Seq<char>)>, x: (Seq<char>, Seq<char>)) -> Seq<
    (Seq<char>, Seq<char>),
>
    decreases sorted.len(),
{
    if sorted.len() == 0 {
        seq![x]
    } else if chars_le(sorted.last().0, x.0) {
        sorted.push(x)
    } else {
        insert_by_name(sorted.drop_last(), x).push(sorted.last())
    }
}

/// The cookies stably sorted by name, as `sort_by` on the names sorts them:
/// equal names keep their order.
pub open spec fn sort_by_name(cs: Seq<(Seq<char>, Seq<char>)>) -> Seq<(Seq<char>, Seq<char>)>
    decreases cs.len(),
{
    if cs.len() == 0 {
        Seq::empty()
    } else {
        insert_by_name(sort_by_name(cs.drop_last()), cs.last())
    }
}

/// The values of the cookies, in order.
pub open spec fn cookie_values(cs: Seq<(Seq<char>, Seq<char>)>) -> Seq<Seq<char>> {
    cs.map_values(|c: (Seq<char>, Seq<char>)| c.1)
}

/// The non-empty values, in order.
pub open spec fn nonempty_values(vs: Seq<Seq<char>>) -> Seq<Seq<char>>
    decreases vs.len(),
{
    if vs.len() == 0 {
        Seq::empty()
    } else {
        let earlier = nonempty_values(vs.drop_last());
        if vs.last().len() > 0 {
            earlier.push(vs.last())
        } else {
            earlier
        }
    }
}

/// At most the first `n` elements of `s`.
pub open spec fn at_most(s: Seq<Seq<char>>, n: nat) -> Seq<Seq<char>> {
    if s.len() <= n {
        s
    } else {
        s.take(n as int)
    }
}

/// Upper bound on session-cookie candidates verified per request.
///
/// A request legitimately carries the unsuffixed `__session` plus at most a
/// handful of suffixed multi-session variants. Capping the fan-out stops a
/// caller from packing its own `Cookie` header with many bad-signature tokens
/// to force one RSA verification each. The most-specific, likely-valid
/// cookies are ordered first, so the cap costs a legitimate request nothing.
pub const MAX_SESSION_COOKIE_CANDIDATES: usize = 8;

/// The session tokens to try for a request with these `Cookie` headers:
/// the `__session` cookies in header order, then the suffixed
/// `__session_*` cookies sorted by name, without empty values, at most
/// [`MAX_SESSION_COOKIE_CANDIDATES`] of them.
pub open spec fn session_cookie_candidates(headers: Seq<Seq<char>>) -> Seq<Seq<char>> {
    let cs = request_cookies(headers);
    at_most(
        nonempty_values(unsuffixed_values(cs) + cookie_values(sort_by_name(suffixed_cookies(cs)))),
        MAX_SESSION_COOKIE_CANDIDATES as nat,
    )
}

/// The text of cookie pairs.
pub open spec fn pair_views(v: Seq<(Vec<char>, Vec<char>)>) -> Seq<(Seq<char>, Seq<char>)> {
    v.map_values(|p: (Vec<char>, Vec<char>)| (p.0@, p.1@))
}

/// The text of strings.
pub open spec fn string_views(v: Seq<String>) -> Seq<Seq<char>> {
    v.map_values(|s: String| s@)
}

/// Whether `a` is not greater than `b` in `str` order.
pub fn chars_le_exec(a: &[char], b: &[char]) -> (r: bool)
    ensures
        r == chars_le(a@, b@),
{
    let mut i: usize = 0;
    assert(a@.skip(0) =~= a@);
    assert(b@.skip(0) =~= b@);
    while i < a.len() && i < b.len() && a[i] == b[i]
        invariant
            i <= a@.len(),
            i <= b@.len(),
            chars_le(a@, b@) == chars_le(a@.skip(i as int), b@.skip(i as int)),
        decreases a@.len() - i,
    {
        assert(a@.skip(i as int).skip(1) =~= a@.skip(i + 1));
        assert(b@.skip(i as int).skip(1) =~= b@.skip(i + 1));
        i = i + 1;
    }
    if i == a.len() {
        true
    } else if i == b.len() {
        false
    } else {
        a[i] < b[i]
    }
}

/// Inserts `x` into `sorted` after every cookie whose name is not greater.
fn insert_cookie_by_name(sorted: &mut Vec<(Vec<char>, Vec<char>)>, x: (Vec<char>, Vec<char>))
    ensures
        pair_views(final(sorted)@) == insert_by_name(pair_views(old(sorted)@), (x.0@, x.1@)),
{
    let ghost l = pair_views(sorted@);
    let ghost xv = (x.0@, x.1@);
    let mut p: usize = sorted.len();
    assert(l.take(l.len() as int) =~= l);
    assert(l.skip(l.len() as int) =~= Seq::<(Seq<char>, Seq<char>)>::empty());
    while p > 0 && !chars_le_exec(sorted[p - 1].0.as_slice(), x.0.as_slice())
        invariant
            p <= sorted@.len(),
            l == pair_views(sorted@),
            xv == (x.0@, x.1@),
            insert_by_name(l, xv) == insert_by_name(l.take(p as int), xv) + l.skip(p as int),
        decreases p,
    {
        assert(l[p - 1] == (sorted@[p - 1].0@, sorted@[p - 1].1@));
        assert(l.take(p as int).drop_last() =~= l.take(p - 1));
        assert(l.take(p as int).last() == l[p - 1]);
        assert(insert_by_name(l.take(p - 1), xv).push(l[p - 1]) + l.skip(p as int) =~= insert_by_name(
            l.take(p - 1),
            xv,
        ) + l.skip(p - 1));
        p = p - 1;
    }
    proof {
        if p > 0 {
            assert(l[p - 1] == (sorted@[p - 1].0@, sorted@[p - 1].1@));
            assert(l.take(p as int).last() == l[p - 1]);
        }
    }
    sorted.insert(p, x);
    assert(pair_views(sorted@) =~= l.take(p as int).push(xv) + l.skip(p as int));
}

/// The session tokens to try for a request with these `Cookie` headers
/// (see [`session_cookie_candidates`]).
///
/// Parsed straight from the headers rather than through a cookie jar: a
/// jar keeps only the last cookie of a name, while a request can carry
/// several `__session` cookies (host-only and domain-wide) and RFC 6265
/// §5.4 sends the more specific one first. Every occurrence stays a
/// candidate so a stale duplicate cannot shadow the valid session.
pub fn session_cookies(headers: &[String]) -> (r: Vec<String>)
    ensures
        string_views(r@) == session_cookie_candidates(string_views(headers@)),
{
    let ghost hv = string_views(headers@);
    // Every cookie of every header, in order.
    let mut cookies: Vec<(Vec<char>, Vec<char>)> = Vec::new();
    let mut h: usize = 0;
    assert(hv.take(0) =~= Seq::<Seq<char>>::empty());
    while h < headers.len()
        invariant
            h <= headers@.len(),
            hv == string_views(headers@),
            pair_views(cookies@) == request_cookies(hv.take(h as int)),
        decreases headers@.len() - h,
    {
        let parsed = split_cookie_header(headers[h].as_str());
        let ghost pv = parsed_views(parsed@);
        let ghost before = pair_views(cookies@);
        let mut i: usize = 0;
        assert(pv.take(0) =~= Seq::<Option<(Seq<char>, Seq<char>)>>::empty());
        assert(before + parsed_ok(pv.take(0)) =~= before);
        while i < parsed.len()
            invariant
                i <= parsed@.len(),
                pv == parsed_views(parsed@),
                pair_views(cookies@) == before + parsed_ok(pv.take(i as int)),
            decreases parsed@.len() - i,
        {
            let ghost prev = pair_views(cookies@);
            assert(pv.take(i + 1).drop_last() =~= pv.take(i as int));
            match &parsed[i] {
                Some(pair) => {
                    let name = chars_of(pair.0.as_str());
                    let value = chars_of(pair.1.as_str());
                    cookies.push((name, value));
                    assert(pair_views(cookies@) =~= prev.push((pair.0@, pair.1@)));
                },
                None => {},
            }
            i = i + 1;
        }
        assert(pv.take(parsed@.len() as int) =~= pv);
        assert(hv.take(h + 1).drop_last() =~= hv.take(h as int));
        assert(hv.take(h + 1).last() == headers@[h as int]@);
        h = h + 1;
    }
    assert(hv.take(headers@.len() as int) =~= hv);
    let ghost cs = pair_views(cookies@);
    let mut session_name: Vec<char> = Vec::new();
    session_name.push('_');
    session_name.push('_');
    session_name.push('s');
    session_name.push('e');
    session_name.push('s');
    session_name.push('s');
    session_name.push('i');
    session_name.push('o');
    session_name.push('n');
    assert(session_name@ =~= session_cookie_name());
    let mut suffixed_prefix: Vec<char> = session_name.clone();
    suffixed_prefix.push('_');
    assert(suffixed_prefix@ =~= session_cookie_name().push('_'));
    // Unsuffixed values in header order; suffixed cookies sorted by name.
    let mut unsuffixed: Vec<Vec<char>> = Vec::new();
    let mut sorted: Vec<(Vec<char>, Vec<char>)> = Vec::new();
    let mut i: usize = 0;
    assert(cs.take(0) =~= Seq::<(Seq<char>, Seq<char>)>::empty());
    assert(crate::text::piece_views(unsuffixed@) =~= Seq::<Seq<char>>::empty());
    assert(pair_views(sorted@) =~= Seq::<(Seq<char>, Seq<char>)>::empty());
    while i < cookies.len()
        invariant
            i <= cookies@.len(),
            cs == pair_views(cookies@),
            session_name@ == session_cookie_name(),
            suffixed_prefix@ == session_cookie_name().push('_'),
            crate::text::piece_views(unsuffixed@) == unsuffixed_values(cs.take(i as int)),
            pair_views(sorted@) == sort_by_name(suffixed_cookies(cs.take(i as int))),
        decreases cookies@.len() - i,
    {
        let ghost ubefore = crate::text::piece_views(unsuffixed@);
        let ghost sbefore = suffixed_cookies(cs.take(i as int));
        assert(cs.take(i + 1).drop_last() =~= cs.take(i as int));
        assert(cs.take(i + 1).last() == cs[i as int]);
        assert(cs[i as int] == (cookies@[i as int].0@, cookies@[i as int].1@));
        let name = &cookies[i].0;
        if crate::text::same_chars(name.as_slice(), session_name.as_slice()) {
            unsuffixed.push(cookies[i].1.clone());
            assert(crate::text::piece_views(unsuffixed@) =~= ubefore.push(cs[i as int].1));
        }
        if crate::text::starts_with_chars(name.as_slice(), suffixed_prefix.as_slice()) {
            let entry = (cookies[i].0.clone(), cookies[i].1.clone());
            insert_cookie_by_name(&mut sorted, entry);
            assert(suffixed_cookies(cs.take(i + 1)) == sbefore.push(cs[i as int]));
            assert(suffixed_cookies(cs.take(i + 1)).drop_last() =~= sbefore);
        }
        i = i + 1;
    }
    assert(cs.take(cookies@.len() as int) =~= cs);
    let ghost all = unsuffixed_values(cs) + cookie_values(sort_by_name(suffixed_cookies(cs)));
    let ghost first = unsuffixed_values(cs);
    let ghost second = cookie_values(sort_by_name(suffixed_cookies(cs)));
    // Non-empty values, unsuffixed first, at most the cap.
    let mut out: Vec<String> = Vec::new();
    let mut k: usize = 0;
    assert(all.take(0) =~= Seq::<Seq<char>>::empty());
    assert(string_views(out@) =~= Seq::<Seq<char>>::empty());
    while k < unsuffixed.len()
        invariant
            k <= unsuffixed@.len(),
            first == crate::text::piece_views(unsuffixed@),
            all == first + second,
            string_views(out@) == at_most(nonempty_values(all.take(k as int)), MAX_SESSION_COOKIE_CANDIDATES as nat),
        decreases unsuffixed@.len() - k,
    {
        let ghost prev = string_views(out@);
        let ghost ne = nonempty_values(all.take(k as int));
        assert(all.take(k + 1).drop_last() =~= all.take(k as int));
        assert(all[k as int] == unsuffixed@[k as int]@);
        if unsuffixed[k].len() > 0 && out.len() < MAX_SESSION_COOKIE_CANDIDATES {
            let v = string_from_chars(unsuffixed[k].as_slice());
            out.push(v);
            assert(string_views(out@) =~= prev.push(all[k as int]));
            assert(at_most(ne.push(all[k as int]), 8) =~= prev.push(all[k as int]));
        } else {
            proof {
                if unsuffixed@[k as int]@.len() > 0 {
                    assert(at_most(ne.push(all[k as int]), 8) =~= at_most(ne, 8));
                }
            }
        }
        k = k + 1;
    }
    let mut m: usize = 0;
    assert(all.take(first.len() as int) =~= first);
    while m < sorted.len()
        invariant
            m <= sorted@.len(),
            first == crate::text::piece_views(unsuffixed@),
            second == cookie_values(pair_views(sorted@)),
            all == first + second,
            string_views(out@) == at_most(nonempty_values(all.take(first.len() + m)), MAX_SESSION_COOKIE_CANDIDATES as nat),
        decreases sorted@.len() - m,
    {
        let ghost prev = string_views(out@);
        let ghost idx = first.len() + m;
        let ghost ne = nonempty_values(all.take(idx));
        assert(all.take(idx + 1).drop_last() =~= all.take(idx));
        assert(all[idx] == sorted@[m as int].1@);
        if sorted[m].1.len() > 0 && out.len() < MAX_SESSION_COOKIE_CANDIDATES {
            let v = string_from_chars(sorted[m].1.as_slice());
            out.push(v);
            assert(string_views(out@) =~= prev.push(all[idx]));
            assert(at_most(ne.push(all[idx]), 8) =~= prev.push(all[idx]));
        } else {
            proof {
                if sorted@[m as int].1@.len() > 0 {
                    assert(at_most(ne.push(all[idx]), 8) =~= at_most(ne, 8));
                }
            }
        }
        m = m + 1;
    }
    assert(all.take((first.len() + sorted@.len()) as int) =~= all);
    out
}

/// The credentials a request presents.
#[derive(Debug, PartialEq, Eq)]
pub enum RequestCredentials {
    /// Neither a bearer token nor a non-empty session cookie.
    Missing,
    /// The token of an `Authorization: Bearer` header.
    Bearer(String),
    /// The `__session` cookie plus any suffixed `__session_*` variants Clerk
    /// sets when multiple Clerk apps share a registrable domain.
    SessionCookies(Vec<String>),
}

/// The bearer token of an optional `Authorization` header value.
pub open spec fn bearer_of(authorization: Option<&str>) -> Option<Seq<char>> {
    match authorization {
        Some(h) => bearer_token_of(h@),
        None => None,
    }
}

impl RequestCredentials {
    /// The credentials of a request with this `Authorization` header value
    /// and these `Cookie` header values: a bearer token wins; otherwise the
    /// session cookie candidates, or `Missing` when there are none.
    pub fn from_headers(authorization: Option<&str>, cookie_headers: &[String]) -> (r: Self)
        ensures
            match bearer_of(authorization) {
                Some(t) => r matches RequestCredentials::Bearer(s) && s@ == t,
                None => if session_cookie_candidates(string_views(cookie_headers@)).len() == 0 {
                    r is Missing
                } else {
                    r matches RequestCredentials::SessionCookies(v) && string_views(v@)
                        == session_cookie_candidates(string_views(cookie_headers@))
                },
            },
    {
        if let Some(token) = bearer_token(authorization) {
            return RequestCredentials::Bearer(token);
        }
        let cookies = session_cookies(cookie_headers);
        if cookies.len() == 0 {
            RequestCredentials::Missing
        } else {
            RequestCredentials::SessionCookies(cookies)
        }
    }
}

/// The failure remembered after one more session cookie failed with
/// `outcome`: `Unavailable` outranks anything else, otherwise the first
/// failure is kept.
pub open spec fn next_failure(failure: Option<VerificationOutcome>, outcome: VerificationOutcome) -> Option<
    VerificationOutcome,
> {
    if outcome is Unavailable {
        Some(VerificationOutcome::Unavailable)
    } else {
        match failure {
            Some(f) => Some(f),
            None => Some(outcome),
        }
    }
}

/// The failure remembered after the cookies failed with `outcomes`, in
/// order.
pub open spec fn failures_after(outcomes: Seq<VerificationOutcome>) -> Option<VerificationOutcome>
    decreases outcomes.len(),
{
    if outcomes.len() == 0 {
        None
    } else {
        next_failure(failures_after(outcomes.drop_last()), outcomes.last())
    }
}

/// Records the outcome of one more session cookie. A valid outcome is
/// returned, to be used at once (any valid cookie wins); any other is
/// folded into `failure`.
pub fn record_cookie_outcome(failure: &mut Option<VerificationOutcome>, outcome: VerificationOutcome) -> (r:
    Option<VerificationOutcome>)
    ensures
        outcome is Valid ==> r == Some(outcome) && *final(failure) == *old(failure),
        !(outcome is Valid) ==> r is None && *final(failure) == next_failure(*old(failure), outcome),
{
    match outcome {
        VerificationOutcome::Valid(_) => Some(outcome),
        VerificationOutcome::Unavailable => {
            *failure = Some(VerificationOutcome::Unavailable);
            None
        },
        _ => {
            if failure.is_none() {
                *failure = Some(outcome);
            }
            None
        },
    }
}

/// The outcome when no session cookie was valid: the remembered failure,
/// or `Missing` if no cookie was tried.
pub fn cookie_failure_outcome(failure: Option<VerificationOutcome>) -> (r: VerificationOutcome)
    ensures
        r == match failure {
            Some(f) => f,
            None => VerificationOutcome::Missing,
        },
{
    match failure {
        Some(f) => f,
        None => VerificationOutcome::Missing,
    }
}

/// When no session cookie is valid, `Unavailable` outranks `Invalid`
/// whatever the cookie order: a candidate that could not be checked must
/// fail closed, not demote the request to anonymous. Without an
/// unavailable one, the first failure is reported.
pub proof fn lemma_unavailable_outranks_invalid(outcomes: Seq<VerificationOutcome>)
    ensures
        (exists|i: int| 0 <= i < outcomes.len() && #[trigger] outcomes[i] is Unavailable) ==> failures_after(outcomes)
            == Some(VerificationOutcome::Unavailable),
        (forall|i: int| 0 <= i < outcomes.len() ==> !(#[trigger] outcomes[i] is Unavailable)) && outcomes.len() > 0
            ==> failures_after(outcomes) == Some(outcomes[0]),
        outcomes.len() == 0 ==> failures_after(outcomes) is None,
    decreases outcomes.len(),
{
    if outcomes.len() > 0 {
        let init = outcomes.drop_last();
        lemma_unavailable_outranks_invalid(init);
        if exists|i: int| 0 <= i < outcomes.len() && #[trigger] outcomes[i] is Unavailable {
            if !(outcomes.last() is Unavailable) {
                let i = choose|i: int| 0 <= i < outcomes.len() && #[trigger] outcomes[i] is Unavailable;
                assert(init[i] is Unavailable);
            }
        }
        if forall|i: int| 0 <= i < outcomes.len() ==> !(#[trigger] outcomes[i] is Unavailable) {
            assert forall|i: int| 0 <= i < init.len() implies !(#[trigger] init[i] is Unavailable) by {
                assert(init[i] == outcomes[i]);
            }
            assert(!(outcomes[outcomes.len() - 1] is Unavailable));
            if init.len() > 0 {
                assert(init[0] == outcomes[0]);
            }
        }
    }
}

/// The index of the first valid outcome, if any.
pub open spec fn first_valid(outcomes: Seq<VerificationOutcome>) -> Option<int>
    decreases outcomes.len(),
{
    if outcomes.len() == 0 {
        None
    } else {
        match first_valid(outcomes.drop_last()) {
            Some(i) => Some(i),
            None => if outcomes.last() is Valid {
                Some(outcomes.len() - 1)
            } else {
                None
            },
        }
    }
}

/// What a request's session cookies verify to, given each cookie's outcome
/// in cookie order: the first valid outcome; with none valid, the
/// remembered failure (`Unavailable` outranking the others); `Missing` for
/// no cookies at all.
pub open spec fn session_cookies_outcome(outcomes: Seq<VerificationOutcome>) -> VerificationOutcome {
    match first_valid(outcomes) {
        Some(i) => outcomes[i],
        None => match failures_after(outcomes) {
            Some(f) => f,
            None => VerificationOutcome::Missing,
        },
    }
}

/// Where the first valid outcome stands: valid, after only invalid ones;
/// with none, no outcome is valid.
proof fn lemma_first_valid(outcomes: Seq<VerificationOutcome>)
    ensures
        first_valid(outcomes) matches Some(i) ==> {
            &&& 0 <= i < outcomes.len()
            &&& outcomes[i] is Valid
            &&& forall|j: int| 0 <= j < i ==> !(#[trigger] outcomes[j] is Valid)
        },
        first_valid(outcomes) is None ==> forall|j: int| 0 <= j < outcomes.len() ==> !(#[trigger] outcomes[j] is Valid),
    decreases outcomes.len(),
{
    if outcomes.len() > 0 {
        let init = outcomes.drop_last();
        lemma_first_valid(init);
        assert forall|j: int| 0 <= j < init.len() implies init[j] == outcomes[j] by {}
    }
}

/// Outcomes after the first valid one change nothing.
proof fn lemma_first_valid_prefix(outcomes: Seq<VerificationOutcome>, later: Seq<VerificationOutcome>)
    requires
        first_valid(outcomes) is Some,
    ensures
        first_valid(outcomes + later) == first_valid(outcomes),
    decreases later.len(),
{
    if later.len() > 0 {
        lemma_first_valid_prefix(outcomes, later.drop_last());
        assert((outcomes + later).drop_last() =~= outcomes + later.drop_last());
    } else {
        assert(outcomes + later =~= outcomes);
    }
}

/// Session cookies are verified in order and the first valid one wins: no
/// cookie after it is consulted, whatever it would give. With none valid,
/// an unavailable cookie outranks invalid ones; otherwise the first
/// cookie's failure is reported; with no cookies the request is missing
/// credentials.
pub proof fn lemma_session_cookies_outcome(outcomes: Seq<VerificationOutcome>, later: Seq<VerificationOutcome>)
    ensures
        first_valid(outcomes) matches Some(i) ==> {
            &&& 0 <= i < outcomes.len()
            &&& outcomes[i] is Valid
            &&& forall|j: int| 0 <= j < i ==> !(#[trigger] outcomes[j] is Valid)
            &&& session_cookies_outcome(outcomes) == outcomes[i]
            &&& session_cookies_outcome(outcomes.take(i + 1) + later) == outcomes[i]
        },
        first_valid(outcomes) is None ==> {
            &&& forall|j: int| 0 <= j < outcomes.len() ==> !(#[trigger] outcomes[j] is Valid)
            &&& (exists|j: int| 0 <= j < outcomes.len() && #[trigger] outcomes[j] is Unavailable)
                ==> session_cookies_outcome(outcomes) == VerificationOutcome::Unavailable
            &&& (forall|j: int| 0 <= j < outcomes.len() ==> !(#[trigger] outcomes[j] is Unavailable))
                && outcomes.len() > 0 ==> session_cookies_outcome(outcomes) == outcomes[0]
            &&& outcomes.len() == 0 ==> session_cookies_outcome(outcomes) == VerificationOutcome::Missing
        },
{
    lemma_first_valid(outcomes);
    lemma_unavailable_outranks_invalid(outcomes);
    if let Some(i) = first_valid(outcomes) {
        let head = outcomes.take(i + 1);
        lemma_first_valid(head);
        assert forall|j: int| 0 <= j <= i implies head[j] == outcomes[j] by {}
        if first_valid(head) is None {
            assert(!(head[i] is Valid));
        }
        let k = first_valid(head)->0;
        if k < i {
            assert(!(outcomes[k] is Valid));
        }
        lemma_first_valid_prefix(head, later);
    }
}

/// The progress of verifying a request's session cookies one by one, in
/// cookie order, until one is valid.
pub struct CookieVerification {
    failure: Option<VerificationOutcome>,
    outcomes: Ghost<Seq<VerificationOutcome>>,
}

impl View for CookieVerification {
    type V = Seq<VerificationOutcome>;

    /// The outcomes recorded so far, none of them valid.
    closed spec fn view(&self) -> Seq<VerificationOutcome> {
        self.outcomes@
    }
}

impl CookieVerification {
    /// The remembered failure is that of the recorded outcomes, none of
    /// which is valid.
    pub closed spec fn well_formed(self) -> bool {
        &&& self.failure == failures_after(self.outcomes@)
        &&& first_valid(self.outcomes@) is None
    }

    /// Nothing verified yet.
    pub fn new() -> (r: Self)
        ensures
            r.well_formed(),
            r@ == Seq::<VerificationOutcome>::empty(),
    {
        CookieVerification { failure: None, outcomes: Ghost(Seq::empty()) }
    }

    /// Records the outcome of the next cookie. A valid outcome is handed
    /// back, and it is what the request verifies to: stop there. Any other
    /// is remembered.
    pub fn record(&mut self, outcome: VerificationOutcome) -> (r: Option<VerificationOutcome>)
        requires
            old(self).well_formed(),
        ensures
            final(self).well_formed(),
            outcome is Valid ==> {
                &&& r == Some(outcome)
                &&& final(self)@ == old(self)@
                &&& session_cookies_outcome(old(self)@.push(outcome)) == outcome
            },
            !(outcome is Valid) ==> r is None && final(self)@ == old(self)@.push(outcome),
    {
        let ghost seen = self.outcomes@.push(outcome);
        proof {
            assert(seen.drop_last() =~= self.outcomes@);
        }
        let r = record_cookie_outcome(&mut self.failure, outcome);
        if r.is_none() {
            self.outcomes = Ghost(seen);
        }
        r
    }

    /// What the request verifies to when no cookie was valid.
    pub fn finish(self) -> (r: VerificationOutcome)
        requires
            self.well_formed(),
        ensures
            r == session_cookies_outcome(self@),
    {
        cookie_failure_outcome(self.failure)
    }
}

/// `str` order is total.
pub proof fn lemma_chars_le_total(a: Seq<char>, b: Seq<char>)
    ensures
        chars_le(a, b) || chars_le(b, a),
    decreases a.len(),
{
    if a.len() > 0 && b.len() > 0 && a[0] == b[0] {
        lemma_chars_le_total(a.skip(1), b.skip(1));
    }
}

/// `str` order is transitive.
pub proof fn lemma_chars_le_transitive(a: Seq<char>, b: Seq<char>, c: Seq<char>)
    requires
        chars_le(a, b),
        chars_le(b, c),
    ensures
        chars_le(a, c),
    decreases a.len(),
{
    if a.len() > 0 && a[0] == b[0] && b[0] == c[0] {
        lemma_chars_le_transitive(a.skip(1), b.skip(1), c.skip(1));
    }
}

/// Cookies in non-decreasing name order.
pub open spec fn names_sorted(s: Seq<(Seq<char>, Seq<char>)>) -> bool {
    forall|i: int, j: int| 0 <= i < j < s.len() ==> chars_le(#[trigger] s[i].0, #[trigger] s[j].0)
}

/// Inserting by name keeps a sorted list sorted and adds exactly `x`.
pub proof fn lemma_insert_by_name(sorted: Seq<(Seq<char>, Seq<char>)>, x: (Seq<char>, Seq<char>))
    requires
        names_sorted(sorted),
    ensures
        names_sorted(insert_by_name(sorted, x)),
        insert_by_name(sorted, x).to_multiset() =~= sorted.to_multiset().insert(x),
    decreases sorted.len(),
{
    broadcast use vstd::seq_lib::group_to_multiset_ensures;

    if sorted.len() == 0 {
        assert(seq![x] =~= Seq::<(Seq<char>, Seq<char>)>::empty().push(x));
    } else if chars_le(sorted.last().0, x.0) {
        let r = sorted.push(x);
        assert forall|i: int, j: int| 0 <= i < j < r.len() implies chars_le(#[trigger] r[i].0, #[trigger] r[j].0) by {
            if j == sorted.len() {
                if i < sorted.len() - 1 {
                    lemma_chars_le_transitive(sorted[i].0, sorted.last().0, x.0);
                }
            }
        }
    } else {
        let init = sorted.drop_last();
        let last = sorted.last();
        assert(names_sorted(init)) by {
            assert forall|i: int, j: int| 0 <= i < j < init.len() implies chars_le(
                #[trigger] init[i].0,
                #[trigger] init[j].0,
            ) by {
                assert(init[i] == sorted[i] && init[j] == sorted[j]);
            }
        }
        lemma_insert_by_name(init, x);
        let inner = insert_by_name(init, x);
        let r = inner.push(last);
        lemma_chars_le_total(last.0, x.0);
        assert forall|i: int| 0 <= i < inner.len() implies chars_le(#[trigger] inner[i].0, last.0) by {
            assert(inner.contains(inner[i]));
            assert(inner.to_multiset().count(inner[i]) > 0);
            if inner[i] != x {
                assert(init.to_multiset().count(inner[i]) > 0);
                assert(init.contains(inner[i]));
                let k = choose|k: int| 0 <= k < init.len() && init[k] == inner[i];
                assert(sorted[k] == init[k]);
                assert(sorted[sorted.len() - 1] == last);
            }
        }
        assert forall|i: int, j: int| 0 <= i < j < r.len() implies chars_le(#[trigger] r[i].0, #[trigger] r[j].0) by {
            if j == inner.len() {
                assert(r[i] == inner[i]);
            } else {
                assert(r[i] == inner[i] && r[j] == inner[j]);
            }
        }
        assert(sorted =~= init.push(last));
    }
}

/// Sorting by name gives a list sorted by name with the same cookies.
pub proof fn lemma_sort_by_name(cs: Seq<(Seq<char>, Seq<char>)>)
    ensures
        names_sorted(sort_by_name(cs)),
        sort_by_name(cs).to_multiset() =~= cs.to_multiset(),
    decreases cs.len(),
{
    broadcast use vstd::seq_lib::group_to_multiset_ensures;

    if cs.len() > 0 {
        lemma_sort_by_name(cs.drop_last());
        lemma_insert_by_name(sort_by_name(cs.drop_last()), cs.last());
        assert(cs =~= cs.drop_last().push(cs.last()));
    }
}

/// Every kept value is non-empty.
pub proof fn lemma_nonempty_values(vs: Seq<Seq<char>>)
    ensures
        forall|i: int| 0 <= i < nonempty_values(vs).len() ==> (#[trigger] nonempty_values(vs)[i]).len() > 0,
    decreases vs.len(),
{
    if vs.len() > 0 {
        lemma_nonempty_values(vs.drop_last());
        let earlier = nonempty_values(vs.drop_last());
        if vs.last().len() > 0 {
            assert forall|i: int| 0 <= i < earlier.push(vs.last()).len() implies (#[trigger] earlier.push(
                vs.last(),
            )[i]).len() > 0 by {
                if i < earlier.len() {
                    assert(earlier.push(vs.last())[i] == earlier[i]);
                }
            }
        }
    }
}

/// The session tokens tried for a request are non-empty, at most
/// [`MAX_SESSION_COOKIE_CANDIDATES`] of them, and the suffixed cookies they
/// come from are in name order, all of them and nothing else.
pub proof fn lemma_session_cookie_candidates(headers: Seq<Seq<char>>)
    ensures
        session_cookie_candidates(headers).len() <= MAX_SESSION_COOKIE_CANDIDATES,
        forall|i: int|
            0 <= i < session_cookie_candidates(headers).len() ==> (#[trigger] session_cookie_candidates(
                headers,
            )[i]).len() > 0,
        names_sorted(sort_by_name(suffixed_cookies(request_cookies(headers)))),
        sort_by_name(suffixed_cookies(request_cookies(headers))).to_multiset() =~= suffixed_cookies(
            request_cookies(headers),
        ).to_multiset(),
{
    let cs = request_cookies(headers);
    let all = unsuffixed_values(cs) + cookie_values(sort_by_name(suffixed_cookies(cs)));
    lemma_nonempty_values(all);
    lemma_sort_by_name(suffixed_cookies(cs));
    let ne = nonempty_values(all);
    if ne.len() > 8 {
        assert forall|i: int| 0 <= i < ne.take(8).len() implies (#[trigger] ne.take(8)[i]).len() > 0 by {
            assert(ne.take(8)[i] == ne[i]);
        }
    }
}

} // verus!
