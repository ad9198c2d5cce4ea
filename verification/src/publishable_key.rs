//! Decode the Clerk Frontend API host from a publishable key, and the
//! script URLs derived from it.
//!
//! clerk-js is served from the instance's Frontend API host so the script and
//! the backend it talks to stay version-coordinated (matching Clerk's own
//! loaders). The host is encoded in the publishable key, so the default script
//! URL can be derived from it without extra configuration.
use vstd::prelude::*;
use vstd::utf8::{decode_utf8, valid_utf8};

use crate::server::credentials::{trim_end_chars, trim_seq, trim_start_chars};
use crate::text::{chars_of, has_prefix, push_str, starts_with_str, string_from_chars};

verus! {

broadcast use vstd::string::group_string_axioms;

/// The 6-bit value of a standard-base64 character (`A–Za–z0–9+/`).
pub open spec fn sextet_value(c: char) -> Option<u8> {
    if 'A' <= c <= 'Z' {
        Some((c as u32 - 'A' as u32) as u8)
    } else if 'a' <= c <= 'z' {
        Some((c as u32 - 'a' as u32 + 26) as u8)
    } else if '0' <= c <= '9' {
        Some((c as u32 - '0' as u32 + 52) as u8)
    } else if c == '+' {
        Some(62u8)
    } else if c == '/' {
        Some(63u8)
    } else {
        None
    }
}

/// `s` without its trailing `=` padding.
pub open spec fn without_padding(s: Seq<char>) -> Seq<char>
    decreases s.len(),
{
    if s.len() > 0 && s.last() == '=' {
        without_padding(s.drop_last())
    } else {
        s
    }
}

/// Whether every character is in the base64 alphabet.
pub open spec fn all_base64(s: Seq<char>) -> bool {
    forall|i: int| 0 <= i < s.len() ==> (sextet_value(#[trigger] s[i]) is Some)
}

/// The 6-bit values of base64 characters.
pub open spec fn sextets(s: Seq<char>) -> Seq<u8> {
    s.map_values(|c: char| sextet_value(c)->0)
}

/// The bytes that groups of 6-bit values stand for: every four values give
/// three bytes, and a final group of two or three gives one or two bytes
/// (its leftover bits are dropped).
pub open spec fn bytes_of_sextets(v: Seq<u8>) -> Seq<u8>
    decreases v.len(),
{
    if v.len() >= 4 {
        seq![
            ((v[0] << 2u8) | (v[1] >> 4u8)) as u8,
            (((v[1] & 15u8) << 4u8) | (v[2] >> 2u8)) as u8,
            (((v[2] & 3u8) << 6u8) | v[3]) as u8,
        ] + bytes_of_sextets(v.skip(4))
    } else if v.len() == 3 {
        seq![((v[0] << 2u8) | (v[1] >> 4u8)) as u8, (((v[1] & 15u8) << 4u8) | (v[2] >> 2u8)) as u8]
    } else if v.len() == 2 {
        seq![((v[0] << 2u8) | (v[1] >> 4u8)) as u8]
    } else {
        Seq::empty()
    }
}

/// Standard-base64 decoding with optional `=` padding: `None` on any
/// character outside the alphabet.
pub open spec fn base64_decoded(input: Seq<char>) -> Option<Seq<u8>> {
    let body = without_padding(input);
    if all_base64(body) {
        Some(bytes_of_sextets(sextets(body)))
    } else {
        None
    }
}

/// The 6-bit value of a base64 character.
fn sextet(c: char) -> (r: Option<u8>)
    ensures
        r == sextet_value(c),
{
    if 'A' <= c && c <= 'Z' {
        Some(((c as u32) - ('A' as u32)) as u8)
    } else if 'a' <= c && c <= 'z' {
        Some(((c as u32) - ('a' as u32) + 26) as u8)
    } else if '0' <= c && c <= '9' {
        Some(((c as u32) - ('0' as u32) + 52) as u8)
    } else if c == '+' {
        Some(62)
    } else if c == '/' {
        Some(63)
    } else {
        None
    }
}

/// Appends the bytes of the group `v[i..]` (at most four values).
fn push_group(out: &mut Vec<u8>, v: &Vec<u8>, i: usize)
    requires
        i <= v@.len(),
    ensures
        v@.len() - i >= 4 ==> final(out)@ == old(out)@ + bytes_of_sextets(v@.skip(i as int)).take(3),
        v@.len() - i < 4 ==> final(out)@ == old(out)@ + bytes_of_sextets(v@.skip(i as int)),
{
    let ghost rest = v@.skip(i as int);
    let n = v.len() - i;
    if n >= 2 {
        assert(rest[0] == v@[i as int] && rest[1] == v@[i + 1]);
        out.push((v[i] << 2u8) | (v[i + 1] >> 4u8));
    }
    if n >= 3 {
        assert(rest[2] == v@[i + 2]);
        out.push(((v[i + 1] & 15u8) << 4u8) | (v[i + 2] >> 2u8));
    }
    if n >= 4 {
        assert(rest[3] == v@[i + 3]);
        out.push(((v[i + 2] & 3u8) << 6u8) | v[i + 3]);
    }
    proof {
        if n >= 4 {
            assert(bytes_of_sextets(rest).take(3) =~= seq![
                ((rest[0] << 2u8) | (rest[1] >> 4u8)) as u8,
                (((rest[1] & 15u8) << 4u8) | (rest[2] >> 2u8)) as u8,
                (((rest[2] & 3u8) << 6u8) | rest[3]) as u8,
            ]);
        }
    }
    assert(final(out)@ =~= old(out)@ + if n >= 4 {
        bytes_of_sextets(rest).take(3)
    } else {
        bytes_of_sextets(rest)
    });
}

/// Minimal standard-base64 decoder (alphabet `A–Za–z0–9+/`, optional `=`
/// padding); `None` on any character outside the alphabet.
pub fn base64_decode(input: &str) -> (r: Option<Vec<u8>>)
    ensures
        match base64_decoded(input@) {
            Some(bytes) => r matches Some(v) && v@ == bytes,
            None => r is None,
        },
{
    let chars = chars_of(input);
    let mut end: usize = chars.len();
    assert(chars@.take(chars@.len() as int) =~= chars@);
    while end > 0 && chars[end - 1] == '='
        invariant
            end <= chars@.len(),
            without_padding(chars@) == without_padding(chars@.take(end as int)),
        decreases end,
    {
        assert(chars@.take(end as int).drop_last() =~= chars@.take(end - 1));
        end = end - 1;
    }
    let ghost body = chars@.take(end as int);
    assert(without_padding(body) == body) by {
        if body.len() > 0 && body.last() == '=' {
            assert(chars@[end - 1] == '=');
        }
    }
    let mut values: Vec<u8> = Vec::new();
    let mut i: usize = 0;
    while i < end
        invariant
            i <= end <= chars@.len(),
            body == chars@.take(end as int),
            body == without_padding(input@),
            values@ == sextets(body.take(i as int)),
            forall|k: int| 0 <= k < i ==> (sextet_value(#[trigger] body[k]) is Some),
        decreases end - i,
    {
        assert(body[i as int] == chars@[i as int]);
        match sextet(chars[i]) {
            Some(s) => {
                values.push(s);
                assert(sextets(body.take(i + 1)) =~= sextets(body.take(i as int)).push(s));
            },
            None => {
                assert(!all_base64(body));
                return None;
            },
        }
        i = i + 1;
    }
    assert(body.take(end as int) =~= body);
    let mut out: Vec<u8> = Vec::new();
    let mut j: usize = 0;
    assert(values@.skip(0) =~= values@);
    while j < values.len()
        invariant
            j <= values@.len(),
            bytes_of_sextets(values@) == out@ + bytes_of_sextets(values@.skip(j as int)),
        decreases values@.len() - j,
    {
        let ghost rest = values@.skip(j as int);
        push_group(&mut out, &values, j);
        if values.len() - j >= 4 {
            assert(rest.skip(4) =~= values@.skip(j + 4));
            assert(bytes_of_sextets(rest) =~= bytes_of_sextets(rest).take(3) + bytes_of_sextets(rest.skip(4)));
            j = j + 4;
        } else {
            assert(values@.skip(values@.len() as int) =~= Seq::<u8>::empty());
            assert(out@ + bytes_of_sextets(Seq::<u8>::empty()) =~= out@);
            j = values.len();
        }
    }
    Some(out)
}

/// `String::from_utf8(bytes).ok()`: the text the bytes encode, if they are
/// valid UTF-8.
#[verifier::external_body]
fn string_from_utf8(bytes: Vec<u8>) -> (r: Option<String>)
    ensures
        match r {
            Some(s) => valid_utf8(bytes@) && s@ == decode_utf8(bytes@),
            None => !valid_utf8(bytes@),
        },
{
    String::from_utf8(bytes).ok()
}

/// `pk_test_`, the prefix of development-instance publishable keys.
pub open spec fn test_key_prefix() -> Seq<char> {
    "pk_test_"@
}

/// `pk_live_`, the prefix of production-instance publishable keys.
pub open spec fn live_key_prefix() -> Seq<char> {
    "pk_live_"@
}

/// The base64 body of a publishable key.
pub open spec fn key_body(key: Seq<char>) -> Option<Seq<char>> {
    if has_prefix(key, test_key_prefix()) {
        Some(key.skip(8))
    } else if has_prefix(key, live_key_prefix()) {
        Some(key.skip(8))
    } else {
        None
    }
}

/// The host text: without one trailing `$` marker (if present), trimmed.
pub open spec fn host_of_text(text: Seq<char>) -> Seq<char> {
    trim_seq(
        if text.len() > 0 && text.last() == '$' {
            text.drop_last()
        } else {
            text
        },
    )
}

/// The Frontend API host encoded in a publishable key: `pk_test_<b64>` or
/// `pk_live_<b64>`, where `<b64>` is the standard-base64 UTF-8 host with a
/// trailing `$` marker; `None` when the key is not shaped like that or does
/// not decode to a non-empty host.
pub open spec fn frontend_api_host_of(key: Seq<char>) -> Option<Seq<char>> {
    match key_body(key) {
        Some(body) => match base64_decoded(body) {
            Some(bytes) => if valid_utf8(bytes) && host_of_text(decode_utf8(bytes)).len() > 0 {
                Some(host_of_text(decode_utf8(bytes)))
            } else {
                None
            },
            None => None,
        },
        None => None,
    }
}

/// The Frontend API host encoded in a Clerk publishable key.
///
/// For example `pk_test_Zm9vLmNsZXJrLmFjY291bnRzLmRldiQ` decodes to
/// `foo.clerk.accounts.dev$`, yielding `foo.clerk.accounts.dev`.
pub fn frontend_api_host(publishable_key: &str) -> (r: Option<String>)
    ensures
        match frontend_api_host_of(publishable_key@) {
            Some(h) => r matches Some(s) && s@ == h,
            None => r is None,
        },
{
    let key = chars_of(publishable_key);
    proof {
        reveal_strlit("pk_test_");
        reveal_strlit("pk_live_");
    }
    let is_test = starts_with_str(key.as_slice(), "pk_test_");
    let is_live = !is_test && starts_with_str(key.as_slice(), "pk_live_");
    if !is_test && !is_live {
        return None;
    }
    assert(test_key_prefix().len() == 8 && live_key_prefix().len() == 8);
    let mut body: Vec<char> = Vec::new();
    let mut i: usize = 8;
    while i < key.len()
        invariant
            8 <= key@.len(),
            8 <= i <= key@.len(),
            body@ == key@.subrange(8, i as int),
        decreases key@.len() - i,
    {
        body.push(key[i]);
        assert(key@.subrange(8, i + 1) =~= key@.subrange(8, i as int).push(key@[i as int]));
        i = i + 1;
    }
    assert(key@.subrange(8, key@.len() as int) =~= key@.skip(8));
    let body_text = string_from_chars(body.as_slice());
    let decoded = match base64_decode(body_text.as_str()) {
        Some(bytes) => bytes,
        None => {
            return None;
        },
    };
    let text = match string_from_utf8(decoded) {
        Some(text) => text,
        None => {
            return None;
        },
    };
    let chars = chars_of(text.as_str());
    // Clerk appends a `$` marker after the host; tolerate its absence.
    let mut unmarked: Vec<char> = Vec::new();
    let keep = if chars.len() > 0 && chars[chars.len() - 1] == '$' {
        chars.len() - 1
    } else {
        chars.len()
    };
    let mut k: usize = 0;
    while k < keep
        invariant
            keep <= chars@.len(),
            k <= keep,
            unmarked@ == chars@.take(k as int),
        decreases keep - k,
    {
        unmarked.push(chars[k]);
        assert(chars@.take(k + 1) =~= chars@.take(k as int).push(chars@[k as int]));
        k = k + 1;
    }
    assert(chars@.take(chars@.len() as int) =~= chars@);
    assert(unmarked@ == if chars@.len() > 0 && chars@.last() == '$' {
        chars@.drop_last()
    } else {
        chars@
    });
    let trimmed_start = trim_start_chars(unmarked.as_slice());
    let host = trim_end_chars(trimmed_start.as_slice());
    if host.len() == 0 {
        return None;
    }
    Some(string_from_chars(host.as_slice()))
}

/// The fallback clerk-js CDN URL (clerk-js major version 6, the one this
/// crate targets), used only when the publishable key cannot be decoded
/// into a Frontend API host.
pub open spec fn fallback_cdn_url_text() -> Seq<char> {
    "https://cdn.jsdelivr.net/npm/@clerk/clerk-js@6/dist/clerk.browser.js"@
}

/// The fallback `@clerk/ui` CDN URL (`@clerk/ui` major version 1, which
/// clerk-js 6 loads its UI components from).
pub open spec fn fallback_ui_url_text() -> Seq<char> {
    "https://cdn.jsdelivr.net/npm/@clerk/ui@1/dist/ui.browser.js"@
}

/// The clerk-js script URL for a publishable key: served from the
/// instance's Frontend API host, else from the pinned public CDN.
pub open spec fn script_url_for(key: Seq<char>) -> Seq<char> {
    match frontend_api_host_of(key) {
        Some(host) => "https://"@ + host + "/npm/@clerk/clerk-js@6/dist/clerk.browser.js"@,
        None => fallback_cdn_url_text(),
    }
}

/// The `@clerk/ui` script URL for a publishable key, from the same host as
/// clerk-js, with the same fallback.
pub open spec fn ui_url_for(key: Seq<char>) -> Seq<char> {
    match frontend_api_host_of(key) {
        Some(host) => "https://"@ + host + "/npm/@clerk/ui@1/dist/ui.browser.js"@,
        None => fallback_ui_url_text(),
    }
}

/// The fallback clerk-js CDN URL.
pub fn fallback_cdn_url() -> (r: String)
    ensures
        r@ == fallback_cdn_url_text(),
{
    let mut url = String::new();
    push_str(&mut url, "https://cdn.jsdelivr.net/npm/@clerk/clerk-js@6/dist/clerk.browser.js");
    url
}

/// The fallback `@clerk/ui` CDN URL.
pub fn fallback_ui_url() -> (r: String)
    ensures
        r@ == fallback_ui_url_text(),
{
    let mut url = String::new();
    push_str(&mut url, "https://cdn.jsdelivr.net/npm/@clerk/ui@1/dist/ui.browser.js");
    url
}

/// The clerk-js script URL to inject for a publishable key. Serving it from
/// the instance's Frontend API host keeps the script version-matched with
/// the backend it calls.
pub fn default_script_url(publishable_key: &str) -> (r: String)
    ensures
        r@ == script_url_for(publishable_key@),
{
    match frontend_api_host(publishable_key) {
        Some(host) => {
            let mut url = String::new();
            push_str(&mut url, "https://");
            push_str(&mut url, host.as_str());
            push_str(&mut url, "/npm/@clerk/clerk-js@6/dist/clerk.browser.js");
            url
        },
        None => fallback_cdn_url(),
    }
}

/// The `@clerk/ui` script URL to inject for a publishable key.
pub fn default_ui_url(publishable_key: &str) -> (r: String)
    ensures
        r@ == ui_url_for(publishable_key@),
{
    match frontend_api_host(publishable_key) {
        Some(host) => {
            let mut url = String::new();
            push_str(&mut url, "https://");
            push_str(&mut url, host.as_str());
            push_str(&mut url, "/npm/@clerk/ui@1/dist/ui.browser.js");
            url
        },
        None => fallback_ui_url(),
    }
}

} // verus!
