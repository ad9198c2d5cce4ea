//! Clerk's compact organization-permission encoding, as test tokens carry
//! it, and the errors of minting test tokens.
use vstd::prelude::*;

use std::path::PathBuf;

pub mod session;

pub use session::{ClaimValue, TestSession};

use crate::text::{
    before_first, chars_of, decimal_text, has_prefix, lemma_before_first_index, piece_views, push_char, push_chars,
    push_decimal, push_str, same_chars, split_on,
};

verus! {

broadcast use vstd::string::group_string_axioms;

/// A filesystem path of std.
#[verifier::external_type_specification]
#[verifier::external_body]
pub struct ExPathBuf(std::path::PathBuf);

/// An I/O error of std.
#[verifier::external_type_specification]
#[verifier::external_body]
pub struct ExIoError(std::io::Error);

/// Something went wrong minting a test token or loading a test key.
#[derive(Debug)]
pub enum TestIssuerError {
    /// The key file could not be read or written.
    KeyFile {
        /// The path that could not be read or written.
        path: PathBuf,
        /// The underlying filesystem error.
        source: std::io::Error,
    },
    /// The key could not be generated, parsed, or serialized.
    Key(String),
    /// The token could not be signed.
    Sign(String),
    /// A session was built with organization permissions that are not in
    /// Clerk's `org:<feature>:<permission>` form.
    OrganizationPermission(String),
    /// The auth layer could not be built from this issuer's keys.
    Layer(String),
}

/// `org:`.
pub open spec fn org_prefix_text() -> Seq<char> {
    seq!['o', 'r', 'g', ':']
}

/// The feature and permission of `org:<feature>:<permission>`, both
/// non-empty; the feature ends at the first `:` after the prefix.
pub open spec fn split_permission(p: Seq<char>) -> Option<(Seq<char>, Seq<char>)> {
    if has_prefix(p, org_prefix_text()) {
        let rest = p.skip(4);
        let feature = before_first(rest, ':');
        if rest.contains(':') {
            let verb = rest.skip(feature.len() as int + 1);
            if feature.len() > 0 && verb.len() > 0 {
                Some((feature, verb))
            } else {
                None
            }
        } else {
            None
        }
    } else {
        None
    }
}

/// The distinct elements of `s`, in order of first occurrence.
pub open spec fn distinct_in_order(s: Seq<Seq<char>>) -> Seq<Seq<char>>
    decreases s.len(),
{
    if s.len() == 0 {
        Seq::empty()
    } else {
        let earlier = distinct_in_order(s.drop_last());
        if earlier.contains(s.last()) {
            earlier
        } else {
            earlier.push(s.last())
        }
    }
}

/// The position of the first `x` in `s` (`s.len()` when absent).
pub open spec fn position_of(s: Seq<Seq<char>>, x: Seq<char>) -> int
    decreases s.len(),
{
    if s.len() == 0 {
        0
    } else if s[0] == x {
        0
    } else {
        1 + position_of(s.skip(1), x)
    }
}

/// The mask of `feature` over `verbs`: bit `position_of(verbs, v)` for
/// every `(feature, v)` pair.
pub open spec fn feature_mask(pairs: Seq<(Seq<char>, Seq<char>)>, feature: Seq<char>, verbs: Seq<Seq<char>>) -> u128
    decreases pairs.len(),
{
    if pairs.len() == 0 {
        0
    } else {
        let earlier = feature_mask(pairs.drop_last(), feature, verbs);
        if pairs.last().0 == feature {
            earlier | (1u128 << (position_of(verbs, pairs.last().1) as u32))
        } else {
            earlier
        }
    }
}

/// `items` joined with `sep`.
pub open spec fn join_with(items: Seq<Seq<char>>, sep: char) -> Seq<char>
    decreases items.len(),
{
    if items.len() == 0 {
        Seq::empty()
    } else if items.len() == 1 {
        items[0]
    } else {
        join_with(items.drop_last(), sep).push(sep) + items.last()
    }
}

/// The features of the pairs, in order of first occurrence.
pub open spec fn pair_features(pairs: Seq<(Seq<char>, Seq<char>)>) -> Seq<Seq<char>> {
    distinct_in_order(pairs.map_values(|p: (Seq<char>, Seq<char>)| p.0))
}

/// The permission verbs of the pairs, in order of first occurrence.
pub open spec fn pair_verbs(pairs: Seq<(Seq<char>, Seq<char>)>) -> Seq<Seq<char>> {
    distinct_in_order(pairs.map_values(|p: (Seq<char>, Seq<char>)| p.1))
}

/// The split permissions.
pub open spec fn permission_pairs(ps: Seq<Seq<char>>) -> Seq<(Seq<char>, Seq<char>)> {
    ps.map_values(|p: Seq<char>| split_permission(p)->0)
}

/// The `fea` text: `o:<feature>` for each feature, comma-separated.
pub open spec fn features_text(features: Seq<Seq<char>>) -> Seq<char> {
    join_with(features.map_values(|f: Seq<char>| seq!['o', ':'] + f), ',')
}

/// The `fpm` text: each feature's mask in decimal, comma-separated.
pub open spec fn masks_text(pairs: Seq<(Seq<char>, Seq<char>)>, features: Seq<Seq<char>>, verbs: Seq<Seq<char>>) -> Seq<
    char,
> {
    join_with(features.map_values(|f: Seq<char>| decimal_text(feature_mask(pairs, f, verbs) as nat)), ',')
}

/// The error text for more distinct permission verbs than a mask has bits.
pub open spec fn too_many_permissions_message(n: nat) -> Seq<char> {
    decimal_text(n) + " distinct permissions exceeds the 128 the v2 claim encoding allows"@
}

/// Clerk's v2 organization permission encoding: a feature list (`fea`), a
/// permission list (`per`), and one bitmask per feature over the permission
/// list (`fpm`).
#[derive(Debug)]
pub struct PackedPermissions {
    pub features: String,
    pub permissions: String,
    pub feature_permission_map: String,
}

/// `names` with `name` added unless present, and its position.
fn index_of_or_push(names: &mut Vec<Vec<char>>, name: &[char]) -> (r: usize)
    requires
        old(names)@.len() < usize::MAX,
    ensures
        piece_views(final(names)@) == if piece_views(old(names)@).contains(name@) {
            piece_views(old(names)@)
        } else {
            piece_views(old(names)@).push(name@)
        },
        r == position_of(piece_views(final(names)@), name@),
        r < final(names)@.len(),
{
    let ghost views = piece_views(names@);
    let mut i: usize = 0;
    assert(views.skip(0) =~= views);
    while i < names.len()
        invariant
            i <= names@.len(),
            views == piece_views(names@),
            forall|k: int| 0 <= k < i ==> views[k] != name@,
            position_of(views, name@) == i + position_of(views.skip(i as int), name@),
        decreases names@.len() - i,
    {
        assert(views[i as int] == names@[i as int]@);
        if same_chars(names[i].as_slice(), name) {
            assert(views.skip(i as int)[0] == name@);
            assert(views.contains(name@));
            return i;
        }
        assert(views.skip(i as int).skip(1) =~= views.skip(i + 1));
        i = i + 1;
    }
    assert(!views.contains(name@)) by {
        if views.contains(name@) {
            let k = choose|k: int| 0 <= k < views.len() && views[k] == name@;
            assert(views[k] != name@);
        }
    }
    let mut owned: Vec<char> = Vec::new();
    let mut j: usize = 0;
    while j < name.len()
        invariant
            j <= name@.len(),
            owned@ == name@.take(j as int),
        decreases name@.len() - j,
    {
        owned.push(name[j]);
        assert(name@.take(j + 1) =~= name@.take(j as int).push(name@[j as int]));
        j = j + 1;
    }
    assert(name@.take(name@.len() as int) =~= name@);
    let at = names.len();
    names.push(owned);
    let ghost after = piece_views(names@);
    assert(after =~= views.push(name@));
    assert(views.skip(at as int) =~= Seq::<Seq<char>>::empty());
    assert(after.skip(at as int) =~= seq![name@]);
    proof {
        lemma_position_of_prefix(after, name@, at as int);
    }
    at
}

/// The position in `s` is `i` plus that in `s.skip(i)` when `x` is not
/// among the first `i` elements.
proof fn lemma_position_of_prefix(s: Seq<Seq<char>>, x: Seq<char>, i: int)
    requires
        0 <= i <= s.len(),
        forall|k: int| 0 <= k < i ==> s[k] != x,
    ensures
        position_of(s, x) == i + position_of(s.skip(i), x),
    decreases i,
{
    if i == 0 {
        assert(s.skip(0) =~= s);
    } else {
        lemma_position_of_prefix(s.skip(1), x, i - 1);
        assert(s.skip(1).skip(i - 1) =~= s.skip(i));
        assert forall|k: int| 0 <= k < i - 1 implies s.skip(1)[k] != x by {
            assert(s.skip(1)[k] == s[k + 1]);
        }
    }
}

/// The first permission that is not `org:<feature>:<permission>`.
pub open spec fn first_malformed(ps: Seq<Seq<char>>) -> Option<int>
    decreases ps.len(),
{
    if ps.len() == 0 {
        None
    } else {
        match first_malformed(ps.drop_last()) {
            Some(i) => Some(i),
            None => if split_permission(ps.last()) is None {
                Some(ps.len() - 1)
            } else {
                None
            },
        }
    }
}

/// A copy of `s[from..to]`.
fn copy_range(s: &[char], from: usize, to: usize) -> (r: Vec<char>)
    requires
        from <= to <= s@.len(),
    ensures
        r@ == s@.subrange(from as int, to as int),
{
    let mut out: Vec<char> = Vec::new();
    let mut i: usize = from;
    while i < to
        invariant
            from <= i <= to <= s@.len(),
            out@ == s@.subrange(from as int, i as int),
        decreases to - i,
    {
        out.push(s[i]);
        assert(s@.subrange(from as int, i + 1) =~= s@.subrange(from as int, i as int).push(s@[i as int]));
        i = i + 1;
    }
    out
}

/// Splits `org:<feature>:<permission>` into its non-empty parts.
fn split_permission_chars(p: &[char]) -> (r: Option<(Vec<char>, Vec<char>)>)
    ensures
        match split_permission(p@) {
            Some((f, v)) => r matches Some((a, b)) && a@ == f && b@ == v,
            None => r is None,
        },
{
    let mut prefix: Vec<char> = Vec::new();
    prefix.push('o');
    prefix.push('r');
    prefix.push('g');
    prefix.push(':');
    assert(prefix@ =~= org_prefix_text());
    if !crate::text::starts_with_chars(p, prefix.as_slice()) {
        return None;
    }
    let rest = copy_range(p, 4, p.len());
    assert(rest@ =~= p@.skip(4));
    let mut k: usize = 0;
    while k < rest.len() && rest[k] != ':'
        invariant
            k <= rest@.len(),
            forall|j: int| 0 <= j < k ==> rest@[j] != ':',
        decreases rest@.len() - k,
    {
        k = k + 1;
    }
    if k == rest.len() {
        assert(!rest@.contains(':'));
        return None;
    }
    proof {
        lemma_before_first_index(rest@, ':', k as int);
    }
    let feature = copy_range(rest.as_slice(), 0, k);
    let verb = copy_range(rest.as_slice(), k + 1, rest.len());
    assert(feature@ =~= rest@.take(k as int));
    assert(verb@ =~= rest@.skip(k + 1));
    if feature.len() == 0 || verb.len() == 0 {
        return None;
    }
    Some((feature, verb))
}

/// The position of `x` in `names`.
fn position_in(names: &Vec<Vec<char>>, x: &[char]) -> (r: usize)
    requires
        piece_views(names@).contains(x@),
    ensures
        r == position_of(piece_views(names@), x@),
        r < names@.len(),
{
    let ghost views = piece_views(names@);
    let mut i: usize = 0;
    assert(views.skip(0) =~= views);
    while i < names.len()
        invariant
            i <= names@.len(),
            views == piece_views(names@),
            views.contains(x@),
            forall|k: int| 0 <= k < i ==> views[k] != x@,
            position_of(views, x@) == i + position_of(views.skip(i as int), x@),
        decreases names@.len() - i,
    {
        assert(views[i as int] == names@[i as int]@);
        if same_chars(names[i].as_slice(), x) {
            assert(views.skip(i as int)[0] == x@);
            return i;
        }
        assert(views.skip(i as int).skip(1) =~= views.skip(i + 1));
        i = i + 1;
    }
    proof {
        let k = choose|k: int| 0 <= k < views.len() && views[k] == x@;
        assert(views[k] != x@);
    }
    0
}

/// Every element of `s` is among its distinct elements.
pub proof fn lemma_distinct_contains(s: Seq<Seq<char>>, k: int)
    requires
        0 <= k < s.len(),
    ensures
        distinct_in_order(s).contains(s[k]),
    decreases s.len(),
{
    let d = distinct_in_order(s.drop_last());
    if k < s.len() - 1 {
        lemma_distinct_contains(s.drop_last(), k);
        assert(s.drop_last()[k] == s[k]);
        if !d.contains(s.last()) {
            let j = choose|j: int| 0 <= j < d.len() && d[j] == s[k];
            assert(d.push(s.last())[j] == s[k]);
        }
    } else {
        if !d.contains(s.last()) {
            assert(d.push(s.last())[d.len() as int] == s.last());
        }
    }
}

/// Distinct elements are at most as many as the elements.
pub proof fn lemma_distinct_len(s: Seq<Seq<char>>)
    ensures
        distinct_in_order(s).len() <= s.len(),
    decreases s.len(),
{
    if s.len() > 0 {
        lemma_distinct_len(s.drop_last());
    }
}

/// The position of an element of `s` is below its length.
pub proof fn lemma_position_in_range(s: Seq<Seq<char>>, x: Seq<char>)
    requires
        s.contains(x),
    ensures
        0 <= position_of(s, x) < s.len(),
    decreases s.len(),
{
    if s[0] != x {
        let k = choose|k: int| 0 <= k < s.len() && s[k] == x;
        assert(s.skip(1)[k - 1] == x);
        lemma_position_in_range(s.skip(1), x);
    }
}

/// Appends `items` joined with `sep` to `out`.
fn push_joined(out: &mut String, items: &Vec<Vec<char>>, sep: char)
    ensures
        final(out)@ == old(out)@ + join_with(piece_views(items@), sep),
{
    let ghost views = piece_views(items@);
    let ghost start = out@;
    let mut i: usize = 0;
    assert(join_with(views.take(0), sep) =~= Seq::<char>::empty());
    assert(start + Seq::<char>::empty() =~= start);
    while i < items.len()
        invariant
            i <= items@.len(),
            views == piece_views(items@),
            out@ == start + join_with(views.take(i as int), sep),
        decreases items@.len() - i,
    {
        assert(views[i as int] == items@[i as int]@);
        assert(views.take(i + 1).drop_last() =~= views.take(i as int));
        if i > 0 {
            push_char(out, sep);
        }
        push_chars(out, items[i].as_slice());
        if i == 0 {
            assert(views.take(1) =~= seq![views[0]]);
        }
        assert(out@ =~= start + join_with(views.take(i + 1), sep));
        i = i + 1;
    }
    assert(views.take(items@.len() as int) =~= views);
}

impl PackedPermissions {
    /// Encodes `org:<feature>:<permission>` permissions: the distinct
    /// features (as `o:<feature>`) and verbs in order of first occurrence,
    /// and for each feature the mask of its verbs' positions.
    ///
    /// A permission not in that form is an error, since it could not
    /// round-trip through the decoder; so is a list of more than 128
    /// distinct verbs, which a mask cannot hold.
    pub fn encode(permissions: &[String]) -> (r: Result<Self, TestIssuerError>)
        ensures
            match first_malformed(permissions.deep_view()) {
                Some(i) => r matches Err(TestIssuerError::OrganizationPermission(m)) && m@ == permissions.deep_view()[i],
                None => {
                    let pairs = permission_pairs(permissions.deep_view());
                    let features = pair_features(pairs);
                    let verbs = pair_verbs(pairs);
                    if verbs.len() > 128 {
                        r matches Err(TestIssuerError::OrganizationPermission(m)) && m@
                            == too_many_permissions_message(verbs.len())
                    } else {
                        r matches Ok(packed) && {
                            &&& packed.features@ == features_text(features)
                            &&& packed.permissions@ == join_with(verbs, ',')
                            &&& packed.feature_permission_map@ == masks_text(pairs, features, verbs)
                        }
                    }
                },
            },
    {
        let ghost ps = permissions.deep_view();
        let mut pairs: Vec<(Vec<char>, Vec<char>)> = Vec::new();
        let mut features: Vec<Vec<char>> = Vec::new();
        let mut verbs: Vec<Vec<char>> = Vec::new();
        let mut i: usize = 0;
        assert(ps.take(0) =~= Seq::<Seq<char>>::empty());
        while i < permissions.len()
            invariant
                i <= permissions@.len(),
                ps == permissions.deep_view(),
                first_malformed(ps.take(i as int)) is None,
                crate::server::credentials::pair_views(pairs@) == permission_pairs(ps.take(i as int)),
                piece_views(features@) == pair_features(permission_pairs(ps.take(i as int))),
                piece_views(verbs@) == pair_verbs(permission_pairs(ps.take(i as int))),
                features@.len() <= i,
                verbs@.len() <= i,
            decreases permissions@.len() - i,
        {
            let ghost prefix = ps.take(i as int);
            let ghost next = ps.take(i + 1);
            assert(next.drop_last() =~= prefix);
            assert(next.last() == permissions@[i as int]@);
            let chars = chars_of(permissions[i].as_str());
            let (feature, verb) = match split_permission_chars(chars.as_slice()) {
                Some(parts) => parts,
                None => {
                    let mut m = String::new();
                    push_str(&mut m, permissions[i].as_str());
                    assert(first_malformed(next) == Some(i as int));
                    proof {
                        lemma_first_malformed_prefix(ps, i as int);
                    }
                    return Err(TestIssuerError::OrganizationPermission(m));
                },
            };
            let ghost pp = permission_pairs(next);
            assert(pp =~= permission_pairs(prefix).push((feature@, verb@)));
            assert(pp.map_values(|p: (Seq<char>, Seq<char>)| p.0) =~= permission_pairs(prefix).map_values(
                |p: (Seq<char>, Seq<char>)| p.0,
            ).push(feature@));
            assert(pp.map_values(|p: (Seq<char>, Seq<char>)| p.1) =~= permission_pairs(prefix).map_values(
                |p: (Seq<char>, Seq<char>)| p.1,
            ).push(verb@));
            assert(pp.map_values(|p: (Seq<char>, Seq<char>)| p.0).drop_last() =~= permission_pairs(prefix).map_values(
                |p: (Seq<char>, Seq<char>)| p.0,
            ));
            assert(pp.map_values(|p: (Seq<char>, Seq<char>)| p.1).drop_last() =~= permission_pairs(prefix).map_values(
                |p: (Seq<char>, Seq<char>)| p.1,
            ));
            let _ = index_of_or_push(&mut features, feature.as_slice());
            let _ = index_of_or_push(&mut verbs, verb.as_slice());
            let ghost before = crate::server::credentials::pair_views(pairs@);
            pairs.push((feature, verb));
            assert(crate::server::credentials::pair_views(pairs@) =~= before.push((
                pairs@[i as int].0@,
                pairs@[i as int].1@,
            )));
            i = i + 1;
        }
        assert(ps.take(permissions@.len() as int) =~= ps);
        let ghost pv = permission_pairs(ps);
        let ghost fv = pair_features(pv);
        let ghost vv = pair_verbs(pv);
        if verbs.len() > 128 {
            let mut m = String::new();
            push_decimal(&mut m, verbs.len() as u128);
            push_str(&mut m, " distinct permissions exceeds the 128 the v2 claim encoding allows");
            return Err(TestIssuerError::OrganizationPermission(m));
        }
        // One mask per feature over the verbs.
        let mut mask_texts: Vec<Vec<char>> = Vec::new();
        let mut k: usize = 0;
        while k < features.len()
            invariant
                k <= features@.len(),
                verbs@.len() <= 128,
                crate::server::credentials::pair_views(pairs@) == pv,
                piece_views(features@) == fv,
                piece_views(verbs@) == vv,
                vv == pair_verbs(pv),
                piece_views(mask_texts@) == fv.take(k as int).map_values(
                    |f: Seq<char>| decimal_text(feature_mask(pv, f, vv) as nat),
                ),
            decreases features@.len() - k,
        {
            assert(fv[k as int] == features@[k as int]@);
            let mut mask: u128 = 0;
            let mut j: usize = 0;
            assert(pv.take(0) =~= Seq::<(Seq<char>, Seq<char>)>::empty());
            while j < pairs.len()
                invariant
                    j <= pairs@.len(),
                    k < features@.len(),
                    verbs@.len() <= 128,
                    crate::server::credentials::pair_views(pairs@) == pv,
                    piece_views(features@) == fv,
                    piece_views(verbs@) == vv,
                    vv == pair_verbs(pv),
                    mask == feature_mask(pv.take(j as int), fv[k as int], vv),
                decreases pairs@.len() - j,
            {
                assert(pv[j as int] == (pairs@[j as int].0@, pairs@[j as int].1@));
                assert(pv.take(j + 1).drop_last() =~= pv.take(j as int));
                assert(pv.take(j + 1).last() == pv[j as int]);
                if same_chars(pairs[j].0.as_slice(), features[k].as_slice()) {
                    proof {
                        let vs = pv.map_values(|p: (Seq<char>, Seq<char>)| p.1);
                        assert(vs[j as int] == pv[j as int].1);
                        lemma_distinct_contains(vs, j as int);
                    }
                    let at = position_in(&verbs, pairs[j].1.as_slice());
                    mask = mask | (1u128 << (at as u32));
                }
                j = j + 1;
            }
            assert(pv.take(pairs@.len() as int) =~= pv);
            let mut text = String::new();
            push_decimal(&mut text, mask);
            let digits = chars_of(text.as_str());
            let ghost before = piece_views(mask_texts@);
            mask_texts.push(digits);
            assert(piece_views(mask_texts@) =~= before.push(decimal_text(mask as nat)));
            assert(fv.take(k + 1).map_values(|f: Seq<char>| decimal_text(feature_mask(pv, f, vv) as nat))
                =~= fv.take(k as int).map_values(|f: Seq<char>| decimal_text(feature_mask(pv, f, vv) as nat)).push(
                decimal_text(mask as nat),
            ));
            k = k + 1;
        }
        assert(fv.take(features@.len() as int) =~= fv);
        // `o:<feature>` for each feature.
        let mut feature_items: Vec<Vec<char>> = Vec::new();
        let mut k: usize = 0;
        while k < features.len()
            invariant
                k <= features@.len(),
                piece_views(features@) == fv,
                piece_views(feature_items@) == fv.take(k as int).map_values(|f: Seq<char>| seq!['o', ':'] + f),
            decreases features@.len() - k,
        {
            assert(fv[k as int] == features@[k as int]@);
            let mut item: Vec<char> = Vec::new();
            item.push('o');
            item.push(':');
            let mut c: usize = 0;
            while c < features[k].len()
                invariant
                    k < features@.len(),
                    c <= features@[k as int]@.len(),
                    item@ == seq!['o', ':'] + features@[k as int]@.take(c as int),
                decreases features@[k as int]@.len() - c,
            {
                item.push(features[k][c]);
                assert(features@[k as int]@.take(c + 1) =~= features@[k as int]@.take(c as int).push(
                    features@[k as int]@[c as int],
                ));
                assert(item@ =~= seq!['o', ':'] + features@[k as int]@.take(c + 1));
                c = c + 1;
            }
            assert(features@[k as int]@.take(features@[k as int]@.len() as int) =~= features@[k as int]@);
            let ghost before = piece_views(feature_items@);
            feature_items.push(item);
            assert(piece_views(feature_items@) =~= before.push(seq!['o', ':'] + fv[k as int]));
            assert(fv.take(k + 1).map_values(|f: Seq<char>| seq!['o', ':'] + f) =~= fv.take(k as int).map_values(
                |f: Seq<char>| seq!['o', ':'] + f,
            ).push(seq!['o', ':'] + fv[k as int]));
            k = k + 1;
        }
        assert(fv.take(features@.len() as int) =~= fv);
        let mut features_out = String::new();
        push_joined(&mut features_out, &feature_items, ',');
        let mut permissions_out = String::new();
        push_joined(&mut permissions_out, &verbs, ',');
        let mut masks_out = String::new();
        push_joined(&mut masks_out, &mask_texts, ',');
        assert(features_out@ =~= features_text(fv));
        assert(permissions_out@ =~= join_with(vv, ','));
        assert(masks_out@ =~= masks_text(pv, fv, vv));
        Ok(PackedPermissions {
            features: features_out,
            permissions: permissions_out,
            feature_permission_map: masks_out,
        })
    }
}

/// The first malformed permission of a list is the first one of its
/// first `i + 1` that is malformed, when the first `i` are all well formed.
proof fn lemma_first_malformed_prefix(ps: Seq<Seq<char>>, i: int)
    requires
        0 <= i < ps.len(),
        first_malformed(ps.take(i + 1)) == Some(i),
    ensures
        first_malformed(ps) == Some(i),
    decreases ps.len(),
{
    if ps.len() > i + 1 {
        assert(ps.drop_last().take(i + 1) =~= ps.take(i + 1));
        lemma_first_malformed_prefix(ps.drop_last(), i);
    } else {
        assert(ps.take(i + 1) =~= ps);
    }
}

/// Appending text without `sep` extends the last piece of a split.
pub proof fn lemma_split_append_plain(u: Seq<char>, t: Seq<char>, sep: char)
    requires
        !t.contains(sep),
    ensures
        split_on(u + t, sep) == split_on(u, sep).update(
            split_on(u, sep).len() - 1,
            split_on(u, sep).last() + t,
        ),
    decreases t.len(),
{
    crate::text::lemma_split_on_nonempty(u, sep);
    let su = split_on(u, sep);
    if t.len() == 0 {
        assert(u + t =~= u);
        assert(su.last() + t =~= su.last());
        assert(su.update(su.len() - 1, su.last()) =~= su);
    } else {
        let t0 = t.drop_last();
        let c = t.last();
        assert(!t0.contains(sep)) by {
            if t0.contains(sep) {
                let k = choose|k: int| 0 <= k < t0.len() && t0[k] == sep;
                assert(t[k] == sep);
            }
        }
        assert(c != sep) by {
            assert(t[t.len() - 1] == c);
        }
        lemma_split_append_plain(u, t0, sep);
        let w = u + t;
        assert(w.drop_last() =~= u + t0);
        assert(w.last() == c);
        crate::text::lemma_split_on_nonempty(u + t0, sep);
        let rest = split_on(u + t0, sep);
        assert(rest.len() == su.len());
        assert(rest.last() == su.last() + t0);
        assert((su.last() + t0).push(c) =~= su.last() + t);
        assert(rest.update(rest.len() - 1, rest.last().push(c)) =~= su.update(su.len() - 1, su.last() + t));
    }
}

/// Splitting a join gives back the pieces, when none of them holds the
/// separator.
pub proof fn lemma_split_join(items: Seq<Seq<char>>, sep: char)
    requires
        items.len() >= 1,
        forall|k: int| 0 <= k < items.len() ==> !(#[trigger] items[k]).contains(sep),
    ensures
        split_on(join_with(items, sep), sep) == items,
    decreases items.len(),
{
    let e = Seq::<char>::empty();
    assert(split_on(e, sep) == seq![e]);
    if items.len() == 1 {
        assert(!items[0].contains(sep));
        lemma_split_append_plain(e, items[0], sep);
        assert(e + items[0] =~= items[0]);
        assert(seq![e].update(0, e + items[0]) =~= items);
    } else {
        let init = items.drop_last();
        let last = items.last();
        assert forall|k: int| 0 <= k < init.len() implies !(#[trigger] init[k]).contains(sep) by {
            assert(init[k] == items[k]);
        }
        assert(!last.contains(sep)) by {
            assert(items[items.len() - 1] == last);
        }
        lemma_split_join(init, sep);
        let head = join_with(init, sep).push(sep);
        assert(head.drop_last() =~= join_with(init, sep));
        assert(head.last() == sep);
        assert(split_on(head, sep) == init.push(e));
        lemma_split_append_plain(head, last, sep);
        assert(e + last =~= last);
        assert(init.push(e).update(init.len() as int, e + last) =~= items);
    }
}

/// Setting bit `p` sets exactly that bit.
proof fn lemma_or_bit(a: u128, p: u32, j: u32)
    requires
        p < 128,
        j < 128,
    ensures
        crate::server::claims::bit_set(a | (1u128 << p), j) == (crate::server::claims::bit_set(a, j) || p == j),
{
    assert(((a | (1u128 << p)) & (1u128 << j) != 0) == ((a & (1u128 << j) != 0) || p == j)) by (bit_vector)
        requires
            p < 128,
            j < 128,
    ;
}

/// Setting a bit below `n` keeps a mask below `2^n`.
proof fn lemma_or_bit_fits(a: u128, p: u32, n: u32)
    requires
        p < n < 128,
        a >> n == 0,
    ensures
        (a | (1u128 << p)) >> n == 0,
{
    assert((a | (1u128 << p)) >> n == 0) by (bit_vector)
        requires
            p < n < 128,
            a >> n == 0,
    ;
}

/// No bit of zero is set.
proof fn lemma_zero_bits(j: u32)
    requires
        j < 128,
    ensures
        !crate::server::claims::bit_set(0u128, j),
        (0u128 >> j) == 0,
{
    assert((0u128 & (1u128 << j)) == 0 && (0u128 >> j) == 0) by (bit_vector)
        requires
            j < 128,
    ;
}

/// Bit `j` of a feature's mask is set exactly when some pair of that
/// feature has a verb at position `j`.
pub proof fn lemma_feature_mask_bits(
    pairs: Seq<(Seq<char>, Seq<char>)>,
    f: Seq<char>,
    verbs: Seq<Seq<char>>,
    j: u32,
)
    requires
        j < 128,
        forall|i: int| 0 <= i < pairs.len() ==> 0 <= #[trigger] position_of(verbs, pairs[i].1) < 128,
    ensures
        crate::server::claims::bit_set(feature_mask(pairs, f, verbs), j) <==> exists|i: int|
            0 <= i < pairs.len() && pairs[i].0 == f && #[trigger] position_of(verbs, pairs[i].1) == j,
    decreases pairs.len(),
{
    if pairs.len() == 0 {
        lemma_zero_bits(j);
    } else {
        let init = pairs.drop_last();
        let last = pairs.last();
        assert forall|i: int| 0 <= i < init.len() implies 0 <= #[trigger] position_of(verbs, init[i].1) < 128 by {
            assert(init[i] == pairs[i]);
            assert(0 <= position_of(verbs, pairs[i].1) < 128);
        }
        lemma_feature_mask_bits(init, f, verbs, j);
        assert(0 <= position_of(verbs, pairs[pairs.len() - 1].1) < 128);
        if last.0 == f {
            lemma_or_bit(feature_mask(init, f, verbs), position_of(verbs, last.1) as u32, j);
        }
        if exists|i: int| 0 <= i < pairs.len() && pairs[i].0 == f && #[trigger] position_of(verbs, pairs[i].1) == j {
            let i = choose|i: int|
                0 <= i < pairs.len() && pairs[i].0 == f && #[trigger] position_of(verbs, pairs[i].1) == j;
            if i < init.len() {
                assert(init[i] == pairs[i]);
            }
        }
        if exists|i: int| 0 <= i < init.len() && init[i].0 == f && #[trigger] position_of(verbs, init[i].1) == j {
            let i = choose|i: int|
                0 <= i < init.len() && init[i].0 == f && #[trigger] position_of(verbs, init[i].1) == j;
            assert(pairs[i] == init[i]);
        }
    }
}

/// A feature's mask has no bit at or above the number of verbs, when every
/// pair's verb has a position below it.
pub proof fn lemma_feature_mask_fits(pairs: Seq<(Seq<char>, Seq<char>)>, f: Seq<char>, verbs: Seq<Seq<char>>)
    requires
        verbs.len() <= 128,
        forall|i: int| 0 <= i < pairs.len() ==> 0 <= #[trigger] position_of(verbs, pairs[i].1) < verbs.len(),
    ensures
        crate::server::claims::mask_fits(feature_mask(pairs, f, verbs), verbs.len()),
    decreases pairs.len(),
{
    if verbs.len() < 128 {
        if pairs.len() == 0 {
            lemma_zero_bits(verbs.len() as u32);
        } else {
            let init = pairs.drop_last();
            assert forall|i: int| 0 <= i < init.len() implies 0 <= #[trigger] position_of(verbs, init[i].1)
                < verbs.len() by {
                assert(init[i] == pairs[i]);
                assert(0 <= position_of(verbs, pairs[i].1) < verbs.len());
            }
            lemma_feature_mask_fits(init, f, verbs);
            assert(0 <= position_of(verbs, pairs[pairs.len() - 1].1) < verbs.len());
            if pairs.last().0 == f {
                lemma_or_bit_fits(
                    feature_mask(init, f, verbs),
                    position_of(verbs, pairs.last().1) as u32,
                    verbs.len() as u32,
                );
            }
        }
    }
}

/// An element of the distinct elements is an element.
pub proof fn lemma_distinct_from(s: Seq<Seq<char>>, y: Seq<char>)
    requires
        distinct_in_order(s).contains(y),
    ensures
        s.contains(y),
    decreases s.len(),
{
    let d = distinct_in_order(s.drop_last());
    if s.len() > 0 {
        if d.contains(y) {
            lemma_distinct_from(s.drop_last(), y);
            let k = choose|k: int| 0 <= k < s.drop_last().len() && s.drop_last()[k] == y;
            assert(s[k] == y);
        } else {
            let e = d.push(s.last());
            let k = choose|k: int| 0 <= k < e.len() && e[k] == y;
            if k < d.len() {
                assert(e[k] == d[k]);
            } else {
                assert(s[s.len() - 1] == y);
            }
        }
    }
}

/// The distinct elements hold each value once.
pub proof fn lemma_distinct_unique(s: Seq<Seq<char>>)
    ensures
        forall|a: int, b: int|
            0 <= a < b < distinct_in_order(s).len() ==> #[trigger] distinct_in_order(s)[a] != #[trigger] distinct_in_order(
                s,
            )[b],
    decreases s.len(),
{
    if s.len() > 0 {
        lemma_distinct_unique(s.drop_last());
        let d = distinct_in_order(s.drop_last());
        if !d.contains(s.last()) {
            let e = d.push(s.last());
            assert forall|a: int, b: int| 0 <= a < b < e.len() implies #[trigger] e[a] != #[trigger] e[b] by {
                if b == d.len() {
                    assert(e[a] == d[a]);
                    if e[a] == e[b] {
                        assert(d.contains(s.last()));
                    }
                } else {
                    assert(e[a] == d[a] && e[b] == d[b]);
                }
            }
        }
    }
}

/// The element at the position of a member is that member.
pub proof fn lemma_at_position(d: Seq<Seq<char>>, x: Seq<char>)
    requires
        d.contains(x),
    ensures
        0 <= position_of(d, x) < d.len(),
        d[position_of(d, x)] == x,
    decreases d.len(),
{
    lemma_position_in_range(d, x);
    if d[0] != x {
        let k = choose|k: int| 0 <= k < d.len() && d[k] == x;
        assert(d.skip(1)[k - 1] == x);
        lemma_at_position(d.skip(1), x);
        assert(d.skip(1)[position_of(d.skip(1), x)] == d[position_of(d.skip(1), x) + 1]);
    }
}

/// A well-formed list has no malformed entry.
pub proof fn lemma_first_malformed_none(ps: Seq<Seq<char>>)
    requires
        first_malformed(ps) is None,
    ensures
        forall|i: int| 0 <= i < ps.len() ==> (split_permission(#[trigger] ps[i]) is Some),
    decreases ps.len(),
{
    if ps.len() > 0 {
        lemma_first_malformed_none(ps.drop_last());
        assert forall|i: int| 0 <= i < ps.len() implies (split_permission(#[trigger] ps[i]) is Some) by {
            if i < ps.len() - 1 {
                assert(ps.drop_last()[i] == ps[i]);
            }
        }
    }
}

/// A well-formed permission is the name of its parts.
pub proof fn lemma_split_permission_name(p: Seq<char>)
    requires
        split_permission(p) is Some,
    ensures
        crate::server::claims::permission_name((split_permission(p)->0).0, (split_permission(p)->0).1) == p,
        (split_permission(p)->0).0.len() > 0,
        (split_permission(p)->0).1.len() > 0,
        !(split_permission(p)->0).0.contains(':'),
{
    let rest = p.skip(4);
    let f = before_first(rest, ':');
    lemma_first_colon(rest);
    lemma_before_first_index(rest, ':', first_colon(rest));
    let c = first_colon(rest);
    assert(f =~= rest.take(c));
    let v = rest.skip(f.len() as int + 1);
    assert(rest =~= f + seq![':'] + v);
    assert(p.take(4) =~= org_prefix_text());
    assert(p =~= org_prefix_text() + rest);
    assert(crate::server::claims::org_prefix() =~= org_prefix_text());
    assert(crate::server::claims::permission_name(f, v) =~= p);
    if f.contains(':') {
        let j = choose|j: int| 0 <= j < f.len() && f[j] == ':';
        assert(rest[j] == ':');
    }
}

/// The index of the first `:` of a sequence holding one.
pub open spec fn first_colon(s: Seq<char>) -> int
    decreases s.len(),
{
    if s.len() == 0 {
        0
    } else if s[0] == ':' {
        0
    } else {
        1 + first_colon(s.skip(1))
    }
}

/// The first `:` is at `first_colon`.
pub proof fn lemma_first_colon(s: Seq<char>)
    requires
        s.contains(':'),
    ensures
        0 <= first_colon(s) < s.len(),
        s[first_colon(s)] == ':',
        forall|j: int| 0 <= j < first_colon(s) ==> s[j] != ':',
    decreases s.len(),
{
    if s[0] != ':' {
        let k = choose|k: int| 0 <= k < s.len() && s[k] == ':';
        assert(s.skip(1)[k - 1] == ':');
        lemma_first_colon(s.skip(1));
        assert forall|j: int| 0 <= j < first_colon(s) implies s[j] != ':' by {
            if j > 0 {
                assert(s[j] == s.skip(1)[j - 1]);
            }
        }
        assert(s[first_colon(s)] == s.skip(1)[first_colon(s.skip(1))]);
    }
}

/// Membership in a concatenation.
proof fn lemma_concat_contains(a: Seq<Seq<char>>, b: Seq<Seq<char>>, x: Seq<char>)
    ensures
        (a + b).contains(x) <==> (a.contains(x) || b.contains(x)),
{
    if (a + b).contains(x) {
        let k = choose|k: int| 0 <= k < (a + b).len() && (a + b)[k] == x;
        if k < a.len() {
            assert(a[k] == x);
        } else {
            assert(b[k - a.len()] == x);
        }
    }
    if a.contains(x) {
        let k = choose|k: int| 0 <= k < a.len() && a[k] == x;
        assert((a + b)[k] == x);
    }
    if b.contains(x) {
        let k = choose|k: int| 0 <= k < b.len() && b[k] == x;
        assert((a + b)[k + a.len()] == x);
    }
}

/// A permission is granted for `feature` exactly when its bit is set.
pub proof fn lemma_granted_contains(feature: Seq<char>, ps: Seq<Seq<char>>, mask: u128, n: nat, x: Seq<char>)
    requires
        n <= ps.len(),
        n <= 128,
    ensures
        crate::server::claims::granted_permissions(feature, ps, mask, n).contains(x) <==> exists|j: int|
            0 <= j < n && #[trigger] crate::server::claims::bit_set(mask, j as u32) && x
                == crate::server::claims::permission_name(feature, ps[j]),
    decreases n,
{
    if n > 0 {
        let m = (n - 1) as nat;
        lemma_granted_contains(feature, ps, mask, m, x);
        let earlier = crate::server::claims::granted_permissions(feature, ps, mask, m);
        let name = crate::server::claims::permission_name(feature, ps[m as int]);
        if crate::server::claims::bit_set(mask, m as u32) {
            lemma_concat_contains(earlier, seq![name], x);
            assert(earlier.push(name) =~= earlier + seq![name]);
            if seq![name].contains(x) {
                let k = choose|k: int| 0 <= k < 1 && seq![name][k] == x;
                assert(x == name);
            }
            if x == name {
                assert(seq![name][0] == x);
            }
        }
        if exists|j: int|
            0 <= j < n && #[trigger] crate::server::claims::bit_set(mask, j as u32) && x
                == crate::server::claims::permission_name(feature, ps[j]) {
            let j = choose|j: int|
                0 <= j < n && #[trigger] crate::server::claims::bit_set(mask, j as u32) && x
                    == crate::server::claims::permission_name(feature, ps[j]);
            if j == m {
                assert(crate::server::claims::bit_set(mask, m as u32));
            }
        }
    }
}

/// A permission is among the decoded ones exactly when some organization
/// feature grants it.
pub proof fn lemma_feature_permissions_contains(
    fs: Seq<Seq<char>>,
    ps: Seq<Seq<char>>,
    masks: Seq<u128>,
    k: nat,
    x: Seq<char>,
)
    requires
        k <= fs.len(),
        k <= masks.len(),
    ensures
        crate::server::claims::feature_permissions(fs, ps, masks, k).contains(x) <==> exists|i: int|
            0 <= i < k && has_prefix(fs[i], crate::server::claims::org_feature_prefix())
                && #[trigger] crate::server::claims::granted_permissions(fs[i].skip(2), ps, masks[i], ps.len()).contains(
                x,
            ),
    decreases k,
{
    if k > 0 {
        let m = (k - 1) as nat;
        lemma_feature_permissions_contains(fs, ps, masks, m, x);
        let earlier = crate::server::claims::feature_permissions(fs, ps, masks, m);
        let f = fs[m as int];
        let g = crate::server::claims::granted_permissions(f.skip(2), ps, masks[m as int], ps.len());
        if has_prefix(f, crate::server::claims::org_feature_prefix()) {
            lemma_concat_contains(earlier, g, x);
        }
    }
}

/// Two permission names with colon-free features are equal only for equal
/// features and equal permissions.
proof fn lemma_permission_name_injective(f1: Seq<char>, v1: Seq<char>, f2: Seq<char>, v2: Seq<char>)
    requires
        !f1.contains(':'),
        !f2.contains(':'),
        crate::server::claims::permission_name(f1, v1) == crate::server::claims::permission_name(f2, v2),
    ensures
        f1 == f2,
        v1 == v2,
{
    let n = crate::server::claims::permission_name(f1, v1);
    let l1 = f1.len() as int;
    let l2 = f2.len() as int;
    assert(n == crate::server::claims::permission_name(f2, v2));
    assert(n[4 + l1] == ':');
    assert(n[4 + l2] == ':');
    if f1.len() < f2.len() {
        assert(f2[l1] == n[4 + l1]);
    } else if f2.len() < f1.len() {
        assert(f1[l2] == n[4 + l2]);
    }
    assert(f1 =~= n.subrange(4, 4 + l1));
    assert(f2 =~= n.subrange(4, 4 + l2));
    assert(v1 =~= n.skip(5 + l1));
    assert(v2 =~= n.skip(5 + l2));
}

/// The permissions granted for one colon-free feature never repeat when the
/// permission list holds no repeats.
proof fn lemma_granted_distinct(feature: Seq<char>, ps: Seq<Seq<char>>, mask: u128, n: nat)
    requires
        n <= ps.len(),
        n <= 128,
        !feature.contains(':'),
        forall|a: int, b: int| 0 <= a < b < ps.len() ==> #[trigger] ps[a] != #[trigger] ps[b],
    ensures
        crate::server::claims::granted_permissions(feature, ps, mask, n).no_duplicates(),
    decreases n,
{
    if n > 0 {
        let m = (n - 1) as nat;
        lemma_granted_distinct(feature, ps, mask, m);
        let earlier = crate::server::claims::granted_permissions(feature, ps, mask, m);
        if crate::server::claims::bit_set(mask, m as u32) {
            let name = crate::server::claims::permission_name(feature, ps[m as int]);
            assert(!earlier.contains(name)) by {
                lemma_granted_contains(feature, ps, mask, m, name);
                if earlier.contains(name) {
                    let j = choose|j: int|
                        0 <= j < m && #[trigger] crate::server::claims::bit_set(mask, j as u32) && name
                            == crate::server::claims::permission_name(feature, ps[j]);
                    lemma_permission_name_injective(feature, ps[j], feature, ps[m as int]);
                }
            }
            let e = earlier.push(name);
            assert forall|a: int, b: int| 0 <= a < e.len() && 0 <= b < e.len() && a != b implies e[a]
                != e[b] by {
                if a == earlier.len() {
                    assert(earlier.contains(e[b]));
                } else if b == earlier.len() {
                    assert(earlier.contains(e[a]));
                }
            }
        }
    }
}

/// The permissions that distinct colon-free organization features grant never
/// repeat when the permission list holds no repeats.
proof fn lemma_feature_permissions_distinct(fs: Seq<Seq<char>>, ps: Seq<Seq<char>>, masks: Seq<u128>, k: nat)
    requires
        k <= fs.len(),
        k <= masks.len(),
        ps.len() <= 128,
        forall|a: int, b: int| 0 <= a < b < ps.len() ==> #[trigger] ps[a] != #[trigger] ps[b],
        forall|i: int| 0 <= i < k ==> has_prefix(#[trigger] fs[i], crate::server::claims::org_feature_prefix()),
        forall|i: int| 0 <= i < k ==> !(#[trigger] fs[i]).skip(2).contains(':'),
        forall|a: int, b: int| 0 <= a < b < k ==> (#[trigger] fs[a]).skip(2) != (#[trigger] fs[b]).skip(2),
    ensures
        crate::server::claims::feature_permissions(fs, ps, masks, k).no_duplicates(),
    decreases k,
{
    if k > 0 {
        let m = (k - 1) as nat;
        lemma_feature_permissions_distinct(fs, ps, masks, m);
        let earlier = crate::server::claims::feature_permissions(fs, ps, masks, m);
        let f = fs[m as int].skip(2);
        let g = crate::server::claims::granted_permissions(f, ps, masks[m as int], ps.len());
        assert(has_prefix(fs[m as int], crate::server::claims::org_feature_prefix()));
        lemma_granted_distinct(f, ps, masks[m as int], ps.len());
        assert forall|i: int, j: int| 0 <= i < earlier.len() && 0 <= j < g.len() implies earlier[i]
            != g[j] by {
            let x = earlier[i];
            let y = g[j];
            assert(earlier.contains(x));
            assert(g.contains(y));
            lemma_feature_permissions_contains(fs, ps, masks, m, x);
            let a = choose|a: int|
                0 <= a < m && has_prefix(fs[a], crate::server::claims::org_feature_prefix())
                    && #[trigger] crate::server::claims::granted_permissions(fs[a].skip(2), ps, masks[a], ps.len()).contains(
                    x,
                );
            lemma_granted_contains(fs[a].skip(2), ps, masks[a], ps.len(), x);
            let ja = choose|ja: int|
                0 <= ja < ps.len() && #[trigger] crate::server::claims::bit_set(masks[a], ja as u32) && x
                    == crate::server::claims::permission_name(fs[a].skip(2), ps[ja]);
            lemma_granted_contains(f, ps, masks[m as int], ps.len(), y);
            let jb = choose|jb: int|
                0 <= jb < ps.len() && #[trigger] crate::server::claims::bit_set(masks[m as int], jb as u32) && y
                    == crate::server::claims::permission_name(f, ps[jb]);
            if x == y {
                lemma_permission_name_injective(fs[a].skip(2), ps[ja], f, ps[jb]);
            }
        }
        vstd::seq_lib::lemma_no_dup_in_concat(earlier, g);
    }
}

/// Permissions encoded by [`PackedPermissions::encode`] decode back to the
/// same set, each once: the decoder of `fea` / `per` / `fpm` yields a
/// permission exactly when it was encoded, and never yields one twice.
/// Holds for every list the encoder accepts (non-empty, every entry
/// `org:<feature>:<permission>`, at most 128 distinct verbs) whose entries
/// hold no comma, the claims' separator.
#[verifier::rlimit(40)]
pub proof fn lemma_packed_permissions_round_trip(ps: Seq<Seq<char>>, x: Seq<char>)
    requires
        ps.len() > 0,
        first_malformed(ps) is None,
        pair_verbs(permission_pairs(ps)).len() <= 128,
        forall|i: int| 0 <= i < ps.len() ==> !(#[trigger] ps[i]).contains(','),
    ensures
        crate::server::claims::decoded_permissions(
            Some(features_text(pair_features(permission_pairs(ps)))),
            Some(join_with(pair_verbs(permission_pairs(ps)), ',')),
            Some(
                masks_text(
                    permission_pairs(ps),
                    pair_features(permission_pairs(ps)),
                    pair_verbs(permission_pairs(ps)),
                ),
            ),
        ).contains(x) <==> ps.contains(x),
        crate::server::claims::decoded_permissions(
            Some(features_text(pair_features(permission_pairs(ps)))),
            Some(join_with(pair_verbs(permission_pairs(ps)), ',')),
            Some(
                masks_text(
                    permission_pairs(ps),
                    pair_features(permission_pairs(ps)),
                    pair_verbs(permission_pairs(ps)),
                ),
            ),
        ).no_duplicates(),
{
    let pairs = permission_pairs(ps);
    let fnames = pairs.map_values(|p: (Seq<char>, Seq<char>)| p.0);
    let vnames = pairs.map_values(|p: (Seq<char>, Seq<char>)| p.1);
    let feats = pair_features(pairs);
    let verbs = pair_verbs(pairs);
    lemma_first_malformed_none(ps);
    // Each entry is the name of its parts, and the parts hold no comma.
    assert forall|i: int| 0 <= i < ps.len() implies {
        &&& #[trigger] pairs[i] == split_permission(ps[i])->0
        &&& crate::server::claims::permission_name(pairs[i].0, pairs[i].1) == ps[i]
        &&& pairs[i].0.len() > 0
        &&& pairs[i].1.len() > 0
        &&& !pairs[i].0.contains(',')
        &&& !pairs[i].1.contains(',')
        &&& !pairs[i].0.contains(':')
    } by {
        assert(split_permission(ps[i]) is Some);
        lemma_split_permission_name(ps[i]);
        let n = crate::server::claims::permission_name(pairs[i].0, pairs[i].1);
        if pairs[i].0.contains(',') {
            let k = choose|k: int| 0 <= k < pairs[i].0.len() && pairs[i].0[k] == ',';
            assert(n[4 + k] == ',');
        }
        if pairs[i].1.contains(',') {
            let k = choose|k: int| 0 <= k < pairs[i].1.len() && pairs[i].1[k] == ',';
            assert(n[4 + pairs[i].0.len() + 1 + k] == ',');
        }
        assert(!ps[i].contains(','));
    }
    // Features and verbs: members come from the pairs, and none repeats.
    lemma_distinct_unique(fnames);
    lemma_distinct_unique(vnames);
    assert forall|k: int| 0 <= k < feats.len() implies {
        &&& #[trigger] feats[k].len() > 0
        &&& !feats[k].contains(',')
        &&& !feats[k].contains(':')
    } by {
        assert(feats.contains(feats[k]));
        lemma_distinct_from(fnames, feats[k]);
        let i = choose|i: int| 0 <= i < fnames.len() && fnames[i] == feats[k];
        assert(fnames[i] == pairs[i].0);
    }
    assert forall|k: int| 0 <= k < verbs.len() implies {
        &&& #[trigger] verbs[k].len() > 0
        &&& !verbs[k].contains(',')
    } by {
        assert(verbs.contains(verbs[k]));
        lemma_distinct_from(vnames, verbs[k]);
        let i = choose|i: int| 0 <= i < vnames.len() && vnames[i] == verbs[k];
        assert(vnames[i] == pairs[i].1);
    }
    assert forall|i: int| 0 <= i < pairs.len() implies {
        &&& feats.contains(#[trigger] pairs[i].0)
        &&& verbs.contains(pairs[i].1)
        &&& 0 <= position_of(verbs, pairs[i].1) < verbs.len()
        &&& verbs[position_of(verbs, pairs[i].1)] == pairs[i].1
    } by {
        assert(fnames[i] == pairs[i].0);
        assert(vnames[i] == pairs[i].1);
        lemma_distinct_contains(fnames, i);
        lemma_distinct_contains(vnames, i);
        lemma_at_position(verbs, pairs[i].1);
    }
    assert(feats.len() > 0) by {
        assert(feats.contains(pairs[0].0));
    }
    assert(verbs.len() > 0) by {
        assert(verbs.contains(pairs[0].1));
    }
    // The three claims split back into their entries.
    let fitems = feats.map_values(|f: Seq<char>| seq!['o', ':'] + f);
    assert forall|k: int| 0 <= k < fitems.len() implies !(#[trigger] fitems[k]).contains(',') by {
        assert(fitems[k] == seq!['o', ':'] + feats[k]);
        if fitems[k].contains(',') {
            let j = choose|j: int| 0 <= j < fitems[k].len() && fitems[k][j] == ',';
            if j >= 2 {
                assert(feats[k][j - 2] == ',');
            }
        }
    }
    lemma_split_join(fitems, ',');
    lemma_split_join(verbs, ',');
    let mitems = feats.map_values(|f: Seq<char>| decimal_text(feature_mask(pairs, f, verbs) as nat));
    assert forall|k: int| 0 <= k < mitems.len() implies !(#[trigger] mitems[k]).contains(',') by {
        crate::text::lemma_decimal_text(feature_mask(pairs, feats[k], verbs) as nat);
        if mitems[k].contains(',') {
            let j = choose|j: int| 0 <= j < mitems[k].len() && mitems[k][j] == ',';
            assert('0' <= mitems[k][j] <= '9');
        }
    }
    lemma_split_join(mitems, ',');
    let fs = split_on(features_text(feats), ',');
    let vs = split_on(join_with(verbs, ','), ',');
    let ms = split_on(masks_text(pairs, feats, verbs), ',');
    assert(fs == fitems);
    assert(vs == verbs);
    assert(ms == mitems);
    // The layout is one the decoder accepts.
    let masks = crate::server::claims::parsed_masks(ms);
    assert forall|k: int| 0 <= k < ms.len() implies {
        &&& (crate::text::parse_u128_spec(#[trigger] ms[k]) is Some)
        &&& masks[k] == feature_mask(pairs, feats[k], verbs)
        &&& crate::server::claims::mask_fits(masks[k], verbs.len())
    } by {
        crate::text::lemma_parse_decimal(feature_mask(pairs, feats[k], verbs));
        lemma_feature_mask_fits(pairs, feats[k], verbs);
    }
    assert forall|k: int| 0 <= k < fs.len() implies !crate::server::claims::feature_malformed(#[trigger] fs[k]) by {
        assert(fs[k] == seq!['o', ':'] + feats[k]);
        assert(fs[k].len() >= 3);
    }
    assert(crate::server::claims::permission_layout_valid(fs, vs, ms));
    let decoded = crate::server::claims::feature_permissions(fs, vs, masks, fs.len());
    assert(crate::server::claims::decoded_permissions(
        Some(features_text(feats)),
        Some(join_with(verbs, ',')),
        Some(masks_text(pairs, feats, verbs)),
    ) == decoded);
    lemma_feature_permissions_contains(fs, vs, masks, fs.len(), x);
    // Each organization feature grants the verbs its mask holds.
    assert forall|k: int| 0 <= k < fs.len() implies {
        &&& has_prefix(#[trigger] fs[k], crate::server::claims::org_feature_prefix())
        &&& fs[k].skip(2) == feats[k]
    } by {
        assert(fs[k] == seq!['o', ':'] + feats[k]);
        assert(fs[k].take(2) =~= crate::server::claims::org_feature_prefix());
        assert(fs[k].skip(2) =~= feats[k]);
    }
    lemma_feature_permissions_distinct(fs, vs, masks, fs.len());
    if decoded.contains(x) {
        let k = choose|k: int|
            0 <= k < fs.len() && has_prefix(fs[k], crate::server::claims::org_feature_prefix())
                && #[trigger] crate::server::claims::granted_permissions(fs[k].skip(2), vs, masks[k], vs.len()).contains(
                x,
            );
        lemma_granted_contains(feats[k], verbs, masks[k], verbs.len(), x);
        let j = choose|j: int|
            0 <= j < verbs.len() && #[trigger] crate::server::claims::bit_set(masks[k], j as u32) && x
                == crate::server::claims::permission_name(feats[k], verbs[j]);
        lemma_feature_mask_bits(pairs, feats[k], verbs, j as u32);
        let i = choose|i: int|
            0 <= i < pairs.len() && pairs[i].0 == feats[k] && #[trigger] position_of(verbs, pairs[i].1) == j as u32;
        assert(verbs[j] == pairs[i].1);
        assert(ps[i] == x);
        assert(ps.contains(x));
    }
    if ps.contains(x) {
        let i = choose|i: int| 0 <= i < ps.len() && ps[i] == x;
        let f = pairs[i].0;
        let v = pairs[i].1;
        lemma_at_position(feats, f);
        let k = position_of(feats, f);
        let j = position_of(verbs, v);
        lemma_feature_mask_bits(pairs, f, verbs, j as u32);
        assert(crate::server::claims::bit_set(masks[k], j as u32));
        lemma_granted_contains(feats[k], verbs, masks[k], verbs.len(), x);
        assert(x == crate::server::claims::permission_name(feats[k], verbs[j]));
        assert(crate::server::claims::granted_permissions(feats[k], verbs, masks[k], verbs.len()).contains(x));
        assert(crate::server::claims::granted_permissions(fs[k].skip(2), vs, masks[k], vs.len()).contains(x));
        assert(decoded.contains(x));
    }
}

} // verus!
