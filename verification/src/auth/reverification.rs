//! Step-up reverification levels: the authentication-factor level a
//! reverification prompt requires.
use vstd::prelude::*;

use crate::text::same_text;

verus! {

/// Whether `s` is one of the level strings with a named variant.
pub open spec fn is_known_level(s: Seq<char>) -> bool {
    s == "first_factor"@ || s == "second_factor"@ || s == "multi_factor"@
}

/// The raw clerk-js string of a level.
pub open spec fn level_text(level: ReverificationLevel) -> Seq<char> {
    match level {
        ReverificationLevel::FirstFactor => "first_factor"@,
        ReverificationLevel::SecondFactor => "second_factor"@,
        ReverificationLevel::MultiFactor => "multi_factor"@,
        ReverificationLevel::Other(other) => other@,
    }
}

/// The authentication-factor level a step-up reverification requires,
/// mirroring clerk-js's `SessionVerificationLevel`.
///
/// Levels this crate has not named yet round-trip through
/// [`ReverificationLevel::Other`].
#[derive(Debug, PartialEq, Eq, Hash)]
#[non_exhaustive]
pub enum ReverificationLevel {
    /// A single first-factor credential (e.g. password) must be re-verified.
    FirstFactor,
    /// A single second-factor credential (e.g. TOTP) must be re-verified.
    SecondFactor,
    /// Both a first and a second factor must be re-verified.
    MultiFactor,
    /// A level string this crate has not named yet.
    Other(OtherReverificationLevel),
}

/// A clerk-js reverification-level string with no named
/// [`ReverificationLevel`] variant. It has no public constructor, so it never
/// holds a value a named variant would represent.
#[derive(Debug, PartialEq, Eq, Hash)]
pub struct OtherReverificationLevel(String);

impl View for OtherReverificationLevel {
    type V = Seq<char>;

    closed spec fn view(&self) -> Seq<char> {
        self.0@
    }
}

impl OtherReverificationLevel {
    #[verifier::type_invariant]
    spec fn inv(self) -> bool {
        !is_known_level(self.0@)
    }

    /// The raw clerk-js level string; never one a named variant represents.
    pub fn as_str(&self) -> (r: &str)
        ensures
            r@ == self@,
            !is_known_level(self@),
    {
        proof {
            use_type_invariant(self);
        }
        self.0.as_str()
    }
}

impl Clone for OtherReverificationLevel {
    fn clone(&self) -> (r: Self)
        ensures
            r == *self,
    {
        proof {
            use_type_invariant(self);
        }
        OtherReverificationLevel(self.0.clone())
    }
}

impl ReverificationLevel {
    /// The raw clerk-js level string.
    pub fn as_str(&self) -> (r: &str)
        ensures
            r@ == level_text(*self),
    {
        match self {
            ReverificationLevel::FirstFactor => "first_factor",
            ReverificationLevel::SecondFactor => "second_factor",
            ReverificationLevel::MultiFactor => "multi_factor",
            ReverificationLevel::Other(level) => level.as_str(),
        }
    }

    /// The named variant for a known level string.
    pub fn from_known(level: &str) -> (r: Option<Self>)
        ensures
            (r is Some) == is_known_level(level@),
            r matches Some(l) ==> level_text(l) == level@ && !(l is Other),
    {
        if same_text(level, "first_factor") {
            Some(ReverificationLevel::FirstFactor)
        } else if same_text(level, "second_factor") {
            Some(ReverificationLevel::SecondFactor)
        } else if same_text(level, "multi_factor") {
            Some(ReverificationLevel::MultiFactor)
        } else {
            None
        }
    }

    /// Canonicalizes a level string: known strings map to their named
    /// variant, anything else to [`ReverificationLevel::Other`].
    pub fn from_text(level: &str) -> (r: Self)
        ensures
            level_text(r) == level@,
            (r is Other) == !is_known_level(level@),
    {
        match ReverificationLevel::from_known(level) {
            Some(l) => l,
            None => ReverificationLevel::Other(OtherReverificationLevel(level.to_owned())),
        }
    }
}

/// Canonicalizing a level's string gives back the same level: a level whose
/// string equals that of `level`, and which is `Other` exactly when the string
/// is not a known one (what [`ReverificationLevel::from_text`] returns for
/// `level.as_str()`), is `level` itself whenever `level` is a named variant.
pub proof fn lemma_level_round_trip(level: ReverificationLevel, back: ReverificationLevel)
    requires
        level_text(back) == level_text(level),
        (back is Other) == !is_known_level(level_text(level)),
    ensures
        !(level is Other) ==> back == level,
{
    reveal_strlit("first_factor");
    reveal_strlit("second_factor");
    reveal_strlit("multi_factor");
    assert("first_factor"@[0] != "second_factor"@[0]);
    assert("first_factor"@[0] != "multi_factor"@[0]);
    assert("second_factor"@[0] != "multi_factor"@[0]);
}

impl Clone for ReverificationLevel {
    fn clone(&self) -> (r: Self)
        ensures
            r == *self,
    {
        match self {
            ReverificationLevel::FirstFactor => ReverificationLevel::FirstFactor,
            ReverificationLevel::SecondFactor => ReverificationLevel::SecondFactor,
            ReverificationLevel::MultiFactor => ReverificationLevel::MultiFactor,
            ReverificationLevel::Other(level) => ReverificationLevel::Other(level.clone()),
        }
    }
}

} // verus!
