//! The decisions of injecting the clerk-js and `@clerk/ui` script tags:
//! whether to inject, whether dead tags of a failed load go first, which
//! URLs the tags load, and what a failed tag reports. The browser client
//! reads the page and performs the edits.
use vstd::prelude::*;

use crate::publishable_key::{default_script_url, default_ui_url, script_url_for, ui_url_for};
use crate::text::push_str;

verus! {

broadcast use vstd::string::group_string_axioms;

/// What injecting the script tags does, given the page.
#[derive(Debug, Clone, Copy, PartialEq, Eq, Structural)]
pub struct InjectPlan {
    /// Remove the tags a failed earlier load left behind and clear its
    /// recorded error, so a remount can retry after a transient failure.
    pub remove_dead_tags: bool,
    /// Append fresh `@clerk/ui` and clerk-js tags.
    pub inject: bool,
}

/// The plan for a page: tags already there block a second injection unless
/// their load failed, in which case they are removed; and a live
/// `window.Clerk` is never joined by a second copy of clerk-js, which would
/// re-execute and replace it.
pub open spec fn inject_plan_for(tags_present: bool, load_error_recorded: bool, clerk_present: bool) -> InjectPlan {
    InjectPlan {
        remove_dead_tags: tags_present && load_error_recorded,
        inject: (!tags_present || load_error_recorded) && !clerk_present,
    }
}

/// What to do with the script tags, from whether this crate's tags are on
/// the page, whether their load failed, and whether `window.Clerk` exists.
pub fn inject_plan(tags_present: bool, load_error_recorded: bool, clerk_present: bool) -> (r: InjectPlan)
    ensures
        r == inject_plan_for(tags_present, load_error_recorded, clerk_present),
{
    if tags_present && !load_error_recorded {
        return InjectPlan { remove_dead_tags: false, inject: false };
    }
    InjectPlan { remove_dead_tags: tags_present, inject: !clerk_present }
}

/// Fresh tags never join a live clerk-js, and never duplicate tags whose
/// load is still good; the tags of a failed load never block a retry.
pub proof fn lemma_inject_never_duplicates(tags_present: bool, load_error_recorded: bool, clerk_present: bool)
    ensures
        inject_plan_for(tags_present, load_error_recorded, clerk_present).inject ==> !clerk_present,
        inject_plan_for(tags_present, load_error_recorded, clerk_present).inject && tags_present
            ==> inject_plan_for(tags_present, load_error_recorded, clerk_present).remove_dead_tags,
        tags_present && load_error_recorded && !clerk_present ==> inject_plan_for(
            tags_present,
            load_error_recorded,
            clerk_present,
        ).inject,
{
}

/// The URLs the two tags load, `@clerk/ui` first: each override as given,
/// else the URL derived from the publishable key.
pub fn script_urls(publishable_key: &str, url: Option<&str>, ui_url: Option<&str>) -> (r: (String, String))
    ensures
        r.0@ == match ui_url {
            Some(u) => u@,
            None => ui_url_for(publishable_key@),
        },
        r.1@ == match url {
            Some(u) => u@,
            None => script_url_for(publishable_key@),
        },
{
    let ui = match ui_url {
        Some(u) => u.to_owned(),
        None => default_ui_url(publishable_key),
    };
    let clerk = match url {
        Some(u) => u.to_owned(),
        None => default_script_url(publishable_key),
    };
    (ui, clerk)
}

/// The error a script tag that failed to load records.
pub open spec fn script_load_failure_text(label: Seq<char>, url: Seq<char>) -> Seq<char> {
    "the "@ + label + " script at "@ + url + " failed to load; check the network tab for DNS/CSP/offline failures"@
}

/// The error a script tag that failed to load records, by the script's
/// label (`clerk-js` or `@clerk/ui`) and URL.
pub fn script_load_failure(label: &str, url: &str) -> (r: String)
    ensures
        r@ == script_load_failure_text(label@, url@),
{
    let mut message = String::new();
    push_str(&mut message, "the ");
    push_str(&mut message, label);
    push_str(&mut message, " script at ");
    push_str(&mut message, url);
    push_str(&mut message, " failed to load; check the network tab for DNS/CSP/offline failures");
    message
}

} // verus!
