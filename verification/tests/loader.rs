use dioxus_clerk::loader::{inject_plan, script_load_failure, script_urls, InjectPlan};

#[test]
fn good_tags_block_a_second_injection() {
    assert_eq!(inject_plan(true, false, false), InjectPlan { remove_dead_tags: false, inject: false });
    assert_eq!(inject_plan(true, false, true), InjectPlan { remove_dead_tags: false, inject: false });
}

#[test]
fn dead_tags_of_a_failed_load_are_replaced() {
    assert_eq!(inject_plan(true, true, false), InjectPlan { remove_dead_tags: true, inject: true });
    // With a live window.Clerk the dead tags still go, but nothing new is added.
    assert_eq!(inject_plan(true, true, true), InjectPlan { remove_dead_tags: true, inject: false });
}

#[test]
fn fresh_page_injects_unless_clerk_is_already_loaded() {
    assert_eq!(inject_plan(false, false, false), InjectPlan { remove_dead_tags: false, inject: true });
    assert_eq!(inject_plan(false, false, true), InjectPlan { remove_dead_tags: false, inject: false });
}

#[test]
fn script_urls_take_overrides_or_derive_from_the_key() {
    let (ui, clerk) = script_urls("nope", None, None);
    assert_eq!(ui, "https://cdn.jsdelivr.net/npm/@clerk/ui@1/dist/ui.browser.js");
    assert_eq!(clerk, "https://cdn.jsdelivr.net/npm/@clerk/clerk-js@6/dist/clerk.browser.js");

    let (ui, clerk) = script_urls("nope", Some("/clerk.js"), Some("/ui.js"));
    assert_eq!(ui, "/ui.js");
    assert_eq!(clerk, "/clerk.js");
}

#[test]
fn failed_script_reports_label_and_url() {
    assert_eq!(
        script_load_failure("clerk-js", "https://x/clerk.js"),
        "the clerk-js script at https://x/clerk.js failed to load; check the network tab for DNS/CSP/offline failures"
    );
}
