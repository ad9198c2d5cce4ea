//! The render decisions of the control-flow components: what `SignedIn`,
//! `SignedOut`, `Protect`, their `WhenLoaded` forms and `ClerkLoading` /
//! `ClerkLoaded` show for the provider's runtime state.
use vstd::prelude::*;
use std::borrow::Cow;

use crate::auth::state::{AuthRuntimeState, AuthRuntimeView};
use crate::text::opt_text;

verus! {

/// What a gated component renders.
#[derive(Debug, Clone, Copy, PartialEq, Eq, Structural)]
pub enum Render {
    /// Its children.
    Children,
    /// Its fallback.
    Fallback,
    /// Nothing.
    Nothing,
}

/// The runtime state resolved per `treat_pending_as_signed_out`.
fn resolved(state: &AuthRuntimeState, treat_pending_as_signed_out: bool) -> (r: AuthRuntimeState)
    ensures
        r@ == state@.resolve_pending(treat_pending_as_signed_out),
{
    match state.resolve_pending(treat_pending_as_signed_out) {
        Cow::Borrowed(s) => s.clone(),
        Cow::Owned(s) => s,
    }
}

/// Whether `ClerkLoading` shows its children: before clerk-js loaded, as
/// long as loading has not failed.
pub fn shows_clerk_loading(state: &AuthRuntimeState, load_failed: bool) -> (r: bool)
    ensures
        r == (!state@.is_loaded && !load_failed),
{
    !state.is_loaded() && !load_failed
}

/// Whether `ClerkLoaded` shows its children: once clerk-js loaded.
pub fn shows_clerk_loaded(state: &AuthRuntimeState) -> (r: bool)
    ensures
        r == state@.is_loaded,
{
    state.is_loaded()
}

/// Whether `SignedIn` shows its children.
pub fn shows_signed_in(state: &AuthRuntimeState, treat_pending_as_signed_out: bool) -> (r: bool)
    ensures
        r == state@.resolve_pending(treat_pending_as_signed_out).is_signed_in(),
{
    resolved(state, treat_pending_as_signed_out).should_render_signed_in()
}

/// Whether `SignedOut` shows its children.
pub fn shows_signed_out(state: &AuthRuntimeState, treat_pending_as_signed_out: bool) -> (r: bool)
    ensures
        r == state@.resolve_pending(treat_pending_as_signed_out).renders_signed_out(),
{
    resolved(state, treat_pending_as_signed_out).should_render_signed_out()
}

/// What `SignedInWhenLoaded` renders for a resolved state.
pub open spec fn signed_in_when_loaded_render(s: AuthRuntimeView, load_failed: bool) -> Render {
    if s.is_loaded && s.is_signed_in() {
        Render::Children
    } else if !s.is_loaded && !s.renders_signed_out() && !load_failed {
        Render::Fallback
    } else {
        Render::Nothing
    }
}

/// What `SignedOutWhenLoaded` renders for a resolved state.
pub open spec fn signed_out_when_loaded_render(s: AuthRuntimeView, load_failed: bool) -> Render {
    if s.is_loaded && s.renders_signed_out() {
        Render::Children
    } else if !s.is_loaded && !s.is_signed_in() && !load_failed {
        Render::Fallback
    } else {
        Render::Nothing
    }
}

/// What `SignedInWhenLoaded` renders: its children once clerk-js loaded a
/// signed-in session; its fallback while loading without a signed-out
/// answer and without a load failure; otherwise nothing.
pub fn signed_in_when_loaded(state: &AuthRuntimeState, treat_pending_as_signed_out: bool, load_failed: bool) -> (r:
    Render)
    ensures
        r == signed_in_when_loaded_render(state@.resolve_pending(treat_pending_as_signed_out), load_failed),
{
    let s = resolved(state, treat_pending_as_signed_out);
    if s.is_loaded() && s.should_render_signed_in() {
        Render::Children
    } else if !s.is_loaded() && !s.should_render_signed_out() && !load_failed {
        Render::Fallback
    } else {
        Render::Nothing
    }
}

/// What `SignedOutWhenLoaded` renders: its children once clerk-js loaded a
/// signed-out answer; its fallback while loading without signed-in
/// knowledge and without a load failure; otherwise nothing.
pub fn signed_out_when_loaded(state: &AuthRuntimeState, treat_pending_as_signed_out: bool, load_failed: bool) -> (r:
    Render)
    ensures
        r == signed_out_when_loaded_render(state@.resolve_pending(treat_pending_as_signed_out), load_failed),
{
    let s = resolved(state, treat_pending_as_signed_out);
    if s.is_loaded() && s.should_render_signed_out() {
        Render::Children
    } else if !s.is_loaded() && !s.is_signed_in() && !load_failed {
        Render::Fallback
    } else {
        Render::Nothing
    }
}

/// What `Protect` renders: its children when the resolved state passes the
/// signed-in gate for the requested role and permission, else its fallback.
pub fn protect(
    state: &AuthRuntimeState,
    role: Option<&str>,
    permission: Option<&str>,
    treat_pending_as_signed_out: bool,
) -> (r: Render)
    ensures
        r == if state@.resolve_pending(treat_pending_as_signed_out).allows_gate(opt_text(role), opt_text(permission)) {
            Render::Children
        } else {
            Render::Fallback
        },
{
    if resolved(state, treat_pending_as_signed_out).allows_signed_in_gate(role, permission) {
        Render::Children
    } else {
        Render::Fallback
    }
}

/// `SignedIn` and `SignedOut` never both show for one state and setting;
/// the `WhenLoaded` forms show their children only once clerk-js loaded and
/// never show a loading fallback after a load failure; and `ClerkLoading`
/// and `ClerkLoaded` never both show.
pub proof fn lemma_control_gates_exclusive(state: AuthRuntimeView, treat_pending_as_signed_out: bool, load_failed: bool)
    ensures
        ({
            let s = state.resolve_pending(treat_pending_as_signed_out);
            &&& !(s.is_signed_in() && s.renders_signed_out())
            &&& signed_in_when_loaded_render(s, load_failed) == Render::Children ==> state.is_loaded
            &&& signed_out_when_loaded_render(s, load_failed) == Render::Children ==> state.is_loaded
            &&& signed_in_when_loaded_render(s, load_failed) == Render::Fallback ==> !load_failed && !state.is_loaded
            &&& signed_out_when_loaded_render(s, load_failed) == Render::Fallback ==> !load_failed && !state.is_loaded
        }),
        !((!state.is_loaded && !load_failed) && state.is_loaded),
{
    crate::auth::state::lemma_render_gates_exclusive(state.resolve_pending(treat_pending_as_signed_out));
}

} // verus!
