//! The host engine's side: the open windows, the overlay contexts attached to
//! them, and the per-frame step that reads both.

use crate::focus::EguiWantsFocus;
use crate::wanted::WantedInput;
use bevy::ecs::entity::Entity;
use bevy::ecs::query::With;
use bevy::ecs::system::Query;
use bevy::window::Window;
use bevy_egui::egui::Context;
use bevy_egui::EguiContexts;
use vstd::prelude::*;

verus! {

/// `bevy::ecs::entity::Entity`, the handle of a window. Nothing is known of
/// one but its identity.
#[verifier::external_type_specification]
#[verifier::external_body]
pub struct ExEntity(Entity);

/// `egui::Context`, the overlay context of one window. Its state sits behind
/// a lock and is not modelled.
#[verifier::external_type_specification]
#[verifier::external_body]
pub struct ExContext(Context);

/// `bevy_egui::EguiContexts`, the system parameter that finds the overlay
/// context of a window.
#[verifier::external_type_specification]
#[verifier::external_body]
pub struct ExEguiContexts<'w, 's>(EguiContexts<'w, 's>);

/// The engine's query for the entities of its open windows. The query type is
/// bounded by traits of the engine, so it is kept whole behind this struct.
#[verifier::external_body]
pub struct OpenWindows<'w, 's> {
    /// The query as the scheduler hands it to a system.
    pub query: Query<'w, 's, Entity, With<Window>>,
}

/// The entities that the window query matches.
pub uninterp spec fn open_windows(windows: OpenWindows) -> Set<Entity>;

/// The windows to which an overlay context is attached.
pub uninterp spec fn overlay_windows(contexts: EguiContexts) -> Set<Entity>;

/// `Query::iter`, collected. The query yields each matching entity once and
/// only once, in no particular order.
#[verifier::external_body]
fn window_entities(windows: &OpenWindows) -> (entities: Vec<Entity>)
    ensures
        entities@.no_duplicates(),
        entities@.to_set() == open_windows(*windows),
{
    windows.query.iter().collect()
}

/// `EguiContexts::try_ctx_for_window_mut` searches the windows that hold an
/// overlay context for `window` and lends its context if it is among them.
/// No context is attached or detached, whatever is done through the loan.
pub assume_specification<'w, 's, 'a>[ EguiContexts::<'w, 's>::try_ctx_for_window_mut ](
    contexts: &'a mut EguiContexts<'w, 's>,
    window: Entity,
) -> (ctx: Option<&'a mut Context>)
    ensures
        ctx.is_some() == overlay_windows(*old(contexts)).contains(window),
        overlay_windows(*final(contexts)) == overlay_windows(*old(contexts)),
;

/// `egui::Context::wants_pointer_input`. The answer depends on the context's
/// state behind its lock; nothing is claimed of it.
pub assume_specification[ Context::wants_pointer_input ](ctx: &Context) -> bool;

/// `egui::Context::wants_keyboard_input`. The answer depends on the context's
/// state behind its lock; nothing is claimed of it.
pub assume_specification[ Context::wants_keyboard_input ](ctx: &Context) -> bool;

/// Asks the overlay of every open window which input it wants.
///
/// Returns `None` exactly when some open window has no overlay context yet;
/// otherwise one answer per open window.
pub fn poll_overlays(
    contexts: &mut EguiContexts,
    windows: &OpenWindows,
) -> (polled: Option<Vec<WantedInput>>)
    ensures
        overlay_windows(*final(contexts)) == overlay_windows(*old(contexts)),
        open_windows(*windows).finite(),
        polled.is_some() == open_windows(*windows).subset_of(overlay_windows(*old(contexts))),
        polled matches Some(wanted) ==> wanted@.len() == open_windows(*windows).len(),
{
    let entities = window_entities(windows);
    proof {
        entities@.unique_seq_to_set();
    }
    let mut wanted: Vec<WantedInput> = Vec::new();
    let mut i: usize = 0;
    while i < entities.len()
        invariant
            i <= entities@.len(),
            wanted@.len() == i,
            entities@.to_set() == open_windows(*windows),
            overlay_windows(*contexts) == overlay_windows(*old(contexts)),
            forall|j: int|
                0 <= j < i ==> overlay_windows(*old(contexts)).contains(#[trigger] entities@[j]),
        decreases entities@.len() - i,
    {
        match contexts.try_ctx_for_window_mut(entities[i]) {
            Some(ctx) => {
                let pointer = ctx.wants_pointer_input();
                let keyboard = ctx.wants_keyboard_input();
                wanted.push(WantedInput { pointer, keyboard });
            },
            None => {
                assert(entities@.contains(entities@[i as int]));
                return None;
            },
        }
        i += 1;
    }
    assert forall|window: Entity|
        open_windows(*windows).contains(window) implies overlay_windows(*old(contexts)).contains(
        window,
    ) by {
        assert(entities@.contains(window));
    }
    Some(wanted)
}

/// The per-frame step. Asks every open window's overlay whether it wants
/// pointer or keyboard input, shifts the stored `curr` into `prev`, sets
/// `curr` to whether any overlay wants either, and writes the stored state
/// only if that changes it.
///
/// Returns whether it wrote, or `None`, with the state untouched, exactly when
/// some open window has no overlay context yet. Run it after the overlay has
/// processed the frame's input and before anything that consumes raw input.
pub fn check_egui_wants_focus(
    contexts: EguiContexts,
    wants_focus: &mut EguiWantsFocus,
    windows: OpenWindows,
) -> (written: Option<bool>)
    ensures
        open_windows(windows).finite(),
        written.is_some() == open_windows(windows).subset_of(overlay_windows(contexts)),
        written.is_none() ==> *final(wants_focus) == *old(wants_focus),
        written matches Some(wrote) ==> {
            &&& final(wants_focus).prev == old(wants_focus).curr
            &&& wrote == (*final(wants_focus) != *old(wants_focus))
            &&& exists|wanted: Seq<WantedInput>|
                wanted.len() == open_windows(windows).len()
                    && *final(wants_focus) == old(wants_focus).after(wanted)
        },
{
    let mut contexts = contexts;
    match poll_overlays(&mut contexts, &windows) {
        Some(wanted) => {
            let wrote = wants_focus.update(wanted.as_slice());
            Some(wrote)
        },
        None => None,
    }
}

} // verus!
