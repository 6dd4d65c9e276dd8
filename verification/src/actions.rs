//! The action dispatcher: drains the queued actions in order and applies each
//! exactly once to the shared state, requesting persistence and window
//! effects as needed.

use vstd::prelude::*;
use vstd::string::StringExecFns;
use crate::elements::{
    actions_model, rebind_button, relabel_button, relabel_text, ActionModel, ConfirmAction,
    ElementAction, SettingOp, ViewStackOp, ViewStackOpModel,
};
use crate::game_data::change_field_spec;
use crate::reconcile::{despawn_set, relabel_live, spawn_ids, spawn_set};
use crate::settings::{
    background_label, background_label_spec, cursor_label, cursor_label_spec, mode_label,
    mode_label_spec, resolution_label, resolution_label_spec, BackgroundImage, GameSettings,
    WindowMode, WindowSettings,
};
use crate::state::{Effect, ShellModel, ShellState};
use crate::steps::NextStepID;

verus! {

/// The queue of actions awaiting dispatch, in the order they were enqueued.
pub struct Actions(pub Vec<ElementAction>);

impl View for Actions {
    type V = Seq<ActionModel>;

    open spec fn view(&self) -> Seq<ActionModel> {
        actions_model(self.0@)
    }
}

impl Actions {
    /// An empty queue.
    pub fn new() -> (q: Actions)
        ensures
            q@ =~= Seq::<ActionModel>::empty(),
    {
        let q = Actions(Vec::new());
        proof {
            assert(q@ =~= Seq::<ActionModel>::empty());
        }
        q
    }
}

/// Pushing an overlay view: the top view's elements leave the screen, the
/// new view goes on top of the stack and its cataloged elements appear.
pub open spec fn push_view_model(m: ShellModel, v: Seq<char>) -> ShellModel {
    let live1 = if m.stack.len() > 0 && m.views.contains_key(m.stack.last()) {
        m.live.remove_keys(m.views[m.stack.last()])
    } else {
        m.live
    };
    let live2 = if m.views.contains_key(v) {
        spawn_ids(live1, m.views[v], m.catalog)
    } else {
        live1
    };
    ShellModel { stack: m.stack.push(v), live: live2, ..m }
}

/// Popping the top view: its elements leave the screen and the view below,
/// if any, has its cataloged elements respawned; an empty stack stays empty.
pub open spec fn pop_view_model(m: ShellModel) -> ShellModel {
    if m.stack.len() == 0 {
        m
    } else {
        let top = m.stack.last();
        let stack1 = m.stack.drop_last();
        let live1 = if m.views.contains_key(top) {
            m.live.remove_keys(m.views[top])
        } else {
            m.live
        };
        let live2 = if stack1.len() > 0 && m.views.contains_key(stack1.last()) {
            spawn_ids(live1, m.views[stack1.last()], m.catalog)
        } else {
            live1
        };
        ShellModel { stack: stack1, live: live2, ..m }
    }
}

/// Setting the resolution: the record gains the new size, the resolution
/// button's label shows it, and persistence, a canvas reset and a window
/// refresh are requested.
pub open spec fn set_resolution_model(m: ShellModel, w: u32, h: u32) -> ShellModel {
    let label = resolution_label_spec(w, h);
    ShellModel {
        settings: GameSettings {
            window: WindowSettings { width: w, height: h, ..m.settings.window },
            ..m.settings
        },
        catalog: relabel_button(m.catalog, "settings_resolution"@, label),
        live: relabel_live(m.live, "settings_resolution"@, label),
        effects: m.effects + seq![
            Effect::PersistSettings,
            Effect::CanvasReset,
            Effect::RefreshWindow,
        ],
        ..m
    }
}

/// Toggling the window mode between fullscreen and windowed.
pub open spec fn toggle_window_mode_model(m: ShellModel) -> ShellModel {
    let mode = if m.settings.window.mode == WindowMode::Fullscreen {
        WindowMode::Windowed
    } else {
        WindowMode::Fullscreen
    };
    let label = mode_label_spec(mode);
    ShellModel {
        settings: GameSettings {
            window: WindowSettings { mode, ..m.settings.window },
            ..m.settings
        },
        catalog: relabel_button(m.catalog, "settings_window_mode"@, label),
        live: relabel_live(m.live, "settings_window_mode"@, label),
        effects: m.effects + seq![
            Effect::PersistSettings,
            Effect::CanvasReset,
            Effect::RefreshWindow,
        ],
        ..m
    }
}

/// Toggling the background scaling mode between fit and cover.
pub open spec fn toggle_background_model(m: ShellModel) -> ShellModel {
    let bg = if m.settings.window.background_image == BackgroundImage::Cover {
        BackgroundImage::Fit
    } else {
        BackgroundImage::Cover
    };
    let label = background_label_spec(bg);
    ShellModel {
        settings: GameSettings {
            window: WindowSettings { background_image: bg, ..m.settings.window },
            ..m.settings
        },
        catalog: relabel_button(m.catalog, "settings_background_image"@, label),
        live: relabel_live(m.live, "settings_background_image"@, label),
        effects: m.effects + seq![Effect::PersistSettings, Effect::CanvasReset],
        ..m
    }
}

/// Toggling the custom-cursor flag.
pub open spec fn toggle_cursor_model(m: ShellModel) -> ShellModel {
    let on = !m.settings.other.custom_cursor;
    let label = cursor_label_spec(on);
    ShellModel {
        settings: GameSettings {
            other: crate::settings::OtherSettings { custom_cursor: on },
            ..m.settings
        },
        catalog: relabel_button(m.catalog, "settings_custom_cursor"@, label),
        live: relabel_live(m.live, "settings_custom_cursor"@, label),
        effects: m.effects + seq![Effect::PersistSettings, Effect::CursorReset],
        ..m
    }
}

/// What one `SettingOp` does to the whole state.
pub open spec fn setting_step(m: ShellModel, op: SettingOp) -> ShellModel {
    match op {
        SettingOp::SetResolution(w, h) => set_resolution_model(m, w, h),
        SettingOp::ToggleWindowMode => toggle_window_mode_model(m),
        SettingOp::ToggleBackgroundImage => toggle_background_model(m),
        SettingOp::ToggleCustomCursor => toggle_cursor_model(m),
    }
}

/// The text the confirmation view shows before exiting.
pub open spec fn confirm_exit_text() -> Seq<char> {
    "Are you sure? Any unsaved changes will be lost."@
}

/// Confirming a request: the shared confirmation view's text and confirm
/// button are rewritten for the concrete request, then the view is pushed.
pub open spec fn confirm_model(m: ShellModel, c: ConfirmAction) -> ShellModel {
    let catalog1 = match c {
        ConfirmAction::ExitApp => rebind_button(
            relabel_text(m.catalog, "confirm_text"@, confirm_exit_text()),
            "confirm_button"@,
            seq![ActionModel::ExitApp],
        ),
    };
    push_view_model(ShellModel { catalog: catalog1, ..m }, "confirm"@)
}

/// What one action does to the whole state: the dispatcher's transition
/// relation, one variant at a time.
pub open spec fn action_step(m: ShellModel, a: ActionModel) -> ShellModel {
    match a {
        ActionModel::ChangeStep(id) => ShellModel { next_step: id, ..m },
        ActionModel::ChangeGameData(field, op) => ShellModel {
            data: change_field_spec(m.data, field, op),
            ..m
        },
        ActionModel::ChangeViewStack(op) => match op {
            ViewStackOpModel::Push(v) => push_view_model(m, v),
            ViewStackOpModel::Pop => pop_view_model(m),
        },
        ActionModel::ChangeSetting(op) => setting_step(m, op),
        ActionModel::Confirm(c) => confirm_model(m, c),
        ActionModel::ExitApp => ShellModel { effects: m.effects.push(Effect::ExitApp), ..m },
    }
}

/// Draining a queue: every action applied once, first to last.
pub open spec fn run_queue(m: ShellModel, q: Seq<ActionModel>) -> ShellModel
    decreases q.len(),
{
    if q.len() == 0 {
        m
    } else {
        run_queue(action_step(m, q.first()), q.drop_first())
    }
}

/// Appending one action to a queue runs it last.
pub proof fn lemma_run_queue_snoc(m: ShellModel, q: Seq<ActionModel>, a: ActionModel)
    ensures
        run_queue(m, q.push(a)) == action_step(run_queue(m, q), a),
    decreases q.len(),
{
    if q.len() == 0 {
        assert(q.push(a).first() == a);
        assert(q.push(a).drop_first() =~= Seq::<ActionModel>::empty());
        assert(run_queue(m, q.push(a)) == run_queue(action_step(m, a), q.push(a).drop_first()));
    } else {
        assert(q.push(a).first() == q.first());
        assert(q.push(a).drop_first() =~= q.drop_first().push(a));
        lemma_run_queue_snoc(action_step(m, q.first()), q.drop_first(), a);
    }
}

/// Every element of `ids` that the catalog knows is on screen, exactly as a
/// freshly spawned instance, and none of `ids` is live without the catalog
/// knowing it.
pub open spec fn set_freshly_live(m: ShellModel, ids: Set<Seq<char>>) -> bool {
    forall|k: Seq<char>| #[trigger]
        ids.contains(k) ==> (m.catalog.contains_key(k) ==> m.live.contains_key(k) && m.live[k]
            == crate::reconcile::fresh_live(m.catalog[k])) && (m.live.contains_key(k)
            ==> m.catalog.contains_key(k))
}

/// Pushing a view and then popping it restores the stack and the live
/// element set to exactly what they were before the push.
///
/// This holds whenever the topmost view's elements are on screen as freshly
/// spawned instances and the pushed view shares no live element outside the
/// topmost view; an element of the pushed view that is also live through the
/// step underneath would be despawned by the pop and not restored.
pub proof fn lemma_view_push_pop_round_trip(m: ShellModel, v: Seq<char>)
    requires
        m.stack.len() > 0,
        m.views.contains_key(m.stack.last()),
        m.views.contains_key(v),
        set_freshly_live(m, m.views[m.stack.last()]),
        forall|k: Seq<char>| #[trigger]
            m.views[v].contains(k) && m.live.contains_key(k) ==> m.views[
                m.stack.last()
            ].contains(k),
    ensures
        pop_view_model(push_view_model(m, v)).stack =~= m.stack,
        pop_view_model(push_view_model(m, v)).live =~~= m.live,
{
    let t = m.stack.last();
    let vt = m.views[t];
    let va = m.views[v];
    let m1 = push_view_model(m, v);
    let m2 = pop_view_model(m1);
    assert(m1.stack.last() == v);
    assert(m1.stack.drop_last() =~= m.stack);
    assert forall|k: Seq<char>| m2.live.contains_key(k) <==> m.live.contains_key(k) by {
        if vt.contains(k) {
            assert(vt.contains(k));
        }
        if va.contains(k) {
            assert(va.contains(k));
        }
    }
    assert forall|k: Seq<char>| #[trigger]
        m2.live.contains_key(k) implies m2.live[k] == m.live[k] by {
        if vt.contains(k) {
            assert(vt.contains(k));
        }
        if va.contains(k) {
            assert(va.contains(k));
        }
    }
}

/// Applies a view-stack push, with the immediate reconciliation it implies.
pub fn push_view(state: &mut ShellState, v: String)
    requires
        old(state).wf(),
    ensures
        final(state)@ =~~= push_view_model(old(state)@, v@),
        final(state).wf(),
{
    let ghost gv = v@;
    match state.view_stack.top() {
        Some(top) => {
            match state.view_map.get(top.as_str()) {
                Some(vd) => despawn_set(&mut state.live, &vd.0),
                None => {},
            }
        },
        None => {},
    }
    let vd_opt = state.view_map.get(v.as_str());
    match vd_opt {
        Some(vd) => {
            state.view_stack.0.push(v);
            spawn_set(&mut state.live, &vd.0, &state.catalog);
        },
        None => {
            state.view_stack.0.push(v);
        },
    }
    proof {
        assert(state.view_stack@ =~= old(state).view_stack@.push(gv));
        assert(state@ =~~= push_view_model(old(state)@, gv));
    }
}

/// Applies a view-stack pop, with the immediate reconciliation it implies.
pub fn pop_view(state: &mut ShellState)
    requires
        old(state).wf(),
    ensures
        final(state)@ =~~= pop_view_model(old(state)@),
        final(state).wf(),
{
    match state.view_stack.0.pop() {
        Some(top) => {
            proof {
                assert(state.view_stack@ =~= old(state).view_stack@.drop_last());
                assert(top@ == old(state).view_stack@.last());
            }
            match state.view_map.get(top.as_str()) {
                Some(vd) => despawn_set(&mut state.live, &vd.0),
                None => {},
            }
            match state.view_stack.top() {
                Some(nt) => {
                    match state.view_map.get(nt.as_str()) {
                        Some(vd) => spawn_set(&mut state.live, &vd.0, &state.catalog),
                        None => {},
                    }
                },
                None => {},
            }
        },
        None => {},
    }
    proof {
        assert(state@ =~~= pop_view_model(old(state)@));
    }
}

/// Applies one `SettingOp`: mutates the record, mirrors the new value on the
/// settings button that displays it, both in the catalog and on any live
/// instance, and requests the persistence and reset effects.
pub fn apply_setting(state: &mut ShellState, op: SettingOp)
    requires
        old(state).wf(),
    ensures
        final(state)@ =~~= setting_step(old(state)@, op),
        final(state).wf(),
{
    match op {
        SettingOp::SetResolution(w, h) => {
            state.settings.window.width = w;
            state.settings.window.height = h;
            let id = String::from_str("settings_resolution");
            state.catalog.set_button_label(&id, resolution_label(w, h));
            state.live.set_button_label(&id, resolution_label(w, h));
            state.effects.push(Effect::PersistSettings);
            state.effects.push(Effect::CanvasReset);
            state.effects.push(Effect::RefreshWindow);
            proof {
                assert(state.effects@ =~= old(state).effects@ + seq![
                    Effect::PersistSettings,
                    Effect::CanvasReset,
                    Effect::RefreshWindow,
                ]);
            }
        },
        SettingOp::ToggleWindowMode => {
            let mode = match state.settings.window.mode {
                WindowMode::Fullscreen => WindowMode::Windowed,
                WindowMode::Windowed => WindowMode::Fullscreen,
            };
            state.settings.window.mode = mode;
            let id = String::from_str("settings_window_mode");
            state.catalog.set_button_label(&id, mode_label(mode));
            state.live.set_button_label(&id, mode_label(mode));
            state.effects.push(Effect::PersistSettings);
            state.effects.push(Effect::CanvasReset);
            state.effects.push(Effect::RefreshWindow);
            proof {
                assert(state.effects@ =~= old(state).effects@ + seq![
                    Effect::PersistSettings,
                    Effect::CanvasReset,
                    Effect::RefreshWindow,
                ]);
            }
        },
        SettingOp::ToggleBackgroundImage => {
            let bg = match state.settings.window.background_image {
                BackgroundImage::Cover => BackgroundImage::Fit,
                BackgroundImage::Fit => BackgroundImage::Cover,
            };
            state.settings.window.background_image = bg;
            let id = String::from_str("settings_background_image");
            state.catalog.set_button_label(&id, background_label(bg));
            state.live.set_button_label(&id, background_label(bg));
            state.effects.push(Effect::PersistSettings);
            state.effects.push(Effect::CanvasReset);
            proof {
                assert(state.effects@ =~= old(state).effects@ + seq![
                    Effect::PersistSettings,
                    Effect::CanvasReset,
                ]);
            }
        },
        SettingOp::ToggleCustomCursor => {
            let on = !state.settings.other.custom_cursor;
            state.settings.other.custom_cursor = on;
            let id = String::from_str("settings_custom_cursor");
            state.catalog.set_button_label(&id, cursor_label(on));
            state.live.set_button_label(&id, cursor_label(on));
            state.effects.push(Effect::PersistSettings);
            state.effects.push(Effect::CursorReset);
            proof {
                assert(state.effects@ =~= old(state).effects@ + seq![
                    Effect::PersistSettings,
                    Effect::CursorReset,
                ]);
            }
        },
    }
    proof {
        assert(state@ =~~= setting_step(old(state)@, op));
    }
}

/// Applies a confirm request: rewrites the confirmation view's content for
/// the concrete request and pushes the view.
pub fn apply_confirm(state: &mut ShellState, c: ConfirmAction)
    requires
        old(state).wf(),
    ensures
        final(state)@ =~~= confirm_model(old(state)@, c),
        final(state).wf(),
{
    match c {
        ConfirmAction::ExitApp => {
            let text_id = String::from_str("confirm_text");
            let button_id = String::from_str("confirm_button");
            state.catalog.set_text_content(
                &text_id,
                String::from_str("Are you sure? Any unsaved changes will be lost."),
            );
            let mut confirm_actions: Vec<ElementAction> = Vec::new();
            confirm_actions.push(ElementAction::ExitApp);
            proof {
                assert(actions_model(confirm_actions@) =~= seq![ActionModel::ExitApp]);
            }
            state.catalog.set_button_actions(&button_id, confirm_actions);
        },
    }
    push_view(state, String::from_str("confirm"));
    proof {
        assert(state@ =~~= confirm_model(old(state)@, c));
    }
}

/// Applies one action to the shared state, exactly as `action_step` says.
pub fn apply_action(state: &mut ShellState, a: &ElementAction)
    requires
        old(state).wf(),
    ensures
        final(state)@ =~~= action_step(old(state)@, a@),
        final(state).wf(),
{
    match a {
        ElementAction::ChangeStep(step_id) => {
            state.next_step = NextStepID(step_id.clone());
        },
        ElementAction::ChangeGameData(field_name, op) => {
            let _known = state.game_data.change_field(field_name.as_str(), op);
        },
        ElementAction::ChangeViewStack(op) => match op {
            ViewStackOp::Push(new_view) => push_view(state, new_view.clone()),
            ViewStackOp::Pop => pop_view(state),
        },
        ElementAction::ChangeSetting(op) => apply_setting(state, *op),
        ElementAction::Confirm(c) => apply_confirm(state, *c),
        ElementAction::ExitApp => {
            state.effects.push(Effect::ExitApp);
        },
    }
    proof {
        assert(state@ =~~= action_step(old(state)@, a@));
    }
}

/// Drains the whole queue in order, applying each action exactly once.
pub fn handle_actions(state: &mut ShellState, actions: &mut Actions)
    requires
        old(state).wf(),
    ensures
        final(actions)@ =~= Seq::<ActionModel>::empty(),
        final(state)@ =~~= run_queue(old(state)@, old(actions)@),
        final(state).wf(),
{
    let n = actions.0.len();
    let mut i: usize = 0;
    while i < n
        invariant
            n == actions.0@.len(),
            actions.0@ == old(actions).0@,
            i <= n,
            state.wf(),
            state@ =~~= run_queue(old(state)@, actions@.take(i as int)),
        decreases n - i,
    {
        proof {
            lemma_run_queue_snoc(old(state)@, actions@.take(i as int), actions@[i as int]);
            assert(actions@.take(i as int + 1) =~= actions@.take(i as int).push(
                actions@[i as int],
            ));
            assert(actions@[i as int] == actions.0@[i as int]@);
        }
        let a = &actions.0[i];
        apply_action(state, a);
        i += 1;
    }
    actions.0.clear();
    proof {
        assert(actions@ =~= Seq::<ActionModel>::empty());
        assert(old(actions)@.take(n as int) =~= old(actions)@);
    }
}

} // verus!
