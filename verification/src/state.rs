//! The one cohesive state object of the shell, threaded explicitly through
//! the interaction resolver, the dispatcher and the reconciler, together with
//! its mathematical model and the content-registration interface.

use vstd::prelude::*;
use vstd::string::StringExecFns;
use crate::elements::{Element, ElementMap, ElementModel};
use crate::game_data::GameData;
use crate::reconcile::{LiveModel, LiveTable};
use crate::settings::GameSettings;
use crate::steps::{CurrentStepID, ElementSet, NextStepID, Step, StepMap};
use crate::views::{ViewDef, ViewMap, ViewStack};

verus! {

/// A side effect the core requests of its collaborators; performed outside,
/// in the order requested, after the tick's state mutation is complete.
#[derive(Clone, Copy, PartialEq, Eq, Structural, Debug)]
pub enum Effect {
    /// Write the settings record out, best effort.
    PersistSettings,
    /// Re-derive canvas scale factors and respawn the visible content.
    CanvasReset,
    /// Re-apply the custom-cursor choice.
    CursorReset,
    /// Re-apply window mode and resolution to the window.
    RefreshWindow,
    /// Terminate the application.
    ExitApp,
}

/// The whole shared state of the shell.
pub struct ShellState {
    pub catalog: ElementMap,
    pub step_map: StepMap,
    pub view_map: ViewMap,
    pub view_stack: ViewStack,
    pub current_step: CurrentStepID,
    pub next_step: NextStepID,
    pub game_data: GameData,
    pub settings: GameSettings,
    pub live: LiveTable,
    pub effects: Vec<Effect>,
}

/// Mathematical model of the whole shell state.
#[verifier::ext_equal]
pub ghost struct ShellModel {
    pub catalog: Map<Seq<char>, ElementModel>,
    pub steps: Map<Seq<char>, Set<Seq<char>>>,
    pub views: Map<Seq<char>, Set<Seq<char>>>,
    pub stack: Seq<Seq<char>>,
    pub current_step: Seq<char>,
    pub next_step: Seq<char>,
    pub data: Map<Seq<char>, i32>,
    pub settings: GameSettings,
    pub live: Map<Seq<char>, LiveModel>,
    pub effects: Seq<Effect>,
}

impl View for ShellState {
    type V = ShellModel;

    open spec fn view(&self) -> ShellModel {
        ShellModel {
            catalog: self.catalog@,
            steps: self.step_map@,
            views: self.view_map@,
            stack: self.view_stack@,
            current_step: self.current_step.0@,
            next_step: self.next_step.0@,
            data: self.game_data@,
            settings: self.settings,
            live: self.live@,
            effects: self.effects@,
        }
    }
}

/// The state a freshly constructed shell models: a designated empty step is
/// current and pending, nothing else is registered, nothing is live.
pub open spec fn init_model() -> ShellModel {
    ShellModel {
        catalog: Map::empty(),
        steps: Map::empty().insert("empty"@, Set::empty()),
        views: Map::empty(),
        stack: Seq::empty(),
        current_step: "empty"@,
        next_step: "empty"@,
        data: Map::empty(),
        settings: GameSettings::default_spec(),
        live: Map::empty(),
        effects: Seq::empty(),
    }
}

impl ShellState {
    /// The registries and the live table are internally consistent.
    pub open spec fn wf(&self) -> bool {
        &&& self.step_map.wf()
        &&& self.view_map.wf()
        &&& self.live.wf()
    }

    /// A fresh shell, on the designated empty step, with the given settings.
    pub fn new(settings: GameSettings) -> (s: ShellState)
        ensures
            s@ =~~= (ShellModel { settings, ..init_model() }),
            s.wf(),
    {
        let mut step_map = StepMap::new();
        step_map.register(String::from_str("empty"), Step(ElementSet::new()));
        let s = ShellState {
            catalog: ElementMap::new(),
            step_map,
            view_map: ViewMap::new(),
            view_stack: ViewStack::new(),
            current_step: CurrentStepID(String::from_str("empty")),
            next_step: NextStepID(String::from_str("empty")),
            game_data: GameData::new(),
            settings,
            live: LiveTable::new(),
            effects: Vec::new(),
        };
        s
    }

    /// Content registration: binds an element id to its descriptor.
    pub fn register_element(&mut self, id: String, element: Element)
        requires
            old(self).wf(),
        ensures
            final(self)@ =~~= (ShellModel {
                catalog: old(self)@.catalog.insert(id@, element@),
                ..old(self)@
            }),
            final(self).wf(),
    {
        self.catalog.register(id, element);
    }

    /// Content registration: binds a step name to its element-id set.
    pub fn register_step(&mut self, name: String, step: Step)
        requires
            old(self).wf(),
            step.0.wf(),
        ensures
            final(self)@ =~~= (ShellModel {
                steps: old(self)@.steps.insert(name@, step.0@),
                ..old(self)@
            }),
            final(self).wf(),
    {
        self.step_map.register(name, step);
    }

    /// Content registration: binds a view name to its element-id set.
    pub fn register_view(&mut self, name: String, view_def: ViewDef)
        requires
            old(self).wf(),
            view_def.0.wf(),
        ensures
            final(self)@ =~~= (ShellModel {
                views: old(self)@.views.insert(name@, view_def.0@),
                ..old(self)@
            }),
            final(self).wf(),
    {
        self.view_map.register(name, view_def);
    }

    /// Content registration: makes a step the pending one, to be realized by
    /// the next reconciliation pass.
    pub fn set_initial_step(&mut self, name: String)
        requires
            old(self).wf(),
        ensures
            final(self)@ =~~= (ShellModel { next_step: name@, ..old(self)@ }),
            final(self).wf(),
    {
        self.next_step = NextStepID(name);
    }

    /// Hands the accumulated effect requests out, in request order, leaving
    /// none pending.
    pub fn take_effects(&mut self) -> (r: Vec<Effect>)
        requires
            old(self).wf(),
        ensures
            r@ == old(self)@.effects,
            final(self)@ =~~= (ShellModel { effects: Seq::empty(), ..old(self)@ }),
            final(self).wf(),
    {
        let mut r: Vec<Effect> = Vec::new();
        core::mem::swap(&mut r, &mut self.effects);
        r
    }
}

} // verus!
