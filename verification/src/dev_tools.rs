//! Development tooling: an on-screen counter readout attached to the main
//! menu, refreshed from the shared game data.

use vstd::prelude::*;
use vstd::string::StringExecFns;
use crate::elements::{Anchor, Element, ElementModel, Position, Rgba, TextElement, TextModel};
use crate::game_data::field_value;
use crate::reconcile::relabel_live_text;
use crate::settings::{dec_str, u32_label};
use crate::state::{ShellModel, ShellState};
use crate::steps::Step;

verus! {

/// The decimal rendering of a signed number.
pub open spec fn int_str(n: int) -> Seq<char> {
    if n < 0 {
        seq!['-'] + dec_str((-n) as nat)
    } else {
        dec_str(n as nat)
    }
}

/// Renders a signed number in decimal.
pub fn i32_label(n: i32) -> (s: String)
    ensures
        s@ == int_str(n as int),
{
    if n >= 0 {
        u32_label(n as u32)
    } else {
        let mag: u32 = (-(n as i64)) as u32;
        let mut s = String::from_str("-");
        let m = u32_label(mag);
        s.append(m.as_str());
        proof {
            reveal_strlit("-");
            assert(s@ =~= int_str(n as int));
        }
        s
    }
}

/// The text of the counter readout.
pub open spec fn gold_label_spec(v: i32) -> Seq<char> {
    "Gold: "@ + int_str(v as int)
}

/// Renders the counter readout text.
pub fn gold_label(v: i32) -> (s: String)
    ensures
        s@ == gold_label_spec(v),
{
    let mut s = String::from_str("Gold: ");
    let l = i32_label(v);
    s.append(l.as_str());
    s
}

/// The model of the counter readout element for a counter value.
pub open spec fn gold_text_model(v: i32) -> ElementModel {
    ElementModel::Text(
        TextModel {
            content: gold_label_spec(v),
            position: Position { x: -1240i32, y: 680, z: 1 },
            color: Rgba { r: 255, g: 255, b: 255, a: 255 },
            font_size: 16,
            anchor: Anchor::TopLeft,
        },
    )
}

/// Registers the counter readout and hands the main-menu step a copy of its
/// element set extended by it; without a main-menu step only the element is
/// registered.
pub fn setup(state: &mut ShellState)
    requires
        old(state).wf(),
    ensures
        final(state)@ =~~= (ShellModel {
            catalog: old(state)@.catalog.insert(
                "dev_tools_gold"@,
                gold_text_model(field_value(old(state)@.data, "gold"@)),
            ),
            steps: if old(state)@.steps.contains_key("main_menu"@) {
                old(state)@.steps.insert(
                    "main_menu"@,
                    old(state)@.steps["main_menu"@].insert("dev_tools_gold"@),
                )
            } else {
                old(state)@.steps
            },
            ..old(state)@
        }),
        final(state).wf(),
{
    let v = state.game_data.get("gold");
    state.register_element(
        String::from_str("dev_tools_gold"),
        Element::Text(
            TextElement {
                content: gold_label(v),
                position: Position { x: -1240, y: 680, z: 1 },
                color: Rgba { r: 255, g: 255, b: 255, a: 255 },
                font_size: 16,
                anchor: Anchor::TopLeft,
            },
        ),
    );
    let extended = match state.step_map.get("main_menu") {
        Some(step) => {
            let mut copy = step.0.duplicate();
            copy.insert(String::from_str("dev_tools_gold"));
            Some(copy)
        },
        None => None,
    };
    match extended {
        Some(copy) => {
            state.register_step(String::from_str("main_menu"), Step(copy));
        },
        None => {},
    }
}

/// Refreshes the live counter readout from the shared game data; without a
/// live readout nothing changes.
pub fn update_cursor_position(state: &mut ShellState)
    requires
        old(state).wf(),
    ensures
        final(state)@ =~~= (ShellModel {
            live: relabel_live_text(
                old(state)@.live,
                "dev_tools_gold"@,
                gold_label_spec(field_value(old(state)@.data, "gold"@)),
            ),
            ..old(state)@
        }),
        final(state).wf(),
{
    let v = state.game_data.get("gold");
    let id = String::from_str("dev_tools_gold");
    state.live.set_text_content(&id, gold_label(v));
}

} // verus!
