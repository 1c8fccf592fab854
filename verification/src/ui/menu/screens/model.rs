//! Model selection and model setup screens.
use vstd::prelude::*;
use crate::buzzer::{Buzzer, BuzzerView, armed_chime, beep, buzzer_wf, clicked, tone_pattern};
use crate::storage::{active_index, default_name, model_factory_fields, ModelConfig, RadioConfig, RadioStorage, NUM_MODELS};
use crate::trim::{TrimController, TrimValues};
use crate::ui::format::{next_ascii, next_char, prev_ascii, prev_char};
use crate::ui::menu::{
    list_nav, navigate_4slot_list, navigate_list, no_effects, none, to_main, with_cursor, MenuController,
    MenuEffects, MenuState, NavKeys,
};

verus! {

/// Loading memory `sel`: the current trims go back into the active model,
/// `sel` becomes active and its trims are loaded.
pub open spec fn model_loaded(s0: RadioStorage, t0: TrimController, sel: usize, s1: RadioStorage, t1: TrimController) -> bool {
    let oi = active_index(s0.radio);
    let saved = s1.models@[oi];
    &&& s1.radio == RadioConfig { active_model: sel as u8, ..s0.radio }
    &&& saved.trims@ == seq![t0.values.roll, t0.values.pitch, t0.values.throttle, t0.values.yaw]
    &&& saved == ModelConfig { trims: saved.trims, ..s0.models@[oi] }
    &&& forall|i: int| 0 <= i < NUM_MODELS && i != oi ==> #[trigger] s1.models@[i] == s0.models@[i]
    &&& t1 == TrimController {
        values: TrimValues {
            roll: s1.models@[sel as int].trims@[0],
            pitch: s1.models@[sel as int].trims@[1],
            throttle: s1.models@[sel as int].trims@[2],
            yaw: s1.models@[sel as int].trims@[3],
        },
        ..t0
    }
}

/// One frame of the model selection list.
pub open spec fn select_step(
    c0: MenuController,
    c1: MenuController,
    k: NavKeys,
    s0: RadioStorage,
    s1: RadioStorage,
    t0: TrimController,
    t1: TrimController,
    b0: BuzzerView,
    b1: BuzzerView,
    e: MenuEffects,
) -> bool {
    if k.cancel {
        c1 == to_main(c0, 0, 0) && s1 == s0 && t1 == t0 && b1 == clicked(b0) && e == no_effects()
    } else {
        let n = list_nav(c0.selected_item, c0.scroll_offset, NUM_MODELS, 4, k.up, k.down, b0);
        let cn = with_cursor(c0, n);
        if k.ok && n.0 < NUM_MODELS {
            &&& model_loaded(s0, t0, n.0, s1, t1)
            &&& c1 == MenuController { waiting_release: true, ..cn }
            &&& b1 == tone_pattern(n.2, 2400, 60, 40, 2)
            &&& e == MenuEffects { save_all: true, rx_id: Some(s1.models@[n.0 as int].rx_id), ..no_effects() }
        } else {
            c1 == cn && s1 == s0 && t1 == t0 && b1 == n.2 && e == no_effects()
        }
    }
}

/// Model selection: move through the twenty memories; OK stores the
/// current trims into the active model and loads the chosen one.
pub fn update_select(
    ctrl: &mut MenuController,
    keys: &NavKeys,
    storage: &mut RadioStorage,
    trims: &mut TrimController,
    buzzer: &mut Buzzer,
) -> (e: MenuEffects)
    ensures
        select_step(*old(ctrl), *final(ctrl), *keys, *old(storage), *final(storage), *old(trims), *final(trims),
            old(buzzer)@, final(buzzer)@, e),
{
    if keys.cancel {
        ctrl.state = MenuState::MainMenu;
        ctrl.selected_item = 0;
        ctrl.scroll_offset = 0;
        ctrl.waiting_release = true;
        buzzer.click();
        return none();
    }
    navigate_4slot_list(&mut ctrl.selected_item, &mut ctrl.scroll_offset, NUM_MODELS, keys.up, keys.down, buzzer);
    if keys.ok && ctrl.selected_item < NUM_MODELS {
        let old_idx = storage.active_model_index();
        let ghost s0 = *storage;
        storage.models[old_idx].trims = [trims.values.roll, trims.values.pitch, trims.values.throttle, trims.values.yaw];
        let new_idx = ctrl.selected_item;
        storage.radio.active_model = new_idx as u8;
        let t = storage.models[new_idx].trims;
        trims.values.roll = t[0];
        trims.values.pitch = t[1];
        trims.values.throttle = t[2];
        trims.values.yaw = t[3];
        let rx_id = storage.models[new_idx].rx_id;
        buzzer.play_tone_pattern(2400, 60, 40, 2);
        ctrl.waiting_release = true;
        assert(storage.models@[old_idx as int].trims@ =~= seq![old(trims).values.roll, old(trims).values.pitch, old(trims).values.throttle, old(trims).values.yaw]);
        let mut e = none();
        e.save_all = true;
        e.rx_id = Some(rx_id);
        e
    } else {
        none()
    }
}

/// Fields of the model setup list.
pub const FIELD_COUNT: usize = 5;

/// OK on a model setup field (not editing): start editing the name, cycle
/// the model type or the arm switch, request binding, or reset the model.
pub open spec fn setup_ok(c: MenuController, m: ModelConfig, idx: int, b: BuzzerView, c1: MenuController, m1: ModelConfig, b1: BuzzerView, e: MenuEffects) -> bool {
    let save = MenuEffects { save_model: true, ..no_effects() };
    if c.selected_item == 0 {
        c1 == MenuController { editing: true, sub_idx: 0, ..c } && m1 == m && b1 == clicked(b) && e == no_effects()
    } else if c.selected_item == 1 {
        c1 == c && m1 == ModelConfig { model_type: ((m.model_type + 1) % 4) as u8, ..m } && b1 == clicked(b) && e == save
    } else if c.selected_item == 2 {
        let a = ((m.arm_switch + 1) % 11) as u8;
        c1 == c && m1 == ModelConfig { arm_switch: a, ..m } && b1 == (if a != 0 { armed_chime(b) } else { clicked(b) }) && e == save
    } else if c.selected_item == 3 {
        c1 == MenuController { request_bind: true, state: MenuState::Closed, ..c } && m1 == m && b1 == clicked(b) && e == no_effects()
    } else if c.selected_item == 4 {
        &&& c1 == MenuController { waiting_release: true, ..c }
        &&& m1.name@ == default_name(idx) && model_factory_fields(m1)
        &&& b1 == tone_pattern(b, 2200, 80, 50, 2)
        &&& e == save
    } else {
        c1 == c && m1 == m && b1 == b && e == no_effects()
    }
}

/// A name key while editing: Cancel ends editing, Bind moves to the next
/// character (wrapping), OK to the next character or, after the last, ends
/// editing; Up and Down step the character under the cursor.
pub open spec fn name_edit(c: MenuController, k: NavKeys, m: ModelConfig, b: BuzzerView, c1: MenuController, m1: ModelConfig, b1: BuzzerView, e: MenuEffects) -> bool {
    let save = MenuEffects { save_model: true, ..no_effects() };
    if k.cancel {
        c1 == MenuController { editing: false, ..c } && m1 == m && b1 == clicked(b) && e == save
    } else if k.bind {
        c1 == MenuController { sub_idx: ((c.sub_idx + 1) % 10) as usize, ..c } && m1 == m && b1 == clicked(b) && e == no_effects()
    } else if k.ok {
        if c.sub_idx + 1 < 10 {
            c1 == MenuController { sub_idx: (c.sub_idx + 1) as usize, ..c } && m1 == m && b1 == clicked(b) && e == no_effects()
        } else {
            c1 == MenuController { editing: false, selected_item: 1, ..c } && m1 == m && b1 == beep(b, 2600, 40) && e == save
        }
    } else if (k.up || k.down) && c.sub_idx < 10 {
        let ch = m.name@[c.sub_idx as int];
        &&& m1.name@ == m.name@.update(c.sub_idx as int, if k.up { next_char(ch) } else { prev_char(ch) })
        &&& m1 == ModelConfig { name: m1.name, ..m }
        &&& c1 == c && b1 == beep(b, 2200, 20) && e == no_effects()
    } else {
        c1 == c && m1 == m && b1 == b && e == no_effects()
    }
}

/// One frame of the model setup screen.
pub open spec fn model_setup_step(
    c0: MenuController,
    c1: MenuController,
    k: NavKeys,
    m0: ModelConfig,
    m1: ModelConfig,
    idx: int,
    b0: BuzzerView,
    b1: BuzzerView,
    e: MenuEffects,
) -> bool {
    if c0.editing {
        name_edit(c0, k, m0, b0, c1, m1, b1, e)
    } else if k.cancel {
        &&& c1 == MenuController { state: MenuState::MainMenu, selected_item: 1, waiting_release: true, ..c0 }
        &&& m1 == m0 && b1 == clicked(b0)
        &&& e == MenuEffects { save_model: true, ..no_effects() }
    } else {
        let n = list_nav(c0.selected_item, c0.scroll_offset, FIELD_COUNT, 4, k.up, k.down || k.bind, b0);
        let cn = with_cursor(c0, n);
        if k.ok {
            setup_ok(cn, m0, idx, n.2, c1, m1, b1, e)
        } else {
            c1 == cn && m1 == m0 && b1 == n.2 && e == no_effects()
        }
    }
}

fn setup_field(ctrl: &mut MenuController, model: &mut ModelConfig, active_idx: usize, buzzer: &mut Buzzer) -> (e: MenuEffects)
    requires
        active_idx < NUM_MODELS,
        buzzer_wf(old(buzzer)@),
    ensures
        buzzer_wf(final(buzzer)@),
        setup_ok(*old(ctrl), *old(model), active_idx as int, old(buzzer)@, *final(ctrl), *final(model), final(buzzer)@, e),
{
    let sel = ctrl.selected_item;
    if sel == 0 {
        ctrl.editing = true;
        ctrl.sub_idx = 0;
        buzzer.click();
        none()
    } else if sel == 1 {
        model.model_type = ((model.model_type as u16 + 1) % 4) as u8;
        buzzer.click();
        let mut e = none();
        e.save_model = true;
        e
    } else if sel == 2 {
        model.arm_switch = ((model.arm_switch as u16 + 1) % 11) as u8;
        if model.arm_switch != 0 {
            buzzer.chime_armed();
        } else {
            buzzer.click();
        }
        let mut e = none();
        e.save_model = true;
        e
    } else if sel == 3 {
        ctrl.request_bind = true;
        ctrl.state = MenuState::Closed;
        buzzer.click();
        none()
    } else if sel == 4 {
        *model = ModelConfig::default_for_index(active_idx);
        buzzer.play_tone_pattern(2200, 80, 50, 2);
        ctrl.waiting_release = true;
        let mut e = none();
        e.save_model = true;
        e
    } else {
        none()
    }
}

fn edit_name(ctrl: &mut MenuController, keys: &NavKeys, model: &mut ModelConfig, buzzer: &mut Buzzer) -> (e: MenuEffects)
    requires
        buzzer_wf(old(buzzer)@),
    ensures
        buzzer_wf(final(buzzer)@),
        name_edit(*old(ctrl), *keys, *old(model), old(buzzer)@, *final(ctrl), *final(model), final(buzzer)@, e),
{
    if keys.cancel {
        ctrl.editing = false;
        buzzer.click();
        let mut e = none();
        e.save_model = true;
        e
    } else if keys.bind {
        ctrl.sub_idx = if ctrl.sub_idx < 9 { ctrl.sub_idx + 1 } else { (ctrl.sub_idx % 10 + 1) % 10 };
        assert(ctrl.sub_idx == (old(ctrl).sub_idx + 1) % 10);
        buzzer.click();
        none()
    } else if keys.ok {
        if ctrl.sub_idx < 9 {
            ctrl.sub_idx = ctrl.sub_idx + 1;
            buzzer.click();
            none()
        } else {
            ctrl.editing = false;
            ctrl.selected_item = 1;
            buzzer.play_tone(2600, 40);
            let mut e = none();
            e.save_model = true;
            e
        }
    } else if (keys.up || keys.down) && ctrl.sub_idx < 10 {
        let i = ctrl.sub_idx;
        let c = model.name[i];
        model.name[i] = if keys.up { next_ascii(c) } else { prev_ascii(c) };
        buzzer.play_tone(2200, 20);
        none()
    } else {
        none()
    }
}

/// Model setup: name, model type, arm switch, binding and reset to
/// defaults for the active model memory `active_idx`.
pub fn update_setup(
    ctrl: &mut MenuController,
    keys: &NavKeys,
    model: &mut ModelConfig,
    active_idx: usize,
    buzzer: &mut Buzzer,
) -> (e: MenuEffects)
    requires
        active_idx < NUM_MODELS,
        buzzer_wf(old(buzzer)@),
    ensures
        buzzer_wf(final(buzzer)@),
        model_setup_step(*old(ctrl), *final(ctrl), *keys, *old(model), *final(model), active_idx as int,
            old(buzzer)@, final(buzzer)@, e),
{
    if ctrl.editing {
        return edit_name(ctrl, keys, model, buzzer);
    }
    if keys.cancel {
        ctrl.state = MenuState::MainMenu;
        ctrl.selected_item = 1;
        ctrl.waiting_release = true;
        buzzer.click();
        let mut e = none();
        e.save_model = true;
        return e;
    }
    navigate_4slot_list(&mut ctrl.selected_item, &mut ctrl.scroll_offset, FIELD_COUNT, keys.up, keys.down || keys.bind, buzzer);
    if keys.ok {
        setup_field(ctrl, model, active_idx, buzzer)
    } else {
        none()
    }
}

} // verus!
