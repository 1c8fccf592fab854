//! Dual rate / expo, throttle curve, wing templates and the mix line editor.
use vstd::prelude::*;
use crate::buzzer::{Buzzer, BuzzerView, beep, buzzer_wf, clicked};
use vstd::array::spec_array_update;
use crate::storage::{MixLine, ModelConfig};
use crate::ui::menu::{
    list_nav, navigate_4slot_list, no_effects, none, to_main, with_cursor, MenuController, MenuEffects, MenuState,
    NavKeys,
};

verus! {

broadcast use vstd::array::group_array_axioms;

/// A percentage stepped by 5 within `lo..=100` (Up only from 95 or less,
/// Down only from `lo + 5` or more). Returns the value and whether it moved.
pub open spec fn step5_u8(cur: u8, up: bool, down: bool, lo: int) -> (u8, bool) {
    if up && cur <= 95 {
        ((cur + 5) as u8, true)
    } else if down && cur >= lo + 5 {
        ((cur - 5) as u8, true)
    } else {
        (cur, false)
    }
}

/// A signed percentage stepped by 5 within -100..=100.
pub open spec fn step5_i8(cur: i8, up: bool, down: bool) -> (i8, bool) {
    if up && cur <= 95 {
        ((cur + 5) as i8, true)
    } else if down && cur >= -95 {
        ((cur - 5) as i8, true)
    } else {
        (cur, false)
    }
}

/// A value cycled through `0..n` by Up (forward) or Down (backward).
pub open spec fn cycle(cur: u8, n: int, up: bool, down: bool) -> (u8, bool) {
    if up {
        (((cur + 1) % n) as u8, true)
    } else if down {
        (if cur == 0 { (n - 1) as u8 } else { (cur - 1) as u8 }, true)
    } else {
        (cur, false)
    }
}

fn step5_u8_exec(cur: u8, up: bool, down: bool, lo: u8) -> (r: (u8, bool))
    requires
        lo <= 95,
    ensures
        r == step5_u8(cur, up, down, lo as int),
{
    if up && cur <= 95 {
        (cur + 5, true)
    } else if down && cur >= lo + 5 {
        (cur - 5, true)
    } else {
        (cur, false)
    }
}

fn step5_i8_exec(cur: i8, up: bool, down: bool) -> (r: (i8, bool))
    ensures
        r == step5_i8(cur, up, down),
{
    if up && cur <= 95 {
        (cur + 5, true)
    } else if down && cur >= -95 {
        (cur - 5, true)
    } else {
        (cur, false)
    }
}

fn cycle_exec(cur: u8, n: u8, up: bool, down: bool) -> (r: (u8, bool))
    requires
        n >= 1,
    ensures
        r == cycle(cur, n as int, up, down),
{
    if up {
        (((cur as u16 + 1) % n as u16) as u8, true)
    } else if down {
        (if cur == 0 { n - 1 } else { cur - 1 }, true)
    } else {
        (cur, false)
    }
}

/// Fields of the dual rate screen.
pub const DR_FIELDS: usize = 6;

/// Editing a dual rate field with Up or Down: the switch (5 choices), the
/// axis (roll, pitch, yaw), the high rate (50..=100), the low rate
/// (30..=100) or the two expos (-100..=100), each in steps of 5 for the
/// selected axis. Returns the model, the new axis index and whether it
/// ticked.
pub open spec fn dr_edit(sel: usize, axis: int, sub: usize, k: NavKeys, m: ModelConfig) -> (ModelConfig, usize, bool) {
    if sel == 0 {
        let r = cycle(m.dr_switch, 5, k.up, k.down);
        (ModelConfig { dr_switch: r.0, ..m }, sub, r.1)
    } else if sel == 1 {
        if k.up || k.down { (m, ((sub + 1) % 3) as usize, true) } else { (m, sub, false) }
    } else if sel == 2 {
        let r = step5_u8(m.dr_high@[axis], k.up, k.down, 50);
        (ModelConfig { dr_high: spec_array_update(m.dr_high, axis, r.0), ..m }, sub, r.1)
    } else if sel == 3 {
        let r = step5_u8(m.dr_low@[axis], k.up, k.down, 30);
        (ModelConfig { dr_low: spec_array_update(m.dr_low, axis, r.0), ..m }, sub, r.1)
    } else if sel == 4 {
        let r = step5_i8(m.expo_high@[axis], k.up, k.down);
        (ModelConfig { expo_high: spec_array_update(m.expo_high, axis, r.0), ..m }, sub, r.1)
    } else if sel == 5 {
        let r = step5_i8(m.expo_low@[axis], k.up, k.down);
        (ModelConfig { expo_low: spec_array_update(m.expo_low, axis, r.0), ..m }, sub, r.1)
    } else {
        (m, sub, false)
    }
}

/// One frame of the dual rate screen. Cancel leaves editing (and the frame
/// goes on as a browsing one) or, when browsing, stores all and goes back.
pub open spec fn dual_rate_step(
    c0: MenuController,
    c1: MenuController,
    k: NavKeys,
    m0: ModelConfig,
    m1: ModelConfig,
    b0: BuzzerView,
    b1: BuzzerView,
    e: MenuEffects,
) -> bool {
    let axis = if c0.sub_idx < 2 { c0.sub_idx as int } else { 2 };
    if k.cancel && !c0.editing {
        c1 == to_main(c0, 2, 0) && m1 == m0 && b1 == clicked(b0) && e == MenuEffects { save_all: true, ..no_effects() }
    } else {
        let ce = MenuController { editing: false, ..c0 };
        &&& e == no_effects()
        &&& if !c0.editing || k.cancel {
            let n = list_nav(ce.selected_item, ce.scroll_offset, DR_FIELDS, 4, k.up, k.down, b0);
            let cn = with_cursor(ce, n);
            &&& m1 == m0
            &&& if k.ok { c1 == MenuController { editing: true, ..cn } && b1 == clicked(n.2) } else { c1 == cn && b1 == n.2 }
        } else {
            let r = dr_edit(c0.selected_item, axis, c0.sub_idx, k, m0);
            let bt = if r.2 { beep(b0, 2200, 20) } else { b0 };
            &&& m1 == r.0
            &&& if k.ok {
                c1 == MenuController { sub_idx: r.1, editing: false, ..c0 } && b1 == clicked(bt)
            } else {
                c1 == MenuController { sub_idx: r.1, ..c0 } && b1 == bt
            }
        }
    }
}

fn edit_dual_rate(sel: usize, axis: usize, ctrl: &mut MenuController, keys: &NavKeys, model: &mut ModelConfig) -> (ticked: bool)
    requires
        axis < 3,
    ensures
        (*final(model), final(ctrl).sub_idx, ticked) == dr_edit(sel, axis as int, old(ctrl).sub_idx, *keys, *old(model)),
        *final(ctrl) == (MenuController { sub_idx: final(ctrl).sub_idx, ..*old(ctrl) }),
{
    if sel == 0 {
        let r = cycle_exec(model.dr_switch, 5, keys.up, keys.down);
        model.dr_switch = r.0;
        r.1
    } else if sel == 1 {
        if keys.up || keys.down {
            ctrl.sub_idx = if ctrl.sub_idx < 2 { ctrl.sub_idx + 1 } else { (ctrl.sub_idx % 3 + 1) % 3 };
            true
        } else {
            false
        }
    } else if sel == 2 {
        let r = step5_u8_exec(model.dr_high[axis], keys.up, keys.down, 50);
        model.dr_high[axis] = r.0;
        r.1
    } else if sel == 3 {
        let r = step5_u8_exec(model.dr_low[axis], keys.up, keys.down, 30);
        model.dr_low[axis] = r.0;
        r.1
    } else if sel == 4 {
        let r = step5_i8_exec(model.expo_high[axis], keys.up, keys.down);
        model.expo_high[axis] = r.0;
        r.1
    } else if sel == 5 {
        let r = step5_i8_exec(model.expo_low[axis], keys.up, keys.down);
        model.expo_low[axis] = r.0;
        r.1
    } else {
        false
    }
}

/// Dual rate and expo: the rate switch, the axis, and the high and low
/// rates and expos of that axis.
pub fn update_dual_rate(
    ctrl: &mut MenuController,
    keys: &NavKeys,
    model: &mut ModelConfig,
    buzzer: &mut Buzzer,
) -> (e: MenuEffects)
    ensures
        dual_rate_step(*old(ctrl), *final(ctrl), *keys, *old(model), *final(model), old(buzzer)@, final(buzzer)@, e),
{
    if keys.cancel {
        if ctrl.editing {
            ctrl.editing = false;
        } else {
            ctrl.state = MenuState::MainMenu;
            ctrl.selected_item = 2;
            ctrl.scroll_offset = 0;
            ctrl.waiting_release = true;
            buzzer.click();
            let mut e = none();
            e.save_all = true;
            return e;
        }
    }
    let axis: usize = if ctrl.sub_idx < 2 { ctrl.sub_idx } else { 2 };
    if !ctrl.editing {
        navigate_4slot_list(&mut ctrl.selected_item, &mut ctrl.scroll_offset, DR_FIELDS, keys.up, keys.down, buzzer);
        if keys.ok {
            ctrl.editing = true;
            buzzer.click();
        }
    } else {
        let sel = ctrl.selected_item;
        if edit_dual_rate(sel, axis, ctrl, keys, model) {
            buzzer.play_tone(2200, 20);
        }
        if keys.ok {
            ctrl.editing = false;
            buzzer.click();
        }
    }
    none()
}

/// A 5-point curve widened to 9 points: the points stay and each midpoint
/// is the mean of its neighbours (rounded down).
pub open spec fn curve_to_9(c: Seq<u8>) -> Seq<u8> {
    seq![
        c[0], ((c[0] + c[1]) / 2) as u8, c[1], ((c[1] + c[2]) / 2) as u8, c[2],
        ((c[2] + c[3]) / 2) as u8, c[3], ((c[3] + c[4]) / 2) as u8, c[4],
    ]
}

/// A 9-point curve narrowed to 5 points: every other point, the rest zero.
pub open spec fn curve_to_5(c: Seq<u8>) -> Seq<u8> {
    seq![c[0], c[2], c[4], c[6], c[8], 0u8, 0, 0, 0]
}

/// Points shown for a curve mode.
pub open spec fn curve_points(m: ModelConfig) -> usize {
    if m.thr_curve_pts == 9 { 9 } else { 5 }
}

/// The cursor after Bind while browsing: to the first point, or on to the
/// next point (wrapping past the last back to the first).
pub open spec fn curve_bind_cursor(sel: usize, max: usize) -> usize {
    if sel < 2 {
        2
    } else {
        let s = ((sel + 1) % (max as int)) as usize;
        if s < 2 { 2 } else { s }
    }
}

/// The point cursor after Down, Up and Bind while browsing `max` items.
pub open spec fn curve_cursor(sel: usize, max: usize, k: NavKeys) -> usize {
    let s1: usize = if k.down { ((sel + 1) % (max as int)) as usize } else { sel };
    let s2: usize = if k.up { if s1 == 0 { (max - 1) as usize } else { (s1 - 1) as usize } } else { s1 };
    if k.bind { curve_bind_cursor(s2, max) } else { s2 }
}

/// Ticks for Down and Up, a click for Bind.
pub open spec fn curve_cursor_sound(b: BuzzerView, k: NavKeys) -> BuzzerView {
    let bd = if k.down { beep(b, 2200, 20) } else { b };
    let bu = if k.up { beep(bd, 2200, 20) } else { bd };
    if k.bind { clicked(bu) } else { bu }
}

fn move_curve_cursor(sel: usize, max_items: usize, keys: &NavKeys, buzzer: &mut Buzzer) -> (s: usize)
    requires
        max_items >= 7,
    ensures
        s == curve_cursor(sel, max_items, *keys),
        final(buzzer)@ == curve_cursor_sound(old(buzzer)@, *keys),
{
    let mut s = sel;
    if keys.down {
        s = if s < max_items - 1 { s + 1 } else { (s % max_items + 1) % max_items };
        proof { crate::arith::lemma_next_mod(sel as int, max_items as int); }
        buzzer.play_tone(2200, 20);
    }
    if keys.up {
        s = if s == 0 { max_items - 1 } else { s - 1 };
        buzzer.play_tone(2200, 20);
    }
    if keys.bind {
        if s < 2 {
            s = 2;
        } else {
            let t = if s < max_items - 1 { s + 1 } else { (s % max_items + 1) % max_items };
            proof { crate::arith::lemma_next_mod(s as int, max_items as int); }
            s = if t < 2 { 2 } else { t };
        }
        buzzer.click();
    }
    s
}

/// One frame of the throttle curve screen while browsing.
pub open spec fn curve_browse(c0: MenuController, c1: MenuController, k: NavKeys, m0: ModelConfig, m1: ModelConfig, b0: BuzzerView, b1: BuzzerView, e: MenuEffects) -> bool {
    let max = (2 + curve_points(m0)) as usize;
    if k.cancel {
        &&& c1 == MenuController { state: MenuState::MainMenu, selected_item: 3, waiting_release: true, ..c0 }
        &&& m1 == m0 && b1 == clicked(b0) && e == MenuEffects { save_all: true, ..no_effects() }
    } else {
        let s3 = curve_cursor(c0.selected_item, max, k);
        let bb = curve_cursor_sound(b0, k);
        let cs = MenuController { selected_item: s3, ..c0 };
        if k.ok && s3 == 0 {
            &&& c1 == cs && b1 == clicked(bb) && e == MenuEffects { save_all: true, ..no_effects() }
            &&& m1 == ModelConfig { thr_curve: m1.thr_curve, thr_curve_pts: m1.thr_curve_pts, ..m0 }
            &&& if m0.thr_curve_pts == 5 {
                m1.thr_curve_pts == 9 && m1.thr_curve@ == curve_to_9(m0.thr_curve@)
            } else {
                m1.thr_curve_pts == 5 && m1.thr_curve@ == curve_to_5(m0.thr_curve@)
            }
        } else if k.ok && s3 == 1 {
            &&& c1 == cs && b1 == clicked(bb) && e == MenuEffects { save_all: true, ..no_effects() }
            &&& m1 == ModelConfig { thr_curve_smooth: if m0.thr_curve_smooth == 0 { 1 } else { 0 }, ..m0 }
        } else if k.ok {
            c1 == MenuController { editing: true, ..cs } && m1 == m0 && b1 == clicked(bb) && e == no_effects()
        } else {
            c1 == cs && m1 == m0 && b1 == bb && e == no_effects()
        }
    }
}

/// One frame of the throttle curve screen while editing a point: Up and
/// Down step it by 1 within 0..=100, OK moves to the next point or ends
/// editing after the last, Bind moves on and wraps to the first.
pub open spec fn curve_edit(c0: MenuController, c1: MenuController, k: NavKeys, m0: ModelConfig, m1: ModelConfig, b0: BuzzerView, b1: BuzzerView, e: MenuEffects) -> bool {
    let pts = curve_points(m0);
    let max = 2 + pts;
    let pt = if c0.selected_item < 2 { 0 } else if c0.selected_item - 2 > pts - 1 { pts - 1 } else { c0.selected_item - 2 };
    if k.cancel {
        c1 == MenuController { editing: false, ..c0 } && m1 == m0 && b1 == clicked(b0) && e == MenuEffects { save_all: true, ..no_effects() }
    } else {
        let v0 = m0.thr_curve@[pt];
        let v1: u8 = if k.up && v0 < 100 { (v0 + 1) as u8 } else { v0 };
        let bu = if k.up { beep(b0, 2200, 20) } else { b0 };
        let v2: u8 = if k.down && v1 > 0 { (v1 - 1) as u8 } else { v1 };
        let bd = if k.down { beep(bu, 2200, 20) } else { bu };
        &&& m1 == ModelConfig { thr_curve: spec_array_update(m0.thr_curve, pt, v2), ..m0 }
        &&& if k.ok {
            &&& c1 == if c0.selected_item + 1 < max {
                MenuController { selected_item: (c0.selected_item + 1) as usize, ..c0 }
            } else {
                MenuController { editing: false, ..c0 }
            }
            &&& b1 == clicked(bd) && e == MenuEffects { save_all: true, ..no_effects() }
        } else if k.bind {
            &&& c1 == MenuController { selected_item: if c0.selected_item + 1 < max { (c0.selected_item + 1) as usize } else { 2 }, ..c0 }
            &&& b1 == clicked(bd) && e == MenuEffects { save_all: true, ..no_effects() }
        } else {
            c1 == c0 && b1 == bd && e == no_effects()
        }
    }
}

fn switch_curve_mode(model: &mut ModelConfig)
    ensures
        *final(model) == (ModelConfig { thr_curve: final(model).thr_curve, thr_curve_pts: final(model).thr_curve_pts, ..*old(model) }),
        old(model).thr_curve_pts == 5 ==> final(model).thr_curve_pts == 9 && final(model).thr_curve@ == curve_to_9(old(model).thr_curve@),
        old(model).thr_curve_pts != 5 ==> final(model).thr_curve_pts == 5 && final(model).thr_curve@ == curve_to_5(old(model).thr_curve@),
{
    let c = model.thr_curve;
    if model.thr_curve_pts == 5 {
        model.thr_curve = [
            c[0],
            ((c[0] as u16 + c[1] as u16) / 2) as u8,
            c[1],
            ((c[1] as u16 + c[2] as u16) / 2) as u8,
            c[2],
            ((c[2] as u16 + c[3] as u16) / 2) as u8,
            c[3],
            ((c[3] as u16 + c[4] as u16) / 2) as u8,
            c[4],
        ];
        model.thr_curve_pts = 9;
        assert(model.thr_curve@ =~= curve_to_9(c@));
    } else {
        model.thr_curve = [c[0], c[2], c[4], c[6], c[8], 0, 0, 0, 0];
        model.thr_curve_pts = 5;
        assert(model.thr_curve@ =~= curve_to_5(c@));
    }
}

fn edit_curve_point(ctrl: &mut MenuController, keys: &NavKeys, model: &mut ModelConfig, buzzer: &mut Buzzer) -> (e: MenuEffects)
    ensures
        curve_edit(*old(ctrl), *final(ctrl), *keys, *old(model), *final(model), old(buzzer)@, final(buzzer)@, e),
{
    let pts_count: usize = if model.thr_curve_pts == 9 { 9 } else { 5 };
    let max_items: usize = 2 + pts_count;
    let mut e = none();
    let pt_idx: usize = if ctrl.selected_item < 2 {
        0
    } else if ctrl.selected_item - 2 > pts_count - 1 {
        pts_count - 1
    } else {
        ctrl.selected_item - 2
    };
    if keys.cancel {
        ctrl.editing = false;
        buzzer.click();
        e.save_all = true;
        return e;
    }
    let v0 = model.thr_curve[pt_idx];
    let v1 = if keys.up && v0 < 100 { v0 + 1 } else { v0 };
    if keys.up {
        buzzer.play_tone(2200, 20);
    }
    let v2 = if keys.down && v1 > 0 { v1 - 1 } else { v1 };
    if keys.down {
        buzzer.play_tone(2200, 20);
    }
    let ghost c0 = model.thr_curve;
    model.thr_curve[pt_idx] = v2;
    assert(model.thr_curve =~= spec_array_update(c0, pt_idx as int, v2));
    if keys.ok {
        if ctrl.selected_item < max_items - 1 {
            ctrl.selected_item = ctrl.selected_item + 1;
        } else {
            ctrl.editing = false;
        }
        e.save_all = true;
        buzzer.click();
    } else if keys.bind {
        if ctrl.selected_item < max_items - 1 {
            ctrl.selected_item = ctrl.selected_item + 1;
        } else {
            ctrl.selected_item = 2;
        }
        e.save_all = true;
        buzzer.click();
    }
    e
}

fn browse_curve(ctrl: &mut MenuController, keys: &NavKeys, model: &mut ModelConfig, buzzer: &mut Buzzer) -> (e: MenuEffects)
    ensures
        curve_browse(*old(ctrl), *final(ctrl), *keys, *old(model), *final(model), old(buzzer)@, final(buzzer)@, e),
{
    let pts_count: usize = if model.thr_curve_pts == 9 { 9 } else { 5 };
    let max_items: usize = 2 + pts_count;
    let mut e = none();
    if keys.cancel {
        ctrl.state = MenuState::MainMenu;
        ctrl.selected_item = 3;
        ctrl.waiting_release = true;
        buzzer.click();
        e.save_all = true;
        return e;
    }
    ctrl.selected_item = move_curve_cursor(ctrl.selected_item, max_items, keys, buzzer);
    if keys.ok {
        if ctrl.selected_item == 0 {
            switch_curve_mode(model);
            e.save_all = true;
            buzzer.click();
        } else if ctrl.selected_item == 1 {
            model.thr_curve_smooth = if model.thr_curve_smooth == 0 { 1 } else { 0 };
            e.save_all = true;
            buzzer.click();
        } else {
            ctrl.editing = true;
            buzzer.click();
        }
    }
    e
}

/// The throttle curve: 5 or 9 points, linear or smoothed, and the points.
pub fn update_throttle_curve(
    ctrl: &mut MenuController,
    keys: &NavKeys,
    model: &mut ModelConfig,
    buzzer: &mut Buzzer,
) -> (e: MenuEffects)
    ensures
        old(ctrl).editing ==> curve_edit(*old(ctrl), *final(ctrl), *keys, *old(model), *final(model), old(buzzer)@, final(buzzer)@, e),
        !old(ctrl).editing ==> curve_browse(*old(ctrl), *final(ctrl), *keys, *old(model), *final(model), old(buzzer)@, final(buzzer)@, e),
{
    if ctrl.editing {
        edit_curve_point(ctrl, keys, model, buzzer)
    } else {
        browse_curve(ctrl, keys, model, buzzer)
    }
}

/// Items of the wing mixer list: the template, then the eight mix lines.
pub const MIX_ITEMS: usize = 9;

/// One frame of the wing mixer list: OK on the template cycles it, OK on a
/// mix line opens its editor.
pub open spec fn wing_mixer_step(c0: MenuController, c1: MenuController, k: NavKeys, m0: ModelConfig, m1: ModelConfig, b0: BuzzerView, b1: BuzzerView, e: MenuEffects) -> bool {
    if k.cancel {
        c1 == to_main(c0, 4, 0) && m1 == m0 && b1 == clicked(b0) && e == MenuEffects { save_all: true, ..no_effects() }
    } else {
        let n = list_nav(c0.selected_item, c0.scroll_offset, MIX_ITEMS, 4, k.up, k.down, b0);
        let cn = with_cursor(c0, n);
        &&& e == no_effects()
        &&& if k.ok && n.0 == 0 {
            c1 == cn && m1 == ModelConfig { wing_tail_mix: ((m0.wing_tail_mix + 1) % 4) as u8, ..m0 } && b1 == clicked(n.2)
        } else if k.ok {
            &&& c1 == MenuController {
                page_idx: (n.0 - 1) as usize,
                selected_item: 0,
                scroll_offset: 0,
                editing: false,
                state: MenuState::MixerLineEdit,
                waiting_release: true,
                ..cn
            }
            &&& m1 == m0 && b1 == clicked(n.2)
        } else {
            c1 == cn && m1 == m0 && b1 == n.2
        }
    }
}

/// The wing / tail template and the list of mix lines.
pub fn update_wing_mixer(
    ctrl: &mut MenuController,
    keys: &NavKeys,
    model: &mut ModelConfig,
    buzzer: &mut Buzzer,
) -> (e: MenuEffects)
    ensures
        wing_mixer_step(*old(ctrl), *final(ctrl), *keys, *old(model), *final(model), old(buzzer)@, final(buzzer)@, e),
{
    if keys.cancel {
        ctrl.state = MenuState::MainMenu;
        ctrl.selected_item = 4;
        ctrl.scroll_offset = 0;
        ctrl.waiting_release = true;
        buzzer.click();
        let mut e = none();
        e.save_all = true;
        return e;
    }
    navigate_4slot_list(&mut ctrl.selected_item, &mut ctrl.scroll_offset, MIX_ITEMS, keys.up, keys.down, buzzer);
    if keys.ok {
        buzzer.click();
        if ctrl.selected_item == 0 {
            model.wing_tail_mix = ((model.wing_tail_mix as u16 + 1) % 4) as u8;
        } else {
            ctrl.page_idx = ctrl.selected_item - 1;
            ctrl.selected_item = 0;
            ctrl.scroll_offset = 0;
            ctrl.editing = false;
            ctrl.state = MenuState::MixerLineEdit;
            ctrl.waiting_release = true;
        }
    }
    none()
}

/// Fields of a mix line.
pub const MIX_FIELDS: usize = 6;

/// Editing a mix line field with Up or Down: target channel (0..=14),
/// source (0..=25), weight and offset (-100..=100 in steps of 5), switch
/// condition (0..=10) and mode (0..=2).
pub open spec fn mix_edit(sel: usize, k: NavKeys, x: MixLine) -> (MixLine, bool) {
    if sel == 0 {
        let r = cycle(x.target_ch, 15, k.up, k.down);
        (MixLine { target_ch: r.0, ..x }, r.1)
    } else if sel == 1 {
        let r = cycle(x.source, 26, k.up, k.down);
        (MixLine { source: r.0, ..x }, r.1)
    } else if sel == 2 {
        let r = step5_i8(x.weight, k.up, k.down);
        (MixLine { weight: r.0, ..x }, r.1)
    } else if sel == 3 {
        let r = step5_i8(x.offset, k.up, k.down);
        (MixLine { offset: r.0, ..x }, r.1)
    } else if sel == 4 {
        let r = cycle(x.switch, 11, k.up, k.down);
        (MixLine { switch: r.0, ..x }, r.1)
    } else if sel == 5 {
        let r = cycle(x.mode, 3, k.up, k.down);
        (MixLine { mode: r.0, ..x }, r.1)
    } else {
        (x, false)
    }
}

/// One frame of the mix line editor for line `min(page_idx, 7)`.
pub open spec fn mix_line_step(c0: MenuController, c1: MenuController, k: NavKeys, m0: ModelConfig, m1: ModelConfig, b0: BuzzerView, b1: BuzzerView, e: MenuEffects) -> bool {
    let mi = if c0.page_idx < 7 { c0.page_idx as int } else { 7 };
    &&& e == no_effects()
    &&& if k.cancel && !c0.editing {
        &&& c1 == MenuController {
            state: MenuState::WingMixer,
            selected_item: (mi + 1) as usize,
            scroll_offset: if mi + 1 >= 3 { (mi + 1 - 3) as usize } else { 0 },
            waiting_release: true,
            ..c0
        }
        &&& m1 == m0 && b1 == clicked(b0)
    } else if !c0.editing || k.cancel {
        let ce = MenuController { editing: false, ..c0 };
        let n = list_nav(ce.selected_item, ce.scroll_offset, MIX_FIELDS, 4, k.up, k.down, b0);
        let cn = with_cursor(ce, n);
        &&& m1 == m0
        &&& if k.ok { c1 == MenuController { editing: true, ..cn } && b1 == clicked(n.2) } else { c1 == cn && b1 == n.2 }
    } else {
        let r = mix_edit(c0.selected_item, k, m0.mixes@[mi]);
        let bt = if r.1 { beep(b0, 2200, 20) } else { b0 };
        &&& m1 == ModelConfig { mixes: spec_array_update(m0.mixes, mi, r.0), ..m0 }
        &&& if k.ok { c1 == MenuController { editing: false, ..c0 } && b1 == clicked(bt) } else { c1 == c0 && b1 == bt }
    }
}

fn edit_mix(sel: usize, keys: &NavKeys, mix: &mut MixLine) -> (ticked: bool)
    ensures
        (*final(mix), ticked) == mix_edit(sel, *keys, *old(mix)),
{
    if sel == 0 {
        let r = cycle_exec(mix.target_ch, 15, keys.up, keys.down);
        mix.target_ch = r.0;
        r.1
    } else if sel == 1 {
        let r = cycle_exec(mix.source, 26, keys.up, keys.down);
        mix.source = r.0;
        r.1
    } else if sel == 2 {
        let r = step5_i8_exec(mix.weight, keys.up, keys.down);
        mix.weight = r.0;
        r.1
    } else if sel == 3 {
        let r = step5_i8_exec(mix.offset, keys.up, keys.down);
        mix.offset = r.0;
        r.1
    } else if sel == 4 {
        let r = cycle_exec(mix.switch, 11, keys.up, keys.down);
        mix.switch = r.0;
        r.1
    } else if sel == 5 {
        let r = cycle_exec(mix.mode, 3, keys.up, keys.down);
        mix.mode = r.0;
        r.1
    } else {
        false
    }
}

/// The mix line editor: target, source, weight, offset, switch and mode.
pub fn update_mixer_line_edit(
    ctrl: &mut MenuController,
    keys: &NavKeys,
    model: &mut ModelConfig,
    buzzer: &mut Buzzer,
) -> (e: MenuEffects)
    ensures
        mix_line_step(*old(ctrl), *final(ctrl), *keys, *old(model), *final(model), old(buzzer)@, final(buzzer)@, e),
{
    let mix_idx: usize = if ctrl.page_idx < 7 { ctrl.page_idx } else { 7 };
    if keys.cancel {
        if ctrl.editing {
            ctrl.editing = false;
        } else {
            ctrl.state = MenuState::WingMixer;
            ctrl.selected_item = mix_idx + 1;
            ctrl.scroll_offset = if mix_idx + 1 >= 3 { mix_idx + 1 - 3 } else { 0 };
            ctrl.waiting_release = true;
            buzzer.click();
            return none();
        }
    }
    if !ctrl.editing {
        navigate_4slot_list(&mut ctrl.selected_item, &mut ctrl.scroll_offset, MIX_FIELDS, keys.up, keys.down, buzzer);
        if keys.ok {
            ctrl.editing = true;
            buzzer.click();
        }
    } else {
        let mut mix = model.mixes[mix_idx];
        let ticked = edit_mix(ctrl.selected_item, keys, &mut mix);
        model.mixes[mix_idx] = mix;
        if ticked {
            buzzer.play_tone(2200, 20);
        }
        if keys.ok {
            ctrl.editing = false;
            buzzer.click();
        }
    }
    none()
}

} // verus!
