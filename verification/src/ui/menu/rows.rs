//! Row text of the settings screens whose rows show stored values: radio
//! setup, model selection, channel reversing, dual rates, auxiliary
//! channels, the wing-and-mixer list, the mix line editor, model setup
//! and protocol setup. Each screen's rows are
//! given whole, as (label, value) pairs; which four are visible is the
//! drawing's choice.
use vstd::prelude::*;
use crate::storage::{MixLine, ModelConfig, RadioConfig, RadioStorage};
use crate::ui::format::{dec3, digit, i8_to_dec, u32_to_hex, u8_to_dec};
use crate::ui::telemetry::{append, dg, text};

verus! {

/// Radio setup rows: throttle trim mode, beeper, tones, backlight timer,
/// backlight level (percent, capped at 100), contrast, battery warning
/// threshold, USB mode and module power polarity.
pub open spec fn radio_setup_spec(r: RadioConfig) -> Seq<Seq<u8>> {
    let pct = if r.backlight_brightness * 10 < 100 { r.backlight_brightness * 10 } else { 100 };
    seq![
        seq![84u8, 104, 114, 32, 84, 114, 105, 109, 58],
        if r.throttle_trim == 1 { seq![73u8, 68, 76, 69] } else if r.throttle_trim == 2 { seq![76u8, 73, 78, 69, 65, 82] } else { seq![79u8, 70, 70, 32, 40, 76, 111, 99, 107, 41] },
        seq![66u8, 101, 101, 112, 101, 114, 58],
        if r.audio_enabled != 0 { seq![69u8, 78, 65, 66, 76, 69, 68] } else { seq![77u8, 85, 84, 69, 68] },
        seq![84u8, 111, 110, 101, 115, 58],
        if r.tone_style != 0 { seq![82u8, 73, 67, 72] } else { seq![83u8, 73, 77, 80, 76, 69] },
        seq![66u8, 76, 32, 84, 105, 109, 101, 114, 58],
        if r.backlight_timeout == 1 { seq![49u8, 53, 32, 83, 69, 67] } else if r.backlight_timeout == 2 { seq![51u8, 48, 32, 83, 69, 67] }
            else if r.backlight_timeout == 3 { seq![54u8, 48, 32, 83, 69, 67] } else { seq![65u8, 76, 87, 65, 89, 83, 32, 79, 78] },
        seq![66u8, 76, 32, 76, 101, 118, 101, 108, 58],
        if pct == 100 { seq![49u8, 48, 48, 37] } else { seq![32u8, digit(pct / 10), 48u8, 37u8] },
        seq![67u8, 111, 110, 116, 114, 97, 115, 116, 58],
        seq![digit(r.lcd_contrast as int / 10), digit(r.lcd_contrast as int % 10)],
        seq![66u8, 97, 116, 32, 87, 97, 114, 110, 58],
        seq![digit(r.vbat_warn_deci as int / 10), 46u8, digit(r.vbat_warn_deci as int % 10), 86u8],
        seq![85u8, 83, 66, 32, 77, 111, 100, 101, 58],
        if r.usb_mode == 1 { seq![74u8, 79, 89, 83, 84, 73, 67, 75] } else if r.usb_mode == 2 { seq![83u8, 69, 82, 73, 65, 76] }
            else if r.usb_mode == 3 { seq![67u8, 79, 77, 80, 79, 83, 73, 84, 69] } else { seq![79u8, 70, 70] },
        seq![80u8, 67, 49, 51, 32, 80, 119, 114, 58],
        if r.ext_module_pwr == 0 { seq![72u8, 73, 71, 72, 32, 40, 78, 41] } else { seq![76u8, 79, 87, 32, 40, 80, 41] },
    ]
}

/// The radio setup rows (see `radio_setup_spec`).
pub fn radio_setup_rows(r: &RadioConfig) -> (rows: Vec<Vec<u8>>)
    requires
        r.backlight_brightness <= 25,
    ensures
        rows@.map_values(|l: Vec<u8>| l@) == radio_setup_spec(*r),
{
    let pct: u32 = if (r.backlight_brightness as u32) * 10 < 100 { r.backlight_brightness as u32 * 10 } else { 100 };
    let mut rows: Vec<Vec<u8>> = Vec::new();
    rows.push(text(&[84u8, 104, 114, 32, 84, 114, 105, 109, 58]));
    rows.push(if r.throttle_trim == 1 { text(&[73u8, 68, 76, 69]) } else if r.throttle_trim == 2 { text(&[76u8, 73, 78, 69, 65, 82]) } else { text(&[79u8, 70, 70, 32, 40, 76, 111, 99, 107, 41]) });
    rows.push(text(&[66u8, 101, 101, 112, 101, 114, 58]));
    rows.push(if r.audio_enabled != 0 { text(&[69u8, 78, 65, 66, 76, 69, 68]) } else { text(&[77u8, 85, 84, 69, 68]) });
    rows.push(text(&[84u8, 111, 110, 101, 115, 58]));
    rows.push(if r.tone_style != 0 { text(&[82u8, 73, 67, 72]) } else { text(&[83u8, 73, 77, 80, 76, 69]) });
    rows.push(text(&[66u8, 76, 32, 84, 105, 109, 101, 114, 58]));
    rows.push(if r.backlight_timeout == 1 { text(&[49u8, 53, 32, 83, 69, 67]) } else if r.backlight_timeout == 2 { text(&[51u8, 48, 32, 83, 69, 67]) }
        else if r.backlight_timeout == 3 { text(&[54u8, 48, 32, 83, 69, 67]) } else { text(&[65u8, 76, 87, 65, 89, 83, 32, 79, 78]) });
    rows.push(text(&[66u8, 76, 32, 76, 101, 118, 101, 108, 58]));
    rows.push(if pct == 100 { text(&[49u8, 48, 48, 37]) } else { text(&[32u8, dg(pct / 10), 48, 37]) });
    rows.push(text(&[67u8, 111, 110, 116, 114, 97, 115, 116, 58]));
    rows.push(text(&[dg(r.lcd_contrast as u32 / 10), dg(r.lcd_contrast as u32 % 10)]));
    rows.push(text(&[66u8, 97, 116, 32, 87, 97, 114, 110, 58]));
    rows.push(text(&[dg(r.vbat_warn_deci as u32 / 10), 46u8, dg(r.vbat_warn_deci as u32 % 10), 86]));
    rows.push(text(&[85u8, 83, 66, 32, 77, 111, 100, 101, 58]));
    rows.push(if r.usb_mode == 1 { text(&[74u8, 79, 89, 83, 84, 73, 67, 75]) } else if r.usb_mode == 2 { text(&[83u8, 69, 82, 73, 65, 76]) }
        else if r.usb_mode == 3 { text(&[67u8, 79, 77, 80, 79, 83, 73, 84, 69]) } else { text(&[79u8, 70, 70]) });
    rows.push(text(&[80u8, 67, 49, 51, 32, 80, 119, 114, 58]));
    rows.push(if r.ext_module_pwr == 0 { text(&[72u8, 73, 71, 72, 32, 40, 78, 41]) } else { text(&[76u8, 79, 87, 32, 40, 80, 41]) });
    assert(rows@.map_values(|l: Vec<u8>| l@) =~= radio_setup_spec(*r));
    rows
}

/// Name of channel `ch` (0-based) on the reversing screen.
pub open spec fn reverse_label(ch: int) -> Seq<u8> {
    if ch == 0 {
        seq![67u8, 72, 49, 32, 40, 65, 73, 76, 41]
    } else if ch == 1 {
        seq![67u8, 72, 50, 32, 40, 69, 76, 69, 41]
    } else if ch == 2 {
        seq![67u8, 72, 51, 32, 40, 84, 72, 82, 41]
    } else if ch == 3 {
        seq![67u8, 72, 52, 32, 40, 82, 85, 68, 41]
    } else if ch == 4 {
        seq![67u8, 72, 53, 32, 40, 83, 65, 41, 32]
    } else if ch == 5 {
        seq![67u8, 72, 54, 32, 40, 83, 66, 41, 32]
    } else if ch == 6 {
        seq![67u8, 72, 55, 32, 40, 86, 82, 49, 41]
    } else if ch == 7 {
        seq![67u8, 72, 56, 32, 40, 86, 82, 50, 41]
    } else if ch == 8 {
        seq![67u8, 72, 57, 32, 40, 83, 67, 41, 32]
    } else if ch == 9 {
        seq![67u8, 72, 49, 48, 40, 83, 68, 41, 32]
    } else if ch == 10 {
        seq![67u8, 72, 49, 49, 32, 32, 32, 32, 32]
    } else if ch == 11 {
        seq![67u8, 72, 49, 50, 32, 32, 32, 32, 32]
    } else if ch == 12 {
        seq![67u8, 72, 49, 51, 32, 32, 32, 32, 32]
    } else {
        seq![67u8, 72, 49, 52, 32, 32, 32, 32, 32]
    }
}

/// Channel reversing rows: the channel's name, then REVERSE or NORMAL.
pub open spec fn channel_reverse_spec(mask: u16) -> Seq<Seq<u8>> {
    Seq::new(28, |i: int| if i % 2 == 0 {
        reverse_label(i / 2)
    } else if (mask >> ((i / 2) as u16)) & 1u16 == 1u16 {
        seq![82u8, 69, 86, 69, 82, 83, 69]
    } else {
        seq![78u8, 79, 82, 77, 65, 76, 32]
    })
}

fn reverse_label_bytes(ch: usize) -> (v: Vec<u8>)
    ensures
        v@ == reverse_label(ch as int),
{
    let a: &[u8] = match ch {
        0 => &[67u8, 72, 49, 32, 40, 65, 73, 76, 41],
        1 => &[67u8, 72, 50, 32, 40, 69, 76, 69, 41],
        2 => &[67u8, 72, 51, 32, 40, 84, 72, 82, 41],
        3 => &[67u8, 72, 52, 32, 40, 82, 85, 68, 41],
        4 => &[67u8, 72, 53, 32, 40, 83, 65, 41, 32],
        5 => &[67u8, 72, 54, 32, 40, 83, 66, 41, 32],
        6 => &[67u8, 72, 55, 32, 40, 86, 82, 49, 41],
        7 => &[67u8, 72, 56, 32, 40, 86, 82, 50, 41],
        8 => &[67u8, 72, 57, 32, 40, 83, 67, 41, 32],
        9 => &[67u8, 72, 49, 48, 40, 83, 68, 41, 32],
        10 => &[67u8, 72, 49, 49, 32, 32, 32, 32, 32],
        11 => &[67u8, 72, 49, 50, 32, 32, 32, 32, 32],
        12 => &[67u8, 72, 49, 51, 32, 32, 32, 32, 32],
        _ => &[67u8, 72, 49, 52, 32, 32, 32, 32, 32],
    };
    let v = text(a);
    assert(v@ =~= reverse_label(ch as int));
    v
}

/// The channel reversing rows (see `channel_reverse_spec`).
pub fn channel_reverse_rows(mask: u16) -> (rows: Vec<Vec<u8>>)
    ensures
        rows@.map_values(|l: Vec<u8>| l@) == channel_reverse_spec(mask),
{
    let mut rows: Vec<Vec<u8>> = Vec::new();
    let mut ch: usize = 0;
    while ch < 14
        invariant
            ch <= 14,
            rows@.len() == 2 * ch,
            forall|i: int| 0 <= i < 2 * ch ==> #[trigger] rows@[i]@ == channel_reverse_spec(mask)[i],
        decreases 14 - ch,
    {
        rows.push(reverse_label_bytes(ch));
        let rev = (mask >> (ch as u16)) & 1 == 1;
        rows.push(if rev { text(&[82u8, 69, 86, 69, 82, 83, 69]) } else { text(&[78u8, 79, 82, 77, 65, 76, 32]) });
        ch = ch + 1;
    }
    assert(rows@.map_values(|l: Vec<u8>| l@) =~= channel_reverse_spec(mask));
    rows
}

/// One model selection line: "Mnn:", the stored name, and "[*]" on the
/// active model.
pub open spec fn model_select_line(name: Seq<u8>, idx: int, active: bool) -> Seq<u8> {
    seq![77u8, digit((idx + 1) / 10), digit((idx + 1) % 10), 58u8] + name + seq![32u8]
        + if active { seq![91u8, 42u8, 93u8] } else { seq![32u8, 32u8, 32u8] }
}

/// The twenty model selection lines.
pub open spec fn model_select_spec(s: RadioStorage) -> Seq<Seq<u8>> {
    Seq::new(20, |i: int| model_select_line(s.models@[i].name@, i, i == s.radio.active_model))
}

/// The model selection lines (see `model_select_spec`).
pub fn model_select_rows(s: &RadioStorage) -> (rows: Vec<Vec<u8>>)
    ensures
        rows@.map_values(|l: Vec<u8>| l@) == model_select_spec(*s),
{
    let mut rows: Vec<Vec<u8>> = Vec::new();
    let mut i: usize = 0;
    while i < 20
        invariant
            i <= 20,
            rows@.len() == i,
            forall|k: int| 0 <= k < i ==> #[trigger] rows@[k]@ == model_select_spec(*s)[k],
        decreases 20 - i,
    {
        let n = i as u32 + 1;
        let mut v = text(&[77u8, dg(n / 10), dg(n % 10), 58]);
        append(&mut v, &s.models[i].name);
        append(&mut v, &[32u8]);
        if i == s.radio.active_model as usize {
            append(&mut v, &[91u8, 42, 93]);
        } else {
            append(&mut v, &[32u8, 32, 32]);
        }
        assert(v@ =~= model_select_spec(*s)[i as int]);
        rows.push(v);
        i = i + 1;
    }
    assert(rows@.map_values(|l: Vec<u8>| l@) =~= model_select_spec(*s));
    rows
}

/// `source name` table entry `i` (the last one for any larger `i`).
pub open spec fn source_name(i: int) -> Seq<u8> {
    if i == 0 {
        seq![78u8, 111, 110, 101]
    } else if i == 1 {
        seq![82u8, 111, 108, 108]
    } else if i == 2 {
        seq![80u8, 105, 116, 99, 104]
    } else if i == 3 {
        seq![84u8, 104, 114]
    } else if i == 4 {
        seq![89u8, 97, 119]
    } else if i == 5 {
        seq![86u8, 82, 65]
    } else if i == 6 {
        seq![86u8, 82, 66]
    } else if i == 7 {
        seq![83u8, 65]
    } else if i == 8 {
        seq![83u8, 66]
    } else if i == 9 {
        seq![83u8, 67]
    } else if i == 10 {
        seq![83u8, 68]
    } else if i == 11 {
        seq![77u8, 65, 88]
    } else if i == 12 {
        seq![67u8, 72, 49]
    } else if i == 13 {
        seq![67u8, 72, 50]
    } else if i == 14 {
        seq![67u8, 72, 51]
    } else if i == 15 {
        seq![67u8, 72, 52]
    } else if i == 16 {
        seq![67u8, 72, 53]
    } else if i == 17 {
        seq![67u8, 72, 54]
    } else if i == 18 {
        seq![67u8, 72, 55]
    } else if i == 19 {
        seq![67u8, 72, 56]
    } else if i == 20 {
        seq![67u8, 72, 57]
    } else if i == 21 {
        seq![67u8, 72, 49, 48]
    } else if i == 22 {
        seq![67u8, 72, 49, 49]
    } else if i == 23 {
        seq![67u8, 72, 49, 50]
    } else if i == 24 {
        seq![67u8, 72, 49, 51]
    } else {
        seq![67u8, 72, 49, 52]
    }
}

fn source_name_bytes(i: usize) -> (v: Vec<u8>)
    ensures
        v@ == source_name(i as int),
{
    let a: &[u8] = match i {
        0 => &[78u8, 111, 110, 101],
        1 => &[82u8, 111, 108, 108],
        2 => &[80u8, 105, 116, 99, 104],
        3 => &[84u8, 104, 114],
        4 => &[89u8, 97, 119],
        5 => &[86u8, 82, 65],
        6 => &[86u8, 82, 66],
        7 => &[83u8, 65],
        8 => &[83u8, 66],
        9 => &[83u8, 67],
        10 => &[83u8, 68],
        11 => &[77u8, 65, 88],
        12 => &[67u8, 72, 49],
        13 => &[67u8, 72, 50],
        14 => &[67u8, 72, 51],
        15 => &[67u8, 72, 52],
        16 => &[67u8, 72, 53],
        17 => &[67u8, 72, 54],
        18 => &[67u8, 72, 55],
        19 => &[67u8, 72, 56],
        20 => &[67u8, 72, 57],
        21 => &[67u8, 72, 49, 48],
        22 => &[67u8, 72, 49, 49],
        23 => &[67u8, 72, 49, 50],
        24 => &[67u8, 72, 49, 51],
        _ => &[67u8, 72, 49, 52],
    };
    let v = text(a);
    assert(v@ =~= source_name(i as int));
    v
}

/// `switch name` table entry `i` (the last one for any larger `i`).
pub open spec fn switch_name(i: int) -> Seq<u8> {
    if i == 0 {
        seq![79u8, 78]
    } else if i == 1 {
        seq![83u8, 65, 94]
    } else if i == 2 {
        seq![83u8, 65, 118]
    } else if i == 3 {
        seq![83u8, 66, 94]
    } else if i == 4 {
        seq![83u8, 66, 45]
    } else if i == 5 {
        seq![83u8, 66, 118]
    } else if i == 6 {
        seq![83u8, 67, 94]
    } else if i == 7 {
        seq![83u8, 67, 45]
    } else if i == 8 {
        seq![83u8, 67, 118]
    } else if i == 9 {
        seq![83u8, 68, 94]
    } else {
        seq![83u8, 68, 118]
    }
}

fn switch_name_bytes(i: usize) -> (v: Vec<u8>)
    ensures
        v@ == switch_name(i as int),
{
    let a: &[u8] = match i {
        0 => &[79u8, 78],
        1 => &[83u8, 65, 94],
        2 => &[83u8, 65, 118],
        3 => &[83u8, 66, 94],
        4 => &[83u8, 66, 45],
        5 => &[83u8, 66, 118],
        6 => &[83u8, 67, 94],
        7 => &[83u8, 67, 45],
        8 => &[83u8, 67, 118],
        9 => &[83u8, 68, 94],
        _ => &[83u8, 68, 118],
    };
    let v = text(a);
    assert(v@ =~= switch_name(i as int));
    v
}

/// `mode name` table entry `i` (the last one for any larger `i`).
pub open spec fn mode_name(i: int) -> Seq<u8> {
    if i == 0 {
        seq![65u8, 68, 68, 32, 40, 43, 41]
    } else if i == 1 {
        seq![77u8, 85, 76, 84, 32, 40, 42, 41]
    } else {
        seq![82u8, 69, 80, 76, 32, 40, 58, 61, 41]
    }
}

fn mode_name_bytes(i: usize) -> (v: Vec<u8>)
    ensures
        v@ == mode_name(i as int),
{
    let a: &[u8] = match i {
        0 => &[65u8, 68, 68, 32, 40, 43, 41],
        1 => &[77u8, 85, 76, 84, 32, 40, 42, 41],
        _ => &[82u8, 69, 80, 76, 32, 40, 58, 61, 41],
    };
    let v = text(a);
    assert(v@ =~= mode_name(i as int));
    v
}

/// `template name` table entry `i` (the last one for any larger `i`).
pub open spec fn template_name(i: int) -> Seq<u8> {
    if i == 0 {
        seq![78u8, 79, 82, 77, 65, 76]
    } else if i == 1 {
        seq![69u8, 76, 69, 86, 79, 78, 47, 68, 69, 76, 84, 65]
    } else if i == 2 {
        seq![86u8, 45, 84, 65, 73, 76]
    } else {
        seq![70u8, 76, 65, 80, 69, 82, 79, 78]
    }
}

fn template_name_bytes(i: usize) -> (v: Vec<u8>)
    ensures
        v@ == template_name(i as int),
{
    let a: &[u8] = match i {
        0 => &[78u8, 79, 82, 77, 65, 76],
        1 => &[69u8, 76, 69, 86, 79, 78, 47, 68, 69, 76, 84, 65],
        2 => &[86u8, 45, 84, 65, 73, 76],
        _ => &[70u8, 76, 65, 80, 69, 82, 79, 78],
    };
    let v = text(a);
    assert(v@ =~= template_name(i as int));
    v
}

/// `dr switch name` table entry `i` (the last one for any larger `i`).
pub open spec fn dr_switch_name(i: int) -> Seq<u8> {
    if i == 0 {
        seq![78u8, 111, 110, 101]
    } else if i == 1 {
        seq![83u8, 65]
    } else if i == 2 {
        seq![83u8, 66]
    } else if i == 3 {
        seq![83u8, 67]
    } else {
        seq![83u8, 68]
    }
}

fn dr_switch_name_bytes(i: usize) -> (v: Vec<u8>)
    ensures
        v@ == dr_switch_name(i as int),
{
    let a: &[u8] = match i {
        0 => &[78u8, 111, 110, 101],
        1 => &[83u8, 65],
        2 => &[83u8, 66],
        3 => &[83u8, 67],
        _ => &[83u8, 68],
    };
    let v = text(a);
    assert(v@ =~= dr_switch_name(i as int));
    v
}

/// `axis name` table entry `i` (the last one for any larger `i`).
pub open spec fn axis_name(i: int) -> Seq<u8> {
    if i == 0 {
        seq![82u8, 111, 108, 108]
    } else if i == 1 {
        seq![80u8, 105, 116, 99, 104]
    } else {
        seq![89u8, 97, 119]
    }
}

fn axis_name_bytes(i: usize) -> (v: Vec<u8>)
    ensures
        v@ == axis_name(i as int),
{
    let a: &[u8] = match i {
        0 => &[82u8, 111, 108, 108],
        1 => &[80u8, 105, 116, 99, 104],
        _ => &[89u8, 97, 119],
    };
    let v = text(a);
    assert(v@ =~= axis_name(i as int));
    v
}

/// Smaller of `a` and `b`.
pub open spec fn min_int(a: int, b: int) -> int {
    if a < b { a } else { b }
}

/// "CH" and a channel number as four characters ("CH5 ", "CH12").
pub open spec fn ch_text(t: u8) -> Seq<u8> {
    if t >= 10 {
        seq![67u8, 72u8, 49u8, digit(t - 10)]
    } else {
        seq![67u8, 72u8, digit(t as int), 32u8]
    }
}

fn ch_bytes(t: u8) -> (v: Vec<u8>)
    ensures
        v@ == ch_text(t),
{
    let v = if t >= 10 { text(&[67u8, 72, 49, dg(t as u32 - 10)]) } else { text(&[67u8, 72, dg(t as u32), 32]) };
    assert(v@ =~= ch_text(t));
    v
}

/// A percentage: digits then '%'.
pub open spec fn pct_text(v: u8) -> Seq<u8> {
    dec3(v as int) + seq![37u8]
}

/// A signed percentage: sign, digits, '%'.
pub open spec fn signed_pct_text(v: i8) -> Seq<u8> {
    let mag = if v < 0 { -(v as int) } else { v as int };
    seq![if v < 0 { 45u8 } else { 43u8 }] + dec3(mag) + seq![37u8]
}

fn pct_bytes(v: u8) -> (r: Vec<u8>)
    ensures
        r@ == pct_text(v),
{
    let mut b = [0u8; 5];
    let n = u8_to_dec(v, &mut b);
    let r = text(vstd::slice::slice_subrange(b.as_slice(), 0, n));
    assert(r@ =~= pct_text(v));
    r
}

fn signed_pct_bytes(v: i8) -> (r: Vec<u8>)
    ensures
        r@ == signed_pct_text(v),
{
    let mut b = [0u8; 6];
    let n = i8_to_dec(v, &mut b);
    let r = text(vstd::slice::slice_subrange(b.as_slice(), 0, n));
    assert(r@ =~= signed_pct_text(v));
    r
}

/// Dual rate and expo rows for axis `min(sub_idx, 2)`: dual-rate switch,
/// axis, high and low rate, high and low expo.
pub open spec fn dual_rate_spec(m: ModelConfig, sub_idx: usize) -> Seq<Seq<u8>> {
    let axis = min_int(sub_idx as int, 2);
    seq![
        seq![83u8, 119, 105, 116, 99, 104, 58], dr_switch_name(min_int(m.dr_switch as int, 4)),
        seq![67u8, 104, 97, 110, 110, 101, 108, 58], axis_name(axis),
        seq![72u8, 105, 32, 82, 97, 116, 101, 58], pct_text(m.dr_high@[axis]),
        seq![76u8, 111, 32, 82, 97, 116, 101, 58], pct_text(m.dr_low@[axis]),
        seq![72u8, 105, 32, 69, 120, 112, 111, 58], signed_pct_text(m.expo_high@[axis]),
        seq![76u8, 111, 32, 69, 120, 112, 111, 58], signed_pct_text(m.expo_low@[axis]),
    ]
}

/// The dual rate and expo rows (see `dual_rate_spec`).
pub fn dual_rate_rows(m: &ModelConfig, sub_idx: usize) -> (rows: Vec<Vec<u8>>)
    ensures
        rows@.map_values(|l: Vec<u8>| l@) == dual_rate_spec(*m, sub_idx),
{
    let axis: usize = if sub_idx < 2 { sub_idx } else { 2 };
    let sw: usize = if (m.dr_switch as usize) < 4 { m.dr_switch as usize } else { 4 };
    let mut rows: Vec<Vec<u8>> = Vec::new();
    rows.push(text(&[83u8, 119, 105, 116, 99, 104, 58]));
    rows.push(dr_switch_name_bytes(sw));
    rows.push(text(&[67u8, 104, 97, 110, 110, 101, 108, 58]));
    rows.push(axis_name_bytes(axis));
    rows.push(text(&[72u8, 105, 32, 82, 97, 116, 101, 58]));
    rows.push(pct_bytes(m.dr_high[axis]));
    rows.push(text(&[76u8, 111, 32, 82, 97, 116, 101, 58]));
    rows.push(pct_bytes(m.dr_low[axis]));
    rows.push(text(&[72u8, 105, 32, 69, 120, 112, 111, 58]));
    rows.push(signed_pct_bytes(m.expo_high[axis]));
    rows.push(text(&[76u8, 111, 32, 69, 120, 112, 111, 58]));
    rows.push(signed_pct_bytes(m.expo_low[axis]));
    assert(rows@.map_values(|l: Vec<u8>| l@) =~= dual_rate_spec(*m, sub_idx));
    rows
}

/// The auxiliary channel rows: "CHn: " for CH5..=CH14 and the source's
/// name (sources above 10 shown as the tenth).
pub open spec fn aux_spec(m: ModelConfig) -> Seq<Seq<u8>> {
    Seq::new(20, |i: int| if i % 2 == 0 {
        let ch = 5 + i / 2;
        if ch >= 10 { seq![67u8, 72u8, 49u8, digit(ch - 10), 58u8, 32u8] } else { seq![67u8, 72u8, digit(ch), 32u8, 58u8, 32u8] }
    } else {
        source_name(min_int(m.aux_channels@[i / 2] as int, 10))
    })
}

/// The auxiliary channel rows (see `aux_spec`).
pub fn aux_rows(m: &ModelConfig) -> (rows: Vec<Vec<u8>>)
    ensures
        rows@.map_values(|l: Vec<u8>| l@) == aux_spec(*m),
{
    let mut rows: Vec<Vec<u8>> = Vec::new();
    let mut i: usize = 0;
    while i < 10
        invariant
            i <= 10,
            rows@.len() == 2 * i,
            forall|k: int| 0 <= k < 2 * i ==> #[trigger] rows@[k]@ == aux_spec(*m)[k],
        decreases 10 - i,
    {
        let ch = 5 + i as u32;
        let label = if ch >= 10 { text(&[67u8, 72, 49, dg(ch - 10), 58, 32]) } else { text(&[67u8, 72, dg(ch), 32, 58, 32]) };
        assert(label@ =~= aux_spec(*m)[2 * i as int]);
        rows.push(label);
        let src: usize = if (m.aux_channels[i] as usize) < 10 { m.aux_channels[i] as usize } else { 10 };
        rows.push(source_name_bytes(src));
        i = i + 1;
    }
    assert(rows@.map_values(|l: Vec<u8>| l@) =~= aux_spec(*m));
    rows
}

/// One wing-and-mixer row as four texts: for row 0 "Wing:" and the
/// template; for mix line `n` "Mn: " then "[DISABLED]", or its target,
/// "<-" and its source.
pub open spec fn wing_row(m: ModelConfig, r: int) -> Seq<Seq<u8>> {
    if r == 0 {
        seq![seq![87u8, 105, 110, 103, 58], template_name(min_int(m.wing_tail_mix as int, 3)), seq![], seq![]]
    } else {
        let mix = m.mixes@[r - 1];
        let label = seq![77u8, digit(r), 58u8, 32u8];
        if mix.target_ch == 0 {
            seq![label, seq![91u8, 68, 73, 83, 65, 66, 76, 69, 68, 93], seq![], seq![]]
        } else {
            seq![label, ch_text(mix.target_ch), seq![60u8, 45], source_name(min_int(mix.source as int, 25))]
        }
    }
}

/// The nine wing-and-mixer rows, four texts each (see `wing_row`).
pub open spec fn wing_mixer_spec(m: ModelConfig) -> Seq<Seq<u8>> {
    Seq::new(36, |i: int| wing_row(m, i / 4)[i % 4])
}

/// The wing-and-mixer rows (see `wing_mixer_spec`).
pub fn wing_mixer_rows(m: &ModelConfig) -> (rows: Vec<Vec<u8>>)
    ensures
        rows@.map_values(|l: Vec<u8>| l@) == wing_mixer_spec(*m),
{
    let mut rows: Vec<Vec<u8>> = Vec::new();
    let t: usize = if (m.wing_tail_mix as usize) < 3 { m.wing_tail_mix as usize } else { 3 };
    rows.push(text(&[87u8, 105, 110, 103, 58]));
    rows.push(template_name_bytes(t));
    rows.push(Vec::new());
    rows.push(Vec::new());
    assert(forall|k: int| 0 <= k < 4 ==> #[trigger] rows@[k]@ == wing_mixer_spec(*m)[k]);
    let mut r: usize = 1;
    while r < 9
        invariant
            1 <= r <= 9,
            rows@.len() == 4 * r,
            forall|k: int| 0 <= k < 4 * r ==> #[trigger] rows@[k]@ == wing_mixer_spec(*m)[k],
        decreases 9 - r,
    {
        let mix = m.mixes[r - 1];
        rows.push(text(&[77u8, dg(r as u32), 58, 32]));
        if mix.target_ch == 0 {
            rows.push(text(&[91u8, 68, 73, 83, 65, 66, 76, 69, 68, 93]));
            rows.push(Vec::new());
            rows.push(Vec::new());
        } else {
            rows.push(ch_bytes(mix.target_ch));
            rows.push(text(&[60u8, 45]));
            let s: usize = if (mix.source as usize) < 25 { mix.source as usize } else { 25 };
            rows.push(source_name_bytes(s));
        }
        assert forall|k: int| 4 * r <= k < 4 * r + 4 implies #[trigger] rows@[k]@ == wing_mixer_spec(*m)[k] by {
            assert(k / 4 == r as int);
            assert(wing_row(*m, r as int) =~= wing_row(*m, k / 4));
        }
        r = r + 1;
    }
    assert(rows@.map_values(|l: Vec<u8>| l@) =~= wing_mixer_spec(*m));
    rows
}

/// Mix line edit rows: target, source, weight, offset, switch and mode.
pub open spec fn mix_line_spec(mix: MixLine) -> Seq<Seq<u8>> {
    seq![
        seq![84u8, 97, 114, 103, 101, 116, 58], if mix.target_ch == 0 { seq![68u8, 105, 115, 97, 98, 108, 101, 100] } else { ch_text(mix.target_ch) },
        seq![83u8, 111, 117, 114, 99, 101, 58], source_name(min_int(mix.source as int, 25)),
        seq![87u8, 101, 105, 103, 104, 116, 58], signed_pct_text(mix.weight),
        seq![79u8, 102, 102, 115, 101, 116, 58], signed_pct_text(mix.offset),
        seq![83u8, 119, 105, 116, 99, 104, 58], switch_name(min_int(mix.switch as int, 10)),
        seq![77u8, 111, 100, 101, 58], mode_name(min_int(mix.mode as int, 2)),
    ]
}

/// The mix line edit rows (see `mix_line_spec`).
pub fn mix_line_rows(mix: &MixLine) -> (rows: Vec<Vec<u8>>)
    ensures
        rows@.map_values(|l: Vec<u8>| l@) == mix_line_spec(*mix),
{
    let mut rows: Vec<Vec<u8>> = Vec::new();
    rows.push(text(&[84u8, 97, 114, 103, 101, 116, 58]));
    rows.push(if mix.target_ch == 0 { text(&[68u8, 105, 115, 97, 98, 108, 101, 100]) } else { ch_bytes(mix.target_ch) });
    rows.push(text(&[83u8, 111, 117, 114, 99, 101, 58]));
    rows.push(source_name_bytes(if (mix.source as usize) < 25 { mix.source as usize } else { 25 }));
    rows.push(text(&[87u8, 101, 105, 103, 104, 116, 58]));
    rows.push(signed_pct_bytes(mix.weight));
    rows.push(text(&[79u8, 102, 102, 115, 101, 116, 58]));
    rows.push(signed_pct_bytes(mix.offset));
    rows.push(text(&[83u8, 119, 105, 116, 99, 104, 58]));
    rows.push(switch_name_bytes(if (mix.switch as usize) < 10 { mix.switch as usize } else { 10 }));
    rows.push(text(&[77u8, 111, 100, 101, 58]));
    rows.push(mode_name_bytes(if (mix.mode as usize) < 2 { mix.mode as usize } else { 2 }));
    assert(rows@.map_values(|l: Vec<u8>| l@) =~= mix_line_spec(*mix));
    rows
}


/// Packet-rate setting name of a CRSF baud index.
pub open spec fn baud_name(b: u8) -> Seq<u8> {
    if b == 1 { seq![52u8, 49, 54, 46, 54, 107, 32, 40, 84, 66, 83, 41] } else if b == 2 { seq![49u8, 49, 53, 46, 50, 107, 32, 40, 76, 111, 119, 41] } else if b == 3 { seq![57u8, 50, 49, 46, 54, 107, 32, 40, 70, 97, 115, 116, 41] } else { seq![52u8, 50, 48, 107, 32, 40, 69, 76, 82, 83, 41] }
}

/// The cursor mark of a protocol setup line.
pub open spec fn arrow(selected: bool) -> u8 {
    if selected { 62u8 } else { 32u8 }
}

/// Protocol setup screen: the protocol line, the second line (model number
/// and name for AFHDS 2A, baud for CRSF, as two texts), the third line (bind
/// with the receiver ID, or module configuration) and the footer. Protocol
/// 0 is AFHDS 2A, any other CRSF.
pub open spec fn rx_setup_spec(m: ModelConfig, idx: int, sel: usize, editing: bool) -> Seq<Seq<u8>> {
    let crsf = m.rf_protocol != 0;
    let e0 = editing && sel == 0;
    if !crsf {
        seq![
            seq![arrow(sel == 0)] + seq![80u8, 114, 111, 116, 111, 58, 32] + if e0 { seq![91u8, 65, 70, 72, 68, 83, 32, 50, 65, 93] } else { seq![65u8, 70, 72, 68, 83, 32, 50, 65] },
            seq![32u8, 77u8, digit((idx + 1) / 10), digit((idx + 1) % 10), 58u8, 32u8],
            m.name@,
            seq![arrow(sel == 1)] + seq![91u8, 66, 105, 110, 100, 58, 32] + crate::ui::telemetry::hex_text(m.rx_id) + seq![93u8],
            if editing { seq![91u8, 79, 75, 93, 32, 83, 97, 118, 101, 32, 32, 32, 91, 85, 80, 47, 68, 78, 93, 32, 67, 104, 97, 110, 103, 101] } else if sel == 1 { seq![91u8, 79, 75, 93, 32, 83, 116, 97, 114, 116, 32, 66, 105, 110, 100, 32, 32, 32, 91, 69, 83, 67, 93, 32, 69, 120, 105, 116] }
                else { seq![91u8, 79, 75, 93, 32, 69, 100, 105, 116, 32, 32, 32, 91, 69, 83, 67, 93, 32, 69, 120, 105, 116] },
        ]
    } else {
        seq![
            seq![arrow(sel == 0)] + seq![80u8, 114, 111, 116, 111, 58, 32] + if e0 { seq![91u8, 67, 82, 83, 70, 47, 69, 76, 82, 83, 93] } else { seq![67u8, 82, 83, 70, 47, 69, 76, 82, 83] },
            seq![arrow(sel == 1)] + seq![66u8, 97, 117, 100, 58, 32] + if editing && sel == 1 {
                seq![91u8] + baud_name(m.crsf_baud) + seq![93u8]
            } else {
                baud_name(m.crsf_baud)
            },
            seq![],
            seq![arrow(sel == 2)] + seq![91u8, 67, 111, 110, 102, 105, 103, 117, 114, 101, 32, 77, 111, 100, 117, 108, 101, 93],
            if editing { seq![91u8, 79, 75, 93, 32, 83, 97, 118, 101, 32, 32, 32, 91, 85, 80, 47, 68, 78, 93, 32, 67, 104, 97, 110, 103, 101] } else if sel == 2 { seq![91u8, 79, 75, 93, 32, 79, 112, 101, 110, 32, 67, 111, 110, 102, 105, 103, 32, 32, 91, 69, 83, 67, 93, 32, 69, 120, 105, 116] }
                else { seq![91u8, 79, 75, 93, 32, 69, 100, 105, 116, 32, 32, 32, 91, 69, 83, 67, 93, 32, 69, 120, 105, 116] },
        ]
    }
}

fn baud_bytes(b: u8) -> (v: Vec<u8>)
    ensures
        v@ == baud_name(b),
{
    let v = if b == 1 { text(&[52u8, 49, 54, 46, 54, 107, 32, 40, 84, 66, 83, 41]) } else if b == 2 { text(&[49u8, 49, 53, 46, 50, 107, 32, 40, 76, 111, 119, 41]) } else if b == 3 { text(&[57u8, 50, 49, 46, 54, 107, 32, 40, 70, 97, 115, 116, 41]) } else { text(&[52u8, 50, 48, 107, 32, 40, 69, 76, 82, 83, 41]) };
    assert(v@ =~= baud_name(b));
    v
}

/// The protocol setup texts (see `rx_setup_spec`); `idx` is the active
/// model's index.
pub fn rx_setup_lines(m: &ModelConfig, idx: usize, sel: usize, editing: bool) -> (lines: Vec<Vec<u8>>)
    requires
        idx < 20,
    ensures
        lines@.map_values(|l: Vec<u8>| l@) == rx_setup_spec(*m, idx as int, sel, editing),
{
    let mut lines: Vec<Vec<u8>> = Vec::new();
    let e0 = editing && sel == 0;
    if m.rf_protocol == 0 {
        let mut l0 = text(&[if sel == 0 { 62u8 } else { 32u8 }]);
        append(&mut l0, &[80u8, 114, 111, 116, 111, 58, 32]);
        append(&mut l0, if e0 { &[91u8, 65, 70, 72, 68, 83, 32, 50, 65, 93] } else { &[65u8, 70, 72, 68, 83, 32, 50, 65] });
        lines.push(l0);
        let n = idx as u32 + 1;
        lines.push(text(&[32u8, 77, dg(n / 10), dg(n % 10), 58, 32]));
        lines.push(text(&m.name));
        let mut l3 = text(&[if sel == 1 { 62u8 } else { 32u8 }]);
        append(&mut l3, &[91u8, 66, 105, 110, 100, 58, 32]);
        let mut hb = [0u8; 8];
        u32_to_hex(m.rx_id, &mut hb);
        assert(hb@ =~= crate::ui::telemetry::hex_text(m.rx_id));
        append(&mut l3, &hb);
        append(&mut l3, &[93u8]);
        lines.push(l3);
        lines.push(if editing { text(&[91u8, 79, 75, 93, 32, 83, 97, 118, 101, 32, 32, 32, 91, 85, 80, 47, 68, 78, 93, 32, 67, 104, 97, 110, 103, 101]) } else if sel == 1 { text(&[91u8, 79, 75, 93, 32, 83, 116, 97, 114, 116, 32, 66, 105, 110, 100, 32, 32, 32, 91, 69, 83, 67, 93, 32, 69, 120, 105, 116]) }
            else { text(&[91u8, 79, 75, 93, 32, 69, 100, 105, 116, 32, 32, 32, 91, 69, 83, 67, 93, 32, 69, 120, 105, 116]) });
    } else {
        let mut l0 = text(&[if sel == 0 { 62u8 } else { 32u8 }]);
        append(&mut l0, &[80u8, 114, 111, 116, 111, 58, 32]);
        append(&mut l0, if e0 { &[91u8, 67, 82, 83, 70, 47, 69, 76, 82, 83, 93] } else { &[67u8, 82, 83, 70, 47, 69, 76, 82, 83] });
        lines.push(l0);
        let mut l1 = text(&[if sel == 1 { 62u8 } else { 32u8 }]);
        append(&mut l1, &[66u8, 97, 117, 100, 58, 32]);
        let b = baud_bytes(m.crsf_baud);
        if editing && sel == 1 {
            append(&mut l1, &[91u8]);
            append(&mut l1, b.as_slice());
            append(&mut l1, &[93u8]);
        } else {
            append(&mut l1, b.as_slice());
        }
        lines.push(l1);
        lines.push(Vec::new());
        let mut l3 = text(&[if sel == 2 { 62u8 } else { 32u8 }]);
        append(&mut l3, &[91u8, 67, 111, 110, 102, 105, 103, 117, 114, 101, 32, 77, 111, 100, 117, 108, 101, 93]);
        lines.push(l3);
        lines.push(if editing { text(&[91u8, 79, 75, 93, 32, 83, 97, 118, 101, 32, 32, 32, 91, 85, 80, 47, 68, 78, 93, 32, 67, 104, 97, 110, 103, 101]) } else if sel == 2 { text(&[91u8, 79, 75, 93, 32, 79, 112, 101, 110, 32, 67, 111, 110, 102, 105, 103, 32, 32, 91, 69, 83, 67, 93, 32, 69, 120, 105, 116]) }
            else { text(&[91u8, 79, 75, 93, 32, 69, 100, 105, 116, 32, 32, 32, 91, 69, 83, 67, 93, 32, 69, 120, 105, 116]) });
    }
    assert(lines@[0]@ =~= rx_setup_spec(*m, idx as int, sel, editing)[0]);
    assert(lines@[1]@ =~= rx_setup_spec(*m, idx as int, sel, editing)[1]);
    assert(lines@[2]@ =~= rx_setup_spec(*m, idx as int, sel, editing)[2]);
    assert(lines@[3]@ =~= rx_setup_spec(*m, idx as int, sel, editing)[3]);
    assert(lines@[4]@ =~= rx_setup_spec(*m, idx as int, sel, editing)[4]);
    assert(lines@.map_values(|l: Vec<u8>| l@) =~= rx_setup_spec(*m, idx as int, sel, editing));
    lines
}


/// Model setup rows as three texts each: name, type, arm switch ("NONE"
/// or its condition), receiver ID with the bind hint, and reset.
pub open spec fn model_setup_spec(m: ModelConfig) -> Seq<Seq<u8>> {
    let a = min_int(m.arm_switch as int, 10);
    seq![
        seq![78u8, 97, 109, 101, 58], m.name@, seq![],
        seq![84u8, 121, 112, 101, 58], if m.model_type == 0 { seq![65u8, 73, 82, 80, 76, 65, 78, 69] } else if m.model_type == 1 { seq![71u8, 76, 73, 68, 69, 82] }
            else if m.model_type == 2 { seq![72u8, 69, 76, 73, 67, 79, 80, 84, 69, 82] } else { seq![77u8, 85, 76, 84, 73, 32, 47, 32, 81, 85, 65, 68] }, seq![],
        seq![65u8, 114, 109, 32, 83, 119, 58], if a == 0 { seq![78u8, 79, 78, 69] } else { switch_name(a) }, seq![],
        seq![82u8, 120, 58], crate::ui::telemetry::hex_text(m.rx_id), seq![91u8, 79, 75, 32, 66, 105, 110, 100, 93],
        seq![82u8, 101, 115, 101, 116, 58, 32, 91, 79, 75, 32, 68, 101, 102, 97, 117, 108, 116, 115, 93], seq![], seq![],
    ]
}

/// The model setup rows (see `model_setup_spec`).
pub fn model_setup_rows(m: &ModelConfig) -> (rows: Vec<Vec<u8>>)
    ensures
        rows@.map_values(|l: Vec<u8>| l@) == model_setup_spec(*m),
{
    let mut rows: Vec<Vec<u8>> = Vec::new();
    rows.push(text(&[78u8, 97, 109, 101, 58]));
    rows.push(text(&m.name));
    rows.push(Vec::new());
    rows.push(text(&[84u8, 121, 112, 101, 58]));
    rows.push(if m.model_type == 0 { text(&[65u8, 73, 82, 80, 76, 65, 78, 69]) } else if m.model_type == 1 { text(&[71u8, 76, 73, 68, 69, 82]) }
        else if m.model_type == 2 { text(&[72u8, 69, 76, 73, 67, 79, 80, 84, 69, 82]) } else { text(&[77u8, 85, 76, 84, 73, 32, 47, 32, 81, 85, 65, 68]) });
    rows.push(Vec::new());
    rows.push(text(&[65u8, 114, 109, 32, 83, 119, 58]));
    let a: usize = if (m.arm_switch as usize) < 10 { m.arm_switch as usize } else { 10 };
    rows.push(if a == 0 { text(&[78u8, 79, 78, 69]) } else { switch_name_bytes(a) });
    rows.push(Vec::new());
    rows.push(text(&[82u8, 120, 58]));
    let mut hb = [0u8; 8];
    u32_to_hex(m.rx_id, &mut hb);
    assert(hb@ =~= crate::ui::telemetry::hex_text(m.rx_id));
    rows.push(text(&hb));
    rows.push(text(&[91u8, 79, 75, 32, 66, 105, 110, 100, 93]));
    rows.push(text(&[82u8, 101, 115, 101, 116, 58, 32, 91, 79, 75, 32, 68, 101, 102, 97, 117, 108, 116, 115, 93]));
    rows.push(Vec::new());
    rows.push(Vec::new());
    assert(rows@.map_values(|l: Vec<u8>| l@) =~= model_setup_spec(*m));
    rows
}

} // verus!
