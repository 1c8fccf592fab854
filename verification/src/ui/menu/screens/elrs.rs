//! The ExpressLRS / CRSF module configurator screen.
use vstd::prelude::*;
use crate::buzzer::{Buzzer, BuzzerView, beep, clicked};
use crate::crsf::protocol::{CRSF_TYPE_COMMAND, CRSF_TYPE_SELECT};
use crate::crsf::{
    command_confirmed, command_triggered, config_started, param_cycled, ActiveCommandState, CrsfLink,
    ElrsConfigState, LinkView,
};
use crate::ui::menu::{list_nav, navigate_4slot_list, with_cursor, MenuController, MenuState, NavKeys};

verus! {

/// One frame of the configurator screen. While a command waits for
/// confirmation, OK runs it and Cancel refuses it; otherwise Cancel goes
/// back to the protocol screen. Until the module is discovered (or when it
/// has no parameters) OK pings it again; once ready, Up and Down move over
/// the parameters and OK cycles a selection or starts a command.
pub open spec fn elrs_step(
    c0: MenuController,
    c1: MenuController,
    k: NavKeys,
    now_ms: u32,
    l0: LinkView,
    l1: LinkView,
    tx0: Seq<u8>,
    tx1: Seq<u8>,
    b0: BuzzerView,
    b1: BuzzerView,
) -> bool {
    let waiting = l0.engine.active_cmd is WaitingConfirm;
    let count = l0.engine.params.len();
    if waiting && k.cancel {
        let r = command_confirmed(l0, false, now_ms);
        c1 == c0 && l1 == r.0 && tx1 == tx0 + r.1 && b1 == clicked(b0)
    } else if waiting && k.ok {
        let r = command_confirmed(l0, true, now_ms);
        c1 == c0 && l1 == r.0 && tx1 == tx0 + r.1 && b1 == beep(b0, 2400, 80)
    } else if !waiting && k.cancel {
        &&& c1 == MenuController { state: MenuState::RxSetup, selected_item: 2, waiting_release: true, ..c0 }
        &&& l1 == l0 && tx1 == tx0 && b1 == clicked(b0)
    } else if (l0.engine.state is Idle || l0.engine.state is Discovering || (l0.engine.state is Ready && count == 0)) && k.ok {
        c1 == c0 && l1 == config_started(l0).0 && tx1 == tx0 + config_started(l0).1 && b1 == clicked(b0)
    } else if l0.engine.state is Ready && count > 0 && !waiting {
        let n = list_nav(c0.selected_item, c0.scroll_offset, count as usize, 4, k.up, k.down, b0);
        let sel = n.0 as int;
        &&& c1 == with_cursor(c0, n)
        &&& if k.ok && sel < count && l0.engine.params[sel].param_type == CRSF_TYPE_SELECT {
            l1 == param_cycled(l0, sel).0 && tx1 == tx0 + param_cycled(l0, sel).1 && b1 == clicked(n.2)
        } else if k.ok && sel < count && l0.engine.params[sel].param_type == CRSF_TYPE_COMMAND {
            l1 == command_triggered(l0, sel, now_ms).0 && tx1 == tx0 + command_triggered(l0, sel, now_ms).1
                && b1 == beep(n.2, 2400, 80)
        } else {
            l1 == l0 && tx1 == tx0 && b1 == n.2
        }
    } else {
        c1 == c0 && l1 == l0 && tx1 == tx0 && b1 == b0
    }
}

/// The module configurator.
pub fn update(ctrl: &mut MenuController, keys: &NavKeys, now_ms: u32, crsf: &mut CrsfLink, crsf_tx: &mut Vec<u8>, buzzer: &mut Buzzer)
    requires
        old(crsf).wf(),
    ensures
        final(crsf).wf(),
        elrs_step(*old(ctrl), *final(ctrl), *keys, now_ms, old(crsf)@, final(crsf)@, old(crsf_tx)@, final(crsf_tx)@,
            old(buzzer)@, final(buzzer)@),
{
    let engine = crsf.get_config_engine();
    let waiting = match engine.active_cmd {
        ActiveCommandState::WaitingConfirm { .. } => true,
        _ => false,
    };
    let state = engine.state;
    let count = engine.params_len;
    if waiting {
        if keys.cancel {
            crsf.confirm_command(false, now_ms, crsf_tx);
            buzzer.click();
            return;
        }
        if keys.ok {
            crsf.confirm_command(true, now_ms, crsf_tx);
            buzzer.play_tone(2400, 80);
            return;
        }
    } else if keys.cancel {
        ctrl.state = MenuState::RxSetup;
        ctrl.selected_item = 2;
        ctrl.waiting_release = true;
        buzzer.click();
        return;
    }
    let discovering = match state {
        ElrsConfigState::Idle | ElrsConfigState::Discovering => true,
        _ => false,
    };
    let ready = match state {
        ElrsConfigState::Ready => true,
        _ => false,
    };
    if discovering || (ready && count == 0) {
        if keys.ok {
            crsf.start_config(crsf_tx);
            buzzer.click();
        }
    } else if ready && !waiting {
        navigate_4slot_list(&mut ctrl.selected_item, &mut ctrl.scroll_offset, count, keys.up, keys.down, buzzer);
        if keys.ok && ctrl.selected_item < count {
            let t = crsf.get_config_engine().params[ctrl.selected_item].param_type;
            if t == CRSF_TYPE_SELECT {
                crsf.cycle_param(ctrl.selected_item, crsf_tx);
                buzzer.click();
            } else if t == CRSF_TYPE_COMMAND {
                crsf.trigger_command(ctrl.selected_item, now_ms, crsf_tx);
                buzzer.play_tone(2400, 80);
            }
        }
    }
}

} // verus!
