use ampmeter::button::{Button, ButtonEvent};
use ampmeter::control::{Amp, UiUrids};
use ampmeter::ports::{PluginPort, PortConnections, PLUGIN_PORT_COUNT};
use ampmeter::root_widget::RootWidget;
use ampmeter::ui_ports::{UiAtomPort, UiControlPort};

const URIDS: UiUrids = UiUrids { ui_on: 17, ui_off: 18 };

const ALL_PORTS: [PluginPort; 8] = [
    PluginPort::Gain,
    PluginPort::Enabled,
    PluginPort::InputLevel,
    PluginPort::OutputLevel,
    PluginPort::Control,
    PluginPort::Notify,
    PluginPort::Input,
    PluginPort::Output,
];

#[test]
fn plugin_port_indices_follow_the_declaration_order() {
    for (i, p) in ALL_PORTS.iter().enumerate() {
        assert_eq!(p.index(), i as u32);
        assert_eq!(PluginPort::from_index(i as u32), Some(*p));
    }
    assert_eq!(PLUGIN_PORT_COUNT, 8);
    assert_eq!(PluginPort::from_index(8), None);
    assert_eq!(PluginPort::from_index(u32::MAX), None);
}

#[test]
fn fresh_connections_are_incomplete() {
    let c = PortConnections::new();
    assert!(!c.all_connected());
    for p in ALL_PORTS.iter() {
        assert_eq!(c.address_of(*p), 0);
    }
    let d = PortConnections::default();
    assert!(!d.all_connected());
}

#[test]
fn connecting_every_port_in_any_order_completes() {
    let mut c = PortConnections::new();
    for i in (0..8u32).rev() {
        assert!(!c.all_connected());
        c.connect(i, 0x1000 + i as usize);
    }
    assert!(c.all_connected());
    assert_eq!(c.address_of(PluginPort::Gain), 0x1000);
    assert_eq!(c.address_of(PluginPort::Notify), 0x1005);
    assert_eq!(c.address_of(PluginPort::Output), 0x1007);
}

#[test]
fn a_null_connection_makes_the_ports_unusable() {
    let mut c = PortConnections::new();
    for i in 0..8u32 {
        c.connect(i, 64 * (i as usize + 1));
    }
    assert!(c.all_connected());
    c.connect(3, 0);
    assert!(!c.all_connected());
    assert_eq!(c.address_of(PluginPort::OutputLevel), 0);
    c.connect(3, 99);
    assert!(c.all_connected());
}

#[test]
fn connecting_an_unknown_index_changes_nothing() {
    let mut c = PortConnections::new();
    c.connect(1, 500);
    c.connect(8, 700);
    c.connect(1000, 800);
    assert_eq!(c.address_of(PluginPort::Enabled), 500);
    for p in ALL_PORTS.iter() {
        if *p != PluginPort::Enabled {
            assert_eq!(c.address_of(*p), 0);
        }
    }
}

#[test]
fn last_connection_of_a_port_wins() {
    let mut c = PortConnections::new();
    c.connect(6, 10);
    c.connect(6, 20);
    assert_eq!(c.address_of(PluginPort::Input), 20);
}

#[test]
fn fresh_plugin_has_no_user_interface() {
    let a = Amp::new();
    assert!(!a.is_ui_active());
    assert!(!a.is_ui_notified());
}

#[test]
fn opening_the_ui_sends_the_sample_rate_once() {
    let mut a = Amp::new();
    assert!(!a.run(&vec![], URIDS));
    assert!(a.run(&vec![Some(17)], URIDS));
    assert!(a.is_ui_active());
    assert!(a.is_ui_notified());
    assert!(!a.run(&vec![], URIDS));
    assert!(!a.run(&vec![Some(17)], URIDS));
}

#[test]
fn reopening_the_ui_sends_nothing_more() {
    let mut a = Amp::new();
    assert!(a.run(&vec![Some(17)], URIDS));
    assert!(!a.run(&vec![Some(18)], URIDS));
    assert!(!a.is_ui_active());
    assert!(a.is_ui_notified());
    assert!(!a.run(&vec![Some(17)], URIDS));
    assert!(a.is_ui_active());
}

#[test]
fn last_open_or_close_message_decides() {
    let mut a = Amp::new();
    assert!(!a.run(&vec![Some(17), Some(18), None, Some(3)], URIDS));
    assert!(!a.is_ui_active());
    assert!(!a.is_ui_notified());
    assert!(a.run(&vec![Some(18), Some(17), Some(99), None], URIDS));
    assert!(a.is_ui_active());
}

#[test]
fn other_messages_leave_the_ui_state() {
    let mut a = Amp::new();
    a.handle_messages(&vec![None, Some(0), Some(16), Some(19)], URIDS);
    assert!(!a.is_ui_active());
    a.handle_message(Some(17), URIDS);
    a.handle_messages(&vec![None, Some(5)], URIDS);
    assert!(a.is_ui_active());
    assert!(!a.is_ui_notified());
    assert!(a.claim_notification());
    assert!(!a.claim_notification());
}

#[test]
fn messages_split_across_cycles_give_the_same_state() {
    let msgs = vec![Some(17), None, Some(18), Some(4), Some(17), Some(5)];
    let mut whole = Amp::new();
    whole.handle_messages(&msgs, URIDS);
    for split in 0..=msgs.len() {
        let mut parts = Amp::new();
        parts.handle_messages(&msgs[..split].to_vec(), URIDS);
        parts.handle_messages(&msgs[split..].to_vec(), URIDS);
        assert_eq!(parts.is_ui_active(), whole.is_ui_active());
    }
}

#[test]
fn the_ui_sends_the_message_types_the_plugin_expects() {
    assert_eq!(URIDS.ui_state_message(true), 17);
    assert_eq!(URIDS.ui_state_message(false), 18);
    let mut a = Amp::new();
    a.handle_message(Some(URIDS.ui_state_message(true)), URIDS);
    assert!(a.is_ui_active());
    a.handle_message(Some(URIDS.ui_state_message(false)), URIDS);
    assert!(!a.is_ui_active());
}

#[test]
fn push_button_starts_unlit_and_never_toggles() {
    let mut b = Button::new("enable", 60, 24);
    assert_eq!(b.text(), "enable");
    assert_eq!(b.min_size(), (60, 24));
    assert!(!b.is_lit());
    assert!(b.takes_focus());
    assert!(b.event(ButtonEvent::MouseButtonRelease));
    assert_eq!(b.changed_toggle_state(), None);
    b.set_toggle_state(true);
    assert!(!b.is_lit());
    assert!(b.event(ButtonEvent::MouseButtonRelease));
    assert_eq!(b.changed_toggle_state(), None);
}

#[test]
fn toggle_button_click_asks_for_the_opposite_state() {
    let mut b = Button::new_toggle_button("enable", false, 60, 24);
    assert!(!b.is_lit());
    assert_eq!(b.changed_toggle_state(), None);
    assert!(b.event(ButtonEvent::MouseButtonRelease));
    assert!(!b.is_lit());
    assert_eq!(b.changed_toggle_state(), Some(true));
    assert_eq!(b.changed_toggle_state(), None);
    b.set_toggle_state(true);
    assert!(b.is_lit());
    assert!(b.event(ButtonEvent::MouseButtonRelease));
    assert_eq!(b.changed_toggle_state(), Some(false));
    b.set_toggle_state(false);
    assert!(!b.is_lit());
}

#[test]
fn setting_the_state_keeps_a_pending_click() {
    let mut b = Button::new_toggle_button("x", true, 1, 1);
    assert!(b.event(ButtonEvent::MouseButtonRelease));
    b.set_toggle_state(true);
    assert_eq!(b.changed_toggle_state(), Some(false));
}

#[test]
fn button_processes_motion_and_space_only() {
    let mut b = Button::new_toggle_button("x", true, 1, 1);
    assert!(b.event(ButtonEvent::MouseMove));
    assert!(b.event(ButtonEvent::KeyRelease(Some(' '))));
    assert!(!b.event(ButtonEvent::KeyRelease(Some('a'))));
    assert!(!b.event(ButtonEvent::KeyRelease(None)));
    assert!(!b.event(ButtonEvent::Other));
    assert_eq!(b.changed_toggle_state(), None);
    assert!(b.is_lit());
}

#[test]
fn tab_moves_the_focus_once() {
    let mut w = RootWidget::new();
    assert!(!w.focus_next());
    assert!(!w.event(Some('a')));
    assert!(!w.event(None));
    assert!(!w.focus_next());
    assert!(w.event(Some('\t')));
    assert!(w.event(Some('\t')));
    assert!(w.focus_next());
    assert!(!w.focus_next());
    let mut d = RootWidget::default();
    assert!(!d.focus_next());
}

#[test]
fn ui_ports_map_to_the_plugin_indices() {
    let controls = [
        (UiControlPort::Gain, PluginPort::Gain),
        (UiControlPort::Enabled, PluginPort::Enabled),
        (UiControlPort::MeterIn, PluginPort::InputLevel),
        (UiControlPort::MeterOut, PluginPort::OutputLevel),
    ];
    for (c, p) in controls.iter() {
        assert_eq!(c.index(), p.index());
        assert_eq!(UiControlPort::map_control_port(c.index()), Some(*c));
        assert_eq!(UiAtomPort::map_atom_port(c.index()), None);
    }
    let atoms = [(UiAtomPort::Control, PluginPort::Control), (UiAtomPort::Notify, PluginPort::Notify)];
    for (a, p) in atoms.iter() {
        assert_eq!(a.index(), p.index());
        assert_eq!(UiAtomPort::map_atom_port(a.index()), Some(*a));
        assert_eq!(UiControlPort::map_control_port(a.index()), None);
    }
    for i in 6..10u32 {
        assert_eq!(UiControlPort::map_control_port(i), None);
        assert_eq!(UiAtomPort::map_atom_port(i), None);
    }
}

#[test]
fn connections_to_different_ports_commute() {
    let mut a = PortConnections::new();
    a.connect(2, 111);
    a.connect(5, 222);
    let mut b = PortConnections::new();
    b.connect(5, 222);
    b.connect(2, 111);
    for p in ALL_PORTS.iter() {
        assert_eq!(a.address_of(*p), b.address_of(*p));
    }
    assert_eq!(a.address_of(PluginPort::InputLevel), 111);
    assert_eq!(a.address_of(PluginPort::Notify), 222);
}
