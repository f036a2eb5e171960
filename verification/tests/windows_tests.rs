use lib::windows::{
    keep_awake_flags, lid_action_from_query, set_lid_action_params, set_tip, tray_menu, w,
    TrayAction, TrayState, ES_CONTINUOUS, ID_QUIT, ID_TOGGLE_LID, MF_CHECKED, MF_GRAYED,
    MF_SEPARATOR, MF_STRING, TIP, WM_APP, WM_COMMAND, WM_DESTROY, WM_LBUTTONUP, WM_RBUTTONUP,
};

const QUERY: &str = "Power Scheme GUID: 381b4222-f694-41f0-9685-ff5bb260df2e  (Balanced)\r\n\
  GUID Alias: SCHEME_BALANCED\r\n\
  Subgroup GUID: 4f971e89-eebd-4455-a8de-9e59040e7347  (Power buttons and lid)\r\n\
    GUID Alias: SUB_BUTTONS\r\n\
    Power Setting GUID: 5ca83367-6e45-459f-a27b-476b1d01c936  (Lid close action)\r\n\
      GUID Alias: LIDACTION\r\n\
      Possible Setting Index: 000\r\n\
      Possible Setting Friendly Name: Do nothing\r\n\
      Possible Setting Index: 001\r\n\
      Possible Setting Friendly Name: Sleep\r\n\
    Current AC Power Setting Index: 0x00000003\r\n\
    Current DC Power Setting Index: 0x00000001\r\n\
\r\n";

#[test]
fn w_is_zero_terminated_utf16() {
    assert_eq!(w("awake"), vec![97, 119, 97, 107, 101, 0]);
    assert_eq!(w(""), vec![0]);
    assert_eq!(w("\u{1F4A4}"), vec![0xD83D, 0xDCA4, 0]);
}

#[test]
fn set_tip_copies_at_most_127_units() {
    let mut buf = [0u16; 128];
    set_tip(&mut buf, TIP);
    let units: Vec<u16> = TIP.encode_utf16().collect();
    assert_eq!(&buf[..units.len()], &units[..]);
    assert!(buf[units.len()..].iter().all(|&u| u == 0));

    let long = "x".repeat(300);
    let mut buf = [7u16; 128];
    set_tip(&mut buf, &long);
    assert!(buf[..127].iter().all(|&u| u == 'x' as u16));
    assert_eq!(buf[127], 7);
}

#[test]
fn lid_action_from_real_query() {
    assert_eq!(lid_action_from_query(QUERY), (3, 1));
}

#[test]
fn lid_action_defaults_to_sleep() {
    assert_eq!(lid_action_from_query(""), (1, 1));
    assert_eq!(lid_action_from_query("nothing here\n"), (1, 1));
    assert_eq!(lid_action_from_query("Current AC Power Setting Index: 0xzz\n"), (1, 1));
    assert_eq!(lid_action_from_query("Current DC Power Setting Index: 0x100000000"), (1, 1));
    assert_eq!(lid_action_from_query("Current DC Power Setting Index: 0x00000000"), (1, 0));
}

#[test]
fn lid_action_last_line_wins() {
    let out = "Current AC Power Setting Index: 0x00000002\nCurrent AC Power Setting Index: 0x00000000\n";
    assert_eq!(lid_action_from_query(out), (0, 1));
    let out = "Current AC Power Setting Index: 0x00000000\nCurrent AC Power Setting Index: junk\n";
    assert_eq!(lid_action_from_query(out), (1, 1));
}

#[test]
fn set_lid_action_params_text() {
    assert_eq!(
        set_lid_action_params(0, 0),
        "/c powercfg /SETACVALUEINDEX SCHEME_CURRENT SUB_BUTTONS LIDACTION 0 & powercfg /SETDCVALUEINDEX SCHEME_CURRENT SUB_BUTTONS LIDACTION 0 & powercfg /SETACTIVE SCHEME_CURRENT"
    );
    assert_eq!(
        set_lid_action_params(3, 12),
        "/c powercfg /SETACVALUEINDEX SCHEME_CURRENT SUB_BUTTONS LIDACTION 3 & powercfg /SETDCVALUEINDEX SCHEME_CURRENT SUB_BUTTONS LIDACTION 12 & powercfg /SETACTIVE SCHEME_CURRENT"
    );
}

#[test]
fn start_state_from_lid_action() {
    assert_eq!(TrayState::new(0, 0), TrayState { lid_off: true, orig_ac: 0, orig_dc: 0 });
    assert_eq!(TrayState::new(0, 1), TrayState { lid_off: false, orig_ac: 0, orig_dc: 1 });
    assert_eq!(keep_awake_flags(), 0x80000003);
    assert_eq!(ES_CONTINUOUS, 0x80000000);
}

#[test]
fn tray_clicks_show_the_menu() {
    let mut s = TrayState::new(1, 1);
    assert_eq!(s.handle_message(WM_APP, 0, WM_RBUTTONUP as isize), TrayAction::ShowMenu);
    assert_eq!(s.handle_message(WM_APP, 0, WM_LBUTTONUP as isize), TrayAction::ShowMenu);
    assert_eq!(s.handle_message(WM_APP, 0, 0x0200), TrayAction::Nothing);
    // only the low 32 bits of lparam count
    assert_eq!(s.handle_message(WM_APP, 0, (WM_RBUTTONUP as isize) | (1isize << 40)), TrayAction::ShowMenu);
    assert_eq!(s.handle_message(0x0001, 5, 6), TrayAction::PassOn);
    assert_eq!(s, TrayState::new(1, 1));
}

#[test]
fn lid_toggle_round_trip() {
    let mut s = TrayState::new(3, 1);
    assert_eq!(s.handle_message(WM_COMMAND, ID_TOGGLE_LID, 0), TrayAction::ReadLidAction);
    assert_eq!(s.lid_action_read(3, 1), TrayAction::SetLidAction(0, 0));
    assert!(s.lid_off);
    // high word of wparam is ignored
    assert_eq!(s.handle_message(WM_COMMAND, 0x10000 | ID_TOGGLE_LID, 0), TrayAction::SetLidAction(3, 1));
    assert!(!s.lid_off);
    assert_eq!(s.handle_message(WM_COMMAND, 7, 0), TrayAction::Nothing);
}

#[test]
fn quit_restores_lid_action() {
    let mut s = TrayState::new(2, 1);
    assert_eq!(s.handle_message(WM_COMMAND, ID_QUIT, 0), TrayAction::Quit(None));
    assert_eq!(s.handle_message(WM_COMMAND, ID_TOGGLE_LID, 0), TrayAction::ReadLidAction);
    s.lid_action_read(2, 1);
    assert_eq!(s.handle_message(WM_COMMAND, ID_QUIT, 0), TrayAction::Quit(Some((2, 1))));
    assert_eq!(s.handle_message(WM_DESTROY, 0, 0), TrayAction::Quit(Some((2, 1))));
    assert_eq!(s.restore_on_quit(), Some((2, 1)));
}

#[test]
fn tray_menu_entries() {
    let m = tray_menu(false);
    assert_eq!(m.len(), 5);
    assert_eq!((m[0].flags, m[0].id, m[0].label), (MF_STRING | MF_GRAYED, 0, Some("Preventing Sleep")));
    assert_eq!((m[1].flags, m[1].label), (MF_SEPARATOR, None));
    assert_eq!((m[2].flags, m[2].id, m[2].label), (MF_STRING, ID_TOGGLE_LID, Some("Prevent Lid-Close Sleep")));
    assert_eq!((m[3].flags, m[3].label), (MF_SEPARATOR, None));
    assert_eq!((m[4].flags, m[4].id, m[4].label), (MF_STRING, ID_QUIT, Some("Quit")));
    let m = tray_menu(true);
    assert_eq!(m[2].flags, MF_STRING | MF_CHECKED);
}
