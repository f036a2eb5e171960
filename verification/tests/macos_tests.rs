use lib::macos::{
    disablesleep_command, disablesleep_enabled, item_state, menu_items, privileged_script,
    status_icon, MacAction, MenuBarState,
};

const PMSET_ON: &str = "System-wide power settings:\n SleepDisabled\t\t1\nCurrently in use:\n standby              1\n disablesleep         1\n hibernatemode        3\n";
const PMSET_OFF: &str = "Currently in use:\n disablesleep         0\n sleep                1\n";

#[test]
fn pmset_output_shows_disablesleep() {
    assert!(disablesleep_enabled(PMSET_ON));
    assert!(!disablesleep_enabled(PMSET_OFF));
    assert!(!disablesleep_enabled(""));
    assert!(disablesleep_enabled(" disablesleep 1 \r\n"));
    assert!(!disablesleep_enabled(" disablesleep 10"));
    assert!(!disablesleep_enabled("sleep 1"));
}

#[test]
fn privileged_scripts() {
    assert_eq!(disablesleep_command(true), "pmset -a disablesleep 1");
    assert_eq!(disablesleep_command(false), "pmset -a disablesleep 0");
    assert_eq!(
        privileged_script("pmset -a disablesleep 0"),
        "do shell script \"pmset -a disablesleep 0\" with administrator privileges"
    );
}

#[test]
fn icon_and_item_states() {
    assert_eq!(status_icon(true), "\u{2615}");
    assert_eq!(status_icon(false), "\u{1F4A4}");
    assert_eq!(item_state(true), 1);
    assert_eq!(item_state(false), 0);
}

#[test]
fn awake_toggle_cycle() {
    let mut s = MenuBarState::new(false, false);
    assert_eq!(s.toggle_awake(), vec![MacAction::CreateAssertions]);
    assert_eq!(s.assertions_created(false), vec![MacAction::SetIcon(false)]);
    assert!(!s.awake);
    assert_eq!(s.toggle_awake(), vec![MacAction::CreateAssertions]);
    assert_eq!(s.assertions_created(true), vec![MacAction::SetAwakeItem(1), MacAction::SetIcon(true)]);
    assert!(s.awake);
    assert_eq!(
        s.toggle_awake(),
        vec![MacAction::ReleaseAssertions, MacAction::SetAwakeItem(0), MacAction::SetIcon(false)]
    );
    assert_eq!(s, MenuBarState::new(false, false));
}

#[test]
fn lid_toggle_cycle() {
    let mut s = MenuBarState::new(true, false);
    assert_eq!(
        s.toggle_lid(),
        "do shell script \"pmset -a disablesleep 1\" with administrator privileges"
    );
    assert_eq!(s.lid_command_done(false), vec![]);
    assert!(!s.lid_off);
    assert_eq!(s.lid_command_done(true), vec![MacAction::SetLidItem(1)]);
    assert!(s.lid_off);
    assert_eq!(
        s.toggle_lid(),
        "do shell script \"pmset -a disablesleep 0\" with administrator privileges"
    );
    assert_eq!(s.lid_command_done(true), vec![MacAction::SetLidItem(0)]);
    assert_eq!(s, MenuBarState::new(true, false));
}

#[test]
fn quit_undoes_what_is_held() {
    assert_eq!(MenuBarState::new(false, false).quit(), vec![MacAction::Exit]);
    assert_eq!(
        MenuBarState::new(true, false).quit(),
        vec![MacAction::ReleaseAssertions, MacAction::Exit]
    );
    let restore = "do shell script \"pmset -a disablesleep 0\" with administrator privileges".to_string();
    assert_eq!(
        MenuBarState::new(true, true).quit(),
        vec![MacAction::ReleaseAssertions, MacAction::RunScript(restore.clone()), MacAction::Exit]
    );
    assert_eq!(
        MenuBarState::new(false, true).quit(),
        vec![MacAction::RunScript(restore), MacAction::Exit]
    );
}

#[test]
fn menu_items_follow_state() {
    let m = menu_items(MenuBarState::new(true, false));
    assert_eq!(m.len(), 4);
    let a = m[0].unwrap();
    assert_eq!((a.title, a.action, a.key, a.state), ("Stay Awake", "toggleAwake:", "", 1));
    let l = m[1].unwrap();
    assert_eq!((l.title, l.action, l.key, l.state), ("Prevent Lid-Close Sleep", "toggleLid:", "", 0));
    assert!(m[2].is_none());
    let q = m[3].unwrap();
    assert_eq!((q.title, q.action, q.key, q.state), ("Quit", "quit:", "q", 0));
    let m = menu_items(MenuBarState::new(false, true));
    assert_eq!(m[0].unwrap().state, 0);
    assert_eq!(m[1].unwrap().state, 1);
}
