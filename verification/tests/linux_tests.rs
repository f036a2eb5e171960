use lib::linux::{
    inhibit_args, is_yes, lock_args, note_text, prompt, xset_args, Effect, Event, Lock, Note,
    Phase, Session, Xset, LID_QUESTION,
};

#[test]
fn inhibit_arguments() {
    assert_eq!(
        inhibit_args("idle:sleep", "Preventing sleep"),
        vec!["--what=idle:sleep", "--who=awake", "--why=Preventing sleep", "--mode=block", "cat"]
    );
    assert_eq!(
        lock_args(Lock::Lid),
        vec![
            "--what=handle-lid-switch",
            "--who=awake",
            "--why=Preventing lid-close sleep",
            "--mode=block",
            "cat"
        ]
    );
    assert_eq!(lock_args(Lock::Sleep), inhibit_args("idle:sleep", "Preventing sleep"));
}

#[test]
fn yes_answers() {
    for a in ["y", "Y", "yes", "yes\n", "  y \r\n", "\tY"] {
        assert!(is_yes(a), "{:?}", a);
    }
    for a in ["", "\n", "n", "YES", "Yes", "ye", "y y", "yess"] {
        assert!(!is_yes(a), "{:?}", a);
    }
}

#[test]
fn prompt_and_texts() {
    assert_eq!(prompt(LID_QUESTION), "inhibit lid-close sleep? [y/N]: ");
    assert_eq!(note_text(Note::HowToStop), "\nctrl+c to stop");
    assert_eq!(note_text(Note::Blank), "");
    assert_eq!(
        note_text(Note::ManualLogind),
        "  or edit /etc/systemd/logind.conf \u{2192} HandleLidSwitch=ignore"
    );
    assert_eq!(xset_args(Xset::SaverOff), vec!["s", "off"]);
    assert_eq!(xset_args(Xset::DpmsOn), vec!["+dpms"]);
}

#[test]
fn run_without_systemd_or_display() {
    let mut s = Session::new();
    assert_eq!(s.step(Event::Begin), vec![Effect::TakeLock(Lock::Sleep)]);
    assert_eq!(
        s.step(Event::LockTaken(false)),
        vec![Effect::Say(Note::NoSystemd), Effect::Say(Note::NeedsSystemd), Effect::CheckDisplay]
    );
    assert_eq!(
        s.step(Event::Display(false)),
        vec![Effect::Say(Note::Blank), Effect::Say(Note::HowToStop), Effect::WaitForStop]
    );
    assert_eq!(s.phase, Phase::Running);
    assert_eq!(s.step(Event::Stop), vec![Effect::Say(Note::Done)]);
    assert_eq!(s.phase, Phase::Finished);
    assert_eq!(s.step(Event::Stop), vec![]);
}

#[test]
fn run_with_lid_lock() {
    let mut s = Session::new();
    s.step(Event::Begin);
    assert_eq!(
        s.step(Event::LockTaken(true)),
        vec![Effect::Say(Note::SleepBlocked), Effect::CheckDisplay]
    );
    assert_eq!(
        s.step(Event::Display(true)),
        vec![
            Effect::RunXset(Xset::SaverOff),
            Effect::RunXset(Xset::DpmsOff),
            Effect::Say(Note::DisplayStaysOn),
            Effect::Say(Note::Blank),
            Effect::Say(Note::LidMaySleep),
            Effect::Ask
        ]
    );
    assert_eq!(s.step(Event::Answer("yes\n".to_string())), vec![Effect::TakeLock(Lock::Lid)]);
    assert_eq!(
        s.step(Event::LockTaken(true)),
        vec![Effect::Say(Note::LidBlocked), Effect::Say(Note::HowToStop), Effect::WaitForStop]
    );
    assert_eq!(
        s.step(Event::Stop),
        vec![
            Effect::ReleaseLock(Lock::Sleep),
            Effect::ReleaseLock(Lock::Lid),
            Effect::RunXset(Xset::SaverOn),
            Effect::RunXset(Xset::DpmsOn),
            Effect::Say(Note::Done)
        ]
    );
}

#[test]
fn run_with_failed_lid_lock() {
    let mut s = Session::new();
    s.step(Event::Begin);
    s.step(Event::LockTaken(true));
    s.step(Event::Display(false));
    s.step(Event::Answer("y".to_string()));
    assert_eq!(
        s.step(Event::LockTaken(false)),
        vec![
            Effect::Complain(Note::NeedsRoot),
            Effect::Complain(Note::TryInhibitAsRoot),
            Effect::Complain(Note::TryLogindAsRoot),
            Effect::Say(Note::HowToStop),
            Effect::WaitForStop
        ]
    );
    assert!(!s.lid_locked);
    assert_eq!(
        s.step(Event::Stop),
        vec![Effect::ReleaseLock(Lock::Sleep), Effect::Say(Note::Done)]
    );
}

#[test]
fn run_declining_lid_lock() {
    let mut s = Session::new();
    s.step(Event::Begin);
    s.step(Event::LockTaken(true));
    s.step(Event::Display(false));
    assert_eq!(
        s.step(Event::Answer("\n".to_string())),
        vec![
            Effect::Say(Note::ManualIntro),
            Effect::Say(Note::ManualInhibit),
            Effect::Say(Note::ManualLogind),
            Effect::Say(Note::HowToStop),
            Effect::WaitForStop
        ]
    );
    assert_eq!(s.phase, Phase::Running);
}

#[test]
fn unexpected_events_change_nothing() {
    let mut s = Session::new();
    assert_eq!(s.step(Event::Stop), vec![]);
    assert_eq!(s.step(Event::Answer("y".to_string())), vec![]);
    assert_eq!(s, Session::new());
}
