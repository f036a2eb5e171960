//! The decisions of the Linux command-line run: which `systemd-inhibit`
//! locks to take, what to tell the user, when to ask about lid-close sleep,
//! and what to undo when the run is stopped.
use vstd::prelude::*;

use crate::text;

verus! {

/// The arguments of `systemd-inhibit` that block `what` for the reason
/// `why` while the child `cat` runs.
pub open spec fn inhibit_args_of(what: Seq<char>, why: Seq<char>) -> Seq<Seq<char>> {
    seq!["--what="@ + what, "--who=awake"@, "--why="@ + why, "--mode=block"@, "cat"@]
}

/// The arguments of `systemd-inhibit` that block `what` for the reason `why`.
pub fn inhibit_args(what: &str, why: &str) -> (res: Vec<String>)
    ensures
        res@.len() == 5,
        forall|i: int| 0 <= i < 5 ==> #[trigger] res@[i]@ == inhibit_args_of(what@, why@)[i],
{
    let mut res: Vec<String> = Vec::new();
    res.push(String::from_str("--what=").concat(what));
    res.push(String::from_str("--who=awake"));
    res.push(String::from_str("--why=").concat(why));
    res.push(String::from_str("--mode=block"));
    res.push(String::from_str("cat"));
    res
}

/// The answer accepts: trimmed, it is `y`, `Y` or `yes`.
pub open spec fn is_yes_of(answer: Seq<char>) -> bool {
    let t = text::trim(answer);
    t == "y"@ || t == "Y"@ || t == "yes"@
}

/// Whether two character sequences are equal.
fn same_chars(a: &Vec<char>, b: &Vec<char>) -> (res: bool)
    ensures
        res == (a@ == b@),
{
    if a.len() != b.len() {
        return false;
    }
    let mut i: usize = 0;
    while i < a.len()
        invariant
            a@.len() == b@.len(),
            i <= a@.len(),
            forall|k: int| 0 <= k < i ==> a@[k] == b@[k],
        decreases a@.len() - i,
    {
        if a[i] != b[i] {
            return false;
        }
        i = i + 1;
    }
    assert(a@ =~= b@);
    true
}

/// Whether the answer to a yes/no question accepts.
pub fn is_yes(answer: &str) -> (res: bool)
    ensures
        res == is_yes_of(answer@),
{
    let t = text::trimmed(&text::chars_of(answer));
    same_chars(&t, &text::chars_of("y")) || same_chars(&t, &text::chars_of("Y")) || same_chars(
        &t,
        &text::chars_of("yes"),
    )
}


// ---------------------------------------------------------------------------
// What the run tells the user
// ---------------------------------------------------------------------------

/// A line the run prints.
#[derive(Clone, Copy, PartialEq, Eq, Debug)]
pub enum Note {
    SleepBlocked,
    NoSystemd,
    NeedsSystemd,
    DisplayStaysOn,
    Blank,
    LidMaySleep,
    LidBlocked,
    NeedsRoot,
    TryInhibitAsRoot,
    TryLogindAsRoot,
    ManualIntro,
    ManualInhibit,
    ManualLogind,
    HowToStop,
    Done,
}

/// The text of a line the run prints.
pub open spec fn note_text_of(n: Note) -> Seq<char> {
    match n {
        Note::SleepBlocked => "awake - preventing idle sleep"@,
        Note::NoSystemd => "awake - systemd-inhibit not available"@,
        Note::NeedsSystemd => "       (sleep prevention requires systemd)"@,
        Note::DisplayStaysOn => "       display will stay on (X11)"@,
        Note::Blank => ""@,
        Note::LidMaySleep => "lid-close: system may sleep when you close the lid"@,
        Note::LidBlocked => "done - lid close inhibited"@,
        Note::NeedsRoot => "failed (may need root)"@,
        Note::TryInhibitAsRoot => "  try: sudo systemd-inhibit --what=handle-lid-switch sleep infinity &"@,
        Note::TryLogindAsRoot => "  or:  edit /etc/systemd/logind.conf \u{2192} HandleLidSwitch=ignore"@,
        Note::ManualIntro => "to do it manually:"@,
        Note::ManualInhibit => "  systemd-inhibit --what=handle-lid-switch sleep infinity &"@,
        Note::ManualLogind => "  or edit /etc/systemd/logind.conf \u{2192} HandleLidSwitch=ignore"@,
        Note::HowToStop => "\nctrl+c to stop"@,
        Note::Done => "\ndone"@,
    }
}

/// The text of a line the run prints.
pub fn note_text(n: Note) -> (res: &'static str)
    ensures
        res@ == note_text_of(n),
{
    match n {
        Note::SleepBlocked => "awake - preventing idle sleep",
        Note::NoSystemd => "awake - systemd-inhibit not available",
        Note::NeedsSystemd => "       (sleep prevention requires systemd)",
        Note::DisplayStaysOn => "       display will stay on (X11)",
        Note::Blank => "",
        Note::LidMaySleep => "lid-close: system may sleep when you close the lid",
        Note::LidBlocked => "done - lid close inhibited",
        Note::NeedsRoot => "failed (may need root)",
        Note::TryInhibitAsRoot => "  try: sudo systemd-inhibit --what=handle-lid-switch sleep infinity &",
        Note::TryLogindAsRoot => "  or:  edit /etc/systemd/logind.conf \u{2192} HandleLidSwitch=ignore",
        Note::ManualIntro => "to do it manually:",
        Note::ManualInhibit => "  systemd-inhibit --what=handle-lid-switch sleep infinity &",
        Note::ManualLogind => "  or edit /etc/systemd/logind.conf \u{2192} HandleLidSwitch=ignore",
        Note::HowToStop => "\nctrl+c to stop",
        Note::Done => "\ndone",
    }
}

/// The question about lid-close sleep.
pub const LID_QUESTION: &'static str = "inhibit lid-close sleep?";

/// The prompt that asks `question`, as the run prints it before reading an
/// answer.
pub open spec fn prompt_of(question: Seq<char>) -> Seq<char> {
    question + " [y/N]: "@
}

/// The prompt that asks `question`.
pub fn prompt(question: &str) -> (res: String)
    ensures
        res@ == prompt_of(question@),
{
    String::from_str(question).concat(" [y/N]: ")
}

// ---------------------------------------------------------------------------
// Locks and display commands
// ---------------------------------------------------------------------------

/// A `systemd-inhibit` lock the run can hold.
#[derive(Clone, Copy, PartialEq, Eq, Debug)]
pub enum Lock {
    /// Blocks idle sleep.
    Sleep,
    /// Blocks the lid switch.
    Lid,
}

/// What a lock blocks.
pub open spec fn lock_what_of(l: Lock) -> Seq<char> {
    match l {
        Lock::Sleep => "idle:sleep"@,
        Lock::Lid => "handle-lid-switch"@,
    }
}

/// The reason given for a lock.
pub open spec fn lock_why_of(l: Lock) -> Seq<char> {
    match l {
        Lock::Sleep => "Preventing sleep"@,
        Lock::Lid => "Preventing lid-close sleep"@,
    }
}

/// The `systemd-inhibit` arguments that take a lock.
pub fn lock_args(l: Lock) -> (res: Vec<String>)
    ensures
        res@.len() == 5,
        forall|i: int|
            0 <= i < 5 ==> #[trigger] res@[i]@ == inhibit_args_of(lock_what_of(l), lock_why_of(l))[i],
{
    match l {
        Lock::Sleep => inhibit_args("idle:sleep", "Preventing sleep"),
        Lock::Lid => inhibit_args("handle-lid-switch", "Preventing lid-close sleep"),
    }
}

/// An `xset` command on the X11 display.
#[derive(Clone, Copy, PartialEq, Eq, Debug)]
pub enum Xset {
    SaverOff,
    DpmsOff,
    SaverOn,
    DpmsOn,
}

/// The arguments of an `xset` command.
pub open spec fn xset_args_of(x: Xset) -> Seq<Seq<char>> {
    match x {
        Xset::SaverOff => seq!["s"@, "off"@],
        Xset::DpmsOff => seq!["-dpms"@],
        Xset::SaverOn => seq!["s"@, "on"@],
        Xset::DpmsOn => seq!["+dpms"@],
    }
}

/// The arguments of an `xset` command.
pub fn xset_args(x: Xset) -> (res: Vec<&'static str>)
    ensures
        res@.len() == xset_args_of(x).len(),
        forall|i: int| 0 <= i < res@.len() ==> #[trigger] res@[i]@ == xset_args_of(x)[i],
{
    match x {
        Xset::SaverOff => vec!["s", "off"],
        Xset::DpmsOff => vec!["-dpms"],
        Xset::SaverOn => vec!["s", "on"],
        Xset::DpmsOn => vec!["+dpms"],
    }
}


// ---------------------------------------------------------------------------
// The run
// ---------------------------------------------------------------------------

/// Where the run stands.
#[derive(Clone, Copy, PartialEq, Eq, Debug)]
pub enum Phase {
    /// Nothing done yet.
    Start,
    /// Waiting to hear whether the sleep lock was taken.
    TakingSleepLock,
    /// Waiting to hear whether an X11 display is there.
    CheckingDisplay,
    /// Waiting for the answer about lid-close sleep.
    Asking,
    /// Waiting to hear whether the lid lock was taken.
    TakingLidLock,
    /// Waiting for the stop signal.
    Running,
    /// Everything undone.
    Finished,
}

/// What the outside world reports to the run.
#[derive(PartialEq, Eq, Debug)]
pub enum Event {
    /// The run may begin.
    Begin,
    /// Whether the lock last asked for was taken.
    LockTaken(bool),
    /// Whether an X11 display is there.
    Display(bool),
    /// The line the user typed.
    Answer(String),
    /// The run was asked to stop.
    Stop,
}

/// One thing the run asks of the outside world.
#[derive(Clone, Copy, PartialEq, Eq, Debug)]
pub enum Effect {
    /// Print a line to standard output.
    Say(Note),
    /// Print a line to standard error.
    Complain(Note),
    /// Take a lock with `systemd-inhibit`, then report [`Event::LockTaken`].
    TakeLock(Lock),
    /// Look for an X11 display, then report [`Event::Display`].
    CheckDisplay,
    /// Run `xset` with these arguments.
    RunXset(Xset),
    /// Print the prompt for [`LID_QUESTION`], read a line, then report
    /// [`Event::Answer`].
    Ask,
    /// Wait for the stop signal, then report [`Event::Stop`].
    WaitForStop,
    /// Release a lock taken before.
    ReleaseLock(Lock),
}

/// What the run knows.
#[derive(Clone, Copy, PartialEq, Eq, Debug)]
pub struct Session {
    pub phase: Phase,
    /// The sleep lock was taken (so systemd is there).
    pub sleep_locked: bool,
    /// An X11 display is there, and its blanking was turned off.
    pub has_x11: bool,
    /// The lid lock was taken.
    pub lid_locked: bool,
}

/// The session before anything happened.
pub open spec fn initial_session() -> Session {
    Session { phase: Phase::Start, sleep_locked: false, has_x11: false, lid_locked: false }
}

/// What the run prints once it knows whether the sleep lock was taken.
pub open spec fn sleep_lock_report(taken: bool) -> Seq<Effect> {
    if taken {
        seq![Effect::Say(Note::SleepBlocked)]
    } else {
        seq![Effect::Say(Note::NoSystemd), Effect::Say(Note::NeedsSystemd)]
    }
}

/// The end of the start-up: how to stop, then wait.
pub open spec fn start_waiting() -> Seq<Effect> {
    seq![Effect::Say(Note::HowToStop), Effect::WaitForStop]
}

/// What the run does once it knows whether there is an X11 display.
pub open spec fn display_effects(sleep_locked: bool, x11: bool) -> Seq<Effect> {
    (if x11 {
        seq![
            Effect::RunXset(Xset::SaverOff),
            Effect::RunXset(Xset::DpmsOff),
            Effect::Say(Note::DisplayStaysOn),
        ]
    } else {
        Seq::empty()
    }) + seq![Effect::Say(Note::Blank)] + if sleep_locked {
        seq![Effect::Say(Note::LidMaySleep), Effect::Ask]
    } else {
        start_waiting()
    }
}

/// What the run does when the user declined to lock the lid.
pub open spec fn declined_effects() -> Seq<Effect> {
    seq![
        Effect::Say(Note::ManualIntro),
        Effect::Say(Note::ManualInhibit),
        Effect::Say(Note::ManualLogind),
    ] + start_waiting()
}

/// What the run prints once it knows whether the lid lock was taken.
pub open spec fn lid_lock_report(taken: bool) -> Seq<Effect> {
    if taken {
        seq![Effect::Say(Note::LidBlocked)]
    } else {
        seq![
            Effect::Complain(Note::NeedsRoot),
            Effect::Complain(Note::TryInhibitAsRoot),
            Effect::Complain(Note::TryLogindAsRoot),
        ]
    }
}

/// What stopping undoes: the locks taken, the display blanking turned off.
pub open spec fn stop_effects(s: Session) -> Seq<Effect> {
    (if s.sleep_locked {
        seq![Effect::ReleaseLock(Lock::Sleep)]
    } else {
        Seq::empty()
    }) + (if s.lid_locked {
        seq![Effect::ReleaseLock(Lock::Lid)]
    } else {
        Seq::empty()
    }) + (if s.has_x11 {
        seq![Effect::RunXset(Xset::SaverOn), Effect::RunXset(Xset::DpmsOn)]
    } else {
        Seq::empty()
    }) + seq![Effect::Say(Note::Done)]
}

/// The session after an event, and what the run does. An event that the
/// phase does not wait for changes nothing.
pub open spec fn session_step(s: Session, e: Event) -> (Session, Seq<Effect>) {
    match (s.phase, e) {
        (Phase::Start, Event::Begin) => (
            Session { phase: Phase::TakingSleepLock, ..s },
            seq![Effect::TakeLock(Lock::Sleep)],
        ),
        (Phase::TakingSleepLock, Event::LockTaken(ok)) => (
            Session { phase: Phase::CheckingDisplay, sleep_locked: ok, ..s },
            sleep_lock_report(ok).push(Effect::CheckDisplay),
        ),
        (Phase::CheckingDisplay, Event::Display(x11)) => (
            Session {
                phase: if s.sleep_locked {
                    Phase::Asking
                } else {
                    Phase::Running
                },
                has_x11: x11,
                ..s
            },
            display_effects(s.sleep_locked, x11),
        ),
        (Phase::Asking, Event::Answer(a)) => if is_yes_of(a@) {
            (Session { phase: Phase::TakingLidLock, ..s }, seq![Effect::TakeLock(Lock::Lid)])
        } else {
            (Session { phase: Phase::Running, ..s }, declined_effects())
        },
        (Phase::TakingLidLock, Event::LockTaken(ok)) => (
            Session { phase: Phase::Running, lid_locked: ok, ..s },
            lid_lock_report(ok) + start_waiting(),
        ),
        (Phase::Running, Event::Stop) => (Session { phase: Phase::Finished, ..s }, stop_effects(s)),
        _ => (s, Seq::empty()),
    }
}

fn push_waiting(out: &mut Vec<Effect>)
    ensures
        final(out)@ == old(out)@ + start_waiting(),
{
    out.push(Effect::Say(Note::HowToStop));
    out.push(Effect::WaitForStop);
}

impl Session {
    /// The session before anything happened.
    pub fn new() -> (res: Session)
        ensures
            res == initial_session(),
    {
        Session { phase: Phase::Start, sleep_locked: false, has_x11: false, lid_locked: false }
    }

    /// Takes an event; returns what to do, in order.
    pub fn step(&mut self, e: Event) -> (res: Vec<Effect>)
        ensures
            (*final(self), res@) == session_step(*old(self), e),
    {
        let mut out: Vec<Effect> = Vec::new();
        match (self.phase, e) {
            (Phase::Start, Event::Begin) => {
                self.phase = Phase::TakingSleepLock;
                out.push(Effect::TakeLock(Lock::Sleep));
            },
            (Phase::TakingSleepLock, Event::LockTaken(ok)) => {
                self.phase = Phase::CheckingDisplay;
                self.sleep_locked = ok;
                if ok {
                    out.push(Effect::Say(Note::SleepBlocked));
                } else {
                    out.push(Effect::Say(Note::NoSystemd));
                    out.push(Effect::Say(Note::NeedsSystemd));
                }
                out.push(Effect::CheckDisplay);
            },
            (Phase::CheckingDisplay, Event::Display(x11)) => {
                self.has_x11 = x11;
                if x11 {
                    out.push(Effect::RunXset(Xset::SaverOff));
                    out.push(Effect::RunXset(Xset::DpmsOff));
                    out.push(Effect::Say(Note::DisplayStaysOn));
                }
                out.push(Effect::Say(Note::Blank));
                if self.sleep_locked {
                    self.phase = Phase::Asking;
                    out.push(Effect::Say(Note::LidMaySleep));
                    out.push(Effect::Ask);
                } else {
                    self.phase = Phase::Running;
                    push_waiting(&mut out);
                }
            },
            (Phase::Asking, Event::Answer(a)) => {
                if is_yes(a.as_str()) {
                    self.phase = Phase::TakingLidLock;
                    out.push(Effect::TakeLock(Lock::Lid));
                } else {
                    self.phase = Phase::Running;
                    out.push(Effect::Say(Note::ManualIntro));
                    out.push(Effect::Say(Note::ManualInhibit));
                    out.push(Effect::Say(Note::ManualLogind));
                    push_waiting(&mut out);
                }
            },
            (Phase::TakingLidLock, Event::LockTaken(ok)) => {
                self.phase = Phase::Running;
                self.lid_locked = ok;
                if ok {
                    out.push(Effect::Say(Note::LidBlocked));
                } else {
                    out.push(Effect::Complain(Note::NeedsRoot));
                    out.push(Effect::Complain(Note::TryInhibitAsRoot));
                    out.push(Effect::Complain(Note::TryLogindAsRoot));
                }
                push_waiting(&mut out);
            },
            (Phase::Running, Event::Stop) => {
                self.phase = Phase::Finished;
                if self.sleep_locked {
                    out.push(Effect::ReleaseLock(Lock::Sleep));
                }
                if self.lid_locked {
                    out.push(Effect::ReleaseLock(Lock::Lid));
                }
                if self.has_x11 {
                    out.push(Effect::RunXset(Xset::SaverOn));
                    out.push(Effect::RunXset(Xset::DpmsOn));
                }
                out.push(Effect::Say(Note::Done));
            },
            _ => {},
        }
        out
    }
}


// ---------------------------------------------------------------------------
// Laws
// ---------------------------------------------------------------------------

/// What a session knows fits where it stands: nothing is held before the
/// sleep lock was asked about, the display is known only after it was
/// checked, the lid is asked about only with the sleep lock (systemd) there,
/// and the lid lock is never held without the sleep lock.
pub open spec fn session_wf(s: Session) -> bool {
    &&& s.lid_locked ==> s.sleep_locked
    &&& (s.phase == Phase::Start || s.phase == Phase::TakingSleepLock) ==> !s.sleep_locked
        && !s.has_x11 && !s.lid_locked
    &&& s.phase == Phase::CheckingDisplay ==> !s.has_x11 && !s.lid_locked
    &&& (s.phase == Phase::Asking || s.phase == Phase::TakingLidLock) ==> s.sleep_locked
        && !s.lid_locked
}

/// The run starts well formed, and every event keeps it so.
pub proof fn lemma_step_keeps_wf(s: Session, e: Event)
    requires
        session_wf(s),
    ensures
        session_wf(initial_session()),
        session_wf(session_step(s, e).0),
{
}

/// Stopping a running session releases exactly the locks it holds, turns
/// the display blanking back on exactly where it was turned off, and
/// finishes; a finished session ignores every event.
pub proof fn lemma_stop_undoes(s: Session, e: Event)
    ensures
        s.phase == Phase::Running ==> session_step(s, Event::Stop).0.phase == Phase::Finished,
        s.phase == Phase::Running ==> (session_step(s, Event::Stop).1.contains(
            Effect::ReleaseLock(Lock::Sleep),
        ) <==> s.sleep_locked),
        s.phase == Phase::Running ==> (session_step(s, Event::Stop).1.contains(
            Effect::ReleaseLock(Lock::Lid),
        ) <==> s.lid_locked),
        s.phase == Phase::Running ==> (session_step(s, Event::Stop).1.contains(
            Effect::RunXset(Xset::DpmsOn),
        ) <==> s.has_x11),
        s.phase == Phase::Finished ==> session_step(s, e) == (s, Seq::<Effect>::empty()),
{
    if s.phase == Phase::Running {
        let fx = stop_effects(s);
        let a: Seq<Effect> = if s.sleep_locked {
            seq![Effect::ReleaseLock(Lock::Sleep)]
        } else {
            Seq::empty()
        };
        let b: Seq<Effect> = if s.lid_locked {
            seq![Effect::ReleaseLock(Lock::Lid)]
        } else {
            Seq::empty()
        };
        let c: Seq<Effect> = if s.has_x11 {
            seq![Effect::RunXset(Xset::SaverOn), Effect::RunXset(Xset::DpmsOn)]
        } else {
            Seq::empty()
        };
        let d = seq![Effect::Say(Note::Done)];
        assert(fx == a + b + c + d);
        if s.sleep_locked {
            assert(fx[0] == Effect::ReleaseLock(Lock::Sleep));
        }
        if s.lid_locked {
            assert(fx[a.len() as int] == Effect::ReleaseLock(Lock::Lid));
        }
        if s.has_x11 {
            assert(fx[(a.len() + b.len() + 1) as int] == Effect::RunXset(Xset::DpmsOn));
        }
        assert(fx.contains(Effect::ReleaseLock(Lock::Sleep)) ==> s.sleep_locked) by {
            if fx.contains(Effect::ReleaseLock(Lock::Sleep)) {
                let i = choose|i: int| 0 <= i < fx.len() && fx[i] == Effect::ReleaseLock(Lock::Sleep);
                if i >= a.len() {
                    assert(fx[i] == (b + c + d)[i - a.len()]);
                }
            }
        }
        assert(fx.contains(Effect::ReleaseLock(Lock::Lid)) ==> s.lid_locked) by {
            if fx.contains(Effect::ReleaseLock(Lock::Lid)) {
                let i = choose|i: int| 0 <= i < fx.len() && fx[i] == Effect::ReleaseLock(Lock::Lid);
                if i < a.len() {
                    assert(fx[i] == a[i]);
                } else if i >= a.len() + b.len() {
                    assert(fx[i] == (c + d)[i - a.len() - b.len()]);
                }
            }
        }
        assert(fx.contains(Effect::RunXset(Xset::DpmsOn)) ==> s.has_x11) by {
            if fx.contains(Effect::RunXset(Xset::DpmsOn)) {
                let i = choose|i: int| 0 <= i < fx.len() && fx[i] == Effect::RunXset(Xset::DpmsOn);
                if i < a.len() + b.len() {
                    assert(fx[i] == (a + b)[i]);
                } else if i >= a.len() + b.len() + c.len() {
                    assert(fx[i] == d[i - a.len() - b.len() - c.len()]);
                }
            }
        }
    }
}

/// A session that was told it has systemd asks about the lid, and one that
/// was told it has not goes straight to waiting, never taking the lid lock.
pub proof fn lemma_lid_question_needs_systemd(s: Session, x11: bool)
    requires
        s.phase == Phase::CheckingDisplay,
    ensures
        session_step(s, Event::Display(x11)).0.phase == if s.sleep_locked {
            Phase::Asking
        } else {
            Phase::Running
        },
{
}

/// The X11 display is kept on whenever there is one, whether or not the
/// sleep lock was taken: both `xset` commands come first, then the note
/// that the display stays on, then the blank line; without a display none
/// of them is run and the blank line comes first. The flags other than the
/// display are kept.
pub proof fn lemma_display_kept_on(s: Session, x11: bool)
    requires
        s.phase == Phase::CheckingDisplay,
    ensures
        x11 ==> session_step(s, Event::Display(true)).1[0] == Effect::RunXset(Xset::SaverOff),
        x11 ==> session_step(s, Event::Display(true)).1[1] == Effect::RunXset(Xset::DpmsOff),
        x11 ==> session_step(s, Event::Display(true)).1[2] == Effect::Say(Note::DisplayStaysOn),
        x11 ==> session_step(s, Event::Display(true)).1[3] == Effect::Say(Note::Blank),
        session_step(s, Event::Display(false)).1[0] == Effect::Say(Note::Blank),
        !session_step(s, Event::Display(false)).1.contains(Effect::RunXset(Xset::SaverOff)),
        !session_step(s, Event::Display(false)).1.contains(Effect::RunXset(Xset::DpmsOff)),
        session_step(s, Event::Display(x11)).1.len() == (if x11 { 3int } else { 0 }) + 3,
        session_step(s, Event::Display(x11)).0.has_x11 == x11,
        session_step(s, Event::Display(x11)).0.sleep_locked == s.sleep_locked,
        session_step(s, Event::Display(x11)).0.lid_locked == s.lid_locked,
        s.sleep_locked ==> session_step(s, Event::Display(x11)).1.last() == Effect::Ask,
        !s.sleep_locked ==> session_step(s, Event::Display(x11)).1.last() == Effect::WaitForStop,
{
    let fx = session_step(s, Event::Display(false)).1;
    assert(fx[0] == Effect::Say(Note::Blank));
    assert(fx.contains(Effect::RunXset(Xset::SaverOff)) ==> false) by {
        if fx.contains(Effect::RunXset(Xset::SaverOff)) {
            let i = choose|i: int| 0 <= i < fx.len() && fx[i] == Effect::RunXset(Xset::SaverOff);
            assert(0 <= i < 3);
        }
    }
    assert(fx.contains(Effect::RunXset(Xset::DpmsOff)) ==> false) by {
        if fx.contains(Effect::RunXset(Xset::DpmsOff)) {
            let i = choose|i: int| 0 <= i < fx.len() && fx[i] == Effect::RunXset(Xset::DpmsOff);
            assert(0 <= i < 3);
        }
    }
}

/// Each flag changes only at the report it stands for: the sleep lock when
/// the sleep lock's outcome comes in, the display when the display check
/// comes in, the lid lock when the lid lock's outcome comes in. So the lid
/// answer, whatever it is, never drops the sleep lock.
pub proof fn lemma_flags_change_only_at_their_report(s: Session, e: Event)
    ensures
        s.phase != Phase::TakingSleepLock ==> session_step(s, e).0.sleep_locked == s.sleep_locked,
        s.phase != Phase::CheckingDisplay ==> session_step(s, e).0.has_x11 == s.has_x11,
        s.phase != Phase::TakingLidLock ==> session_step(s, e).0.lid_locked == s.lid_locked,
        s.phase == Phase::TakingSleepLock ==> (e matches Event::LockTaken(ok)
            ==> session_step(s, e).0.sleep_locked == ok),
        s.phase == Phase::TakingLidLock ==> (e matches Event::LockTaken(ok)
            ==> session_step(s, e).0.lid_locked == ok),
{
}

/// A session that took the sleep lock releases it when stopped, whatever
/// was answered about the lid and whether the lid lock was taken.
pub proof fn lemma_sleep_lock_released_after_any_answer(s: Session, a: String, ok: bool)
    requires
        s.phase == Phase::Asking,
        s.sleep_locked,
    ensures
        ({
            let s1 = session_step(s, Event::Answer(a)).0;
            let s2 = if s1.phase == Phase::TakingLidLock {
                session_step(s1, Event::LockTaken(ok)).0
            } else {
                s1
            };
            &&& s2.phase == Phase::Running
            &&& s2.sleep_locked
            &&& session_step(s2, Event::Stop).1[0] == Effect::ReleaseLock(Lock::Sleep)
        }),
{
    let s1 = session_step(s, Event::Answer(a)).0;
    let s2 = if s1.phase == Phase::TakingLidLock {
        session_step(s1, Event::LockTaken(ok)).0
    } else {
        s1
    };
    assert(s2.sleep_locked);
    let fx = stop_effects(s2);
    assert(fx[0] == Effect::ReleaseLock(Lock::Sleep));
}

/// The run asks for exactly one report at a time, and the last thing a step
/// does is ask for the report its new phase waits for: the sleep lock's
/// outcome, the display check, the answer, the lid lock's outcome, or the
/// stop signal; stopping ends with the closing note.
pub proof fn lemma_step_asks_for_next_report(s: Session, e: Event)
    requires
        session_step(s, e).0.phase != s.phase,
    ensures
        ({
            let (t, fx) = session_step(s, e);
            &&& fx.len() > 0
            &&& t.phase == Phase::TakingSleepLock ==> fx.last() == Effect::TakeLock(Lock::Sleep)
            &&& t.phase == Phase::CheckingDisplay ==> fx.last() == Effect::CheckDisplay
            &&& t.phase == Phase::Asking ==> fx.last() == Effect::Ask
            &&& t.phase == Phase::TakingLidLock ==> fx.last() == Effect::TakeLock(Lock::Lid)
            &&& t.phase == Phase::Running ==> fx.last() == Effect::WaitForStop && fx[fx.len() - 2]
                == Effect::Say(Note::HowToStop)
            &&& t.phase == Phase::Finished ==> fx.last() == Effect::Say(Note::Done)
        }),
{
}

/// The sleep lock's outcome is reported to the user: a taken lock with the
/// one line that sleep is blocked, a failed one with the two lines that
/// systemd is missing; then the display is checked.
pub proof fn lemma_sleep_lock_report(s: Session, ok: bool)
    requires
        s.phase == Phase::TakingSleepLock,
    ensures
        ok ==> session_step(s, Event::LockTaken(ok)).1 == seq![
            Effect::Say(Note::SleepBlocked),
            Effect::CheckDisplay,
        ],
        !ok ==> session_step(s, Event::LockTaken(ok)).1 == seq![
            Effect::Say(Note::NoSystemd),
            Effect::Say(Note::NeedsSystemd),
            Effect::CheckDisplay,
        ],
        session_step(s, Event::LockTaken(ok)).0.phase == Phase::CheckingDisplay,
{
    assert(sleep_lock_report(ok).push(Effect::CheckDisplay) =~= if ok {
        seq![Effect::Say(Note::SleepBlocked), Effect::CheckDisplay]
    } else {
        seq![Effect::Say(Note::NoSystemd), Effect::Say(Note::NeedsSystemd), Effect::CheckDisplay]
    });
}

/// The lid lock is asked for exactly when the answer accepts; a declined
/// question prints the three manual instructions and goes to waiting; the
/// lid lock's outcome is reported on standard output when taken and as
/// three lines on standard error when not.
pub proof fn lemma_lid_answer_and_report(s: Session, a: String, t: Session, ok: bool)
    requires
        s.phase == Phase::Asking,
        t.phase == Phase::TakingLidLock,
    ensures
        is_yes_of(a@) ==> session_step(s, Event::Answer(a)).1 == seq![Effect::TakeLock(Lock::Lid)],
        !is_yes_of(a@) ==> session_step(s, Event::Answer(a)).1 == seq![
            Effect::Say(Note::ManualIntro),
            Effect::Say(Note::ManualInhibit),
            Effect::Say(Note::ManualLogind),
            Effect::Say(Note::HowToStop),
            Effect::WaitForStop,
        ],
        ok ==> session_step(t, Event::LockTaken(ok)).1 == seq![
            Effect::Say(Note::LidBlocked),
            Effect::Say(Note::HowToStop),
            Effect::WaitForStop,
        ],
        !ok ==> session_step(t, Event::LockTaken(ok)).1 == seq![
            Effect::Complain(Note::NeedsRoot),
            Effect::Complain(Note::TryInhibitAsRoot),
            Effect::Complain(Note::TryLogindAsRoot),
            Effect::Say(Note::HowToStop),
            Effect::WaitForStop,
        ],
{
    assert(declined_effects() =~= seq![
        Effect::Say(Note::ManualIntro),
        Effect::Say(Note::ManualInhibit),
        Effect::Say(Note::ManualLogind),
        Effect::Say(Note::HowToStop),
        Effect::WaitForStop,
    ]);
    assert(lid_lock_report(true) + start_waiting() =~= seq![
        Effect::Say(Note::LidBlocked),
        Effect::Say(Note::HowToStop),
        Effect::WaitForStop,
    ]);
    assert(lid_lock_report(false) + start_waiting() =~= seq![
        Effect::Complain(Note::NeedsRoot),
        Effect::Complain(Note::TryInhibitAsRoot),
        Effect::Complain(Note::TryLogindAsRoot),
        Effect::Say(Note::HowToStop),
        Effect::WaitForStop,
    ]);
}

/// The run begins by asking for the sleep lock and nothing else.
pub proof fn lemma_begin(s: Session)
    requires
        s.phase == Phase::Start,
    ensures
        session_step(s, Event::Begin) == (
            Session { phase: Phase::TakingSleepLock, ..s },
            seq![Effect::TakeLock(Lock::Sleep)],
        ),
{
}

/// Stopping undoes in a fixed order: the sleep lock, the lid lock, the
/// screen saver, DPMS, then the closing note.
pub proof fn lemma_stop_order(s: Session)
    requires
        s.phase == Phase::Running,
        s.sleep_locked,
        s.lid_locked,
        s.has_x11,
    ensures
        session_step(s, Event::Stop).1 == seq![
            Effect::ReleaseLock(Lock::Sleep),
            Effect::ReleaseLock(Lock::Lid),
            Effect::RunXset(Xset::SaverOn),
            Effect::RunXset(Xset::DpmsOn),
            Effect::Say(Note::Done),
        ],
{
    assert(stop_effects(s) =~= seq![
        Effect::ReleaseLock(Lock::Sleep),
        Effect::ReleaseLock(Lock::Lid),
        Effect::RunXset(Xset::SaverOn),
        Effect::RunXset(Xset::DpmsOn),
        Effect::Say(Note::Done),
    ]);
}

/// The display commands: start-up turns the screen saver and DPMS off, stop
/// turns them back on, so each start-up command is undone by its opposite.
pub proof fn lemma_xset_commands()
    ensures
        xset_args_of(Xset::SaverOff) == seq!["s"@, "off"@],
        xset_args_of(Xset::DpmsOff) == seq!["-dpms"@],
        xset_args_of(Xset::SaverOn) == seq!["s"@, "on"@],
        xset_args_of(Xset::DpmsOn) == seq!["+dpms"@],
        xset_args_of(Xset::SaverOff) != xset_args_of(Xset::SaverOn),
        xset_args_of(Xset::DpmsOff) != xset_args_of(Xset::DpmsOn),
        xset_args_of(Xset::DpmsOff)[0][0] == '-',
        xset_args_of(Xset::DpmsOn)[0][0] == '+',
        xset_args_of(Xset::SaverOff)[1][1] == 'f',
        xset_args_of(Xset::SaverOn)[1][1] == 'n',
{
    reveal_strlit("s");
    reveal_strlit("off");
    reveal_strlit("on");
    reveal_strlit("-dpms");
    reveal_strlit("+dpms");
    assert("off"@[1] == 'f');
    assert("on"@[1] == 'n');
    assert("-dpms"@[0] == '-');
    assert("+dpms"@[0] == '+');
    assert(xset_args_of(Xset::SaverOff)[1][1] != xset_args_of(Xset::SaverOn)[1][1]);
    assert(xset_args_of(Xset::SaverOff)[1] != xset_args_of(Xset::SaverOn)[1]);
    assert(xset_args_of(Xset::DpmsOff)[0][0] != xset_args_of(Xset::DpmsOn)[0][0]);
    assert(xset_args_of(Xset::DpmsOff)[0] != xset_args_of(Xset::DpmsOn)[0]);
}

/// The `systemd-inhibit` arguments of both locks, word for word: the sleep
/// lock blocks idle sleep, the lid lock the lid switch, both on behalf of
/// `awake`, blocking, held by a `cat` child.
pub proof fn lemma_lock_args()
    ensures
        inhibit_args_of(lock_what_of(Lock::Sleep), lock_why_of(Lock::Sleep)) == seq![
            "--what=idle:sleep"@,
            "--who=awake"@,
            "--why=Preventing sleep"@,
            "--mode=block"@,
            "cat"@,
        ],
        inhibit_args_of(lock_what_of(Lock::Lid), lock_why_of(Lock::Lid)) == seq![
            "--what=handle-lid-switch"@,
            "--who=awake"@,
            "--why=Preventing lid-close sleep"@,
            "--mode=block"@,
            "cat"@,
        ],
{
    reveal_strlit("--what=");
    reveal_strlit("--why=");
    reveal_strlit("idle:sleep");
    reveal_strlit("Preventing sleep");
    reveal_strlit("handle-lid-switch");
    reveal_strlit("Preventing lid-close sleep");
    reveal_strlit("--what=idle:sleep");
    reveal_strlit("--why=Preventing sleep");
    reveal_strlit("--what=handle-lid-switch");
    reveal_strlit("--why=Preventing lid-close sleep");
    assert("--what="@ + "idle:sleep"@ =~= "--what=idle:sleep"@);
    assert("--why="@ + "Preventing sleep"@ =~= "--why=Preventing sleep"@);
    assert("--what="@ + "handle-lid-switch"@ =~= "--what=handle-lid-switch"@);
    assert("--why="@ + "Preventing lid-close sleep"@ =~= "--why=Preventing lid-close sleep"@);
}

/// An answer accepts exactly when, white space aside, it is `y`, `Y` or
/// `yes`: a lone `y` in either case, or the three letters `y`, `e`, `s`.
pub proof fn lemma_yes_answers(a: Seq<char>)
    ensures
        is_yes_of(a) <==> {
            let t = text::trim(a);
            ||| t.len() == 1 && (t[0] == 'y' || t[0] == 'Y')
            ||| t.len() == 3 && t[0] == 'y' && t[1] == 'e' && t[2] == 's'
        },
{
    reveal_strlit("y");
    reveal_strlit("Y");
    reveal_strlit("yes");
    let t = text::trim(a);
    if t.len() == 1 && t[0] == 'y' {
        assert(t =~= "y"@);
    }
    if t.len() == 1 && t[0] == 'Y' {
        assert(t =~= "Y"@);
    }
    if t.len() == 3 && t[0] == 'y' && t[1] == 'e' && t[2] == 's' {
        assert(t =~= "yes"@);
    }
}

/// The lines the run prints, word for word, and the lid question's prompt.
pub proof fn lemma_note_texts()
    ensures
        note_text_of(Note::SleepBlocked) == "awake - preventing idle sleep"@,
        note_text_of(Note::NoSystemd) == "awake - systemd-inhibit not available"@,
        note_text_of(Note::NeedsSystemd) == "       (sleep prevention requires systemd)"@,
        note_text_of(Note::DisplayStaysOn) == "       display will stay on (X11)"@,
        note_text_of(Note::Blank) == ""@,
        note_text_of(Note::LidMaySleep) == "lid-close: system may sleep when you close the lid"@,
        note_text_of(Note::LidBlocked) == "done - lid close inhibited"@,
        note_text_of(Note::NeedsRoot) == "failed (may need root)"@,
        note_text_of(Note::TryInhibitAsRoot)
            == "  try: sudo systemd-inhibit --what=handle-lid-switch sleep infinity &"@,
        note_text_of(Note::TryLogindAsRoot)
            == "  or:  edit /etc/systemd/logind.conf \u{2192} HandleLidSwitch=ignore"@,
        note_text_of(Note::ManualIntro) == "to do it manually:"@,
        note_text_of(Note::ManualInhibit)
            == "  systemd-inhibit --what=handle-lid-switch sleep infinity &"@,
        note_text_of(Note::ManualLogind)
            == "  or edit /etc/systemd/logind.conf \u{2192} HandleLidSwitch=ignore"@,
        note_text_of(Note::HowToStop) == "\nctrl+c to stop"@,
        note_text_of(Note::Done) == "\ndone"@,
        LID_QUESTION@ == "inhibit lid-close sleep?"@,
        prompt_of(LID_QUESTION@) == "inhibit lid-close sleep?"@ + " [y/N]: "@,
{
}

} // verus!
