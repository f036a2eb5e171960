//! The decisions of the macOS menu-bar item: staying awake through power
//! assertions, turning lid-close sleep off with `pmset`, what the menu and
//! the icon show, and what quitting undoes.
use vstd::prelude::*;

use crate::text;

verus! {

/// The `pmset` command that turns sleep off (`disable`) or back on.
pub open spec fn disablesleep_command_of(disable: bool) -> Seq<char> {
    if disable {
        "pmset -a disablesleep 1"@
    } else {
        "pmset -a disablesleep 0"@
    }
}

/// The `pmset` command that turns sleep off (`disable`) or back on.
pub fn disablesleep_command(disable: bool) -> (res: &'static str)
    ensures
        res@ == disablesleep_command_of(disable),
{
    if disable {
        "pmset -a disablesleep 1"
    } else {
        "pmset -a disablesleep 0"
    }
}

/// The AppleScript that runs `cmd` as a shell command with administrator
/// privileges.
pub open spec fn privileged_script_of(cmd: Seq<char>) -> Seq<char> {
    "do shell script \""@ + cmd + "\" with administrator privileges"@
}

/// The AppleScript that runs `cmd` with administrator privileges.
pub fn privileged_script(cmd: &str) -> (res: String)
    ensures
        res@ == privileged_script_of(cmd@),
{
    let mut res = String::from_str("do shell script \"");
    res.append(cmd);
    res.append("\" with administrator privileges");
    res
}

/// The output of `pmset -g` shows sleep turned off: a line that names
/// `disablesleep` ends, white space aside, in `1`.
pub open spec fn disablesleep_on(out: Seq<char>) -> bool {
    exists|i: int|
        0 <= i < text::lines(out).len() && #[trigger] shows_disablesleep_on(text::lines(out)[i])
}

/// The line names `disablesleep` and ends, white space aside, in `1`.
pub open spec fn shows_disablesleep_on(line: Seq<char>) -> bool {
    &&& text::contains(line, "disablesleep"@)
    &&& text::trim(line).len() > 0
    &&& text::trim(line).last() == '1'
}

/// Whether the output of `pmset -g` shows sleep turned off.
pub fn disablesleep_enabled(out: &str) -> (res: bool)
    ensures
        res == disablesleep_on(out@),
{
    let ls = text::split_lines(out);
    let pat = text::chars_of("disablesleep");
    let ghost all = text::lines(out@);
    let mut i: usize = 0;
    while i < ls.len()
        invariant
            i <= ls@.len(),
            all == text::lines(out@),
            ls@.len() == all.len(),
            forall|k: int| 0 <= k < ls@.len() ==> #[trigger] ls@[k]@ == all[k],
            pat@ == "disablesleep"@,
            forall|k: int| 0 <= k < i ==> !#[trigger] shows_disablesleep_on(all[k]),
        decreases ls@.len() - i,
    {
        let line = &ls[i];
        if text::contains_chars(line, &pat) {
            let t = text::trimmed(line);
            if t.len() > 0 && t[t.len() - 1] == '1' {
                assert(shows_disablesleep_on(all[i as int]));
                return true;
            }
        }
        i = i + 1;
    }
    false
}

/// The title of the status item: a coffee cup while awake, sleeping marks
/// otherwise.
pub open spec fn status_icon_of(awake: bool) -> Seq<char> {
    if awake {
        seq!['\u{2615}']
    } else {
        seq!['\u{1F4A4}']
    }
}

/// The title of the status item.
pub fn status_icon(awake: bool) -> (res: &'static str)
    ensures
        res@ == status_icon_of(awake),
{
    proof {
        reveal_strlit("\u{2615}");
        reveal_strlit("\u{1F4A4}");
    }
    if awake {
        "\u{2615}"
    } else {
        "\u{1F4A4}"
    }
}

/// The `NSControlStateValue` of a menu item that is on or off.
pub open spec fn item_state_of(on: bool) -> i64 {
    if on {
        1
    } else {
        0
    }
}

/// The `NSControlStateValue` of a menu item that is on or off.
pub fn item_state(on: bool) -> (res: i64)
    ensures
        res == item_state_of(on),
{
    if on {
        1
    } else {
        0
    }
}


// ---------------------------------------------------------------------------
// The menu-bar item's state and its menu actions
// ---------------------------------------------------------------------------

/// What the menu-bar item remembers: whether it holds the power assertions
/// that keep the Mac awake, and whether it has turned lid-close sleep off.
#[derive(Clone, Copy, PartialEq, Eq, Debug)]
pub struct MenuBarState {
    pub awake: bool,
    pub lid_off: bool,
}

/// One thing to do on the system or the menu.
#[derive(PartialEq, Eq, Debug)]
pub enum MacAction {
    /// Create the assertions that prevent idle system and display sleep, and
    /// hand the outcome to [`MenuBarState::assertions_created`].
    CreateAssertions,
    /// Release both assertions.
    ReleaseAssertions,
    /// Set the state of the "Stay Awake" item.
    SetAwakeItem(i64),
    /// Set the state of the "Prevent Lid-Close Sleep" item.
    SetLidItem(i64),
    /// Set the title of the status item to the icon for this awake state.
    SetIcon(bool),
    /// Run this AppleScript with `osascript -e`; where the state waits for
    /// the outcome, hand it to [`MenuBarState::lid_command_done`].
    RunScript(String),
    /// Leave the application.
    Exit,
}

/// The script that turns lid-close sleep the other way.
pub open spec fn lid_toggle_script_of(s: MenuBarState) -> Seq<char> {
    privileged_script_of(disablesleep_command_of(!s.lid_off))
}

/// The state after "Stay Awake" was chosen: released when awake, otherwise
/// unchanged until the assertions are created.
pub open spec fn awake_toggled(s: MenuBarState) -> MenuBarState {
    MenuBarState { awake: false, ..s }
}

/// The state after creating the assertions succeeded or failed.
pub open spec fn assertions_created_state(s: MenuBarState, ok: bool) -> MenuBarState {
    if ok {
        MenuBarState { awake: true, ..s }
    } else {
        s
    }
}

/// The state after the lid-close script succeeded or failed.
pub open spec fn lid_done_state(s: MenuBarState, ok: bool) -> MenuBarState {
    if ok {
        MenuBarState { lid_off: !s.lid_off, ..s }
    } else {
        s
    }
}

impl MenuBarState {
    /// The state at start: whether creating the assertions succeeded, and
    /// whether `pmset` showed sleep turned off.
    pub fn new(awake: bool, lid_off: bool) -> (res: MenuBarState)
        ensures
            res == (MenuBarState { awake, lid_off }),
    {
        MenuBarState { awake, lid_off }
    }

    /// "Stay Awake" was chosen. While awake: release the assertions, clear
    /// the item and show the sleeping icon. Otherwise: try to create the
    /// assertions, the rest follows in [`MenuBarState::assertions_created`].
    pub fn toggle_awake(&mut self) -> (res: Vec<MacAction>)
        ensures
            *final(self) == awake_toggled(*old(self)),
            old(self).awake ==> res@ == seq![
                MacAction::ReleaseAssertions,
                MacAction::SetAwakeItem(0),
                MacAction::SetIcon(false),
            ],
            !old(self).awake ==> res@ == seq![MacAction::CreateAssertions],
    {
        let mut res: Vec<MacAction> = Vec::new();
        if self.awake {
            self.awake = false;
            res.push(MacAction::ReleaseAssertions);
            res.push(MacAction::SetAwakeItem(0));
            res.push(MacAction::SetIcon(false));
        } else {
            res.push(MacAction::CreateAssertions);
        }
        res
    }

    /// The outcome of creating the assertions: on success the item is
    /// checked and the state is awake; the icon shows the state either way.
    pub fn assertions_created(&mut self, ok: bool) -> (res: Vec<MacAction>)
        ensures
            *final(self) == assertions_created_state(*old(self), ok),
            ok ==> res@ == seq![MacAction::SetAwakeItem(1), MacAction::SetIcon(true)],
            !ok ==> res@ == seq![MacAction::SetIcon(old(self).awake)],
    {
        let mut res: Vec<MacAction> = Vec::new();
        if ok {
            self.awake = true;
            res.push(MacAction::SetAwakeItem(1));
        }
        res.push(MacAction::SetIcon(self.awake));
        res
    }

    /// "Prevent Lid-Close Sleep" was chosen: the script to run with
    /// administrator privileges, whose outcome goes to
    /// [`MenuBarState::lid_command_done`].
    pub fn toggle_lid(&self) -> (res: String)
        ensures
            res@ == lid_toggle_script_of(*self),
    {
        privileged_script(disablesleep_command(!self.lid_off))
    }

    /// The outcome of the lid-close script: on success lid-close sleep has
    /// turned the other way and the item shows it; on failure nothing
    /// changes.
    pub fn lid_command_done(&mut self, ok: bool) -> (res: Vec<MacAction>)
        ensures
            *final(self) == lid_done_state(*old(self), ok),
            ok ==> res@ == seq![MacAction::SetLidItem(item_state_of(!old(self).lid_off))],
            !ok ==> res@.len() == 0,
    {
        let mut res: Vec<MacAction> = Vec::new();
        if ok {
            self.lid_off = !self.lid_off;
            res.push(MacAction::SetLidItem(item_state(self.lid_off)));
        }
        res
    }

    /// "Quit" was chosen: release the assertions if held, turn lid-close
    /// sleep back on if it was turned off, and leave.
    pub fn quit(&self) -> (res: Vec<MacAction>)
        ensures
            res@.len() == (if self.awake { 1int } else { 0 }) + (if self.lid_off { 1int } else { 0 })
                + 1,
            self.awake ==> res@[0] == MacAction::ReleaseAssertions,
            self.lid_off ==> (res@[res@.len() - 2] matches MacAction::RunScript(sc) && sc@
                == privileged_script_of(disablesleep_command_of(false))),
            res@.last() == MacAction::Exit,
    {
        let mut res: Vec<MacAction> = Vec::new();
        if self.awake {
            res.push(MacAction::ReleaseAssertions);
        }
        if self.lid_off {
            res.push(MacAction::RunScript(privileged_script(disablesleep_command(false))));
        }
        res.push(MacAction::Exit);
        res
    }
}

// ---------------------------------------------------------------------------
// The menu
// ---------------------------------------------------------------------------

/// One item of the menu, as `initWithTitle:action:keyEquivalent:` takes it,
/// with its initial state; `None` is a separator.
#[derive(Clone, Copy, PartialEq, Eq, Debug)]
pub struct MenuItem {
    pub title: &'static str,
    pub action: &'static str,
    pub key: &'static str,
    pub state: i64,
}

/// The menu: "Stay Awake", "Prevent Lid-Close Sleep", a separator, "Quit";
/// the first two checked as the state says.
pub fn menu_items(s: MenuBarState) -> (res: Vec<Option<MenuItem>>)
    ensures
        res@.len() == 4,
        res@[0] matches Some(m) && m.title@ == "Stay Awake"@ && m.action@ == "toggleAwake:"@
            && m.key@ == ""@ && m.state == item_state_of(s.awake),
        res@[1] matches Some(m) && m.title@ == "Prevent Lid-Close Sleep"@ && m.action@
            == "toggleLid:"@ && m.key@ == ""@ && m.state == item_state_of(s.lid_off),
        res@[2] is None,
        res@[3] matches Some(m) && m.title@ == "Quit"@ && m.action@ == "quit:"@ && m.key@ == "q"@
            && m.state == 0,
{
    let mut res: Vec<Option<MenuItem>> = Vec::new();
    res.push(
        Some(
            MenuItem {
                title: "Stay Awake",
                action: "toggleAwake:",
                key: "",
                state: item_state(s.awake),
            },
        ),
    );
    res.push(
        Some(
            MenuItem {
                title: "Prevent Lid-Close Sleep",
                action: "toggleLid:",
                key: "",
                state: item_state(s.lid_off),
            },
        ),
    );
    res.push(None);
    res.push(Some(MenuItem { title: "Quit", action: "quit:", key: "q", state: 0 }));
    res
}


// ---------------------------------------------------------------------------
// Laws
// ---------------------------------------------------------------------------

/// Turning lid-close sleep off and on again, with both scripts succeeding,
/// runs the opposite `pmset` commands and returns to the state before.
pub proof fn lemma_lid_toggle_twice(s: MenuBarState)
    ensures
        lid_toggle_script_of(s) == privileged_script_of(disablesleep_command_of(!s.lid_off)),
        lid_toggle_script_of(lid_done_state(s, true)) == privileged_script_of(
            disablesleep_command_of(s.lid_off),
        ),
        lid_done_state(lid_done_state(s, true), true) == s,
{
}

/// The script that quitting runs to turn lid-close sleep back on is the
/// one the menu runs for that.
pub proof fn lemma_quit_script_is_lid_restore(s: MenuBarState)
    requires
        s.lid_off,
    ensures
        lid_toggle_script_of(s) == privileged_script_of(disablesleep_command_of(false)),
{
}

/// Staying awake and back: from a sleeping state, creating the assertions
/// and then choosing "Stay Awake" again returns to that state.
pub proof fn lemma_awake_toggle_twice(s: MenuBarState)
    requires
        !s.awake,
    ensures
        awake_toggled(s) == s,
        awake_toggled(assertions_created_state(awake_toggled(s), true)) == s,
{
}

/// A failed system command changes nothing.
pub proof fn lemma_failure_keeps_state(s: MenuBarState)
    ensures
        assertions_created_state(s, false) == s,
        lid_done_state(s, false) == s,
{
}

/// The two `pmset` commands differ.
pub proof fn lemma_commands_differ()
    ensures
        disablesleep_command_of(true) != disablesleep_command_of(false),
{
    reveal_strlit("pmset -a disablesleep 1");
    reveal_strlit("pmset -a disablesleep 0");
    assert(disablesleep_command_of(true)[22] != disablesleep_command_of(false)[22]);
}

/// Each menu action touches only its own flag: the lid-close script's
/// outcome never changes whether the assertions are held, and the awake
/// toggle and the assertions' outcome never change lid-close sleep. Choosing
/// "Stay Awake" always ends holding no assertions until they are created
/// again; a successful creation holds them; a successful lid-close script
/// turns lid-close sleep the other way.
pub proof fn lemma_actions_touch_own_flag(s: MenuBarState, ok: bool)
    ensures
        lid_done_state(s, ok).awake == s.awake,
        assertions_created_state(s, ok).lid_off == s.lid_off,
        awake_toggled(s).lid_off == s.lid_off,
        !awake_toggled(s).awake,
        assertions_created_state(s, true).awake,
        lid_done_state(s, true).lid_off == !s.lid_off,
{
}

/// The lid-close scripts, word for word: with lid-close sleep on the menu
/// turns it off (`disablesleep 1`), with it off the menu turns it back on
/// (`disablesleep 0`), each run through `do shell script` with
/// administrator privileges.
pub proof fn lemma_lid_scripts(s: MenuBarState)
    ensures
        !s.lid_off ==> lid_toggle_script_of(s)
            == "do shell script \"pmset -a disablesleep 1\" with administrator privileges"@,
        s.lid_off ==> lid_toggle_script_of(s)
            == "do shell script \"pmset -a disablesleep 0\" with administrator privileges"@,
{
    reveal_strlit("do shell script \"");
    reveal_strlit("\" with administrator privileges");
    reveal_strlit("pmset -a disablesleep 1");
    reveal_strlit("pmset -a disablesleep 0");
    reveal_strlit("do shell script \"pmset -a disablesleep 1\" with administrator privileges");
    reveal_strlit("do shell script \"pmset -a disablesleep 0\" with administrator privileges");
    assert("do shell script \""@ + "pmset -a disablesleep 1"@ + "\" with administrator privileges"@
        =~= "do shell script \"pmset -a disablesleep 1\" with administrator privileges"@);
    assert("do shell script \""@ + "pmset -a disablesleep 0"@ + "\" with administrator privileges"@
        =~= "do shell script \"pmset -a disablesleep 0\" with administrator privileges"@);
}

/// What the menu shows: a coffee cup while awake and sleeping marks
/// otherwise, items on as state 1 and off as 0.
pub proof fn lemma_display_values()
    ensures
        status_icon_of(true) == seq!['\u{2615}'],
        status_icon_of(false) == seq!['\u{1F4A4}'],
        item_state_of(true) == 1,
        item_state_of(false) == 0,
{
}

/// `pmset -g` output in which no line names `disablesleep` never shows
/// sleep turned off; a single line does exactly when it names
/// `disablesleep` and ends, white space aside, in `1`.
pub proof fn lemma_disablesleep_lines(out: Seq<char>)
    ensures
        (forall|i: int|
            0 <= i < text::lines(out).len() ==> !text::contains(
                #[trigger] text::lines(out)[i],
                "disablesleep"@,
            )) ==> !disablesleep_on(out),
        (out.len() > 0 && forall|i: int| 0 <= i < out.len() ==> out[i] != '\n') ==> (
        disablesleep_on(out) <==> (text::contains(out, "disablesleep"@) && text::trim(out).len()
            > 0 && text::trim(out).last() == '1')),
{
    if out.len() > 0 && forall|i: int| 0 <= i < out.len() ==> out[i] != '\n' {
        text::lemma_lines_without_newline(out);
        assert(text::lines(out)[0] == out);
        if text::contains(out, "disablesleep"@) && text::trim(out).len() > 0 && text::trim(out).last()
            == '1' {
            assert(shows_disablesleep_on(text::lines(out)[0]));
        }
    }
}

} // verus!
