//! The decisions of the Windows tray icon: what each window message does to
//! the lid-close setting, the tray menu, and how the lid setting is read
//! from and written to `powercfg`.
use vstd::prelude::*;

use crate::text;

verus! {

pub const WM_APP: u32 = 0x8000;
pub const WM_COMMAND: u32 = 0x0111;
pub const WM_DESTROY: u32 = 0x0002;
pub const WM_RBUTTONUP: u32 = 0x0205;
pub const WM_LBUTTONUP: u32 = 0x0202;

pub const MF_STRING: u32 = 0;
pub const MF_SEPARATOR: u32 = 0x800;
pub const MF_CHECKED: u32 = 0x8;
pub const MF_GRAYED: u32 = 0x1;

pub const ES_CONTINUOUS: u32 = 0x80000000;
pub const ES_SYSTEM_REQUIRED: u32 = 0x00000001;
pub const ES_DISPLAY_REQUIRED: u32 = 0x00000002;

pub const ID_TOGGLE_LID: usize = 1;
pub const ID_QUIT: usize = 2;

/// The tool tip of the tray icon.
pub const TIP: &'static str = "Awake - preventing sleep";

/// The code units of `s` in UTF-16, followed by a terminating zero.
pub fn w(s: &str) -> (res: Vec<u16>)
    ensures
        res@ == text::utf16(s@).push(0u16),
{
    let mut res = text::encode_utf16(s);
    res.push(0);
    res
}

/// Copies the UTF-16 code units of `s` into `buf`, at most 127 of them, so
/// that the last unit of `buf` is never written.
pub fn set_tip(buf: &mut [u16; 128], s: &str)
    ensures
        forall|i: int|
            0 <= i < 128 ==> #[trigger] final(buf)@[i] == if i < 127 && i < text::utf16(s@).len() {
                text::utf16(s@)[i]
            } else {
                old(buf)@[i]
            },
{
    let units = text::encode_utf16(s);
    let mut i: usize = 0;
    while i < units.len() && i < 127
        invariant
            units@ == text::utf16(s@),
            i <= 127,
            i <= units@.len(),
            forall|k: int|
                0 <= k < 128 ==> #[trigger] buf@[k] == if k < i {
                    units@[k]
                } else {
                    old(buf)@[k]
                },
        decreases 127 - i,
    {
        buf[i] = units[i];
        i = i + 1;
    }
}


// ---------------------------------------------------------------------------
// Reading the lid-close action from `powercfg /QUERY`
// ---------------------------------------------------------------------------

/// The label of the line that holds the lid-close action on AC power.
pub open spec fn ac_label() -> Seq<char> {
    "Current AC Power Setting Index"@
}

/// The label of the line that holds the lid-close action on battery.
pub open spec fn dc_label() -> Seq<char> {
    "Current DC Power Setting Index"@
}

/// The setting a line holds: the hexadecimal number after its last `0x`,
/// white space trimmed, or 1 where that does not read as a `u32`.
pub open spec fn setting_value(line: Seq<char>) -> u32 {
    match text::parse_hex_u32(text::trim(text::after_last_0x(line))) {
        Some(v) => v,
        None => 1,
    }
}

/// The (AC, DC) lid-close actions that the lines `ls` give, starting from
/// (1, 1): the last line that holds a label sets its value.
pub open spec fn lid_action_of_lines(ls: Seq<Seq<char>>) -> (u32, u32)
    decreases ls.len(),
{
    if ls.len() == 0 {
        (1, 1)
    } else {
        let prev = lid_action_of_lines(ls.drop_last());
        let line = ls.last();
        (
            if text::contains(line, ac_label()) {
                setting_value(line)
            } else {
                prev.0
            },
            if text::contains(line, dc_label()) {
                setting_value(line)
            } else {
                prev.1
            },
        )
    }
}

/// The (AC, DC) lid-close actions that the output `out` of
/// `powercfg /QUERY SCHEME_CURRENT SUB_BUTTONS LIDACTION` shows.
pub open spec fn lid_action_of(out: Seq<char>) -> (u32, u32) {
    lid_action_of_lines(text::lines(out))
}

fn line_setting(line: &Vec<char>) -> (res: u32)
    ensures
        res == setting_value(line@),
{
    let field = text::field_after_last_0x(line);
    let t = text::trimmed(&field);
    match text::parse_hex(&t) {
        Some(v) => v,
        None => 1,
    }
}

/// Reads the (AC, DC) lid-close actions from the output of
/// `powercfg /QUERY SCHEME_CURRENT SUB_BUTTONS LIDACTION`; an action that the
/// output does not show is 1 (sleep).
pub fn lid_action_from_query(out: &str) -> (res: (u32, u32))
    ensures
        res == lid_action_of(out@),
{
    let ls = text::split_lines(out);
    let ac_pat = text::chars_of("Current AC Power Setting Index");
    let dc_pat = text::chars_of("Current DC Power Setting Index");
    let mut ac: u32 = 1;
    let mut dc: u32 = 1;
    let ghost all = text::lines(out@);
    let mut i: usize = 0;
    while i < ls.len()
        invariant
            i <= ls@.len(),
            ls@.len() == all.len(),
            forall|k: int| 0 <= k < ls@.len() ==> #[trigger] ls@[k]@ == all[k],
            ac_pat@ == ac_label(),
            dc_pat@ == dc_label(),
            (ac, dc) == lid_action_of_lines(all.take(i as int)),
        decreases ls@.len() - i,
    {
        let line = &ls[i];
        assert(all.take(i + 1).drop_last() == all.take(i as int));
        assert(all.take(i + 1).last() == line@);
        if text::contains_chars(line, &ac_pat) {
            ac = line_setting(line);
        }
        if text::contains_chars(line, &dc_pat) {
            dc = line_setting(line);
        }
        i = i + 1;
    }
    assert(all.take(all.len() as int) == all);
    (ac, dc)
}

// ---------------------------------------------------------------------------
// Writing the lid-close action
// ---------------------------------------------------------------------------

/// The parameters of `cmd` that set the lid-close action to `ac` on AC power
/// and `dc` on battery, and make the scheme active.
pub open spec fn lid_action_params(ac: u32, dc: u32) -> Seq<char> {
    "/c powercfg /SETACVALUEINDEX SCHEME_CURRENT SUB_BUTTONS LIDACTION "@ + text::decimal(
        ac as nat,
    ) + " & powercfg /SETDCVALUEINDEX SCHEME_CURRENT SUB_BUTTONS LIDACTION "@ + text::decimal(
        dc as nat,
    ) + " & powercfg /SETACTIVE SCHEME_CURRENT"@
}

/// The parameters of `cmd` that set the lid-close action.
pub fn set_lid_action_params(ac: u32, dc: u32) -> (res: String)
    ensures
        res@ == lid_action_params(ac, dc),
{
    let mut res = String::from_str("/c powercfg /SETACVALUEINDEX SCHEME_CURRENT SUB_BUTTONS LIDACTION ");
    text::push_decimal(&mut res, ac);
    res.append(" & powercfg /SETDCVALUEINDEX SCHEME_CURRENT SUB_BUTTONS LIDACTION ");
    text::push_decimal(&mut res, dc);
    res.append(" & powercfg /SETACTIVE SCHEME_CURRENT");
    res
}


// ---------------------------------------------------------------------------
// The tray icon's state and its window messages
// ---------------------------------------------------------------------------

/// What the tray icon remembers: whether it has turned lid-close sleep off,
/// and the lid-close actions (AC, DC) to put back.
#[derive(Clone, Copy, PartialEq, Eq, Debug)]
pub struct TrayState {
    pub lid_off: bool,
    pub orig_ac: u32,
    pub orig_dc: u32,
}

/// What the window procedure must do after a message.
#[derive(Clone, Copy, PartialEq, Eq, Debug)]
pub enum TrayAction {
    /// The message is not handled here: pass it to `DefWindowProcW`.
    PassOn,
    /// Handled; nothing to do (the procedure returns 0).
    Nothing,
    /// Show the tray menu.
    ShowMenu,
    /// Read the current lid-close actions and hand them to
    /// [`TrayState::lid_action_read`].
    ReadLidAction,
    /// Set the lid-close actions (AC, DC) with `powercfg`.
    SetLidAction(u32, u32),
    /// Clean up and quit: clear the execution state, put back the given
    /// lid-close actions if there are any, remove the icon, post the quit
    /// message.
    Quit(Option<(u32, u32)>),
}

/// The lid-close actions that cleaning up puts back: the remembered ones,
/// where the tray icon has turned lid-close sleep off.
pub open spec fn restore_on_quit(s: TrayState) -> Option<(u32, u32)> {
    if s.lid_off {
        Some((s.orig_ac, s.orig_dc))
    } else {
        None
    }
}

/// The state after a window message, and what to do.
pub open spec fn tray_step(s: TrayState, msg: u32, wp: usize, lp: isize) -> (TrayState, TrayAction) {
    if msg == WM_APP {
        let event = lp as u32;
        if event == WM_RBUTTONUP || event == WM_LBUTTONUP {
            (s, TrayAction::ShowMenu)
        } else {
            (s, TrayAction::Nothing)
        }
    } else if msg == WM_COMMAND {
        let id = wp % 0x10000;
        if id == ID_TOGGLE_LID {
            if s.lid_off {
                (TrayState { lid_off: false, ..s }, TrayAction::SetLidAction(s.orig_ac, s.orig_dc))
            } else {
                (s, TrayAction::ReadLidAction)
            }
        } else if id == ID_QUIT {
            (s, TrayAction::Quit(restore_on_quit(s)))
        } else {
            (s, TrayAction::Nothing)
        }
    } else if msg == WM_DESTROY {
        (s, TrayAction::Quit(restore_on_quit(s)))
    } else {
        (s, TrayAction::PassOn)
    }
}

/// The state after the lid-close actions (AC, DC) were read for turning
/// lid-close sleep off, and what to do: set both actions to 0 (do nothing).
pub open spec fn lid_read_step(ac: u32, dc: u32) -> (TrayState, TrayAction) {
    (TrayState { lid_off: true, orig_ac: ac, orig_dc: dc }, TrayAction::SetLidAction(0, 0))
}

impl TrayState {
    /// The state at start, from the lid-close actions (AC, DC) in force:
    /// lid-close sleep counts as off when both are 0 (do nothing).
    pub fn new(ac: u32, dc: u32) -> (res: TrayState)
        ensures
            res == (TrayState { lid_off: ac == 0 && dc == 0, orig_ac: ac, orig_dc: dc }),
    {
        TrayState { lid_off: ac == 0 && dc == 0, orig_ac: ac, orig_dc: dc }
    }

    /// Handles a window message.
    pub fn handle_message(&mut self, msg: u32, wp: usize, lp: isize) -> (res: TrayAction)
        ensures
            (*final(self), res) == tray_step(*old(self), msg, wp, lp),
    {
        if msg == WM_APP {
            let event: u32 = lp as u32;
            if event == WM_RBUTTONUP || event == WM_LBUTTONUP {
                TrayAction::ShowMenu
            } else {
                TrayAction::Nothing
            }
        } else if msg == WM_COMMAND {
            let id: usize = wp & 0xFFFF;
            assert(wp & 0xFFFF == wp % 0x10000) by (bit_vector);
            if id == ID_TOGGLE_LID {
                if self.lid_off {
                    self.lid_off = false;
                    TrayAction::SetLidAction(self.orig_ac, self.orig_dc)
                } else {
                    TrayAction::ReadLidAction
                }
            } else if id == ID_QUIT {
                TrayAction::Quit(self.restore_on_quit())
            } else {
                TrayAction::Nothing
            }
        } else if msg == WM_DESTROY {
            TrayAction::Quit(self.restore_on_quit())
        } else {
            TrayAction::PassOn
        }
    }

    /// Takes the lid-close actions read after [`TrayAction::ReadLidAction`]:
    /// remembers them and turns lid-close sleep off.
    pub fn lid_action_read(&mut self, ac: u32, dc: u32) -> (res: TrayAction)
        ensures
            (*final(self), res) == lid_read_step(ac, dc),
    {
        self.orig_ac = ac;
        self.orig_dc = dc;
        self.lid_off = true;
        TrayAction::SetLidAction(0, 0)
    }

    /// The lid-close actions that cleaning up puts back.
    pub fn restore_on_quit(&self) -> (res: Option<(u32, u32)>)
        ensures
            res == restore_on_quit(*self),
    {
        if self.lid_off {
            Some((self.orig_ac, self.orig_dc))
        } else {
            None
        }
    }
}

/// The execution state that keeps the system and the display awake.
pub fn keep_awake_flags() -> (res: u32)
    ensures
        res == ES_CONTINUOUS | ES_SYSTEM_REQUIRED | ES_DISPLAY_REQUIRED,
{
    ES_CONTINUOUS | ES_SYSTEM_REQUIRED | ES_DISPLAY_REQUIRED
}

// ---------------------------------------------------------------------------
// The tray menu
// ---------------------------------------------------------------------------

/// One entry of the tray menu, as `AppendMenuW` takes it.
#[derive(Clone, Copy, PartialEq, Eq, Debug)]
pub struct MenuEntry {
    pub flags: u32,
    pub id: usize,
    /// The text; none for a separator.
    pub label: Option<&'static str>,
}

/// The flags of the lid-close entry: checked while lid-close sleep is off.
pub open spec fn lid_entry_flags(lid_off: bool) -> u32 {
    MF_STRING | if lid_off {
        MF_CHECKED
    } else {
        0
    }
}

/// The tray menu: a grayed title, a separator, the lid-close toggle, a
/// separator, and Quit.
pub fn tray_menu(lid_off: bool) -> (res: Vec<MenuEntry>)
    ensures
        res@.len() == 5,
        res@[0].flags == MF_STRING | MF_GRAYED && res@[0].id == 0 && res@[0].label is Some
            && res@[0].label->0@ == "Preventing Sleep"@,
        res@[1] == (MenuEntry { flags: MF_SEPARATOR, id: 0, label: None }),
        res@[2].flags == lid_entry_flags(lid_off) && res@[2].id == ID_TOGGLE_LID
            && res@[2].label is Some && res@[2].label->0@ == "Prevent Lid-Close Sleep"@,
        res@[3] == (MenuEntry { flags: MF_SEPARATOR, id: 0, label: None }),
        res@[4].flags == MF_STRING && res@[4].id == ID_QUIT && res@[4].label is Some
            && res@[4].label->0@ == "Quit"@,
{
    let mut res: Vec<MenuEntry> = Vec::new();
    res.push(MenuEntry { flags: MF_STRING | MF_GRAYED, id: 0, label: Some("Preventing Sleep") });
    res.push(MenuEntry { flags: MF_SEPARATOR, id: 0, label: None });
    let lid_flags = MF_STRING | if lid_off {
        MF_CHECKED
    } else {
        0
    };
    res.push(
        MenuEntry { flags: lid_flags, id: ID_TOGGLE_LID, label: Some("Prevent Lid-Close Sleep") },
    );
    res.push(MenuEntry { flags: MF_SEPARATOR, id: 0, label: None });
    res.push(MenuEntry { flags: MF_STRING, id: ID_QUIT, label: Some("Quit") });
    res
}


// ---------------------------------------------------------------------------
// Laws
// ---------------------------------------------------------------------------

/// Turning lid-close sleep off and on again with the tray menu writes back
/// exactly the lid-close actions that were in force: the first toggle reads
/// them, the read stores them and sets 0, the second toggle sets them again.
pub proof fn lemma_lid_toggle_round_trip(s: TrayState, ac: u32, dc: u32, wp: usize, lp: isize)
    requires
        !s.lid_off,
        wp % 0x10000 == ID_TOGGLE_LID,
    ensures
        tray_step(s, WM_COMMAND, wp, lp) == (s, TrayAction::ReadLidAction),
        lid_read_step(ac, dc).1 == TrayAction::SetLidAction(0, 0),
        tray_step(lid_read_step(ac, dc).0, WM_COMMAND, wp, lp) == (
            TrayState { lid_off: false, orig_ac: ac, orig_dc: dc },
            TrayAction::SetLidAction(ac, dc),
        ),
{
}

/// Quitting, by the menu or by the window's end, puts back the lid-close
/// actions that turning lid-close sleep off replaced, and touches them not
/// at all where the tray icon has not turned it off.
pub proof fn lemma_quit_restores(s: TrayState, ac: u32, dc: u32, wp: usize, lp: isize)
    requires
        wp % 0x10000 == ID_QUIT,
    ensures
        tray_step(lid_read_step(ac, dc).0, WM_COMMAND, wp, lp).1 == TrayAction::Quit(
            Some((ac, dc)),
        ),
        tray_step(lid_read_step(ac, dc).0, WM_DESTROY, wp, lp).1 == TrayAction::Quit(
            Some((ac, dc)),
        ),
        !s.lid_off ==> tray_step(s, WM_COMMAND, wp, lp).1 == TrayAction::Quit(None),
        !s.lid_off ==> tray_step(s, WM_DESTROY, wp, lp).1 == TrayAction::Quit(None),
{
}

/// No window message changes the remembered lid-close actions, and the only
/// one that changes the state at all is the lid toggle while lid-close sleep
/// is off, which turns it back on.
pub proof fn lemma_messages_keep_state(s: TrayState, msg: u32, wp: usize, lp: isize)
    ensures
        tray_step(s, msg, wp, lp).0.orig_ac == s.orig_ac,
        tray_step(s, msg, wp, lp).0.orig_dc == s.orig_dc,
        tray_step(s, msg, wp, lp).0 == if msg == WM_COMMAND && wp % 0x10000 == ID_TOGGLE_LID
            && s.lid_off {
            TrayState { lid_off: false, ..s }
        } else {
            s
        },
        msg != WM_APP && msg != WM_COMMAND && msg != WM_DESTROY ==> tray_step(s, msg, wp, lp).1
            == TrayAction::PassOn,
{
}

/// Only the low 16 bits of a command's `wparam` choose the command.
pub proof fn lemma_command_low_word(s: TrayState, wp: usize, lp: isize)
    ensures
        tray_step(s, WM_COMMAND, wp, lp) == tray_step(s, WM_COMMAND, wp % 0x10000, lp),
{
}

/// Output in which no line names a lid-close setting reads as (1, 1).
pub proof fn lemma_unlabelled_query(out: Seq<char>)
    requires
        forall|i: int|
            0 <= i < text::lines(out).len() ==> !text::contains(#[trigger] text::lines(out)[i], ac_label())
                && !text::contains(text::lines(out)[i], dc_label()),
    ensures
        lid_action_of(out) == (1u32, 1u32),
{
    lemma_unlabelled_lines(text::lines(out));
}

proof fn lemma_unlabelled_lines(ls: Seq<Seq<char>>)
    requires
        forall|i: int|
            0 <= i < ls.len() ==> !text::contains(#[trigger] ls[i], ac_label()) && !text::contains(
                ls[i],
                dc_label(),
            ),
    ensures
        lid_action_of_lines(ls) == (1u32, 1u32),
    decreases ls.len(),
{
    if ls.len() > 0 {
        assert(ls.last() == ls[ls.len() - 1]);
        assert forall|i: int| 0 <= i < ls.drop_last().len() implies !text::contains(
            #[trigger] ls.drop_last()[i],
            ac_label(),
        ) && !text::contains(ls.drop_last()[i], dc_label()) by {
            assert(ls.drop_last()[i] == ls[i]);
        }
        lemma_unlabelled_lines(ls.drop_last());
    }
}

/// A later line that names a setting overrides an earlier one: appending
/// such a line sets that value, whatever came before.
pub proof fn lemma_last_label_wins(ls: Seq<Seq<char>>, line: Seq<char>)
    ensures
        text::contains(line, ac_label()) ==> lid_action_of_lines(ls.push(line)).0 == setting_value(
            line,
        ),
        text::contains(line, dc_label()) ==> lid_action_of_lines(ls.push(line)).1 == setting_value(
            line,
        ),
        !text::contains(line, ac_label()) ==> lid_action_of_lines(ls.push(line)).0
            == lid_action_of_lines(ls).0,
        !text::contains(line, dc_label()) ==> lid_action_of_lines(ls.push(line)).1
            == lid_action_of_lines(ls).1,
{
    assert(ls.push(line).drop_last() == ls);
}

/// The zero-terminated UTF-16 text ends in its only added zero: it is one
/// unit longer than the encoding, which it starts with.
pub proof fn lemma_w_terminated(s: Seq<char>)
    ensures
        text::utf16(s).push(0u16).len() == text::utf16(s).len() + 1,
        text::utf16(s).push(0u16).last() == 0u16,
        text::utf16(s).push(0u16).drop_last() == text::utf16(s),
{
    assert(text::utf16(s).push(0u16).drop_last() =~= text::utf16(s));
}

/// A tray-icon notification shows the menu exactly on the release of the
/// right or the left button (0x0205, 0x0202), read from the low 32 bits of
/// `lparam`; every other notification (a press 0x0201/0x0204, a double
/// click 0x0203, a move 0x0200, ...) does nothing, and none changes the
/// state.
pub proof fn lemma_tray_clicks(s: TrayState, wp: usize, lp: isize)
    ensures
        tray_step(s, 0x8000, wp, lp) == (s, if lp as u32 == 0x0205u32 || lp as u32 == 0x0202u32 {
            TrayAction::ShowMenu
        } else {
            TrayAction::Nothing
        }),
        lp as u32 == 0x0204u32 ==> tray_step(s, 0x8000, wp, lp).1 == TrayAction::Nothing,
        lp as u32 == 0x0203u32 ==> tray_step(s, 0x8000, wp, lp).1 == TrayAction::Nothing,
        lp as u32 == 0x0201u32 ==> tray_step(s, 0x8000, wp, lp).1 == TrayAction::Nothing,
{
}

/// The menu commands, by number: command 1 turns lid-close sleep back on
/// with the remembered actions when it is off and asks to read the actions
/// when it is on; command 2, like the window's end (0x0002), quits with the
/// remembered actions to put back exactly when lid-close sleep is off; any
/// other command does nothing.
pub proof fn lemma_tray_commands(s: TrayState, wp: usize, lp: isize)
    ensures
        wp % 0x10000 == 1 && s.lid_off ==> tray_step(s, 0x0111, wp, lp) == (
            TrayState { lid_off: false, orig_ac: s.orig_ac, orig_dc: s.orig_dc },
            TrayAction::SetLidAction(s.orig_ac, s.orig_dc),
        ),
        wp % 0x10000 == 1 && !s.lid_off ==> tray_step(s, 0x0111, wp, lp) == (
            s,
            TrayAction::ReadLidAction,
        ),
        wp % 0x10000 == 2 ==> tray_step(s, 0x0111, wp, lp) == (s, TrayAction::Quit(
            if s.lid_off {
                Some((s.orig_ac, s.orig_dc))
            } else {
                None
            },
        )),
        tray_step(s, 0x0002, wp, lp) == (s, TrayAction::Quit(
            if s.lid_off {
                Some((s.orig_ac, s.orig_dc))
            } else {
                None
            },
        )),
        wp % 0x10000 != 1 && wp % 0x10000 != 2 ==> tray_step(s, 0x0111, wp, lp) == (
            s,
            TrayAction::Nothing,
        ),
        tray_step(s, 0x0001, wp, lp) == (s, TrayAction::PassOn),
{
}

/// Reading the lid-close actions before turning lid-close sleep off stores
/// exactly what was read, marks lid-close sleep off and sets both actions
/// to 0 (do nothing).
pub proof fn lemma_lid_read(ac: u32, dc: u32)
    ensures
        lid_read_step(ac, dc).0.orig_ac == ac,
        lid_read_step(ac, dc).0.orig_dc == dc,
        lid_read_step(ac, dc).0.lid_off,
        lid_read_step(ac, dc).1 == TrayAction::SetLidAction(0, 0),
{
}

/// The Win32 numbers the tray relies on, and the flags it builds from them.
pub proof fn lemma_win32_numbers()
    ensures
        WM_APP == 0x8000,
        WM_COMMAND == 0x0111,
        WM_DESTROY == 0x0002,
        WM_RBUTTONUP == 0x0205,
        WM_LBUTTONUP == 0x0202,
        MF_STRING == 0,
        MF_SEPARATOR == 0x800,
        MF_CHECKED == 0x8,
        MF_GRAYED == 0x1,
        ID_TOGGLE_LID == 1,
        ID_QUIT == 2,
        ES_CONTINUOUS == 0x80000000,
        ES_SYSTEM_REQUIRED == 1,
        ES_DISPLAY_REQUIRED == 2,
        ES_CONTINUOUS | ES_SYSTEM_REQUIRED | ES_DISPLAY_REQUIRED == 0x80000003,
        MF_STRING | MF_GRAYED == 1,
        lid_entry_flags(true) == 0x8,
        lid_entry_flags(false) == 0,
        TIP@ == "Awake - preventing sleep"@,
{
    assert(0x80000000u32 | 1u32 | 2u32 == 0x80000003u32) by (bit_vector);
    assert(0u32 | 1u32 == 1u32) by (bit_vector);
    assert(0u32 | 8u32 == 8u32) by (bit_vector);
    assert(0u32 | 0u32 == 0u32) by (bit_vector);
}

/// The labels the query output is searched for, and the parameters that
/// write the lid-close actions, word for word around the two numbers.
pub proof fn lemma_powercfg_texts(ac: u32, dc: u32)
    ensures
        ac_label() == "Current AC Power Setting Index"@,
        dc_label() == "Current DC Power Setting Index"@,
        lid_action_params(ac, dc) == "/c powercfg /SETACVALUEINDEX SCHEME_CURRENT SUB_BUTTONS LIDACTION "@
            + text::decimal(ac as nat)
            + " & powercfg /SETDCVALUEINDEX SCHEME_CURRENT SUB_BUTTONS LIDACTION "@
            + text::decimal(dc as nat) + " & powercfg /SETACTIVE SCHEME_CURRENT"@,
{
}

/// A line that names a setting gives the hexadecimal number after its last
/// `0x` where that reads as a `u32`, and 1 (sleep) where it does not; a
/// query output of a single such line sets that value and leaves the other
/// at 1.
pub proof fn lemma_setting_value(line: Seq<char>)
    ensures
        text::parse_hex_u32(text::trim(text::after_last_0x(line))) matches Some(v)
            ==> setting_value(line) == v,
        text::parse_hex_u32(text::trim(text::after_last_0x(line))) is None ==> setting_value(line)
            == 1,
        text::contains(line, ac_label()) && !text::contains(line, dc_label())
            ==> lid_action_of_lines(seq![line]) == (setting_value(line), 1u32),
        text::contains(line, dc_label()) && !text::contains(line, ac_label())
            ==> lid_action_of_lines(seq![line]) == (1u32, setting_value(line)),
{
    let ls = seq![line];
    assert(ls.drop_last() =~= Seq::<Seq<char>>::empty());
    assert(ls.last() == line);
    assert(lid_action_of_lines(ls.drop_last()) == (1u32, 1u32));
}

} // verus!
