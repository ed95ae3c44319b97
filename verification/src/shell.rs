//! Tray-icon subsystem: the window-procedure state machine, the tray state
//! with its notification record, and the run-loop's setup decisions.
//!
//! The subsystem owns one native window on one dedicated thread. The pump
//! that fetches and dispatches messages, and every platform call (creating
//! the window, registering the icon, showing the menu), happen outside this
//! crate; what stands here is every decision those calls carry out: which
//! action each delivered message takes, how the notification record and the
//! context menu are populated, and how the add-then-modify registration
//! fallback is resolved.

use vstd::prelude::*;

use crate::DialogResult;
use crate::to_utf16;
use crate::utf16_extend;
use crate::utf16_z;
use crate::lemma_utf16_encode_concat;

verus! {

/// Window message: first notification a window receives while being created.
pub const WM_NCCREATE: u32 = 0x0081;

/// Window message: the window is being torn down.
pub const WM_DESTROY: u32 = 0x0002;

/// Window message: the private quit signal observed by the pump.
pub const WM_QUIT: u32 = 0x0012;

/// Window message: a menu command was selected.
pub const WM_COMMAND: u32 = 0x0111;

/// First application-private message code; used as the tray icon's
/// callback message.
pub const WM_APP: u32 = 0x8000;

/// Mouse sub-code carried by the tray callback: left button released.
pub const WM_LBUTTONUP: u32 = 0x0202;

/// Mouse sub-code carried by the tray callback: right button released.
pub const WM_RBUTTONUP: u32 = 0x0205;

/// Command identifier of the single "Quit" context-menu entry.
pub const QUIT_COMMAND_ID: usize = 1000;

/// Record flag: the callback message field is valid.
pub const NIF_MESSAGE: u32 = 0x01;

/// Record flag: the icon handle field is valid.
pub const NIF_ICON: u32 = 0x02;

/// Record flag: the tooltip field is valid.
pub const NIF_TIP: u32 = 0x04;

/// Record flag: the identity GUID field is valid.
pub const NIF_GUID: u32 = 0x20;

/// Version tag requesting the modern tray callback protocol.
pub const NOTIFYICON_VERSION_4: u32 = 4;

/// Fixed length of the tooltip field, in code units, terminator included.
pub const TOOLTIP_LEN: usize = 128;

/// Identity of the tray icon in the status area, fixed for the process
/// lifetime so that a restart finds any registration a prior unclean exit
/// left behind.
#[derive(Clone, Copy, Debug, PartialEq, Eq)]
pub struct Guid {
    pub data1: u32,
    pub data2: u16,
    pub data3: u16,
    pub data4: (u8, u8, u8, u8, u8, u8, u8, u8),
}

/// The fixed identity GUID of the tray icon,
/// 5b8729e5-191d-48e1-942f-d35d61962894.
pub open spec fn spec_tray_guid() -> Guid {
    Guid {
        data1: 0x5b8729e5,
        data2: 0x191d,
        data3: 0x48e1,
        data4: (0x94, 0x2f, 0xd3, 0x5d, 0x61, 0x96, 0x28, 0x94),
    }
}

/// Returns the fixed identity GUID under which the icon is registered.
pub fn tray_guid() -> (g: Guid)
    ensures
        g == spec_tray_guid(),
{
    Guid {
        data1: 0x5b8729e5,
        data2: 0x191d,
        data3: 0x48e1,
        data4: (0x94, 0x2f, 0xd3, 0x5d, 0x61, 0x96, 0x28, 0x94),
    }
}

/// The fixed-length tooltip field: the null-terminated UTF-16 display name,
/// truncated or zero-padded to exactly `TOOLTIP_LEN` code units.
pub open spec fn spec_tooltip(name: Seq<char>) -> Seq<u16> {
    let u = utf16_z(name);
    if u.len() >= TOOLTIP_LEN {
        u.subrange(0, TOOLTIP_LEN as int)
    } else {
        u + Seq::new((TOOLTIP_LEN - u.len()) as nat, |i: int| 0u16)
    }
}

/// Renders the display name as the record's fixed-length tooltip field.
pub fn tooltip_from_name(name: &str) -> (t: Vec<u16>)
    ensures
        t@ == spec_tooltip(name@),
        t@.len() == TOOLTIP_LEN,
{
    let mut t = to_utf16(name);
    let ghost base = t@;
    if t.len() >= TOOLTIP_LEN {
        t.truncate(TOOLTIP_LEN);
        proof {
            assert(t@ =~= spec_tooltip(name@));
        }
    } else {
        while t.len() < TOOLTIP_LEN
            invariant
                base == utf16_z(name@),
                base.len() <= t@.len() <= TOOLTIP_LEN,
                forall|j: int| 0 <= j < base.len() ==> t@[j] == base[j],
                forall|j: int| base.len() <= j < t@.len() ==> t@[j] == 0u16,
            decreases TOOLTIP_LEN - t@.len(),
        {
            t.push(0);
        }
        proof {
            assert(t@ =~= spec_tooltip(name@));
        }
    }
    t
}

/// Title of the quit-confirmation dialog: `Quit {name}`, null-terminated
/// UTF-16.
pub open spec fn spec_confirm_title(name: Seq<char>) -> Seq<u16> {
    utf16_z("Quit "@ + name)
}

/// Body of the quit-confirmation dialog: `Would you like to quit {name}?`,
/// null-terminated UTF-16.
pub open spec fn spec_confirm_body(name: Seq<char>) -> Seq<u16> {
    utf16_z("Would you like to quit "@ + name + "?"@)
}

/// Builds the title of the quit confirmation phrased from the display name.
pub fn confirm_title(name: &str) -> (t: Vec<u16>)
    ensures
        t@ == spec_confirm_title(name@),
{
    let mut out: Vec<u16> = Vec::new();
    utf16_extend(&mut out, "Quit ");
    utf16_extend(&mut out, name);
    out.push(0);
    proof {
        lemma_utf16_encode_concat("Quit "@, name@);
        assert(out@ =~= spec_confirm_title(name@));
    }
    out
}

/// Builds the body of the quit confirmation phrased from the display name.
pub fn confirm_body(name: &str) -> (t: Vec<u16>)
    ensures
        t@ == spec_confirm_body(name@),
{
    let mut out: Vec<u16> = Vec::new();
    utf16_extend(&mut out, "Would you like to quit ");
    utf16_extend(&mut out, name);
    utf16_extend(&mut out, "?");
    out.push(0);
    proof {
        lemma_utf16_encode_concat("Would you like to quit "@, name@);
        lemma_utf16_encode_concat("Would you like to quit "@ + name@, "?"@);
        assert(out@ =~= spec_confirm_body(name@));
    }
    out
}

/// One context-menu entry: a command identifier and its label as the
/// platform expects it.
pub struct MenuEntry {
    pub id: usize,
    pub label: Vec<u16>,
}

/// Builds the tray's context menu: a single "Quit" entry under the fixed
/// command identifier.
pub fn build_quit_menu() -> (m: Vec<MenuEntry>)
    ensures
        m@.len() == 1,
        m@[0].id == QUIT_COMMAND_ID,
        m@[0].label@ == utf16_z("Quit"@),
{
    let mut m: Vec<MenuEntry> = Vec::new();
    m.push(MenuEntry { id: QUIT_COMMAND_ID, label: to_utf16("Quit") });
    m
}

/// The notification record registered with the status area: everything the
/// shell associates with the icon's slot. `hwnd` and `hicon` carry the
/// platform's window and icon handles as opaque numbers; the record must
/// stay byte-stable between registration and every later update or removal.
pub struct NotifyIconData {
    pub hwnd: usize,
    pub hicon: usize,
    pub flags: u32,
    pub callback_message: u32,
    pub tooltip: Vec<u16>,
    pub guid: Guid,
    pub version: u32,
}

impl NotifyIconData {
    /// The fully populated shape the run-loop registers: all four
    /// capability flags set, the private callback message, the fixed
    /// identity GUID, the fixed-length tooltip for this display name, and
    /// the modern protocol version.
    pub open spec fn wf_for(self, name: Seq<char>) -> bool {
        &&& self.flags == NIF_MESSAGE + NIF_ICON + NIF_TIP + NIF_GUID
        &&& self.callback_message == WM_APP
        &&& self.tooltip@ == spec_tooltip(name)
        &&& self.guid == spec_tray_guid()
        &&& self.version == NOTIFYICON_VERSION_4
    }
}

/// Populates the notification record for the given display name, window
/// handle and icon handle.
pub fn build_notification_record(name: &str, hwnd: usize, hicon: usize) -> (nid: NotifyIconData)
    ensures
        nid.wf_for(name@),
        nid.hwnd == hwnd,
        nid.hicon == hicon,
{
    NotifyIconData {
        hwnd,
        hicon,
        flags: NIF_MESSAGE + NIF_ICON + NIF_TIP + NIF_GUID,
        callback_message: WM_APP,
        tooltip: tooltip_from_name(name),
        guid: tray_guid(),
        version: NOTIFYICON_VERSION_4,
    }
}

/// The per-window tray state: created before the native window exists,
/// handed to the window at creation, and bound to it for the window's
/// whole life.
pub struct TrayData {
    pub app_name: String,
    pub nid: NotifyIconData,
    pub menu: Vec<MenuEntry>,
}

impl TrayData {
    /// The shape the run-loop establishes at startup and every later
    /// callback relies on: the notification record is fully populated for
    /// this display name, and the menu is the single Quit entry.
    pub open spec fn wf(self) -> bool {
        &&& self.nid.wf_for(self.app_name@)
        &&& self.menu@.len() == 1
        &&& self.menu@[0].id == QUIT_COMMAND_ID
        &&& self.menu@[0].label@ == utf16_z("Quit"@)
    }

    /// Assembles the tray state for one display name and handle pair.
    pub fn new(app_name: &str, hwnd: usize, hicon: usize) -> (d: TrayData)
        ensures
            d.wf(),
            d.app_name@ == app_name@,
            d.nid.hwnd == hwnd,
            d.nid.hicon == hicon,
    {
        TrayData {
            app_name: app_name.to_owned(),
            nid: build_notification_record(app_name, hwnd, hicon),
            menu: build_quit_menu(),
        }
    }
}

/// What the window procedure decides to do for one delivered message.
/// Exactly one action is produced per message, and the platform's default
/// handling runs afterwards in every case, as it does for every message.
#[derive(Clone, Copy, Debug, PartialEq, Eq, Structural)]
pub enum TrayAction {
    /// Bind the creation-time payload as the window's permanent state.
    BindState,
    /// Post the private quit message to the same window.
    PostQuit,
    /// Remove the status-area icon (best effort) and exit the process:
    /// the terminal state.
    RemoveIconAndExit,
    /// Present the Yes/No quit confirmation phrased from the display name.
    ConfirmQuit,
    /// Show the context menu at the cursor, foregrounding the window first.
    ShowMenu,
    /// Nothing tray-specific: the default handling alone.
    Delegate,
}

/// The transition table of the window procedure. `w_param` carries the
/// command identifier of a menu selection; `l_param` carries the mouse
/// sub-code of a tray callback.
pub open spec fn spec_window_proc(msg: u32, w_param: usize, l_param: u32) -> TrayAction {
    if msg == WM_NCCREATE {
        TrayAction::BindState
    } else if msg == WM_DESTROY {
        TrayAction::PostQuit
    } else if msg == WM_QUIT {
        TrayAction::RemoveIconAndExit
    } else if msg == WM_APP {
        if l_param == WM_LBUTTONUP {
            TrayAction::ConfirmQuit
        } else if l_param == WM_RBUTTONUP {
            TrayAction::ShowMenu
        } else {
            TrayAction::Delegate
        }
    } else if msg == WM_COMMAND {
        if w_param == QUIT_COMMAND_ID {
            TrayAction::PostQuit
        } else {
            TrayAction::Delegate
        }
    } else {
        TrayAction::Delegate
    }
}

/// The window-procedure state machine: decides the action for one message
/// delivered to the tray window.
pub fn window_proc(msg: u32, w_param: usize, l_param: u32) -> (action: TrayAction)
    ensures
        action == spec_window_proc(msg, w_param, l_param),
{
    if msg == WM_NCCREATE {
        TrayAction::BindState
    } else if msg == WM_DESTROY {
        TrayAction::PostQuit
    } else if msg == WM_QUIT {
        TrayAction::RemoveIconAndExit
    } else if msg == WM_APP {
        if l_param == WM_LBUTTONUP {
            TrayAction::ConfirmQuit
        } else if l_param == WM_RBUTTONUP {
            TrayAction::ShowMenu
        } else {
            TrayAction::Delegate
        }
    } else if msg == WM_COMMAND {
        if w_param == QUIT_COMMAND_ID {
            TrayAction::PostQuit
        } else {
            TrayAction::Delegate
        }
    } else {
        TrayAction::Delegate
    }
}

/// The transition taken when the quit confirmation is dismissed: a Yes
/// answer posts the private quit message; any other answer leaves the tray
/// running.
pub open spec fn spec_confirm_transition(answer: DialogResult) -> TrayAction {
    if answer is Yes {
        TrayAction::PostQuit
    } else {
        TrayAction::Delegate
    }
}

/// Decides the follow-up to the quit-confirmation dialog's answer.
pub fn on_confirm_answer(answer: DialogResult) -> (action: TrayAction)
    ensures
        action == spec_confirm_transition(answer),
{
    match answer {
        DialogResult::Yes => TrayAction::PostQuit,
        _ => TrayAction::Delegate,
    }
}

/// How the status-area registration of the icon ended: freshly added,
/// recovered by updating a registration left behind under the same
/// identity GUID, or failed outright.
#[derive(Clone, Copy, Debug, PartialEq, Eq, Structural)]
pub enum RegisterOutcome {
    Added,
    Modified,
    Failed,
}

/// The add-then-modify fallback of icon registration: `modify_ok` matters
/// only once the add has failed.
pub open spec fn spec_registration_outcome(add_ok: bool, modify_ok: bool) -> RegisterOutcome {
    if add_ok {
        RegisterOutcome::Added
    } else if modify_ok {
        RegisterOutcome::Modified
    } else {
        RegisterOutcome::Failed
    }
}

/// Decides how icon registration ended from the results of the add call
/// and, when the add failed, the modify fallback.
pub fn icon_registration_outcome(add_ok: bool, modify_ok: bool) -> (r: RegisterOutcome)
    ensures
        r == spec_registration_outcome(add_ok, modify_ok),
{
    if add_ok {
        RegisterOutcome::Added
    } else if modify_ok {
        RegisterOutcome::Modified
    } else {
        RegisterOutcome::Failed
    }
}

/// Law: icon registration is idempotent under restart. When a prior
/// registration under the same identity GUID is still present, the add
/// call fails but the modify fallback succeeds, so registration as a whole
/// succeeds via the fallback path rather than erring; it fails only when
/// both calls fail.
pub proof fn lemma_registration_idempotent(add_ok: bool, modify_ok: bool)
    ensures
        modify_ok ==> spec_registration_outcome(add_ok, modify_ok) != RegisterOutcome::Failed,
        spec_registration_outcome(add_ok, modify_ok) == RegisterOutcome::Failed <==> (!add_ok
            && !modify_ok),
{
}

/// Law: a left-click release presents the confirmation; answering No takes
/// the default handling — the process keeps running and nothing removes
/// the registered icon — while answering Yes posts the quit message, whose
/// handling removes the icon and exits.
pub proof fn lemma_confirm_answer_paths(w_param: usize, l_param: u32)
    ensures
        spec_window_proc(WM_APP, w_param, WM_LBUTTONUP) == TrayAction::ConfirmQuit,
        spec_confirm_transition(DialogResult::No) == TrayAction::Delegate,
        spec_confirm_transition(DialogResult::No) != TrayAction::PostQuit,
        spec_confirm_transition(DialogResult::No) != TrayAction::RemoveIconAndExit,
        spec_confirm_transition(DialogResult::Yes) == TrayAction::PostQuit,
        spec_window_proc(WM_QUIT, w_param, l_param) == TrayAction::RemoveIconAndExit,
{
}

/// Law: selecting the Quit context-menu entry takes the same terminal
/// transition as confirming the dialog with Yes — both post the quit
/// message — and it does so without presenting a dialog.
pub proof fn lemma_menu_quit_same_transition(l_param: u32)
    ensures
        spec_window_proc(WM_COMMAND, QUIT_COMMAND_ID, l_param) == spec_confirm_transition(
            DialogResult::Yes,
        ),
        spec_window_proc(WM_COMMAND, QUIT_COMMAND_ID, l_param) != TrayAction::ConfirmQuit,
{
}

} // verus!
