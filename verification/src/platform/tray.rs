//! The icon in the notification area and its menu.

use vstd::prelude::*;

use crate::text::{cat, to_chars, views};

verus! {

/// What the menu offers for the queue.
#[derive(Clone, Copy, Debug, PartialEq, Eq, Structural)]
pub enum TrayControl {
    Disabled,
    Pause,
    Resume,
}

/// What the user chose from the menu.
#[derive(Clone, Copy, Debug, PartialEq, Eq, Structural)]
pub enum TrayAction {
    Pause,
    Resume,
    OpenResult,
}

/// Why the icon could not be shown.
#[derive(Clone, Debug, PartialEq, Eq)]
pub enum TrayError {
    Native(String),
}

impl TrayError {
    /// The text of the error.
    pub fn message(&self) -> (r: String)
        ensures
            r@ == "failed to initialize the Windows tray icon: "@ + self->Native_0@,
    {
        match self {
            TrayError::Native(text) => cat(
                "failed to initialize the Windows tray icon: ",
                text.as_str(),
            ),
        }
    }
}

/// What the icon shows and what the user asked for.
#[derive(Debug)]
pub struct TrayState {
    pub status: String,
    pub control: TrayControl,
    pub can_open_result: bool,
    pub exit_requested: bool,
    pub action: Option<TrayAction>,
}

/// The content of a [`TrayState`].
pub struct TrayView {
    pub status: Seq<char>,
    pub control: TrayControl,
    pub can_open_result: bool,
    pub exit_requested: bool,
    pub action: Option<TrayAction>,
}

impl View for TrayState {
    type V = TrayView;

    open spec fn view(&self) -> TrayView {
        TrayView {
            status: self.status@,
            control: self.control,
            can_open_result: self.can_open_result,
            exit_requested: self.exit_requested,
            action: self.action,
        }
    }
}

impl Default for TrayState {
    fn default() -> (r: TrayState)
        ensures
            r@ == (TrayView {
                status: "准备就绪"@,
                control: TrayControl::Disabled,
                can_open_result: false,
                exit_requested: false,
                action: None,
            }),
    {
        TrayState {
            status: "准备就绪".to_owned(),
            control: TrayControl::Disabled,
            can_open_result: false,
            exit_requested: false,
            action: None,
        }
    }
}

/// Whether the user asked to exit.
pub fn tray_exit_requested(state: &TrayState) -> (r: bool)
    ensures
        r == state@.exit_requested,
{
    state.exit_requested
}

/// The user thought better of it.
pub fn cancel_tray_exit(state: &mut TrayState)
    ensures
        final(state)@ == (TrayView { exit_requested: false, ..old(state)@ }),
{
    state.exit_requested = false;
}

/// Sets what the icon shows; gives the text of the icon.
pub fn set_tray_state(
    state: &mut TrayState,
    status: &str,
    control: TrayControl,
    can_open_result: bool,
) -> (r: String)
    ensures
        final(state)@ == (TrayView { status: status@, control, can_open_result, ..old(state)@ }),
        r@ == "Longwatch · "@ + status@,
{
    state.status = status.to_owned();
    state.control = control;
    state.can_open_result = can_open_result;
    cat("Longwatch · ", status)
}

/// Takes what the user chose; it is given once.
pub fn take_tray_action(state: &mut TrayState) -> (r: Option<TrayAction>)
    ensures
        r == old(state)@.action,
        final(state)@ == (TrayView { action: None, ..old(state)@ }),
{
    let action = state.action;
    state.action = None;
    action
}

/// The icon is gone: nothing is asked for any more.
pub fn reset_tray(state: &mut TrayState)
    ensures
        final(state)@ == (TrayView { exit_requested: false, action: None, ..old(state)@ }),
{
    state.exit_requested = false;
    state.action = None;
}

/// Whether a window can be shown or hidden.
pub fn show_window_from_tray(main_window: isize) -> (r: bool)
    ensures
        r == (main_window != 0),
{
    main_window != 0
}

/// A line of the menu.
#[derive(Clone, Copy, Debug, PartialEq, Eq, Structural)]
pub enum MenuCommand {
    Status,
    Separator,
    Show,
    Control,
    OpenResult,
    Exit,
}

/// A line of the menu with its text, whether it can be chosen, and what it
/// offers to do with the queue.
#[derive(Debug)]
pub struct MenuItem {
    pub command: MenuCommand,
    pub text: String,
    pub enabled: bool,
    pub action: Option<TrayAction>,
}

/// The content of a [`MenuItem`].
pub struct MenuItemView {
    pub command: MenuCommand,
    pub text: Seq<char>,
    pub enabled: bool,
    pub action: Option<TrayAction>,
}

impl View for MenuItem {
    type V = MenuItemView;

    open spec fn view(&self) -> MenuItemView {
        MenuItemView {
            command: self.command,
            text: self.text@,
            enabled: self.enabled,
            action: self.action,
        }
    }
}

/// The text that the menu offers for the queue.
pub open spec fn control_text(control: TrayControl) -> Seq<char> {
    match control {
        TrayControl::Disabled => "暂无可控制任务"@,
        TrayControl::Pause => "暂停排队"@,
        TrayControl::Resume => "继续排队"@,
    }
}

/// What the menu offers to do with the queue.
pub open spec fn control_action(control: TrayControl) -> Option<TrayAction> {
    match control {
        TrayControl::Disabled => None,
        TrayControl::Pause => Some(TrayAction::Pause),
        TrayControl::Resume => Some(TrayAction::Resume),
    }
}

/// A line that offers nothing to do with the queue.
pub open spec fn plain_line(command: MenuCommand, text: Seq<char>, enabled: bool) -> MenuItemView {
    MenuItemView { command, text, enabled, action: None }
}

/// The menu.
pub open spec fn menu_of(state: TrayView) -> Seq<MenuItemView> {
    seq![
        plain_line(MenuCommand::Status, "状态："@ + state.status, false),
        plain_line(MenuCommand::Separator, ""@, false),
        plain_line(MenuCommand::Show, "打开 Longwatch"@, true),
        MenuItemView {
            command: MenuCommand::Control,
            text: control_text(state.control),
            enabled: state.control != TrayControl::Disabled,
            action: control_action(state.control),
        },
        MenuItemView {
            command: MenuCommand::OpenResult,
            text: "打开 Codex 结果"@,
            enabled: state.can_open_result,
            action: if state.can_open_result {
                Some(TrayAction::OpenResult)
            } else {
                None
            },
        },
        plain_line(MenuCommand::Separator, ""@, false),
        plain_line(MenuCommand::Exit, "退出"@, true),
    ]
}

fn line(command: MenuCommand, text: &str, enabled: bool, action: Option<TrayAction>) -> (r: MenuItem)
    ensures
        r@ == (MenuItemView { command, text: text@, enabled, action }),
{
    MenuItem { command, text: text.to_owned(), enabled, action }
}

/// The lines of the menu, from top to bottom.
pub fn tray_menu(state: &TrayState) -> (r: Vec<MenuItem>)
    ensures
        views(r@) == menu_of(state@),
{
    let (control, action) = match state.control {
        TrayControl::Disabled => ("暂无可控制任务", None),
        TrayControl::Pause => ("暂停排队", Some(TrayAction::Pause)),
        TrayControl::Resume => ("继续排队", Some(TrayAction::Resume)),
    };
    let opening = if state.can_open_result {
        Some(TrayAction::OpenResult)
    } else {
        None
    };
    let status = cat("状态：", state.status.as_str());
    let mut menu: Vec<MenuItem> = Vec::new();
    menu.push(line(MenuCommand::Status, status.as_str(), false, None));
    menu.push(line(MenuCommand::Separator, "", false, None));
    menu.push(line(MenuCommand::Show, "打开 Longwatch", true, None));
    menu.push(line(MenuCommand::Control, control, action.is_some(), action));
    menu.push(line(MenuCommand::OpenResult, "打开 Codex 结果", opening.is_some(), opening));
    menu.push(line(MenuCommand::Separator, "", false, None));
    menu.push(line(MenuCommand::Exit, "退出", true, None));
    assert(views(menu@) =~= menu_of(state@));
    menu
}

/// What the surrounding program does after a choice.
#[derive(Clone, Copy, Debug, PartialEq, Eq, Structural)]
pub enum MenuEffect {
    Nothing,
    ShowWindow,
    CloseWindow,
}

/// The state after a choice from the menu: what the line offered is asked for,
/// whatever the state has become while the menu was open.
pub open spec fn chosen(state: TrayView, line: MenuItemView) -> TrayView {
    TrayView {
        action: if line.action is Some {
            line.action
        } else {
            state.action
        },
        exit_requested: state.exit_requested || line.command == MenuCommand::Exit,
        ..state
    }
}

/// The user chose a line of the menu.
pub fn choose_from_menu(state: &mut TrayState, line: &MenuItem) -> (r: MenuEffect)
    ensures
        final(state)@ == chosen(old(state)@, line@),
        r == (match line@.command {
            MenuCommand::Show => MenuEffect::ShowWindow,
            MenuCommand::Exit => MenuEffect::CloseWindow,
            _ => MenuEffect::Nothing,
        }),
{
    if line.action.is_some() {
        state.action = line.action;
    }
    match line.command {
        MenuCommand::Show => MenuEffect::ShowWindow,
        MenuCommand::Exit => {
            state.exit_requested = true;
            MenuEffect::CloseWindow
        },
        _ => MenuEffect::Nothing,
    }
}

/// A line of the menu that cannot be chosen changes nothing, even if it is.
pub proof fn disabled_lines_do_nothing(shown: TrayView, state: TrayView, index: int)
    requires
        0 <= index < menu_of(shown).len(),
        !menu_of(shown)[index].enabled,
    ensures
        chosen(state, menu_of(shown)[index]) == state,
{
}

/// A choice asks for what the menu showed, whatever the state has become since.
pub proof fn a_choice_is_about_what_was_shown(shown: TrayView, state: TrayView)
    ensures
        shown.control == TrayControl::Pause ==> chosen(state, menu_of(shown)[3]).action == Some(
            TrayAction::Pause,
        ),
        shown.control == TrayControl::Resume ==> chosen(state, menu_of(shown)[3]).action == Some(
            TrayAction::Resume,
        ),
        shown.can_open_result ==> chosen(state, menu_of(shown)[4]).action == Some(
            TrayAction::OpenResult,
        ),
{
}

/// What a message to the window of the icon asks for.
#[derive(Clone, Copy, Debug, PartialEq, Eq, Structural)]
pub enum TrayReaction {
    /// Show the main window.
    Restore,
    /// Open the menu.
    OpenMenu,
    /// Nothing, but the message is dealt with.
    Ignore,
    /// End the loop of messages.
    Quit,
    /// Leave the message to the system.
    Default,
}

/// The message with which the icon reports the mouse.
pub const TRAY_CALLBACK_MESSAGE: u32 = 0x8029;

/// The message with which a second instance asks for the window.
pub const TRAY_SHOW_MESSAGE: u32 = 0x802a;

/// The messages of the mouse, of the menu key and of the end of a window.
pub const LEFT_BUTTON_UP: u32 = 0x202;

pub const LEFT_DOUBLE_CLICK: u32 = 0x203;

pub const RIGHT_BUTTON_UP: u32 = 0x205;

pub const CONTEXT_MENU: u32 = 0x7b;

pub const WINDOW_DESTROYED: u32 = 2;

/// Decides what a message asks for; `notification` is what the icon reports.
pub fn tray_reaction(message: u32, notification: u32) -> (r: TrayReaction)
    ensures
        r == (if message == TRAY_CALLBACK_MESSAGE {
            if notification == LEFT_BUTTON_UP || notification == LEFT_DOUBLE_CLICK {
                TrayReaction::Restore
            } else if notification == RIGHT_BUTTON_UP || notification == CONTEXT_MENU {
                TrayReaction::OpenMenu
            } else {
                TrayReaction::Ignore
            }
        } else if message == TRAY_SHOW_MESSAGE {
            TrayReaction::Restore
        } else if message == WINDOW_DESTROYED {
            TrayReaction::Quit
        } else {
            TrayReaction::Default
        }),
{
    if message == TRAY_CALLBACK_MESSAGE {
        if notification == LEFT_BUTTON_UP || notification == LEFT_DOUBLE_CLICK {
            TrayReaction::Restore
        } else if notification == RIGHT_BUTTON_UP || notification == CONTEXT_MENU {
            TrayReaction::OpenMenu
        } else {
            TrayReaction::Ignore
        }
    } else if message == TRAY_SHOW_MESSAGE {
        TrayReaction::Restore
    } else if message == WINDOW_DESTROYED {
        TrayReaction::Quit
    } else {
        TrayReaction::Default
    }
}

/// The UTF-16 units of a character.
pub open spec fn utf16_char(c: char) -> Seq<u16> {
    let code = c as u32 as int;
    if code < 0x10000 {
        seq![code as u16]
    } else {
        seq![
            (0xd800 + (code - 0x10000) / 0x400) as u16,
            (0xdc00 + (code - 0x10000) % 0x400) as u16,
        ]
    }
}

/// The UTF-16 units of a text.
pub open spec fn utf16(text: Seq<char>) -> Seq<u16>
    decreases text.len(),
{
    if text.len() == 0 {
        Seq::empty()
    } else {
        utf16(text.drop_last()) + utf16_char(text.last())
    }
}

fn encode_utf16(text: &str) -> (r: Vec<u16>)
    ensures
        r@ == utf16(text@),
{
    let chars = to_chars(text);
    let mut out: Vec<u16> = Vec::new();
    let mut i: usize = 0;
    while i < chars.len()
        invariant
            i <= chars@.len(),
            out@ == utf16(chars@.take(i as int)),
        decreases chars.len() - i,
    {
        assert(chars@.take(i + 1).drop_last() =~= chars@.take(i as int));
        let ghost before = out@;
        let c: char = chars[i];
        let code: u32 = c as u32;
        if code < 0x10000 {
            out.push(code as u16);
            assert(out@ =~= before + utf16_char(chars@[i as int]));
        } else {
            let rest: u32 = code - 0x10000;
            out.push(#[verifier::truncate] ((0xd800 + rest / 0x400) as u16));
            out.push((0xdc00 + rest % 0x400) as u16);
            assert(out@ =~= before + utf16_char(chars@[i as int]));
        }
        i = i + 1;
    }
    assert(chars@.take(chars@.len() as int) =~= text@);
    out
}

/// The UTF-16 units of a text, ended by a zero.
pub fn wide_text(value: &str) -> (r: Vec<u16>)
    ensures
        r@ == utf16(value@).push(0),
{
    let mut out = encode_utf16(value);
    out.push(0);
    out
}

/// Fills a buffer of a given length with a text: as much of it as leaves room
/// for a zero, and zeros after it.
pub fn write_wide_buffer(length: usize, text: &str) -> (r: Vec<u16>)
    ensures
        r@.len() == length,
        forall|i: int|
            0 <= i < length ==> r@[i] == (if i < utf16(text@).len() && i < length - 1 {
                utf16(text@)[i]
            } else {
                0u16
            }),
{
    let units = encode_utf16(text);
    let mut out: Vec<u16> = Vec::new();
    let mut i: usize = 0;
    while i < length
        invariant
            i <= length,
            out@.len() == i,
            units@ == utf16(text@),
            forall|k: int|
                0 <= k < i ==> out@[k] == (if k < units@.len() && k < length - 1 {
                    units@[k]
                } else {
                    0u16
                }),
        decreases length - i,
    {
        if i < units.len() && i < length - 1 {
            out.push(units[i]);
        } else {
            out.push(0);
        }
        i = i + 1;
    }
    out
}

/// A text without zeros has a single zero in its encoding, at the end.
pub proof fn wide_text_ends_once(text: Seq<char>)
    requires
        forall|i: int| 0 <= i < text.len() ==> 0 < #[trigger] text[i] as u32 <= 0x10ffff,
    ensures
        forall|i: int| 0 <= i < utf16(text).len() ==> #[trigger] utf16(text)[i] != 0,
    decreases text.len(),
{
    if text.len() > 0 {
        wide_text_ends_once(text.drop_last());
        let before = utf16(text.drop_last());
        let units = utf16_char(text.last());
        assert(0 < text[text.len() - 1] as u32 <= 0x10ffff);
        let c: char = text.last();
        let code = c as u32;
        assert(forall|i: int| 0 <= i < units.len() ==> #[trigger] units[i] != 0);
        let all = utf16(text);
        assert forall|i: int| 0 <= i < all.len() implies #[trigger] all[i] != 0 by {
            if i < before.len() {
                assert(all[i] == before[i]);
            } else {
                assert(all[i] == units[i - before.len()]);
            }
        }
    }
}

} // verus!
