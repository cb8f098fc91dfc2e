//! The notification-area icon: its menu, the command each menu entry or
//! mouse event stands for, and the UTF-16 text Windows expects.
use vstd::prelude::*;

verus! {

/// Menu identifier: open the main window.
pub const ID_SHOW: usize = 1001;
/// Menu identifier: toggle start with Windows.
pub const ID_TOGGLE_STARTUP: usize = 1002;
/// Menu identifier: toggle running in the background.
pub const ID_TOGGLE_RESIDENT: usize = 1003;
/// Menu identifier: toggle the daily wallpaper.
pub const ID_TOGGLE_AUTO: usize = 1004;
/// Menu identifier: change the wallpaper now.
pub const ID_CHANGE_NOW: usize = 1005;
/// Menu identifier: quit.
pub const ID_EXIT: usize = 1099;

/// `WM_CONTEXTMENU`.
pub const WM_CONTEXTMENU: u32 = 0x007B;
/// `WM_LBUTTONUP`.
pub const WM_LBUTTONUP: u32 = 0x0202;
/// `WM_LBUTTONDBLCLK`.
pub const WM_LBUTTONDBLCLK: u32 = 0x0203;
/// `WM_RBUTTONDOWN`.
pub const WM_RBUTTONDOWN: u32 = 0x0204;
/// `WM_RBUTTONUP`.
pub const WM_RBUTTONUP: u32 = 0x0205;
/// `NIN_SELECT` (`WM_USER`).
pub const NIN_SELECT: u32 = 0x0400;

/// What the user asked for through the icon.
#[derive(Clone, Copy, Debug, PartialEq, Eq, Structural)]
pub enum TrayCommand {
    ShowWindow,
    ToggleStartup,
    ToggleResident,
    ToggleAutoWallpaper,
    ChangeWallpaperNow,
    Quit,
}

pub open spec fn command_of_id(id: int) -> Option<TrayCommand> {
    if id == ID_SHOW {
        Some(TrayCommand::ShowWindow)
    } else if id == ID_TOGGLE_STARTUP {
        Some(TrayCommand::ToggleStartup)
    } else if id == ID_TOGGLE_RESIDENT {
        Some(TrayCommand::ToggleResident)
    } else if id == ID_TOGGLE_AUTO {
        Some(TrayCommand::ToggleAutoWallpaper)
    } else if id == ID_CHANGE_NOW {
        Some(TrayCommand::ChangeWallpaperNow)
    } else if id == ID_EXIT {
        Some(TrayCommand::Quit)
    } else {
        None
    }
}

/// The command of a menu identifier.
pub fn command_for_id(id: usize) -> (r: Option<TrayCommand>)
    ensures
        r == command_of_id(id as int),
{
    if id == ID_SHOW {
        Some(TrayCommand::ShowWindow)
    } else if id == ID_TOGGLE_STARTUP {
        Some(TrayCommand::ToggleStartup)
    } else if id == ID_TOGGLE_RESIDENT {
        Some(TrayCommand::ToggleResident)
    } else if id == ID_TOGGLE_AUTO {
        Some(TrayCommand::ToggleAutoWallpaper)
    } else if id == ID_CHANGE_NOW {
        Some(TrayCommand::ChangeWallpaperNow)
    } else if id == ID_EXIT {
        Some(TrayCommand::Quit)
    } else {
        None
    }
}

/// The command of a `WM_COMMAND` message: its identifier is the low word.
pub fn command_for_wparam(wparam: usize) -> (r: Option<TrayCommand>)
    ensures
        r == command_of_id((wparam % 65536) as int),
{
    let low = wparam & 0xffff;
    assert(wparam & 0xffff == wparam % 65536) by (bit_vector);
    command_for_id(low)
}

/// What a mouse event on the icon does.
#[derive(Clone, Copy, Debug, PartialEq, Eq, Structural)]
pub enum TrayEventAction {
    ShowWindow,
    ContextMenu,
    PassOn,
}

pub open spec fn event_action_of(event: int) -> TrayEventAction {
    if event == WM_LBUTTONDBLCLK || event == WM_LBUTTONUP || event == NIN_SELECT {
        TrayEventAction::ShowWindow
    } else if event == WM_RBUTTONDOWN || event == WM_RBUTTONUP || event == WM_CONTEXTMENU {
        TrayEventAction::ContextMenu
    } else {
        TrayEventAction::PassOn
    }
}

/// The action for the icon's callback message, whose event is the low word
/// of `lparam`: a left click shows the window, a right click opens the
/// menu, anything else goes to the default handler.
pub fn tray_event_action(lparam: u32) -> (r: TrayEventAction)
    ensures
        r == event_action_of((lparam % 65536) as int),
{
    let event = lparam & 0xffff;
    assert(lparam & 0xffff == lparam % 65536) by (bit_vector);
    if event == WM_LBUTTONDBLCLK || event == WM_LBUTTONUP || event == NIN_SELECT {
        TrayEventAction::ShowWindow
    } else if event == WM_RBUTTONDOWN || event == WM_RBUTTONUP || event == WM_CONTEXTMENU {
        TrayEventAction::ContextMenu
    } else {
        TrayEventAction::PassOn
    }
}

/// One line of the icon's menu.
#[derive(Debug, PartialEq, Eq)]
pub enum TrayMenuItem {
    Entry { id: usize, text: &'static str, checked: bool },
    Separator,
}

pub open spec fn entry_is(item: TrayMenuItem, id: usize, text: Seq<char>, checked: bool) -> bool {
    item matches TrayMenuItem::Entry { id: i, text: t, checked: c } && i == id && t@ == text && c
        == checked
}

/// The icon's menu, with the three switches shown as checked when on.
pub fn context_menu_items(startup: bool, resident: bool, auto_wallpaper: bool) -> (r: Vec<
    TrayMenuItem,
>)
    ensures
        r@.len() == 8,
        entry_is(r@[0], ID_SHOW, "打开主窗口"@, false),
        r@[1] == TrayMenuItem::Separator,
        entry_is(r@[2], ID_TOGGLE_STARTUP, "开机自启"@, startup),
        entry_is(r@[3], ID_TOGGLE_RESIDENT, "后台常驻"@, resident),
        entry_is(r@[4], ID_TOGGLE_AUTO, "每日自动壁纸"@, auto_wallpaper),
        entry_is(r@[5], ID_CHANGE_NOW, "按自动壁纸来源立即更换"@, false),
        r@[6] == TrayMenuItem::Separator,
        entry_is(r@[7], ID_EXIT, "退出"@, false),
{
    let mut r: Vec<TrayMenuItem> = Vec::new();
    r.push(TrayMenuItem::Entry { id: ID_SHOW, text: "打开主窗口", checked: false });
    r.push(TrayMenuItem::Separator);
    r.push(TrayMenuItem::Entry { id: ID_TOGGLE_STARTUP, text: "开机自启", checked: startup });
    r.push(TrayMenuItem::Entry { id: ID_TOGGLE_RESIDENT, text: "后台常驻", checked: resident });
    r.push(TrayMenuItem::Entry { id: ID_TOGGLE_AUTO, text: "每日自动壁纸", checked: auto_wallpaper });
    r.push(TrayMenuItem::Entry { id: ID_CHANGE_NOW, text: "按自动壁纸来源立即更换", checked: false });
    r.push(TrayMenuItem::Separator);
    r.push(TrayMenuItem::Entry { id: ID_EXIT, text: "退出", checked: false });
    r
}

/// UTF-16 code units of one character.
pub open spec fn utf16_of_char(c: char) -> Seq<u16> {
    if (c as int) < 0x10000 {
        seq![c as int as u16]
    } else {
        let v = c as int - 0x10000;
        seq![(0xD800 + v / 0x400) as u16, (0xDC00 + v % 0x400) as u16]
    }
}

/// UTF-16 encoding of a text.
pub open spec fn utf16_of(s: Seq<char>) -> Seq<u16>
    decreases s.len(),
{
    if s.len() == 0 {
        Seq::empty()
    } else {
        utf16_of(s.drop_last()) + utf16_of_char(s.last())
    }
}

/// `to_wide`: the UTF-16 encoding of `text` followed by a 0 terminator, as
/// Windows API calls take text.
pub fn to_wide(text: &str) -> (r: Vec<u16>)
    ensures
        r@ == utf16_of(text@).push(0u16),
{
    let mut out: Vec<u16> = Vec::new();
    let n = text.unicode_len();
    let mut i: usize = 0;
    while i < n
        invariant
            0 <= i <= n,
            n == text@.len(),
            out@ == utf16_of(text@.take(i as int)),
        decreases n - i,
    {
        let c = text.get_char(i);
        let v: u32 = c as u32;
        proof {
            assert(text@.take(i + 1).drop_last() =~= text@.take(i as int));
            assert(text@.take(i + 1).last() == c);
        }
        if v < 0x10000 {
            out.push(v as u16);
        } else {
            let w = v - 0x10000;
            out.push((0xD800 + w / 0x400) as u16);
            out.push((0xDC00 + w % 0x400) as u16);
        }
        proof {
            assert(out@ =~= utf16_of(text@.take(i + 1)));
        }
        i = i + 1;
    }
    assert(text@.take(n as int) =~= text@);
    out.push(0u16);
    out
}

/// `fill_wide`: writes `to_wide(text)` into a fixed-size buffer, cut at the
/// buffer's end; the rest of the buffer is left as it was.
pub fn fill_wide(target: &mut Vec<u16>, text: &str)
    ensures
        final(target)@.len() == old(target)@.len(),
        forall|i: int|
            0 <= i < final(target)@.len() ==> #[trigger] final(target)@[i] == if i < utf16_of(
                text@,
            ).push(0u16).len() {
                utf16_of(text@).push(0u16)[i]
            } else {
                old(target)@[i]
            },
{
    let wide = to_wide(text);
    let len = if wide.len() < target.len() {
        wide.len()
    } else {
        target.len()
    };
    let mut i: usize = 0;
    while i < len
        invariant
            0 <= i <= len,
            len <= wide@.len(),
            len <= target@.len(),
            len == wide@.len() || len == target@.len(),
            wide@ == utf16_of(text@).push(0u16),
            target@.len() == old(target)@.len(),
            forall|j: int| 0 <= j < i ==> #[trigger] target@[j] == wide@[j],
            forall|j: int| i <= j < target@.len() ==> #[trigger] target@[j] == old(target)@[j],
        decreases len - i,
    {
        target.set(i, wide[i]);
        i = i + 1;
    }
}

} // verus!
