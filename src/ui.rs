//! The decisions behind the tray: which icon a mode shows, what a menu item
//! means, and whether the settings window is open.

use vstd::prelude::*;
use crate::config::AppConfig;
use crate::device::AudioMode;
use crate::text::str_eq;

verus! {

/// The tray icon shown for a mode.
#[derive(Debug, Clone, Copy, PartialEq, Eq, Structural)]
pub enum IconState {
    Stereo,
    HandsFree,
    Unknown,
}

impl IconState {
    /// The icon of a mode.
    pub fn from_mode(mode: AudioMode) -> (r: Self)
        ensures
            r == (match mode {
                AudioMode::Stereo => IconState::Stereo,
                AudioMode::HandsFree => IconState::HandsFree,
                AudioMode::Unknown => IconState::Unknown,
            }),
    {
        match mode {
            AudioMode::Stereo => IconState::Stereo,
            AudioMode::HandsFree => IconState::HandsFree,
            AudioMode::Unknown => IconState::Unknown,
        }
    }
}

/// Identifier of the settings item.
pub const MENU_ID_SETTINGS: &'static str = "settings";
/// Identifier of the update-check item.
pub const MENU_ID_CHECK_UPDATES: &'static str = "check_updates";
/// Identifier of the about item.
pub const MENU_ID_ABOUT: &'static str = "about";
/// Identifier of the exit item.
pub const MENU_ID_EXIT: &'static str = "exit";

/// What the operator asked for through the menu.
#[derive(Debug, Clone, PartialEq, Eq)]
pub enum MenuEvent {
    TerminateApp(u32),
    ForceStereo(String),
    AllowHandsFree(String),
    ReconnectDevice(String),
    OpenSettings,
    CheckUpdates,
    ShowAbout,
    Exit,
}

/// What a dynamically added menu item stands for.
#[derive(Debug, Clone, PartialEq, Eq)]
pub enum MenuItemPurpose {
    TerminateApp(u32),
    ForceStereo(String),
    AllowHandsFree(String),
    ReconnectDevice(String),
    Device(String),
    Static(String),
}

/// The meaning of a dynamic item as an event, if it has one.
pub open spec fn purpose_event(p: MenuItemPurpose) -> Option<MenuEvent> {
    match p {
        MenuItemPurpose::TerminateApp(pid) => Some(MenuEvent::TerminateApp(pid)),
        MenuItemPurpose::ForceStereo(n) => Some(MenuEvent::ForceStereo(n)),
        MenuItemPurpose::AllowHandsFree(n) => Some(MenuEvent::AllowHandsFree(n)),
        MenuItemPurpose::ReconnectDevice(n) => Some(MenuEvent::ReconnectDevice(n)),
        _ => None,
    }
}

/// The items of the current menu and what each stands for.
pub struct MenuBuilder {
    pub item_map: Vec<(String, MenuItemPurpose)>,
}

/// The first entry of the item map with this identifier.
pub open spec fn first_item(items: Seq<(String, MenuItemPurpose)>, id: Seq<char>) -> Option<int>
    decreases items.len(),
{
    if items.len() == 0 {
        None
    } else {
        match first_item(items.drop_last(), id) {
            Some(i) => Some(i),
            None => if items.last().0@ == id {
                Some(items.len() - 1)
            } else {
                None
            },
        }
    }
}

proof fn lemma_first_item_extend(items: Seq<(String, MenuItemPurpose)>, id: Seq<char>, n: int)
    requires
        0 <= n <= items.len(),
        first_item(items.subrange(0, n), id) is Some,
    ensures
        first_item(items, id) == first_item(items.subrange(0, n), id),
    decreases items.len() - n,
{
    if n < items.len() {
        assert(items.subrange(0, n + 1).drop_last() =~= items.subrange(0, n));
        lemma_first_item_extend(items, id, n + 1);
    } else {
        assert(items.subrange(0, n) =~= items);
    }
}

fn clone_purpose(p: &MenuItemPurpose) -> (r: MenuItemPurpose)
    ensures
        r == *p,
{
    match p {
        MenuItemPurpose::TerminateApp(pid) => MenuItemPurpose::TerminateApp(*pid),
        MenuItemPurpose::ForceStereo(n) => MenuItemPurpose::ForceStereo(n.clone()),
        MenuItemPurpose::AllowHandsFree(n) => MenuItemPurpose::AllowHandsFree(n.clone()),
        MenuItemPurpose::ReconnectDevice(n) => MenuItemPurpose::ReconnectDevice(n.clone()),
        MenuItemPurpose::Device(n) => MenuItemPurpose::Device(n.clone()),
        MenuItemPurpose::Static(n) => MenuItemPurpose::Static(n.clone()),
    }
}

impl MenuBuilder {
    /// A builder with no dynamic items.
    pub fn new() -> (r: Self)
        ensures
            r.item_map@.len() == 0,
    {
        MenuBuilder { item_map: Vec::new() }
    }

    /// Records what a dynamic item stands for.
    pub fn register(&mut self, id: String, purpose: MenuItemPurpose)
        ensures
            final(self).item_map@ == old(self).item_map@.push((id, purpose)),
    {
        self.item_map.push((id, purpose));
    }

    /// Forgets the dynamic items, before the menu is built again.
    pub fn clear(&mut self)
        ensures
            final(self).item_map@.len() == 0,
    {
        self.item_map.clear();
    }

    /// The event a clicked item stands for: the fixed items by identifier,
    /// then the first dynamic item registered under that identifier.
    pub fn handle_event(&self, id: &str) -> (r: Option<MenuEvent>)
        ensures
            r == (if id@ == MENU_ID_SETTINGS@ {
                Some(MenuEvent::OpenSettings)
            } else if id@ == MENU_ID_CHECK_UPDATES@ {
                Some(MenuEvent::CheckUpdates)
            } else if id@ == MENU_ID_ABOUT@ {
                Some(MenuEvent::ShowAbout)
            } else if id@ == MENU_ID_EXIT@ {
                Some(MenuEvent::Exit)
            } else {
                match first_item(self.item_map@, id@) {
                    Some(i) => purpose_event(self.item_map@[i].1),
                    None => None,
                }
            }),
    {
        if str_eq(id, MENU_ID_SETTINGS) {
            return Some(MenuEvent::OpenSettings);
        }
        if str_eq(id, MENU_ID_CHECK_UPDATES) {
            return Some(MenuEvent::CheckUpdates);
        }
        if str_eq(id, MENU_ID_ABOUT) {
            return Some(MenuEvent::ShowAbout);
        }
        if str_eq(id, MENU_ID_EXIT) {
            return Some(MenuEvent::Exit);
        }
        let mut i: usize = 0;
        while i < self.item_map.len()
            invariant
                i <= self.item_map@.len(),
                first_item(self.item_map@.subrange(0, i as int), id@) is None,
                id@ != MENU_ID_SETTINGS@,
                id@ != MENU_ID_CHECK_UPDATES@,
                id@ != MENU_ID_ABOUT@,
                id@ != MENU_ID_EXIT@,
            decreases self.item_map@.len() - i,
        {
            proof {
                assert(self.item_map@.subrange(0, i + 1).drop_last() =~= self.item_map@.subrange(
                    0,
                    i as int,
                ));
            }
            if str_eq(self.item_map[i].0.as_str(), id) {
                proof {
                    let sub = self.item_map@.subrange(0, i + 1);
                    assert(sub.last() == self.item_map@[i as int]);
                    assert(first_item(sub, id@) == Some(i as int));
                    lemma_first_item_extend(self.item_map@, id@, i + 1);
                }
                let p = clone_purpose(&self.item_map[i].1);
                let ghost gp = p;
                let ev = match p {
                    MenuItemPurpose::TerminateApp(pid) => Some(MenuEvent::TerminateApp(pid)),
                    MenuItemPurpose::ForceStereo(n) => Some(MenuEvent::ForceStereo(n)),
                    MenuItemPurpose::AllowHandsFree(n) => Some(MenuEvent::AllowHandsFree(n)),
                    MenuItemPurpose::ReconnectDevice(n) => Some(MenuEvent::ReconnectDevice(n)),
                    _ => None,
                };
                assert(ev == purpose_event(gp));
                assert(gp == self.item_map@[i as int].1);
                return ev;
            }
            i += 1;
        }
        proof {
            assert(self.item_map@.subrange(0, self.item_map@.len() as int) =~= self.item_map@);
        }
        None
    }
}

/// Messages from the settings window.
#[derive(Debug, Clone)]
pub enum SettingsMessage {
    Open,
    /// The window closed, with the settings to apply if they changed.
    Closed(Option<AppConfig>),
    Error(String),
}

/// Whether the settings window is open; the window itself runs elsewhere
/// and reports through `SettingsMessage`s.
pub struct SettingsWindow {
    pub is_open: bool,
}

impl SettingsWindow {
    pub fn new() -> (r: Self)
        ensures
            !r.is_open,
    {
        SettingsWindow { is_open: false }
    }

    pub fn is_open(&self) -> (r: bool)
        ensures
            r == self.is_open,
    {
        self.is_open
    }

    /// Marks the window open; false where it already was, so that no second
    /// window is started.
    pub fn open(&mut self) -> (r: bool)
        ensures
            r == !old(self).is_open,
            final(self).is_open,
    {
        if self.is_open {
            false
        } else {
            self.is_open = true;
            true
        }
    }

    /// Passes on a message taken from the window's channel; a closed window
    /// or an error marks it closed.
    pub fn try_recv(&mut self, received: Option<SettingsMessage>) -> (r: Option<SettingsMessage>)
        ensures
            r == received,
            final(self).is_open == (match received {
                Some(SettingsMessage::Closed(_)) => false,
                Some(SettingsMessage::Error(_)) => false,
                _ => old(self).is_open,
            }),
    {
        match &received {
            Some(SettingsMessage::Closed(_)) => {
                self.is_open = false;
            },
            Some(SettingsMessage::Error(_)) => {
                self.is_open = false;
            },
            _ => {},
        }
        received
    }
}

} // verus!
