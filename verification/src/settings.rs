//! The persisted settings that the core owns and hands to the page.
//!
//! The window size, the two opacity levels and the hot-zone fractions are
//! floating-point values that only the windowing layer reads; they are kept
//! there, beside these fields.

use vstd::prelude::*;
use crate::monitor::{MonitorRect, covered_by_any, restored};

verus! {

/// The settings that the core decides with: the page to load, the panic
/// hotkey, the bookmarks, the three concealment toggles and the last window
/// position in physical pixels (`None` until the window was first moved).
#[derive(Debug)]
pub struct Settings {
    pub url: String,
    /// An accelerator string, such as "CmdOrControl+Shift+H".
    pub panic_shortcut: String,
    pub bookmarks: Vec<String>,
    pub content_protected: bool,
    pub always_on_top: bool,
    pub spaces_global: bool,
    pub x: Option<i32>,
    pub y: Option<i32>,
}

/// The settings as values: strings as character sequences.
pub struct SettingsView {
    pub url: Seq<char>,
    pub panic_shortcut: Seq<char>,
    pub bookmarks: Seq<Seq<char>>,
    pub content_protected: bool,
    pub always_on_top: bool,
    pub spaces_global: bool,
    pub x: Option<i32>,
    pub y: Option<i32>,
}

impl View for Settings {
    type V = SettingsView;

    open spec fn view(&self) -> SettingsView {
        SettingsView {
            url: self.url@,
            panic_shortcut: self.panic_shortcut@,
            bookmarks: self.bookmarks@.map_values(|b: String| b@),
            content_protected: self.content_protected,
            always_on_top: self.always_on_top,
            spaces_global: self.spaces_global,
            x: self.x,
            y: self.y,
        }
    }
}

/// The panic hotkey that a fresh install uses, and the one fallen back to
/// when a saved one cannot be registered.
pub open spec fn default_shortcut_view() -> Seq<char> {
    "CmdOrControl+Shift+H"@
}

/// The settings of a fresh install: example.com, the default panic hotkey, no
/// bookmarks, every concealment toggle on, no saved position.
pub open spec fn default_view() -> SettingsView {
    SettingsView {
        url: "https://example.com"@,
        panic_shortcut: default_shortcut_view(),
        bookmarks: Seq::empty(),
        content_protected: true,
        always_on_top: true,
        spaces_global: true,
        x: None,
        y: None,
    }
}

impl SettingsView {
    /// These settings with the window position replaced.
    pub open spec fn with_position(self, x: i32, y: i32) -> SettingsView {
        SettingsView { x: Some(x), y: Some(y), ..self }
    }

    /// These settings with the panic hotkey replaced.
    pub open spec fn with_panic_shortcut(self, key: Seq<char>) -> SettingsView {
        SettingsView { panic_shortcut: key, ..self }
    }
}

/// The default panic hotkey.
pub fn default_panic_shortcut() -> (s: String)
    ensures
        s@ == default_shortcut_view(),
{
    "CmdOrControl+Shift+H".to_owned()
}

impl Default for Settings {
    fn default() -> (s: Self)
        ensures
            s@ == default_view(),
            s.url@ == "https://example.com"@,
            s.panic_shortcut@ == "CmdOrControl+Shift+H"@,
            s.bookmarks@.len() == 0,
            s.content_protected && s.always_on_top && s.spaces_global,
            s.x is None && s.y is None,
    {
        let s = Settings {
            url: "https://example.com".to_owned(),
            panic_shortcut: default_panic_shortcut(),
            bookmarks: Vec::new(),
            content_protected: true,
            always_on_top: true,
            spaces_global: true,
            x: None,
            y: None,
        };
        assert(s@.bookmarks =~= Seq::<Seq<char>>::empty());
        s
    }
}

impl Settings {
    /// Record where the window was moved to (physical pixels), so that the
    /// next launch can put it back there.
    pub fn record_move(&mut self, x: i32, y: i32)
        ensures
            final(self)@ == old(self)@.with_position(x, y),
            final(self).x == Some(x) && final(self).y == Some(y),
            final(self).url@ == old(self).url@,
            final(self).panic_shortcut@ == old(self).panic_shortcut@,
            final(self).bookmarks@ == old(self).bookmarks@,
            final(self).content_protected == old(self).content_protected,
            final(self).always_on_top == old(self).always_on_top,
            final(self).spaces_global == old(self).spaces_global,
    {
        self.x = Some(x);
        self.y = Some(y);
    }
}

/// Recording a move changes the position and nothing else, and the last
/// move wins: two moves in a row leave the settings as the second alone would.
pub proof fn lemma_record_move_laws(s: SettingsView, x1: i32, y1: i32, x2: i32, y2: i32)
    ensures
        s.with_position(x1, y1).x == Some(x1) && s.with_position(x1, y1).y == Some(y1),
        s.with_position(x1, y1).url == s.url,
        s.with_position(x1, y1).panic_shortcut == s.panic_shortcut,
        s.with_position(x1, y1).bookmarks == s.bookmarks,
        s.with_position(x1, y1).content_protected == s.content_protected,
        s.with_position(x1, y1).always_on_top == s.always_on_top,
        s.with_position(x1, y1).spaces_global == s.spaces_global,
        s.with_position(x1, y1).with_position(x2, y2) == s.with_position(x2, y2),
{
}

/// Replacing the panic hotkey changes that field and nothing else.
pub proof fn lemma_with_panic_shortcut_laws(s: SettingsView, key: Seq<char>)
    ensures
        s.with_panic_shortcut(key).panic_shortcut == key,
        s.with_panic_shortcut(key).url == s.url,
        s.with_panic_shortcut(key).bookmarks == s.bookmarks,
        s.with_panic_shortcut(key).content_protected == s.content_protected,
        s.with_panic_shortcut(key).always_on_top == s.always_on_top,
        s.with_panic_shortcut(key).spaces_global == s.spaces_global,
        s.with_panic_shortcut(key).x == s.x,
        s.with_panic_shortcut(key).y == s.y,
{
}

/// A window moved to a point that a display covers opens there again at the
/// next launch: the recorded position is restored as it was.
pub proof fn lemma_recorded_move_restores(s: SettingsView, x: i32, y: i32, monitors: Option<Seq<MonitorRect>>)
    requires
        monitors matches Some(ms) ==> covered_by_any(ms, x as int, y as int),
    ensures
        restored(s.with_position(x, y).x, s.with_position(x, y).y, monitors) == Some((x, y)),
{
}

} // verus!
