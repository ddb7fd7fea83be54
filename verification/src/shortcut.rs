//! The panic hotkey must always work: a new one is registered before the old
//! one is dropped, a refused one changes nothing, and a saved one that cannot
//! be registered at launch gives way to the default.

use vstd::prelude::*;
use crate::settings::{Settings, SettingsView, default_panic_shortcut, default_shortcut_view};

verus! {

/// The panic hotkeys registered with the system after registering `added`
/// (if any) and then unregistering `removed` (if any).
pub open spec fn registry_after(
    registered: Set<Seq<char>>,
    added: Option<Seq<char>>,
    removed: Option<Seq<char>>,
) -> Set<Seq<char>> {
    let with_added = match added {
        Some(k) => registered.insert(k),
        None => registered,
    };
    match removed {
        Some(k) => with_added.remove(k),
        None => with_added,
    }
}

/// A hotkey is registered after the save's calls exactly when it was
/// registered before or was the one added, and was not the one removed.
pub proof fn lemma_registry_after(
    registered: Set<Seq<char>>,
    added: Option<Seq<char>>,
    removed: Option<Seq<char>>,
    k: Seq<char>,
)
    ensures
        registry_after(registered, added, removed).contains(k) <==> ((registered.contains(k) || added == Some(k))
            && removed != Some(k)),
{
}

/// Whether saving `new` over `current` changes the panic hotkey, so that the
/// new one has to be registered first.
pub fn shortcut_changed(current: &Settings, new: &Settings) -> (r: bool)
    ensures
        r == (current.panic_shortcut@ != new.panic_shortcut@),
{
    !(current.panic_shortcut == new.panic_shortcut)
}

/// How the registration of a new panic hotkey went: not attempted (`None`),
/// succeeded (`Some(true)`) or failed (`Some(false)`).
pub open spec fn registration_result(registration: Option<Result<(), String>>) -> Option<bool> {
    match registration {
        Some(Ok(_)) => Some(true),
        Some(Err(_)) => Some(false),
        None => None,
    }
}

/// The settings held after a save: unchanged when the new hotkey's
/// registration failed, the new ones otherwise.
pub open spec fn saved_settings(current: SettingsView, new: SettingsView, registered: Option<bool>) -> SettingsView {
    if registered == Some(false) {
        current
    } else {
        new
    }
}

/// The hotkey to unregister after a save: the old one, once a changed one
/// registered; none otherwise.
pub open spec fn released_key(current: SettingsView, registered: Option<bool>) -> Option<Seq<char>> {
    if registered == Some(true) {
        Some(current.panic_shortcut)
    } else {
        None
    }
}

/// The hotkey that a save registered, if any.
pub open spec fn added_key(new: SettingsView, registered: Option<bool>) -> Option<Seq<char>> {
    if registered == Some(true) {
        Some(new.panic_shortcut)
    } else {
        None
    }
}

/// What the windowing layer does after an accepted save, besides applying the
/// window settings and writing the settings to disk.
#[derive(Debug)]
pub struct SaveEffects {
    /// The previous panic hotkey, to unregister now that the new one is live.
    pub unregister: Option<String>,
}

/// Save `new` over `current`. When the panic hotkey changed, the caller has
/// tried to register the new one first and passes how that went in
/// `registration` (`None` when the hotkey did not change). A failed
/// registration aborts the save with its message and leaves `current` as it
/// was, so the old hotkey stays the working one; otherwise `new` is held and
/// the old hotkey, if it changed, is to be unregistered.
pub fn save_settings(
    current: &mut Settings,
    new: Settings,
    registration: Option<Result<(), String>>,
) -> (r: Result<SaveEffects, String>)
    requires
        (registration is Some) == (old(current).panic_shortcut@ != new.panic_shortcut@),
    ensures
        final(current)@ == saved_settings(old(current)@, new@, registration_result(registration)),
        match registration {
            Some(Err(e)) => r == Err::<SaveEffects, String>(e),
            _ => r matches Ok(effects) && match effects.unregister {
                Some(k) => released_key(old(current)@, registration_result(registration)) == Some(k@),
                None => released_key(old(current)@, registration_result(registration)) is None,
            },
        },
        registration matches Some(Err(_)) ==> final(current)@ == old(current)@,
        !(registration matches Some(Err(_))) ==> final(current)@ == new@,
        registration matches Some(Ok(_)) ==> (r matches Ok(effects) && effects.unregister matches Some(k)
            && k@ == old(current).panic_shortcut@),
        registration is None ==> (r matches Ok(effects) && effects.unregister is None),
{
    match registration {
        Some(Err(e)) => Err(e),
        Some(Ok(())) => {
            let mut held = new;
            std::mem::swap(current, &mut held);
            Ok(SaveEffects { unregister: Some(held.panic_shortcut) })
        },
        None => {
            *current = new;
            Ok(SaveEffects { unregister: None })
        },
    }
}

/// At launch, after trying to register the saved panic hotkey: if that
/// failed (a hand-edited or corrupt file), fall back to the default hotkey
/// rather than refuse to start. Returns the default hotkey to register in its
/// place, or `None` when the saved one works.
pub fn fall_back_shortcut(settings: &mut Settings, registered: bool) -> (fallback: Option<String>)
    ensures
        registered ==> final(settings)@ == old(settings)@ && fallback is None,
        !registered ==> final(settings)@ == old(settings)@.with_panic_shortcut(default_shortcut_view()),
        !registered ==> (fallback matches Some(k) && k@ == default_shortcut_view()),
        final(settings).url@ == old(settings).url@,
        final(settings).bookmarks@ == old(settings).bookmarks@,
        final(settings).content_protected == old(settings).content_protected,
        final(settings).always_on_top == old(settings).always_on_top,
        final(settings).spaces_global == old(settings).spaces_global,
        final(settings).x == old(settings).x,
        final(settings).y == old(settings).y,
        registered ==> final(settings).panic_shortcut@ == old(settings).panic_shortcut@,
        !registered ==> final(settings).panic_shortcut@ == "CmdOrControl+Shift+H"@,
{
    if registered {
        None
    } else {
        settings.panic_shortcut = default_panic_shortcut();
        Some(default_panic_shortcut())
    }
}

/// A save never leaves the held panic hotkey unregistered: if the hotkey held
/// before was registered, the one held after is registered once the save's
/// registration and unregistration are done.
pub proof fn lemma_save_keeps_panic_key_registered(
    registered_keys: Set<Seq<char>>,
    current: SettingsView,
    new: SettingsView,
    registered: Option<bool>,
)
    requires
        registered_keys.contains(current.panic_shortcut),
        (registered is Some) == (current.panic_shortcut != new.panic_shortcut),
    ensures
        registry_after(registered_keys, added_key(new, registered), released_key(current, registered)).contains(
            saved_settings(current, new, registered).panic_shortcut,
        ),
{
    match registered {
        Some(true) => {
            assert(registered_keys.insert(new.panic_shortcut).remove(current.panic_shortcut).contains(
                new.panic_shortcut,
            ));
        },
        Some(false) => {
            assert(saved_settings(current, new, registered) == current);
        },
        None => {
            assert(saved_settings(current, new, registered).panic_shortcut == current.panic_shortcut);
        },
    }
}

/// An accepted save holds exactly the submitted settings, every field of
/// them, whether or not the hotkey changed.
pub proof fn lemma_accepted_save_holds_submitted(current: SettingsView, new: SettingsView, registered: Option<bool>)
    requires
        registered != Some(false),
    ensures
        saved_settings(current, new, registered) == new,
{
}

/// A save with an unchanged hotkey registers and unregisters nothing and
/// holds the submitted settings; a refused one holds the old settings; an
/// accepted changed one releases exactly the old hotkey and adds exactly the
/// new one.
pub proof fn lemma_save_effects(current: SettingsView, new: SettingsView)
    ensures
        saved_settings(current, new, None) == new,
        released_key(current, None) is None,
        added_key(new, None) is None,
        saved_settings(current, new, Some(false)) == current,
        released_key(current, Some(false)) is None,
        added_key(new, Some(false)) is None,
        saved_settings(current, new, Some(true)) == new,
        released_key(current, Some(true)) == Some(current.panic_shortcut),
        added_key(new, Some(true)) == Some(new.panic_shortcut),
{
}

/// How a registration went, read off the outside call's result: attempted
/// exactly when there is a result, successful exactly when it is `Ok`.
pub proof fn lemma_registration_result(registration: Option<Result<(), String>>)
    ensures
        registration_result(registration) is Some <==> registration is Some,
        registration_result(registration) == Some(true) <==> registration matches Some(Ok(_)),
        registration_result(registration) == Some(false) <==> registration matches Some(Err(_)),
{
}

/// A refused save changes nothing: the settings and the registered hotkeys
/// stay as they were.
pub proof fn lemma_refused_save_changes_nothing(
    registered_keys: Set<Seq<char>>,
    current: SettingsView,
    new: SettingsView,
)
    ensures
        saved_settings(current, new, Some(false)) == current,
        registry_after(registered_keys, added_key(new, Some(false)), released_key(current, Some(false)))
            == registered_keys,
{
}

/// After launch the held panic hotkey is registered, provided that either the
/// saved hotkey or, in its place, the default one could be registered.
pub proof fn lemma_startup_key_registered(
    registered_keys: Set<Seq<char>>,
    saved: SettingsView,
    saved_ok: bool,
    default_ok: bool,
)
    requires
        saved_ok || default_ok,
    ensures
        ({
            let held = if saved_ok {
                saved
            } else {
                saved.with_panic_shortcut(default_shortcut_view())
            };
            let added = if saved_ok {
                Some(saved.panic_shortcut)
            } else if default_ok {
                Some(default_shortcut_view())
            } else {
                None
            };
            registry_after(registered_keys, added, None).contains(held.panic_shortcut)
        }),
{
}

} // verus!
