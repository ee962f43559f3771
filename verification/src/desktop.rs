//! Desktop integration decisions: the tray menu and what its clicks do, the
//! media keys, and whether closing the window hides it to the tray.
//! Tray clicks and media keys lead to the same events, which the player
//! handles like its own buttons.

use vstd::prelude::*;
use crate::text::same_text;

verus! {

/// The playback events sent to the player.
#[derive(Clone, Copy, Debug, PartialEq, Eq)]
pub enum MediaEvent {
    PlayPause,
    Next,
    Previous,
}

/// The name an event is sent under.
pub open spec fn spec_event_name(e: MediaEvent) -> &'static str {
    match e {
        MediaEvent::PlayPause => "media:play-pause",
        MediaEvent::Next => "media:next",
        MediaEvent::Previous => "media:prev",
    }
}

impl MediaEvent {
    /// The name the event is sent under.
    pub fn name(self) -> (r: &'static str)
        ensures
            r == spec_event_name(self),
    {
        match self {
            MediaEvent::PlayPause => "media:play-pause",
            MediaEvent::Next => "media:next",
            MediaEvent::Previous => "media:prev",
        }
    }
}

/// One line of the tray menu.
#[derive(Clone, Copy, Debug, PartialEq, Eq)]
pub enum TrayMenuEntry {
    /// A clickable item, reported by its id.
    Item { id: &'static str, label: &'static str },
    Separator,
}

/// The tray menu, top to bottom.
pub open spec fn spec_tray_menu() -> Seq<TrayMenuEntry> {
    seq![
        TrayMenuEntry::Item { id: "play-pause", label: "Play / Pause" },
        TrayMenuEntry::Item { id: "next", label: "Next" },
        TrayMenuEntry::Item { id: "prev", label: "Previous" },
        TrayMenuEntry::Separator,
        TrayMenuEntry::Item { id: "show", label: "Show window" },
        TrayMenuEntry::Separator,
        TrayMenuEntry::Item { id: "quit", label: "Quit" },
    ]
}

/// The tray menu, top to bottom: playback controls, then showing the
/// window, then quitting.
pub fn tray_menu() -> (r: Vec<TrayMenuEntry>)
    ensures
        r@ == spec_tray_menu(),
{
    let r = vec![
        TrayMenuEntry::Item { id: "play-pause", label: "Play / Pause" },
        TrayMenuEntry::Item { id: "next", label: "Next" },
        TrayMenuEntry::Item { id: "prev", label: "Previous" },
        TrayMenuEntry::Separator,
        TrayMenuEntry::Item { id: "show", label: "Show window" },
        TrayMenuEntry::Separator,
        TrayMenuEntry::Item { id: "quit", label: "Quit" },
    ];
    assert(r@ =~= spec_tray_menu());
    r
}

/// What a click on a tray menu item does.
#[derive(Clone, Copy, Debug, PartialEq, Eq)]
pub enum TrayAction {
    /// Send a playback event to the player.
    Emit(MediaEvent),
    /// Show, restore and focus the main window.
    ShowWindow,
    /// Quit the application.
    Quit,
    /// An unknown id: nothing.
    Ignore,
}

/// What a click on the tray item with id `id` does.
pub open spec fn spec_tray_action(id: Seq<char>) -> TrayAction {
    if id == "play-pause"@ {
        TrayAction::Emit(MediaEvent::PlayPause)
    } else if id == "next"@ {
        TrayAction::Emit(MediaEvent::Next)
    } else if id == "prev"@ {
        TrayAction::Emit(MediaEvent::Previous)
    } else if id == "show"@ {
        TrayAction::ShowWindow
    } else if id == "quit"@ {
        TrayAction::Quit
    } else {
        TrayAction::Ignore
    }
}

/// What a click on the tray item with id `id` does.
pub fn tray_action(id: &str) -> (r: TrayAction)
    ensures
        r == spec_tray_action(id@),
{
    if same_text(id, "play-pause") {
        TrayAction::Emit(MediaEvent::PlayPause)
    } else if same_text(id, "next") {
        TrayAction::Emit(MediaEvent::Next)
    } else if same_text(id, "prev") {
        TrayAction::Emit(MediaEvent::Previous)
    } else if same_text(id, "show") {
        TrayAction::ShowWindow
    } else if same_text(id, "quit") {
        TrayAction::Quit
    } else {
        TrayAction::Ignore
    }
}

/// The media keys the player listens to.
#[derive(Clone, Copy, Debug, PartialEq, Eq)]
pub enum MediaKey {
    PlayPause,
    Next,
    Previous,
}

/// The shortcut name a key is registered under.
pub open spec fn spec_shortcut_name(k: MediaKey) -> &'static str {
    match k {
        MediaKey::PlayPause => "MediaPlayPause",
        MediaKey::Next => "MediaTrackNext",
        MediaKey::Previous => "MediaTrackPrevious",
    }
}

impl MediaKey {
    /// The shortcut name the key is registered under.
    pub fn shortcut_name(self) -> (r: &'static str)
        ensures
            r == spec_shortcut_name(self),
    {
        match self {
            MediaKey::PlayPause => "MediaPlayPause",
            MediaKey::Next => "MediaTrackNext",
            MediaKey::Previous => "MediaTrackPrevious",
        }
    }
}

/// The event a media key sends: one per press, none on release.
pub open spec fn spec_media_key_event(key: MediaKey, pressed: bool) -> Option<MediaEvent> {
    if !pressed {
        None
    } else {
        Some(
            match key {
                MediaKey::PlayPause => MediaEvent::PlayPause,
                MediaKey::Next => MediaEvent::Next,
                MediaKey::Previous => MediaEvent::Previous,
            },
        )
    }
}

/// The event a media key sends: one when pressed, none when released.
pub fn media_key_event(key: MediaKey, pressed: bool) -> (r: Option<MediaEvent>)
    ensures
        r == spec_media_key_event(key, pressed),
        !pressed ==> r is None,
        pressed ==> r is Some,
{
    if !pressed {
        None
    } else {
        match key {
            MediaKey::PlayPause => Some(MediaEvent::PlayPause),
            MediaKey::Next => Some(MediaEvent::Next),
            MediaKey::Previous => Some(MediaEvent::Previous),
        }
    }
}

/// Whether closing the main window hides it instead of quitting.
pub open spec fn spec_hide_on_close(close_to_tray: Option<bool>, tray_active: bool) -> bool {
    let wanted = match close_to_tray {
        Some(b) => b,
        None => true,
    };
    wanted && tray_active
}

/// Whether closing the main window hides it to the tray: when the setting
/// allows it (it does unless turned off) and a tray exists to bring the
/// window back from.
pub fn should_hide_on_close(close_to_tray: Option<bool>, tray_active: bool) -> (r: bool)
    ensures
        r == spec_hide_on_close(close_to_tray, tray_active),
{
    let wanted = match close_to_tray {
        Some(b) => b,
        None => true,
    };
    wanted && tray_active
}

/// Closing never hides the window when there is no tray to reopen it from.
pub proof fn law_no_hide_without_tray(close_to_tray: Option<bool>)
    ensures
        !spec_hide_on_close(close_to_tray, false),
{
}

/// With a tray, closing hides the window unless the user turned it off.
pub proof fn law_hide_unless_turned_off(close_to_tray: Option<bool>)
    ensures
        spec_hide_on_close(close_to_tray, true) <==> close_to_tray != Some(false),
{
}

/// Every clickable item of the tray menu does something.
pub proof fn law_every_tray_item_acts()
    ensures
        forall|i: int|
            0 <= i < spec_tray_menu().len() ==> match #[trigger] spec_tray_menu()[i] {
                TrayMenuEntry::Item { id, .. } => spec_tray_action(id@) != TrayAction::Ignore,
                TrayMenuEntry::Separator => true,
            },
{
}

/// The tray's playback items and the media keys send the same events.
pub proof fn law_tray_and_keys_agree()
    ensures
        spec_tray_action("play-pause"@) == TrayAction::Emit(spec_media_key_event(MediaKey::PlayPause, true).unwrap()),
        spec_tray_action("next"@) == TrayAction::Emit(spec_media_key_event(MediaKey::Next, true).unwrap()),
        spec_tray_action("prev"@) == TrayAction::Emit(spec_media_key_event(MediaKey::Previous, true).unwrap()),
{
    reveal_strlit("play-pause");
    reveal_strlit("next");
    reveal_strlit("prev");
    assert("next"@.len() != "play-pause"@.len());
    assert("prev"@.len() != "play-pause"@.len());
    assert("prev"@[0] != "next"@[0]);
}

/// A directory the webview may load files from.
#[derive(Clone, Debug, PartialEq, Eq)]
pub struct ScopeGrant {
    pub dir: String,
    /// Whether files in subdirectories may be loaded too.
    pub recursive: bool,
}

/// What the webview may load at startup: every folder scanned before, with
/// its subfolders, and the cover cache itself. The scope is not kept
/// between sessions, so it is granted again from the stored folders.
pub fn startup_scope(folders: &Vec<String>, covers_dir: String) -> (r: Vec<ScopeGrant>)
    ensures
        r@.len() == folders@.len() + 1,
        forall|i: int| 0 <= i < folders@.len() ==> #[trigger] r@[i] == (ScopeGrant { dir: folders@[i], recursive: true }),
        r@.last() == (ScopeGrant { dir: covers_dir, recursive: false }),
{
    let mut r: Vec<ScopeGrant> = Vec::new();
    for i in 0..folders.len()
        invariant
            r@.len() == i,
            forall|k: int| 0 <= k < i ==> #[trigger] r@[k] == (ScopeGrant { dir: folders@[k], recursive: true }),
    {
        r.push(ScopeGrant { dir: folders[i].clone(), recursive: true });
    }
    r.push(ScopeGrant { dir: covers_dir, recursive: false });
    r
}

/// Releasing a media key sends nothing; pressing it sends exactly one event,
/// the one of the same name: one press of play/pause toggles playback once.
pub proof fn law_only_presses_send(key: MediaKey)
    ensures
        spec_media_key_event(key, false) is None,
        spec_media_key_event(MediaKey::PlayPause, true) == Some(MediaEvent::PlayPause),
        spec_media_key_event(MediaKey::Next, true) == Some(MediaEvent::Next),
        spec_media_key_event(MediaKey::Previous, true) == Some(MediaEvent::Previous),
{
}

/// Each tray item does what its label says.
pub proof fn law_tray_items_do_what_they_say()
    ensures
        forall|i: int|
            0 <= i < spec_tray_menu().len() ==> match #[trigger] spec_tray_menu()[i] {
                TrayMenuEntry::Item { id, label } => {
                    &&& label@ == "Play / Pause"@ ==> spec_tray_action(id@) == TrayAction::Emit(
                        MediaEvent::PlayPause,
                    )
                    &&& label@ == "Next"@ ==> spec_tray_action(id@) == TrayAction::Emit(MediaEvent::Next)
                    &&& label@ == "Previous"@ ==> spec_tray_action(id@) == TrayAction::Emit(
                        MediaEvent::Previous,
                    )
                    &&& label@ == "Show window"@ ==> spec_tray_action(id@) == TrayAction::ShowWindow
                    &&& label@ == "Quit"@ ==> spec_tray_action(id@) == TrayAction::Quit
                },
                TrayMenuEntry::Separator => true,
            },
{
    reveal_strlit("play-pause");
    reveal_strlit("next");
    reveal_strlit("prev");
    reveal_strlit("show");
    reveal_strlit("quit");
    reveal_strlit("Play / Pause");
    reveal_strlit("Next");
    reveal_strlit("Previous");
    reveal_strlit("Show window");
    reveal_strlit("Quit");
    assert("next"@.len() != "play-pause"@.len());
    assert("prev"@.len() != "play-pause"@.len());
    assert("show"@.len() != "play-pause"@.len());
    assert("quit"@.len() != "play-pause"@.len());
    assert("prev"@[0] != "next"@[0]);
    assert("show"@[0] != "next"@[0] && "show"@[0] != "prev"@[0]);
    assert("quit"@[0] != "next"@[0] && "quit"@[0] != "prev"@[0] && "quit"@[0] != "show"@[0]);
    assert("Next"@[0] != "Quit"@[0]);
    let m = spec_tray_menu();
    assert(spec_tray_action("play-pause"@) == TrayAction::Emit(MediaEvent::PlayPause));
    assert(spec_tray_action("next"@) == TrayAction::Emit(MediaEvent::Next));
    assert(spec_tray_action("prev"@) == TrayAction::Emit(MediaEvent::Previous));
    assert(spec_tray_action("show"@) == TrayAction::ShowWindow);
    assert(spec_tray_action("quit"@) == TrayAction::Quit);
    assert(m[0] == TrayMenuEntry::Item { id: "play-pause", label: "Play / Pause" });
    assert(m[1] == TrayMenuEntry::Item { id: "next", label: "Next" });
    assert(m[2] == TrayMenuEntry::Item { id: "prev", label: "Previous" });
    assert(m[3] == TrayMenuEntry::Separator);
    assert(m[4] == TrayMenuEntry::Item { id: "show", label: "Show window" });
    assert(m[5] == TrayMenuEntry::Separator);
    assert(m[6] == TrayMenuEntry::Item { id: "quit", label: "Quit" });
    assert("Play / Pause"@.len() == 12 && "Next"@.len() == 4 && "Previous"@.len() == 8);
    assert("Show window"@.len() == 11 && "Quit"@.len() == 4);
    assert forall|i: int| 0 <= i < m.len() implies match #[trigger] m[i] {
        TrayMenuEntry::Item { id, label } => {
            &&& label@ == "Play / Pause"@ ==> spec_tray_action(id@) == TrayAction::Emit(
                MediaEvent::PlayPause,
            )
            &&& label@ == "Next"@ ==> spec_tray_action(id@) == TrayAction::Emit(MediaEvent::Next)
            &&& label@ == "Previous"@ ==> spec_tray_action(id@) == TrayAction::Emit(MediaEvent::Previous)
            &&& label@ == "Show window"@ ==> spec_tray_action(id@) == TrayAction::ShowWindow
            &&& label@ == "Quit"@ ==> spec_tray_action(id@) == TrayAction::Quit
        },
        TrayMenuEntry::Separator => true,
    } by {
        if i == 0 {
        } else if i == 1 {
        } else if i == 2 {
        } else if i == 3 {
        } else if i == 4 {
        } else if i == 5 {
        } else {
            assert(i == 6);
        }
    }
}

} // verus!
