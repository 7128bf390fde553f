//! The abstract key vocabulary and its per-vendor tables.
use vstd::prelude::*;
use crate::json::needs_no_escape;
use crate::text::same_text;

verus! {

/// The abstract keys a caller can press.
#[derive(Clone, Copy, Debug, PartialEq, Eq, Structural)]
pub enum RemoteKey {
    VolUp,
    VolDown,
    Mute,
    ChUp,
    ChDown,
    Power,
    Up,
    Down,
    Left,
    Right,
    Enter,
    Back,
    Home,
    Menu,
    Source,
}

/// The key that `name` denotes, if it is one of the vocabulary.
pub open spec fn key_named(name: Seq<char>) -> Option<RemoteKey> {
    if name == "VOL_UP"@ {
        Some(RemoteKey::VolUp)
    } else if name == "VOL_DOWN"@ {
        Some(RemoteKey::VolDown)
    } else if name == "MUTE"@ {
        Some(RemoteKey::Mute)
    } else if name == "CH_UP"@ {
        Some(RemoteKey::ChUp)
    } else if name == "CH_DOWN"@ {
        Some(RemoteKey::ChDown)
    } else if name == "POWER"@ {
        Some(RemoteKey::Power)
    } else if name == "UP"@ {
        Some(RemoteKey::Up)
    } else if name == "DOWN"@ {
        Some(RemoteKey::Down)
    } else if name == "LEFT"@ {
        Some(RemoteKey::Left)
    } else if name == "RIGHT"@ {
        Some(RemoteKey::Right)
    } else if name == "OK"@ {
        Some(RemoteKey::Enter)
    } else if name == "BACK"@ {
        Some(RemoteKey::Back)
    } else if name == "HOME"@ {
        Some(RemoteKey::Home)
    } else if name == "MENU"@ {
        Some(RemoteKey::Menu)
    } else if name == "SOURCE"@ {
        Some(RemoteKey::Source)
    } else {
        None
    }
}

/// The Samsung key code sent for a name outside the vocabulary.
pub open spec fn samsung_default_code() -> Seq<char> {
    "KEY_VOLDOWN"@
}

/// The LG command URI sent for a name outside the vocabulary.
pub open spec fn lg_default_uri() -> Seq<char> {
    "ssap://audio/volumeUp"@
}

/// The Samsung key code for key name `name`.
pub open spec fn samsung_code_for(name: Seq<char>) -> Seq<char> {
    match key_named(name) {
        Some(k) => k.spec_samsung_code(),
        None => samsung_default_code(),
    }
}

/// The LG command URI for key name `name`.
pub open spec fn lg_uri_for(name: Seq<char>) -> Seq<char> {
    match key_named(name) {
        Some(k) => k.spec_lg_uri(),
        None => lg_default_uri(),
    }
}

impl RemoteKey {
    /// The key that `name` denotes, if any.
    pub fn from_name(name: &str) -> (r: Option<RemoteKey>)
        ensures
            r == key_named(name@),
    {
        if same_text(name, "VOL_UP") {
            Some(RemoteKey::VolUp)
        } else if same_text(name, "VOL_DOWN") {
            Some(RemoteKey::VolDown)
        } else if same_text(name, "MUTE") {
            Some(RemoteKey::Mute)
        } else if same_text(name, "CH_UP") {
            Some(RemoteKey::ChUp)
        } else if same_text(name, "CH_DOWN") {
            Some(RemoteKey::ChDown)
        } else if same_text(name, "POWER") {
            Some(RemoteKey::Power)
        } else if same_text(name, "UP") {
            Some(RemoteKey::Up)
        } else if same_text(name, "DOWN") {
            Some(RemoteKey::Down)
        } else if same_text(name, "LEFT") {
            Some(RemoteKey::Left)
        } else if same_text(name, "RIGHT") {
            Some(RemoteKey::Right)
        } else if same_text(name, "OK") {
            Some(RemoteKey::Enter)
        } else if same_text(name, "BACK") {
            Some(RemoteKey::Back)
        } else if same_text(name, "HOME") {
            Some(RemoteKey::Home)
        } else if same_text(name, "MENU") {
            Some(RemoteKey::Menu)
        } else if same_text(name, "SOURCE") {
            Some(RemoteKey::Source)
        } else {
            None
        }
    }

    pub open spec fn spec_samsung_code(self) -> Seq<char> {
        match self {
            RemoteKey::VolUp => "KEY_VOLUP"@,
            RemoteKey::VolDown => "KEY_VOLDOWN"@,
            RemoteKey::Mute => "KEY_MUTE"@,
            RemoteKey::ChUp => "KEY_CHUP"@,
            RemoteKey::ChDown => "KEY_CHDOWN"@,
            RemoteKey::Power => "KEY_POWER"@,
            RemoteKey::Up => "KEY_UP"@,
            RemoteKey::Down => "KEY_DOWN"@,
            RemoteKey::Left => "KEY_LEFT"@,
            RemoteKey::Right => "KEY_RIGHT"@,
            RemoteKey::Enter => "KEY_ENTER"@,
            RemoteKey::Back => "KEY_RETURN"@,
            RemoteKey::Home => "KEY_HOME"@,
            RemoteKey::Menu => "KEY_MENU"@,
            RemoteKey::Source => "KEY_SOURCE"@,
        }
    }

    /// The Samsung (Tizen) key code of this key.
    pub fn samsung_code(self) -> (r: &'static str)
        ensures
            r@ == self.spec_samsung_code(),
    {
        match self {
            RemoteKey::VolUp => "KEY_VOLUP",
            RemoteKey::VolDown => "KEY_VOLDOWN",
            RemoteKey::Mute => "KEY_MUTE",
            RemoteKey::ChUp => "KEY_CHUP",
            RemoteKey::ChDown => "KEY_CHDOWN",
            RemoteKey::Power => "KEY_POWER",
            RemoteKey::Up => "KEY_UP",
            RemoteKey::Down => "KEY_DOWN",
            RemoteKey::Left => "KEY_LEFT",
            RemoteKey::Right => "KEY_RIGHT",
            RemoteKey::Enter => "KEY_ENTER",
            RemoteKey::Back => "KEY_RETURN",
            RemoteKey::Home => "KEY_HOME",
            RemoteKey::Menu => "KEY_MENU",
            RemoteKey::Source => "KEY_SOURCE",
        }
    }

    pub open spec fn spec_lg_uri(self) -> Seq<char> {
        match self {
            RemoteKey::VolUp => "ssap://audio/volumeUp"@,
            RemoteKey::VolDown => "ssap://audio/volumeDown"@,
            RemoteKey::Mute => "ssap://audio/setMute"@,
            RemoteKey::ChUp => "ssap://tv/channelUp"@,
            RemoteKey::ChDown => "ssap://tv/channelDown"@,
            RemoteKey::Power => "ssap://system/turnOff"@,
            RemoteKey::Up => "ssap://input/button?name=UP"@,
            RemoteKey::Down => "ssap://input/button?name=DOWN"@,
            RemoteKey::Left => "ssap://input/button?name=LEFT"@,
            RemoteKey::Right => "ssap://input/button?name=RIGHT"@,
            RemoteKey::Enter => "ssap://input/button?name=ENTER"@,
            RemoteKey::Back => "ssap://input/button?name=BACK"@,
            RemoteKey::Home => "ssap://system/launcher/open"@,
            RemoteKey::Menu => "ssap://com.webos.applicationManager/launch"@,
            RemoteKey::Source => "ssap://tv/openInputPicker"@,
        }
    }

    /// The LG (webOS) command URI of this key.
    pub fn lg_uri(self) -> (r: &'static str)
        ensures
            r@ == self.spec_lg_uri(),
    {
        match self {
            RemoteKey::VolUp => "ssap://audio/volumeUp",
            RemoteKey::VolDown => "ssap://audio/volumeDown",
            RemoteKey::Mute => "ssap://audio/setMute",
            RemoteKey::ChUp => "ssap://tv/channelUp",
            RemoteKey::ChDown => "ssap://tv/channelDown",
            RemoteKey::Power => "ssap://system/turnOff",
            RemoteKey::Up => "ssap://input/button?name=UP",
            RemoteKey::Down => "ssap://input/button?name=DOWN",
            RemoteKey::Left => "ssap://input/button?name=LEFT",
            RemoteKey::Right => "ssap://input/button?name=RIGHT",
            RemoteKey::Enter => "ssap://input/button?name=ENTER",
            RemoteKey::Back => "ssap://input/button?name=BACK",
            RemoteKey::Home => "ssap://system/launcher/open",
            RemoteKey::Menu => "ssap://com.webos.applicationManager/launch",
            RemoteKey::Source => "ssap://tv/openInputPicker",
        }
    }
}

/// The Samsung key code for key name `name`; a name outside the vocabulary
/// gets the default code.
pub fn samsung_key_code(name: &str) -> (r: &'static str)
    ensures
        r@ == samsung_code_for(name@),
{
    match RemoteKey::from_name(name) {
        Some(k) => k.samsung_code(),
        None => "KEY_VOLDOWN",
    }
}

/// The LG command URI for key name `name`; a name outside the vocabulary
/// gets the default URI.
pub fn lg_command_uri(name: &str) -> (r: &'static str)
    ensures
        r@ == lg_uri_for(name@),
{
    match RemoteKey::from_name(name) {
        Some(k) => k.lg_uri(),
        None => "ssap://audio/volumeUp",
    }
}

/// Unknown key names fall back to the default entry of each table.
pub proof fn lemma_unknown_key_defaults(name: Seq<char>)
    requires
        key_named(name) is None,
    ensures
        samsung_code_for(name) == "KEY_VOLDOWN"@,
        lg_uri_for(name) == "ssap://audio/volumeUp"@,
{
}

/// Every Samsung key code is plain text that JSON writes without escapes.
pub proof fn lemma_samsung_codes_plain(name: Seq<char>)
    ensures
        needs_no_escape(samsung_code_for(name)),
{
    reveal_strlit("KEY_VOLUP");
    reveal_strlit("KEY_VOLDOWN");
    reveal_strlit("KEY_MUTE");
    reveal_strlit("KEY_CHUP");
    reveal_strlit("KEY_CHDOWN");
    reveal_strlit("KEY_POWER");
    reveal_strlit("KEY_UP");
    reveal_strlit("KEY_DOWN");
    reveal_strlit("KEY_LEFT");
    reveal_strlit("KEY_RIGHT");
    reveal_strlit("KEY_ENTER");
    reveal_strlit("KEY_RETURN");
    reveal_strlit("KEY_HOME");
    reveal_strlit("KEY_MENU");
    reveal_strlit("KEY_SOURCE");
}

} // verus!
