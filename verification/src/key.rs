//! Remote control keys and the Linux input event codes they are sent as.

use vstd::prelude::*;

use crate::text::{digit_char, str_eq};

verus! {

/// Remote control keys supported by the decoder.
///
/// Each variant maps to the Linux input event code sent over the HTTP API.
/// Raw `u16` codes can also be sent directly when a key is not listed here.
#[derive(Debug, Clone, Copy, PartialEq, Eq, Structural)]
pub enum Key {
    // Power
    PowerOnOff,
    // Navigation
    Validate,
    Up,
    Down,
    Left,
    Right,
    Back,
    Menu,
    // Volume
    VolumeUp,
    VolumeDown,
    Mute,
    // Channel
    ChannelUp,
    ChannelDown,
    // Playback
    Play,
    Pause,
    Stop,
    Forward,
    Rewind,
    // Numbers
    N0,
    N1,
    N2,
    N3,
    N4,
    N5,
    N6,
    N7,
    N8,
    N9,
}

/// The Linux input event code of a key.
pub open spec fn key_code(k: Key) -> u16 {
    match k {
        Key::PowerOnOff => 116,
        Key::Validate => 352,
        Key::Up => 103,
        Key::Down => 108,
        Key::Left => 105,
        Key::Right => 106,
        Key::Back => 158,
        Key::Menu => 139,
        Key::VolumeUp => 115,
        Key::VolumeDown => 114,
        Key::Mute => 113,
        Key::ChannelUp => 402,
        Key::ChannelDown => 403,
        Key::Play => 164,
        Key::Pause => 119,
        Key::Stop => 128,
        Key::Forward => 159,
        Key::Rewind => 168,
        Key::N0 => 512,
        Key::N1 => 513,
        Key::N2 => 514,
        Key::N3 => 515,
        Key::N4 => 516,
        Key::N5 => 517,
        Key::N6 => 518,
        Key::N7 => 519,
        Key::N8 => 520,
        Key::N9 => 521,
    }
}

impl From<Key> for u16 {
    fn from(val: Key) -> (code: u16) {
        match val {
            Key::PowerOnOff => 116,
            Key::Validate => 352,
            Key::Up => 103,
            Key::Down => 108,
            Key::Left => 105,
            Key::Right => 106,
            Key::Back => 158,
            Key::Menu => 139,
            Key::VolumeUp => 115,
            Key::VolumeDown => 114,
            Key::Mute => 113,
            Key::ChannelUp => 402,
            Key::ChannelDown => 403,
            Key::Play => 164,
            Key::Pause => 119,
            Key::Stop => 128,
            Key::Forward => 159,
            Key::Rewind => 168,
            Key::N0 => 512,
            Key::N1 => 513,
            Key::N2 => 514,
            Key::N3 => 515,
            Key::N4 => 516,
            Key::N5 => 517,
            Key::N6 => 518,
            Key::N7 => 519,
            Key::N8 => 520,
            Key::N9 => 521,
        }
    }
}

impl vstd::std_specs::convert::FromSpecImpl<Key> for u16 {
    open spec fn obeys_from_spec() -> bool {
        true
    }

    open spec fn from_spec(v: Key) -> u16 {
        key_code(v)
    }
}

/// The key that the remote-control web page names `name`, if any.
pub open spec fn name_key(name: Seq<char>) -> Option<Key> {
    if name == "power"@ {
        Some(Key::PowerOnOff)
    } else if name == "ok"@ {
        Some(Key::Validate)
    } else if name == "up"@ {
        Some(Key::Up)
    } else if name == "down"@ {
        Some(Key::Down)
    } else if name == "left"@ {
        Some(Key::Left)
    } else if name == "right"@ {
        Some(Key::Right)
    } else if name == "back"@ {
        Some(Key::Back)
    } else if name == "menu"@ {
        Some(Key::Menu)
    } else if name == "vol_up"@ {
        Some(Key::VolumeUp)
    } else if name == "vol_down"@ {
        Some(Key::VolumeDown)
    } else if name == "mute"@ {
        Some(Key::Mute)
    } else if name == "ch_up"@ {
        Some(Key::ChannelUp)
    } else if name == "ch_down"@ {
        Some(Key::ChannelDown)
    } else if name == "play"@ {
        Some(Key::Play)
    } else if name == "pause"@ {
        Some(Key::Pause)
    } else if name == "stop"@ {
        Some(Key::Stop)
    } else if name == "forward"@ {
        Some(Key::Forward)
    } else if name == "rewind"@ {
        Some(Key::Rewind)
    } else if name == "n0"@ {
        Some(Key::N0)
    } else if name == "n1"@ {
        Some(Key::N1)
    } else if name == "n2"@ {
        Some(Key::N2)
    } else if name == "n3"@ {
        Some(Key::N3)
    } else if name == "n4"@ {
        Some(Key::N4)
    } else if name == "n5"@ {
        Some(Key::N5)
    } else if name == "n6"@ {
        Some(Key::N6)
    } else if name == "n7"@ {
        Some(Key::N7)
    } else if name == "n8"@ {
        Some(Key::N8)
    } else if name == "n9"@ {
        Some(Key::N9)
    } else {
        None
    }
}

/// The name of a key on the remote-control web page.
pub open spec fn key_name(k: Key) -> Seq<char> {
    match k {
        Key::PowerOnOff => "power"@,
        Key::Validate => "ok"@,
        Key::Up => "up"@,
        Key::Down => "down"@,
        Key::Left => "left"@,
        Key::Right => "right"@,
        Key::Back => "back"@,
        Key::Menu => "menu"@,
        Key::VolumeUp => "vol_up"@,
        Key::VolumeDown => "vol_down"@,
        Key::Mute => "mute"@,
        Key::ChannelUp => "ch_up"@,
        Key::ChannelDown => "ch_down"@,
        Key::Play => "play"@,
        Key::Pause => "pause"@,
        Key::Stop => "stop"@,
        Key::Forward => "forward"@,
        Key::Rewind => "rewind"@,
        Key::N0 => "n0"@,
        Key::N1 => "n1"@,
        Key::N2 => "n2"@,
        Key::N3 => "n3"@,
        Key::N4 => "n4"@,
        Key::N5 => "n5"@,
        Key::N6 => "n6"@,
        Key::N7 => "n7"@,
        Key::N8 => "n8"@,
        Key::N9 => "n9"@,
    }
}

impl Key {
    /// The key that the remote-control web page names `name`, if any.
    pub fn from_name(name: &str) -> (key: Option<Key>)
        ensures
            key == name_key(name@),
    {
        if str_eq(name, "power") {
            return Some(Key::PowerOnOff);
        }
        if str_eq(name, "ok") {
            return Some(Key::Validate);
        }
        if str_eq(name, "up") {
            return Some(Key::Up);
        }
        if str_eq(name, "down") {
            return Some(Key::Down);
        }
        if str_eq(name, "left") {
            return Some(Key::Left);
        }
        if str_eq(name, "right") {
            return Some(Key::Right);
        }
        if str_eq(name, "back") {
            return Some(Key::Back);
        }
        if str_eq(name, "menu") {
            return Some(Key::Menu);
        }
        if str_eq(name, "vol_up") {
            return Some(Key::VolumeUp);
        }
        if str_eq(name, "vol_down") {
            return Some(Key::VolumeDown);
        }
        if str_eq(name, "mute") {
            return Some(Key::Mute);
        }
        if str_eq(name, "ch_up") {
            return Some(Key::ChannelUp);
        }
        if str_eq(name, "ch_down") {
            return Some(Key::ChannelDown);
        }
        if str_eq(name, "play") {
            return Some(Key::Play);
        }
        if str_eq(name, "pause") {
            return Some(Key::Pause);
        }
        if str_eq(name, "stop") {
            return Some(Key::Stop);
        }
        if str_eq(name, "forward") {
            return Some(Key::Forward);
        }
        if str_eq(name, "rewind") {
            return Some(Key::Rewind);
        }
        if str_eq(name, "n0") {
            return Some(Key::N0);
        }
        if str_eq(name, "n1") {
            return Some(Key::N1);
        }
        if str_eq(name, "n2") {
            return Some(Key::N2);
        }
        if str_eq(name, "n3") {
            return Some(Key::N3);
        }
        if str_eq(name, "n4") {
            return Some(Key::N4);
        }
        if str_eq(name, "n5") {
            return Some(Key::N5);
        }
        if str_eq(name, "n6") {
            return Some(Key::N6);
        }
        if str_eq(name, "n7") {
            return Some(Key::N7);
        }
        if str_eq(name, "n8") {
            return Some(Key::N8);
        }
        if str_eq(name, "n9") {
            return Some(Key::N9);
        }
        None
    }
}

/// The characters of the key names of the remote-control web page.
pub(crate) proof fn lemma_key_name_literals()
    ensures
        "power"@.len() == 5 && "power"@[0] == 'p' && "power"@[1] == 'o' && "power"@[2] == 'w' && "power"@[3] == 'e' && "power"@[4] == 'r',
        "ok"@.len() == 2 && "ok"@[0] == 'o' && "ok"@[1] == 'k',
        "up"@.len() == 2 && "up"@[0] == 'u' && "up"@[1] == 'p',
        "down"@.len() == 4 && "down"@[0] == 'd' && "down"@[1] == 'o' && "down"@[2] == 'w' && "down"@[3] == 'n',
        "left"@.len() == 4 && "left"@[0] == 'l' && "left"@[1] == 'e' && "left"@[2] == 'f' && "left"@[3] == 't',
        "right"@.len() == 5 && "right"@[0] == 'r' && "right"@[1] == 'i' && "right"@[2] == 'g' && "right"@[3] == 'h' && "right"@[4] == 't',
        "back"@.len() == 4 && "back"@[0] == 'b' && "back"@[1] == 'a' && "back"@[2] == 'c' && "back"@[3] == 'k',
        "menu"@.len() == 4 && "menu"@[0] == 'm' && "menu"@[1] == 'e' && "menu"@[2] == 'n' && "menu"@[3] == 'u',
        "vol_up"@.len() == 6 && "vol_up"@[0] == 'v' && "vol_up"@[1] == 'o' && "vol_up"@[2] == 'l' && "vol_up"@[3] == '_' && "vol_up"@[4] == 'u' && "vol_up"@[5] == 'p',
        "vol_down"@.len() == 8 && "vol_down"@[0] == 'v' && "vol_down"@[1] == 'o' && "vol_down"@[2] == 'l' && "vol_down"@[3] == '_' && "vol_down"@[4] == 'd' && "vol_down"@[5] == 'o' && "vol_down"@[6] == 'w' && "vol_down"@[7] == 'n',
        "mute"@.len() == 4 && "mute"@[0] == 'm' && "mute"@[1] == 'u' && "mute"@[2] == 't' && "mute"@[3] == 'e',
        "ch_up"@.len() == 5 && "ch_up"@[0] == 'c' && "ch_up"@[1] == 'h' && "ch_up"@[2] == '_' && "ch_up"@[3] == 'u' && "ch_up"@[4] == 'p',
        "ch_down"@.len() == 7 && "ch_down"@[0] == 'c' && "ch_down"@[1] == 'h' && "ch_down"@[2] == '_' && "ch_down"@[3] == 'd' && "ch_down"@[4] == 'o' && "ch_down"@[5] == 'w' && "ch_down"@[6] == 'n',
        "play"@.len() == 4 && "play"@[0] == 'p' && "play"@[1] == 'l' && "play"@[2] == 'a' && "play"@[3] == 'y',
        "pause"@.len() == 5 && "pause"@[0] == 'p' && "pause"@[1] == 'a' && "pause"@[2] == 'u' && "pause"@[3] == 's' && "pause"@[4] == 'e',
        "stop"@.len() == 4 && "stop"@[0] == 's' && "stop"@[1] == 't' && "stop"@[2] == 'o' && "stop"@[3] == 'p',
        "forward"@.len() == 7 && "forward"@[0] == 'f' && "forward"@[1] == 'o' && "forward"@[2] == 'r' && "forward"@[3] == 'w' && "forward"@[4] == 'a' && "forward"@[5] == 'r' && "forward"@[6] == 'd',
        "rewind"@.len() == 6 && "rewind"@[0] == 'r' && "rewind"@[1] == 'e' && "rewind"@[2] == 'w' && "rewind"@[3] == 'i' && "rewind"@[4] == 'n' && "rewind"@[5] == 'd',
        "n0"@.len() == 2 && "n0"@[0] == 'n' && "n0"@[1] == '0',
        "n1"@.len() == 2 && "n1"@[0] == 'n' && "n1"@[1] == '1',
        "n2"@.len() == 2 && "n2"@[0] == 'n' && "n2"@[1] == '2',
        "n3"@.len() == 2 && "n3"@[0] == 'n' && "n3"@[1] == '3',
        "n4"@.len() == 2 && "n4"@[0] == 'n' && "n4"@[1] == '4',
        "n5"@.len() == 2 && "n5"@[0] == 'n' && "n5"@[1] == '5',
        "n6"@.len() == 2 && "n6"@[0] == 'n' && "n6"@[1] == '6',
        "n7"@.len() == 2 && "n7"@[0] == 'n' && "n7"@[1] == '7',
        "n8"@.len() == 2 && "n8"@[0] == 'n' && "n8"@[1] == '8',
        "n9"@.len() == 2 && "n9"@[0] == 'n' && "n9"@[1] == '9',
{
    reveal_strlit("power");
    reveal_strlit("ok");
    reveal_strlit("up");
    reveal_strlit("down");
    reveal_strlit("left");
    reveal_strlit("right");
    reveal_strlit("back");
    reveal_strlit("menu");
    reveal_strlit("vol_up");
    reveal_strlit("vol_down");
    reveal_strlit("mute");
    reveal_strlit("ch_up");
    reveal_strlit("ch_down");
    reveal_strlit("play");
    reveal_strlit("pause");
    reveal_strlit("stop");
    reveal_strlit("forward");
    reveal_strlit("rewind");
    reveal_strlit("n0");
    reveal_strlit("n1");
    reveal_strlit("n2");
    reveal_strlit("n3");
    reveal_strlit("n4");
    reveal_strlit("n5");
    reveal_strlit("n6");
    reveal_strlit("n7");
    reveal_strlit("n8");
    reveal_strlit("n9");
}

/// Every key can be requested by its name on the remote-control web page.
pub proof fn lemma_key_name_round_trip(k: Key)
    ensures
        name_key(key_name(k)) == Some(k),
{
    lemma_key_name_literals();
    match k {
        Key::PowerOnOff => {},
        Key::Validate => {},
        Key::Up => {},
        Key::Down => {},
        Key::Left => {},
        Key::Right => {},
        Key::Back => {},
        Key::Menu => {},
        Key::VolumeUp => {},
        Key::VolumeDown => {},
        Key::Mute => {},
        Key::ChannelUp => {},
        Key::ChannelDown => {},
        Key::Play => {},
        Key::Pause => {},
        Key::Stop => {},
        Key::Forward => {},
        Key::Rewind => {},
        Key::N0 => {},
        Key::N1 => {},
        Key::N2 => {},
        Key::N3 => {},
        Key::N4 => {},
        Key::N5 => {},
        Key::N6 => {},
        Key::N7 => {},
        Key::N8 => {},
        Key::N9 => {},
    }
}

/// The digit keys are sent as consecutive codes from 512: the key that the
/// remote-control web page names `n{d}` is sent as `512 + d`.
pub proof fn lemma_digit_key_codes(d: nat)
    requires
        d < 10,
    ensures
        name_key(seq!['n', digit_char(d)]) matches Some(k) && key_code(k) == 512 + d,
{
    lemma_key_name_literals();
    let name = seq!['n', digit_char(d)];
    if d == 0 {
        assert(name =~= "n0"@);
    }
    if d == 1 {
        assert(name =~= "n1"@);
    }
    if d == 2 {
        assert(name =~= "n2"@);
    }
    if d == 3 {
        assert(name =~= "n3"@);
    }
    if d == 4 {
        assert(name =~= "n4"@);
    }
    if d == 5 {
        assert(name =~= "n5"@);
    }
    if d == 6 {
        assert(name =~= "n6"@);
    }
    if d == 7 {
        assert(name =~= "n7"@);
    }
    if d == 8 {
        assert(name =~= "n8"@);
    }
    if d == 9 {
        assert(name =~= "n9"@);
    }
}

/// The codes keep the layout of the Linux input event table: mute, volume
/// down, volume up and power are consecutive; up, left, right and down are
/// spaced 2, 1, 2 apart; channel down follows channel up; the validation
/// key is the table's `OK` key, 352.
pub proof fn lemma_key_code_layout()
    ensures
        key_code(Key::VolumeDown) == key_code(Key::Mute) + 1,
        key_code(Key::VolumeUp) == key_code(Key::VolumeDown) + 1,
        key_code(Key::PowerOnOff) == key_code(Key::VolumeUp) + 1,
        key_code(Key::Left) == key_code(Key::Up) + 2,
        key_code(Key::Right) == key_code(Key::Left) + 1,
        key_code(Key::Down) == key_code(Key::Right) + 2,
        key_code(Key::ChannelDown) == key_code(Key::ChannelUp) + 1,
        key_code(Key::Validate) == 352,
        key_code(Key::Mute) == 113,
        key_code(Key::Up) == 103,
        key_code(Key::ChannelUp) == 402,
{
}

/// Distinct keys are sent as distinct codes: the decoder can always tell
/// which key was meant.
pub proof fn lemma_key_code_injective(a: Key, b: Key)
    ensures
        key_code(a) == key_code(b) <==> a == b,
{
}

} // verus!
