//! Remote control keys grouped by family (power, navigation, volume,
//! channel, playback, numbers).

use vstd::prelude::*;

use super::Key;
use crate::key::{key_code, key_name, Key as FlatKey};
use crate::text::digit_char;

verus! {

// -------- Power --------

/// The power button.
#[derive(Debug, Clone, Copy, PartialEq, Eq, Structural)]
pub enum Power {
    OnOff,
}

/// The flat key that a power key stands for.
pub open spec fn power_key(k: Power) -> FlatKey {
    match k {
        Power::OnOff => FlatKey::PowerOnOff,
    }
}

/// The code of a power key.
pub open spec fn power_code(k: Power) -> u16 {
    match k {
        Power::OnOff => 116,
    }
}

impl Key for Power {
    fn get_code(&self) -> (code: u16)
        ensures
            code == power_code(*self),
    {
        match self {
            Power::OnOff => 116,
        }
    }
}

// -------- Navigation --------

/// Navigation keys: the arrows, the validation key, back and menu.
#[derive(Debug, Clone, Copy, PartialEq, Eq, Structural)]
pub enum Navigation {
    Validate,
    Up,
    Down,
    Left,
    Right,
    Back,
    Menu,
}

/// The flat key that a navigation key stands for.
pub open spec fn navigation_key(k: Navigation) -> FlatKey {
    match k {
        Navigation::Validate => FlatKey::Validate,
        Navigation::Up => FlatKey::Up,
        Navigation::Down => FlatKey::Down,
        Navigation::Left => FlatKey::Left,
        Navigation::Right => FlatKey::Right,
        Navigation::Back => FlatKey::Back,
        Navigation::Menu => FlatKey::Menu,
    }
}

/// The code of a navigation key.
pub open spec fn navigation_code(k: Navigation) -> u16 {
    match k {
        Navigation::Validate => 352,
        Navigation::Up => 103,
        Navigation::Down => 108,
        Navigation::Left => 105,
        Navigation::Right => 106,
        Navigation::Back => 158,
        Navigation::Menu => 139,
    }
}

impl Key for Navigation {
    fn get_code(&self) -> (code: u16)
        ensures
            code == navigation_code(*self),
    {
        match self {
            Navigation::Validate => 352,
            Navigation::Up => 103,
            Navigation::Down => 108,
            Navigation::Left => 105,
            Navigation::Right => 106,
            Navigation::Back => 158,
            Navigation::Menu => 139,
        }
    }
}

// -------- Volume --------

/// Volume keys.
#[derive(Debug, Clone, Copy, PartialEq, Eq, Structural)]
pub enum Volume {
    Up,
    Down,
    Mute,
}

/// The flat key that a volume key stands for.
pub open spec fn volume_key(k: Volume) -> FlatKey {
    match k {
        Volume::Up => FlatKey::VolumeUp,
        Volume::Down => FlatKey::VolumeDown,
        Volume::Mute => FlatKey::Mute,
    }
}

/// The code of a volume key.
pub open spec fn volume_code(k: Volume) -> u16 {
    match k {
        Volume::Up => 115,
        Volume::Down => 114,
        Volume::Mute => 113,
    }
}

impl Key for Volume {
    fn get_code(&self) -> (code: u16)
        ensures
            code == volume_code(*self),
    {
        match self {
            Volume::Up => 115,
            Volume::Down => 114,
            Volume::Mute => 113,
        }
    }
}

// -------- Channel --------

/// Channel keys.
#[derive(Debug, Clone, Copy, PartialEq, Eq, Structural)]
pub enum Channel {
    Up,
    Down,
}

/// The flat key that a channel key stands for.
pub open spec fn channel_key(k: Channel) -> FlatKey {
    match k {
        Channel::Up => FlatKey::ChannelUp,
        Channel::Down => FlatKey::ChannelDown,
    }
}

/// The code of a channel key.
pub open spec fn channel_code(k: Channel) -> u16 {
    match k {
        Channel::Up => 402,
        Channel::Down => 403,
    }
}

impl Key for Channel {
    fn get_code(&self) -> (code: u16)
        ensures
            code == channel_code(*self),
    {
        match self {
            Channel::Up => 402,
            Channel::Down => 403,
        }
    }
}

// -------- Playback --------

/// Playback keys.
#[derive(Debug, Clone, Copy, PartialEq, Eq, Structural)]
pub enum Playback {
    Play,
    Pause,
    Stop,
    Forward,
    Rewind,
}

/// The flat key that a playback key stands for.
pub open spec fn playback_key(k: Playback) -> FlatKey {
    match k {
        Playback::Play => FlatKey::Play,
        Playback::Pause => FlatKey::Pause,
        Playback::Stop => FlatKey::Stop,
        Playback::Forward => FlatKey::Forward,
        Playback::Rewind => FlatKey::Rewind,
    }
}

/// The code of a playback key.
pub open spec fn playback_code(k: Playback) -> u16 {
    match k {
        Playback::Play => 164,
        Playback::Pause => 119,
        Playback::Stop => 128,
        Playback::Forward => 159,
        Playback::Rewind => 168,
    }
}

impl Key for Playback {
    fn get_code(&self) -> (code: u16)
        ensures
            code == playback_code(*self),
    {
        match self {
            Playback::Play => 164,
            Playback::Pause => 119,
            Playback::Stop => 128,
            Playback::Forward => 159,
            Playback::Rewind => 168,
        }
    }
}

// -------- Numbers --------

/// Digit keys.
#[derive(Debug, Clone, Copy, PartialEq, Eq, Structural)]
pub enum Number {
    N0,
    N1,
    N2,
    N3,
    N4,
    N5,
    N6,
    N7,
    N8,
    N9,
}

/// The flat key that a digit key stands for.
pub open spec fn number_key(k: Number) -> FlatKey {
    match k {
        Number::N0 => FlatKey::N0,
        Number::N1 => FlatKey::N1,
        Number::N2 => FlatKey::N2,
        Number::N3 => FlatKey::N3,
        Number::N4 => FlatKey::N4,
        Number::N5 => FlatKey::N5,
        Number::N6 => FlatKey::N6,
        Number::N7 => FlatKey::N7,
        Number::N8 => FlatKey::N8,
        Number::N9 => FlatKey::N9,
    }
}

/// The code of a digit key.
pub open spec fn number_code(k: Number) -> u16 {
    match k {
        Number::N0 => 512,
        Number::N1 => 513,
        Number::N2 => 514,
        Number::N3 => 515,
        Number::N4 => 516,
        Number::N5 => 517,
        Number::N6 => 518,
        Number::N7 => 519,
        Number::N8 => 520,
        Number::N9 => 521,
    }
}

impl Key for Number {
    fn get_code(&self) -> (code: u16)
        ensures
            code == number_code(*self),
    {
        match self {
            Number::N0 => 512,
            Number::N1 => 513,
            Number::N2 => 514,
            Number::N3 => 515,
            Number::N4 => 516,
            Number::N5 => 517,
            Number::N6 => 518,
            Number::N7 => 519,
            Number::N8 => 520,
            Number::N9 => 521,
        }
    }
}

/// The digit keys are sent as consecutive codes from 512: the digit key
/// whose flat key the web page names `n{d}` is sent as `512 + d`.
pub proof fn lemma_number_codes_by_digit(n: Number)
    ensures
        512 <= number_code(n) < 522,
        key_name(number_key(n)) == seq!['n', digit_char((number_code(n) - 512) as nat)],
{
    crate::key::lemma_key_name_literals();
    let name = key_name(number_key(n));
    assert(name =~= seq!['n', digit_char((number_code(n) - 512) as nat)]);
}

/// Every grouped key is sent with the same code as the flat key of the
/// same name: the two key sets agree on the wire.
pub proof fn lemma_grouped_codes_agree(
    p: Power,
    n: Navigation,
    v: Volume,
    c: Channel,
    b: Playback,
    d: Number,
)
    ensures
        power_code(p) == key_code(power_key(p)),
        navigation_code(n) == key_code(navigation_key(n)),
        volume_code(v) == key_code(volume_key(v)),
        channel_code(c) == key_code(channel_key(c)),
        playback_code(b) == key_code(playback_key(b)),
        number_code(d) == key_code(number_key(d)),
{
}

} // verus!
