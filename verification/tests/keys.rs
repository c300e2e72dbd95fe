use dtiw385::enums::keys::key::{Channel, Navigation, Number, Playback, Power, Volume};
use dtiw385::enums::keys::Key as KeyCode;
use dtiw385::key::Key;

fn code(k: Key) -> u16 {
    k.into()
}

#[test]
fn flat_key_codes() {
    assert_eq!(code(Key::PowerOnOff), 116);
    assert_eq!(code(Key::Validate), 352);
    assert_eq!(code(Key::Up), 103);
    assert_eq!(code(Key::Down), 108);
    assert_eq!(code(Key::Left), 105);
    assert_eq!(code(Key::Right), 106);
    assert_eq!(code(Key::Back), 158);
    assert_eq!(code(Key::Menu), 139);
    assert_eq!(code(Key::VolumeUp), 115);
    assert_eq!(code(Key::VolumeDown), 114);
    assert_eq!(code(Key::Mute), 113);
    assert_eq!(code(Key::ChannelUp), 402);
    assert_eq!(code(Key::ChannelDown), 403);
    assert_eq!(code(Key::Play), 164);
    assert_eq!(code(Key::Pause), 119);
    assert_eq!(code(Key::Stop), 128);
    assert_eq!(code(Key::Forward), 159);
    assert_eq!(code(Key::Rewind), 168);
    assert_eq!(code(Key::N0), 512);
    assert_eq!(code(Key::N5), 517);
    assert_eq!(code(Key::N9), 521);
}

#[test]
fn flat_key_codes_are_distinct() {
    let all = [
        Key::PowerOnOff, Key::Validate, Key::Up, Key::Down, Key::Left, Key::Right, Key::Back,
        Key::Menu, Key::VolumeUp, Key::VolumeDown, Key::Mute, Key::ChannelUp, Key::ChannelDown,
        Key::Play, Key::Pause, Key::Stop, Key::Forward, Key::Rewind, Key::N0, Key::N1, Key::N2,
        Key::N3, Key::N4, Key::N5, Key::N6, Key::N7, Key::N8, Key::N9,
    ];
    for (i, a) in all.iter().enumerate() {
        for (j, b) in all.iter().enumerate() {
            assert_eq!(i == j, code(*a) == code(*b));
        }
    }
}

#[test]
fn grouped_key_codes() {
    assert_eq!(Power::OnOff.get_code(), 116);
    assert_eq!(Navigation::Validate.get_code(), 352);
    assert_eq!(Navigation::Menu.get_code(), 139);
    assert_eq!(Volume::Mute.get_code(), 113);
    assert_eq!(Channel::Down.get_code(), 403);
    assert_eq!(Playback::Rewind.get_code(), 168);
    assert_eq!(Number::N7.get_code(), 519);
}

#[test]
fn grouped_codes_agree_with_flat_codes() {
    assert_eq!(Power::OnOff.get_code(), code(Key::PowerOnOff));
    assert_eq!(Navigation::Up.get_code(), code(Key::Up));
    assert_eq!(Volume::Up.get_code(), code(Key::VolumeUp));
    assert_eq!(Channel::Up.get_code(), code(Key::ChannelUp));
    assert_eq!(Playback::Pause.get_code(), code(Key::Pause));
    assert_eq!(Number::N3.get_code(), code(Key::N3));
}

#[test]
fn every_key_has_a_name() {
    let named = [
        ("power", Key::PowerOnOff), ("ok", Key::Validate), ("up", Key::Up), ("down", Key::Down),
        ("left", Key::Left), ("right", Key::Right), ("back", Key::Back), ("menu", Key::Menu),
        ("vol_up", Key::VolumeUp), ("vol_down", Key::VolumeDown), ("mute", Key::Mute),
        ("ch_up", Key::ChannelUp), ("ch_down", Key::ChannelDown), ("play", Key::Play),
        ("pause", Key::Pause), ("stop", Key::Stop), ("forward", Key::Forward),
        ("rewind", Key::Rewind), ("n0", Key::N0), ("n1", Key::N1), ("n2", Key::N2),
        ("n3", Key::N3), ("n4", Key::N4), ("n5", Key::N5), ("n6", Key::N6), ("n7", Key::N7),
        ("n8", Key::N8), ("n9", Key::N9),
    ];
    for (name, key) in named {
        assert_eq!(Key::from_name(name), Some(key));
    }
}

#[test]
fn keys_by_name() {
    assert_eq!(Key::from_name("power"), Some(Key::PowerOnOff));
    assert_eq!(Key::from_name("ok"), Some(Key::Validate));
    assert_eq!(Key::from_name("vol_down"), Some(Key::VolumeDown));
    assert_eq!(Key::from_name("ch_up"), Some(Key::ChannelUp));
    assert_eq!(Key::from_name("n0"), Some(Key::N0));
    assert_eq!(Key::from_name("n9"), Some(Key::N9));
    assert_eq!(Key::from_name(""), None);
    assert_eq!(Key::from_name("Power"), None);
    assert_eq!(Key::from_name("n10"), None);
    assert_eq!(Key::from_name("unknown"), None);
}
