use dtiw385::decoder::Decoder;
use dtiw385::enums::keys::key::Power;
use dtiw385::enums::keys::Key as KeyCode;
use dtiw385::commands::cmd::generate_url;
use dtiw385::commands::enums::mode::Mode;
use dtiw385::commands::enums::operation::Operation;
use dtiw385::{MODE_HOLD, MODE_PRESS, MODE_RELEASE, OPERATION_READ_INFOS, OPERATION_SEND_KEY};

#[test]
fn mode_and_operation_values() {
    assert_eq!(Mode::Press.value(), 0);
    assert_eq!(Mode::Hold.value(), 1);
    assert_eq!(Mode::Release.value(), 2);
    assert_eq!(Operation::SendKey.value(), 1);
    assert_eq!(Operation::ReadInfos.value(), 10);
    assert_eq!(Operation::ChangeChannel.value(), 9);
}

#[test]
fn mode_and_operation_match_command_parameters() {
    assert_eq!(Mode::Press.value(), MODE_PRESS);
    assert_eq!(Mode::Hold.value(), MODE_HOLD);
    assert_eq!(Mode::Release.value(), MODE_RELEASE);
    assert_eq!(Operation::SendKey.value(), OPERATION_SEND_KEY);
    assert_eq!(Operation::ReadInfos.value(), OPERATION_READ_INFOS);
}

#[test]
fn query_url_with_every_parameter() {
    let url = generate_url(
        &[192, 168, 1, 16],
        &8080,
        Some(Power::OnOff.get_code()),
        Some(Operation::SendKey),
        Some(Mode::Press),
    );
    assert_eq!(url, "http://192.168.1.16:8080/remoteControl/cmd?key=116&operation=1&mode=0");
}

#[test]
fn query_url_with_some_parameters() {
    assert_eq!(
        generate_url(&[192, 168, 1, 16], &8080, None, Some(Operation::ReadInfos), None),
        "http://192.168.1.16:8080/remoteControl/cmd?operation=10"
    );
    assert_eq!(
        generate_url(&[10, 0, 0, 1], &80, Some(352), None, Some(Mode::Release)),
        "http://10.0.0.1:80/remoteControl/cmd?key=352&mode=2"
    );
    assert_eq!(
        generate_url(&[10, 0, 0, 1], &80, None, None, None),
        "http://10.0.0.1:80/remoteControl/cmd?"
    );
}

#[test]
fn decoder_builders() {
    let decoder = Decoder::new([192, 168, 1, 16]);
    assert_eq!(decoder.ip(), [192, 168, 1, 16]);
    assert_eq!(decoder.port(), 8080);
    let decoder = decoder.with_port(9090);
    assert_eq!(decoder.port(), 9090);
    assert_eq!(decoder.ip(), [192, 168, 1, 16]);
    let client = reqwest::Client::new();
    let decoder = decoder.with_client(client);
    assert_eq!(decoder.port(), 9090);
}
