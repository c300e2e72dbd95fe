use dtiw385::addr::Address;
use dtiw385::key::Key;
use dtiw385::response::{ApiEmpty, ApiInfosData, ApiResponse, ApiResult};
use dtiw385::{DecoderError, Decoders, DEFAULT_CLIENT_TIMEOUT_MS, DEFAULT_CONCURRENCY};

fn s(text: &str) -> String {
    text.to_string()
}

fn reply<D>(code: &str, message: &str, data: D) -> ApiResponse<D> {
    ApiResponse { result: ApiResult { response_code: s(code), message: s(message), data } }
}

fn infos_data() -> ApiInfosData {
    ApiInfosData {
        played_media_type: s("NA"),
        played_media_state: s("NA"),
        played_media_id: s(""),
        played_media_context_id: s(""),
        played_media_position: s("NA"),
        time_shifting_state: s("NA"),
        mac_address: s("20:9A:7D:D6:56:B7"),
        wol_support: s("0"),
        friendly_name: s("Decodeur TV UHD"),
        active_standby_state: s("0"),
        npvr_support: s("0"),
    }
}

#[test]
fn infos_reply_is_accepted() {
    let decoder = Decoders::connect([127, 0, 0, 1], 8080);
    let info = decoder.check_response(reply("0", "ok", infos_data())).unwrap();
    assert_eq!(info.friendly_name, "Decodeur TV UHD");
    assert_eq!(info.mac_address, "20:9A:7D:D6:56:B7");
}

#[test]
fn press_reply_is_accepted() {
    let decoder = Decoders::connect([127, 0, 0, 1], 8080);
    let res = decoder.check_response(reply("0", "ok", ApiEmpty {})).map(|_| ());
    assert!(res.is_ok());
}

#[test]
fn hold_and_release_replies_are_accepted() {
    let decoder = Decoders::connect([127, 0, 0, 1], 8080);
    let hold = decoder.check_response(reply("0", "ok", ApiEmpty {})).map(|_| ());
    let release = decoder.check_response(reply("0", "ok", ApiEmpty {})).map(|_| ());
    assert!(hold.is_ok());
    assert!(release.is_ok());
}

#[test]
fn error_code_reply_is_invalid_response() {
    let decoder = Decoders::connect([127, 0, 0, 1], 8080);
    let res = decoder.check_response(reply("1", "error", ApiEmpty {})).map(|_| ());
    assert!(res.is_err());
}

#[test]
fn invalid_response_keeps_the_decoder_message() {
    let decoder = Decoders::connect([127, 0, 0, 1], 8080);
    match decoder.check_response(reply("42", "busy", ApiEmpty {})) {
        Err(DecoderError::InvalidResponse(message)) => assert_eq!(message, "busy"),
        _ => panic!("expected an InvalidResponse error"),
    }
}

#[test]
fn only_code_zero_is_success() {
    let decoder = Decoders::connect([127, 0, 0, 1], 8080);
    assert!(decoder.check_response(reply("00", "ok", ApiEmpty {})).is_err());
    assert!(decoder.check_response(reply("", "ok", ApiEmpty {})).is_err());
    assert!(decoder.check_response(reply("0 ", "ok", ApiEmpty {})).is_err());
    assert!(decoder.check_response(reply("0", "", ApiEmpty {})).is_ok());
}

#[test]
fn connect_keeps_address_and_default_timeout() {
    let decoder = Decoders::connect([192, 168, 1, 10], 8080);
    assert_eq!(decoder.ip(), [192, 168, 1, 10]);
    assert_eq!(decoder.port(), 8080);
    assert_eq!(decoder.timeout(), DEFAULT_CLIENT_TIMEOUT_MS);
    assert_eq!(DEFAULT_CLIENT_TIMEOUT_MS, 250);
    assert_eq!(decoder.socket().to_string(), "192.168.1.10:8080");
}

#[test]
fn with_timeout_keeps_address() {
    let decoder = Decoders::connect([10, 0, 0, 2], 9000).with_timeout(1000);
    assert_eq!(decoder.timeout(), 1000);
    assert_eq!(decoder.ip(), [10, 0, 0, 2]);
    assert_eq!(decoder.port(), 9000);
}

#[test]
fn build_url_formats_every_parameter() {
    let decoder = Decoders::connect([192, 168, 1, 10], 8080);
    assert_eq!(
        decoder.build_url(1, 352, 0),
        "http://192.168.1.10:8080/remoteControl/cmd?operation=1&key=352&mode=0"
    );
    assert_eq!(
        decoder.build_url(255, 65535, 2),
        "http://192.168.1.10:8080/remoteControl/cmd?operation=255&key=65535&mode=2"
    );
    let zero = Decoders::connect([0, 0, 0, 0], 0);
    assert_eq!(zero.build_url(0, 0, 0), "http://0.0.0.0:0/remoteControl/cmd?operation=0&key=0&mode=0");
}

#[test]
fn command_urls() {
    let decoder = Decoders::connect([192, 168, 1, 16], 8080);
    let ok: u16 = Key::Validate.into();
    assert_eq!(decoder.infos_url(), "http://192.168.1.16:8080/remoteControl/cmd?operation=10&key=0&mode=0");
    assert_eq!(decoder.press_url(ok), "http://192.168.1.16:8080/remoteControl/cmd?operation=1&key=352&mode=0");
    assert_eq!(decoder.hold_url(103), "http://192.168.1.16:8080/remoteControl/cmd?operation=1&key=103&mode=1");
    assert_eq!(decoder.release_url(103), "http://192.168.1.16:8080/remoteControl/cmd?operation=1&key=103&mode=2");
}

#[test]
fn default_concurrency_is_twenty() {
    assert_eq!(DEFAULT_CONCURRENCY, 20);
}

#[test]
fn press_reply_error_text() {
    let decoder = Decoders::connect([192, 168, 1, 10], 8080);
    let key = Key::from_name("ok").unwrap();
    let url = decoder.press_url(key.into());
    assert_eq!(url, "http://192.168.1.10:8080/remoteControl/cmd?operation=1&key=352&mode=0");
    let text = match decoder.check_response(reply("1", "error", ApiEmpty {})) {
        Ok(_) => "ok".to_string(),
        Err(e) => format!("error: {}", e.to_string()),
    };
    assert_eq!(text, "error: Invalid response: error");
}

#[test]
fn error_texts() {
    let a = Address::new([192, 168, 1, 10], 8080);
    assert_eq!(DecoderError::ConnectionFailed(a).to_string(), "Connection failed to 192.168.1.10:8080");
    assert_eq!(DecoderError::Timeout(a).to_string(), "Request timed out on 192.168.1.10:8080");
    assert_eq!(DecoderError::InvalidResponse(s("busy")).to_string(), "Invalid response: busy");
    let http = reqwest::Client::new().get("not a url").build().unwrap_err();
    let expected = format!("HTTP client error: {}", http);
    assert!(expected.len() > "HTTP client error: ".len());
    assert_eq!(DecoderError::HttpClient(http).to_string(), expected);
}
