use otconstants::dialect::Language;
use otconstants::environment::Environment;
use otconstants::errors::ConfigError;
use otconstants::session::SessionData;

#[test]
fn every_language_tag_is_recognized() {
    assert_eq!(Language::from_str("swift").unwrap(), Language::Swift);
    assert_eq!(Language::from_str("objc").unwrap(), Language::ObjC);
    assert_eq!(Language::from_str("java").unwrap(), Language::Java);
    assert_eq!(Language::from_str("kotlin").unwrap(), Language::Kotlin);
    assert_eq!(Language::from_str("python").unwrap(), Language::Python);
    assert_eq!(Language::from_str("fake-publisher").unwrap(), Language::FakePublisher);
    assert_eq!(Language::from_str("csharp").unwrap(), Language::Csharp);
    assert_eq!(Language::from_str("javascript").unwrap(), Language::Javascript);
}

#[test]
fn an_unknown_dialect_tag_fails_fast() {
    assert_eq!(Language::from_str("ruby").unwrap_err(), ConfigError::UnknownDialect);
    assert_eq!(Language::from_str("").unwrap_err(), ConfigError::UnknownDialect);
    assert_eq!(Language::from_str("Swift").unwrap_err(), ConfigError::UnknownDialect);
}

#[test]
fn every_environment_tag_is_recognized() {
    assert_eq!(Environment::from_str("meet").unwrap(), Environment::Meet);
    assert_eq!(Environment::from_str("opentokrtc").unwrap(), Environment::OpentokRtc);
    assert_eq!(Environment::from_str("opentokdemo").unwrap(), Environment::OpentokDemo);
    assert_eq!(Environment::from_str("heroku").unwrap(), Environment::MeetHeroku);
}

#[test]
fn an_unknown_environment_tag_fails_fast() {
    assert_eq!(Environment::from_str("staging").unwrap_err(), ConfigError::UnknownEnvironment);
    assert_eq!(Environment::from_str("").unwrap_err(), ConfigError::UnknownEnvironment);
}

#[test]
fn environment_names() {
    assert_eq!(Environment::Meet.as_str(), "meet");
    assert_eq!(Environment::OpentokRtc.as_str(), "opentokrtc");
    assert_eq!(Environment::OpentokDemo.as_str(), "opentokdemo");
    assert_eq!(Environment::MeetHeroku.as_str(), "opentok-meet");
}

#[test]
fn urls_per_environment() {
    let (f, d) = Environment::Meet.urls("r1");
    assert_eq!(f, "https://meet.tokbox.com/r1");
    assert_eq!(d, "https://meet.tokbox.com/r1");
    let (f, d) = Environment::OpentokRtc.urls("r1");
    assert_eq!(f, "https://opentokrtc.com/room/r1/info");
    assert_eq!(d, "https://opentokrtc.com/room/r1");
    let (f, d) = Environment::OpentokDemo.urls("r1");
    assert_eq!(f, "https://opentokdemo.tokbox.com/room/r1/info");
    assert_eq!(d, "https://opentokdemo.tokbox.com/room/r1");
    let (f, d) = Environment::MeetHeroku.urls("r1");
    assert_eq!(f, "https://opentok-meet.herokuapp.com/r1");
    assert_eq!(d, "https://opentok-meet.herokuapp.com/r1");
}

#[test]
fn the_fetch_and_display_urls_stay_distinct_where_they_diverge() {
    let (f, d) = Environment::OpentokRtc.urls("room");
    assert_ne!(f, d);
    let (f, d) = Environment::Meet.urls("room");
    assert_eq!(f, d);
}

#[test]
fn demo_service_end_to_end() {
    // A full offline run against the demo backend: mocked response body,
    // python dialect, no variable-name override.
    let room = "testroom";
    let env = Environment::OpentokDemo;
    let (_fetch_url, display_url) = env.urls(room);
    assert_eq!(display_url, "https://opentokdemo.tokbox.com/room/testroom");
    let body = "{\"token\":\"abc\",\"sessionId\":\"xyz\",\"apiKey\":\"key123\"}";
    let sd = SessionData::from_response(body, room, &display_url).unwrap();
    let out = sd.render(&Language::Python, None);
    let lines: Vec<&str> = out.lines().collect();
    assert_eq!(lines[0], "#room: testroom ( https://opentokdemo.tokbox.com/room/testroom )");
    assert_eq!(lines[1], "APIKEY = \"key123\"");
    assert_eq!(lines[2], "TOKEN = \"abc\"");
    assert_eq!(lines[3], "SESSION_ID = \"xyz\"");
    assert_eq!(
        out,
        "#room: testroom ( https://opentokdemo.tokbox.com/room/testroom )\nAPIKEY = \"key123\"\nTOKEN = \"abc\"\nSESSION_ID = \"xyz\"\n"
    );
}
