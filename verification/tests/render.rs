use otconstants::dialect::Language;
use otconstants::session::SessionData;
use otconstants::template::{render_template, RenderError};
use std::collections::HashMap;

fn descriptor() -> SessionData {
    SessionData {
        api_key: String::from("key123"),
        token: String::from("abc"),
        session_id: String::from("xyz"),
        room: String::from("testroom"),
        url: String::from("https://opentokrtc.com/room/testroom"),
    }
}

const ALL_LANGUAGES: [Language; 8] = [
    Language::Swift,
    Language::ObjC,
    Language::Java,
    Language::Kotlin,
    Language::Python,
    Language::FakePublisher,
    Language::Csharp,
    Language::Javascript,
];

#[test]
fn every_dialect_carries_the_values_verbatim() {
    let sd = descriptor();
    for lang in ALL_LANGUAGES {
        let out = sd.render(&lang, None);
        assert!(out.contains("key123"), "api_key missing in {:?}: {}", lang, out);
        assert!(out.contains("abc"), "token missing in {:?}: {}", lang, out);
        assert!(out.contains("xyz"), "session_id missing in {:?}: {}", lang, out);
    }
}

#[test]
fn swift_output_is_exact() {
    let sd = descriptor();
    let out = sd.serialize(&Language::Swift, &String::from("kApiKey"));
    assert_eq!(
        out,
        "// room: testroom ( https://opentokrtc.com/room/testroom )\nlet kApiKey = \"key123\"\nlet kToken = \"abc\"\nlet kSessionId = \"xyz\"\n"
    );
}

#[test]
fn objc_output_is_exact() {
    let sd = descriptor();
    let out = sd.serialize(&Language::ObjC, &String::from("kApiKey"));
    assert_eq!(
        out,
        "// room: testroom ( https://opentokrtc.com/room/testroom )\nstatic NSString* const kApiKey = @\"key123\";\nstatic NSString* const kToken = @\"abc\";\nstatic NSString* const kSessionId = @\"xyz\";\n"
    );
}

#[test]
fn fake_publisher_output_is_exact_and_has_no_trailing_newline() {
    let sd = descriptor();
    let out = sd.render(&Language::FakePublisher, None);
    assert_eq!(out, "fake-publisher -sessionId \"xyz\" -token \"abc\" -apiKey \"key123\"");
}

#[test]
fn default_var_name_follows_the_dialect_convention() {
    for lang in ALL_LANGUAGES {
        let name = lang.get_api_key_default_var_name();
        match lang {
            Language::Swift | Language::ObjC => assert_eq!(name, "kApiKey"),
            _ => assert_eq!(name, "APIKEY"),
        }
    }
}

#[test]
fn rendering_without_override_uses_the_default_name() {
    let sd = descriptor();
    let swift = sd.render(&Language::Swift, None);
    assert!(swift.contains("let kApiKey = \"key123\""));
    let python = sd.render(&Language::Python, None);
    assert!(python.contains("APIKEY = \"key123\""));
    let java = sd.render(&Language::Java, None);
    assert!(java.contains("public static final String APIKEY = \"key123\""));
}

#[test]
fn override_replaces_the_default_name_in_every_dialect_that_uses_it() {
    let sd = descriptor();
    let chosen = String::from("MY_SPECIAL_KEY");
    for lang in ALL_LANGUAGES {
        if lang == Language::FakePublisher {
            continue;
        }
        let out = sd.render(&lang, Some(&chosen));
        assert!(out.contains("MY_SPECIAL_KEY"), "override missing in {:?}: {}", lang, out);
        assert!(!out.contains("kApiKey"), "default left in {:?}: {}", lang, out);
        assert!(!out.contains("APIKEY"), "default left in {:?}: {}", lang, out);
    }
}

#[test]
fn fake_publisher_ignores_the_override() {
    let sd = descriptor();
    let with_override = sd.render(&Language::FakePublisher, Some(&String::from("MY_SPECIAL_KEY")));
    let without = sd.render(&Language::FakePublisher, None);
    assert_eq!(with_override, without);
    assert!(!with_override.contains("MY_SPECIAL_KEY"));
}

#[test]
fn rendering_does_not_consume_the_descriptor() {
    let sd = descriptor();
    let first = sd.render(&Language::Python, None);
    let second = sd.render(&Language::Python, None);
    assert_eq!(first, second);
    let other = sd.render(&Language::Kotlin, None);
    assert!(other.contains("val APIKEY = \"key123\";"));
}

#[test]
fn unresolved_placeholder_fails_loudly() {
    let vars: Vec<(String, String)> = vec![(String::from("known"), String::from("v"))];
    let r = render_template("hello {unknown}!", &vars);
    assert_eq!(r, Err(RenderError::UnresolvedPlaceholder(String::from("unknown"))));
}

#[test]
fn unclosed_placeholder_fails_loudly() {
    let vars: Vec<(String, String)> = Vec::new();
    let r = render_template("hello {unclosed", &vars);
    assert_eq!(r, Err(RenderError::UnclosedPlaceholder));
}

#[test]
fn unused_bindings_are_never_an_error() {
    let vars: Vec<(String, String)> = vec![
        (String::from("a"), String::from("1")),
        (String::from("unused"), String::from("2")),
    ];
    let r = render_template("only {a}", &vars);
    assert_eq!(r, Ok(String::from("only 1")));
}

#[test]
fn first_binding_wins_on_a_repeated_name() {
    let vars: Vec<(String, String)> = vec![
        (String::from("a"), String::from("first")),
        (String::from("a"), String::from("second")),
    ];
    let r = render_template("{a}", &vars);
    assert_eq!(r, Ok(String::from("first")));
}

#[test]
fn templates_agree_with_an_independent_formatter() {
    let sd = descriptor();
    for lang in ALL_LANGUAGES {
        let mut vars: HashMap<String, String> = HashMap::new();
        vars.insert(String::from("session_id"), sd.session_id.clone());
        vars.insert(String::from("token"), sd.token.clone());
        vars.insert(String::from("api_key"), sd.api_key.clone());
        if lang != Language::FakePublisher {
            vars.insert(String::from("room"), sd.room.clone());
            vars.insert(String::from("url"), sd.url.clone());
            vars.insert(String::from("api_key_var_name"), String::from("APIKEY"));
        }
        let expected = strfmt::strfmt(lang.get_output_format(), &vars).unwrap();
        let got = sd.serialize(&lang, &String::from("APIKEY"));
        assert_eq!(got, expected, "divergence in {:?}", lang);
    }
}
