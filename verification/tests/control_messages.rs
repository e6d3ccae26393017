use speech_relay::command::{classify_text, read_text, TextCommand};
use speech_relay::control::ControlMessage;
use speech_relay::json::{Json, Member};
use speech_relay::session::Session;

fn object(members: Vec<(&str, Json)>) -> Json {
    Json::Object(
        members
            .into_iter()
            .map(|(name, value)| Member { name: name.to_string(), value })
            .collect(),
    )
}

fn string(text: &str) -> Json {
    Json::Text(text.to_string())
}

fn message(source: Option<&str>, target: Option<&str>) -> ControlMessage {
    ControlMessage { source: source.map(str::to_string), target: target.map(str::to_string) }
}

#[test]
fn control_message_needs_the_config_type() {
    let config = object(vec![("type", string("config")), ("source", string("zh"))]);
    assert_eq!(ControlMessage::from_json(&config), Some(message(Some("zh"), None)));
    let other = object(vec![("type", string("Config")), ("source", string("zh"))]);
    assert_eq!(ControlMessage::from_json(&other), None);
    let untyped = object(vec![("source", string("zh"))]);
    assert_eq!(ControlMessage::from_json(&untyped), None);
    let odd = object(vec![("type", Json::Bool(true))]);
    assert_eq!(ControlMessage::from_json(&odd), None);
}

#[test]
fn control_message_reads_optional_languages() {
    let both = object(vec![
        ("target", string("ru")),
        ("type", string("config")),
        ("source", string("zh")),
    ]);
    assert_eq!(ControlMessage::from_json(&both), Some(message(Some("zh"), Some("ru"))));
    let nulls = object(vec![("type", string("config")), ("source", Json::Null)]);
    assert_eq!(ControlMessage::from_json(&nulls), Some(message(None, None)));
    let bare = object(vec![("type", string("config"))]);
    assert_eq!(ControlMessage::from_json(&bare), Some(message(None, None)));
}

#[test]
fn control_message_rejects_languages_of_another_type() {
    let number = object(vec![("type", string("config")), ("source", Json::Number)]);
    assert_eq!(ControlMessage::from_json(&number), None);
    let list = object(vec![("type", string("config")), ("target", Json::Array(vec![]))]);
    assert_eq!(ControlMessage::from_json(&list), None);
    let flag = object(vec![("type", string("other")), ("target", Json::Bool(false))]);
    assert_eq!(ControlMessage::from_json(&flag), None);
}

#[test]
fn control_message_must_be_an_object() {
    assert_eq!(ControlMessage::from_json(&string("config")), None);
    assert_eq!(ControlMessage::from_json(&Json::Array(vec![string("config")])), None);
    assert_eq!(ControlMessage::from_json(&Json::Null), None);
}

#[test]
fn classify_text_puts_control_first() {
    let document = Some(object(vec![("type", string("config")), ("target", string("ru"))]));
    assert_eq!(
        classify_text("/speak ignored", &document),
        TextCommand::Configure(message(None, Some("ru")))
    );
}

#[test]
fn classify_text_falls_through_without_control() {
    let not_control = Some(object(vec![("type", string("other"))]));
    assert_eq!(classify_text("/speak hi", &not_control), TextCommand::Speak("hi".to_string()));
    assert_eq!(classify_text("hi", &not_control), TextCommand::Echo);
    assert_eq!(classify_text("/speak hi", &None), TextCommand::Speak("hi".to_string()));
    assert_eq!(classify_text("hi", &None), TextCommand::Echo);
}

#[test]
fn read_text_parses_the_frame_itself() {
    assert_eq!(
        read_text("{\"type\":\"config\",\"source\":\"zh\",\"target\":\"ru\"}"),
        TextCommand::Configure(message(Some("zh"), Some("ru")))
    );
    assert_eq!(read_text("/speak good morning"), TextCommand::Speak("good morning".to_string()));
    assert_eq!(read_text("good morning"), TextCommand::Echo);
    assert_eq!(read_text("{\"type\":\"config\""), TextCommand::Echo);
}

#[test]
fn read_text_reads_escapes_in_language_codes() {
    assert_eq!(
        read_text("{\"type\":\"config\",\"source\":\"z\\u0068\"}"),
        TextCommand::Configure(message(Some("zh"), None))
    );
    assert_eq!(
        read_text("{\"ty\\u0070e\":\"config\"}"),
        TextCommand::Configure(message(None, None))
    );
}

#[test]
fn session_configure_replaces_only_what_is_given() {
    let mut session = Session::new();
    session.configure(message(Some("zh"), None));
    assert_eq!(session.source_language(), "zh");
    assert_eq!(session.target_language(), "en");
    session.configure(message(None, Some("ru")));
    assert_eq!(session.source_language(), "zh");
    assert_eq!(session.target_language(), "ru");
    session.configure(message(None, None));
    assert_eq!(session.source_language(), "zh");
    assert_eq!(session.target_language(), "ru");
    session.configure(message(Some(""), Some("xx-unknown")));
    assert_eq!(session.source_language(), "");
    assert_eq!(session.target_language(), "xx-unknown");
}
