use oit::api::{filter_newline, request_params, GoogleTranslate, Lang, TranslateError};
use oit::json::Json;
use oit::settings::{Settings, Theme};

fn reply() -> Json {
    let pair = Json::Object(vec![
        ("orig".to_string(), Json::Str("good morning".to_string())),
        ("trans".to_string(), Json::Str("buenos días".to_string())),
    ]);
    Json::Object(vec![("sentences".to_string(), Json::Array(vec![pair]))])
}

#[test]
fn newline_becomes_space() {
    assert_eq!(filter_newline("hello\nworld"), "hello world");
    assert_eq!(filter_newline("a\n\nb\n"), "a  b ");
    assert_eq!(filter_newline(""), "");
}

#[test]
fn request_params_carry_languages_and_one_line_text() {
    let lang = Lang::new("en", "es").expect("known codes");
    let params = request_params("hello\nworld", &lang);
    assert_eq!(
        params,
        vec![
            ("sl".to_string(), "en".to_string()),
            ("tl".to_string(), "es".to_string()),
            ("q".to_string(), "hello world".to_string()),
        ]
    );
}

#[test]
fn language_codes_are_checked() {
    assert!(Lang::new("en", "es").is_some());
    assert!(Lang::new("de", "fr").is_some());
    assert!(Lang::new("xx", "es").is_none());
    assert!(Lang::new("en", "eng").is_none());
}

#[test]
fn default_settings() {
    let s = Settings::default();
    assert_eq!(s.source(), "en");
    assert_eq!(s.target(), "es");
    assert_eq!(s.order().len(), 3);
    assert_eq!(s.width, 720);
    assert_eq!(s.height, 480);
    assert_eq!(s.textsize, 30);
    assert_eq!(s.theme, Theme::Dark);
    assert!(s.centered && s.decorations);
    assert!(s.database.is_none());
    let lang = s.lang().expect("known codes");
    assert_eq!(lang.from, "en");
    assert_eq!(lang.to, "es");
}

#[test]
fn status_other_than_200_ok_is_bad_response() {
    assert!(matches!(GoogleTranslate::interpret(503, "Service Unavailable", Some(reply())), Err(TranslateError::BadResponse)));
    assert!(matches!(GoogleTranslate::interpret(200, "Fine", Some(reply())), Err(TranslateError::BadResponse)));
}

#[test]
fn body_that_is_no_translation_is_a_parse_error() {
    assert!(matches!(GoogleTranslate::interpret(200, "OK", None), Err(TranslateError::Parse)));
    assert!(matches!(GoogleTranslate::interpret(200, "OK", Some(Json::Null)), Err(TranslateError::Parse)));
}

#[test]
fn good_reply_is_a_translation() {
    let t = GoogleTranslate::interpret(200, "OK", Some(reply())).ok().expect("a translation");
    assert_eq!(t.out(), &vec!["buenos días".to_string()]);
}

#[test]
fn translate_error_descriptions() {
    assert_eq!(TranslateError::BadResponse.describe(), "bad response");
    assert_eq!(TranslateError::Timeout.describe(), "timeout");
    assert_eq!(TranslateError::Parse.describe(), "api error");
    assert_eq!(TranslateError::Network("dns".to_string()).describe(), "dns");
}
