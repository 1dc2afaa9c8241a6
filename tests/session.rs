use oit::api::{GoogleTranslate, Lang, TranslateError};
use oit::input::{resolve, Probe, Resolution, ResolveError};
use oit::json::Json;
use oit::model::{after_resolve, after_translate, Message, WorkerStep};
use oit::settings::{InputKind, Settings};
use oit::ui::{on_receive, render, LoopStep, Received};

fn pair(orig: &str, trans: &str) -> Json {
    Json::Object(vec![
        ("orig".to_string(), Json::Str(orig.to_string())),
        ("trans".to_string(), Json::Str(trans.to_string())),
    ])
}

fn run_loop(messages: Vec<Message>) -> (Vec<Vec<String>>, bool) {
    let mut shown = vec![];
    for m in messages {
        match on_receive(&Received::Message(m)) {
            LoopStep::Show(lines) => shown.push(lines),
            LoopStep::Finish => return (shown, true),
            LoopStep::Fail(_) => return (shown, false),
        }
    }
    match on_receive(&Received::TimedOut) {
        LoopStep::Fail(_) => (shown, false),
        _ => panic!("a wait without a message must fail"),
    }
}

#[test]
fn piped_text_is_translated_and_shown() {
    let settings = Settings::default();
    let order = settings.order().clone();
    let probes = vec![Probe::Text("good morning".to_string())];
    let input = match resolve(&order, &probes) {
        Resolution::Done(r) => r,
        Resolution::Probe(_) => panic!("stdin holds text"),
    };
    let input = match after_resolve(input, true) {
        WorkerStep::Translate(i) => i,
        WorkerStep::Emit(_) => panic!("resolution succeeded"),
    };
    assert_eq!(input.kind(), InputKind::Stdin);
    let lang: Lang = settings.lang().expect("en and es");
    let params = oit::api::request_params(input.text(), &lang);
    assert_eq!(params[2].1, "good morning");
    let body = Json::Object(vec![("sentences".to_string(), Json::Array(vec![pair("good morning", "buenos días")]))]);
    let translated = GoogleTranslate::interpret(200, "OK", Some(body));
    let messages = after_translate(input.kind(), translated, true);
    assert_eq!(messages.len(), 3);
    assert!(matches!(messages[0], Message::InputKind(InputKind::Stdin)));
    assert!(matches!(messages[2], Message::Quit));
    let (shown, finished) = run_loop(messages);
    assert!(finished);
    assert_eq!(shown, vec![
        vec!["Tipo entrada: Stdin".to_string()],
        vec!["==============================".to_string(), "buenos días".to_string()],
    ]);
}

#[test]
fn bad_response_is_reported_then_the_stream_ends() {
    let translated = GoogleTranslate::interpret(503, "Service Unavailable", None);
    let messages = after_translate(InputKind::Stdin, translated, true);
    assert_eq!(messages.len(), 2);
    match &messages[0] {
        Message::Error { header, .. } => assert_eq!(header, "bad response"),
        _ => panic!("an error comes first"),
    }
    let (shown, finished) = run_loop(messages);
    assert!(finished);
    assert_eq!(shown, vec![vec!["bad response".to_string(), "bad response".to_string()]]);
}

#[test]
fn failed_resolution_is_a_buffer_error() {
    let messages = match after_resolve(Err(ResolveError::EmptyBuffers), true) {
        WorkerStep::Emit(ms) => ms,
        WorkerStep::Translate(_) => panic!("resolution failed"),
    };
    let (shown, finished) = run_loop(messages);
    assert!(finished);
    assert_eq!(shown, vec![vec!["buffer error".to_string(), "empty buffers".to_string()]]);
}

#[test]
fn without_end_of_stream_the_loop_times_out() {
    let messages = after_translate(InputKind::SelectionClipboard, Err(TranslateError::Timeout), false);
    assert_eq!(messages.len(), 1);
    let (shown, finished) = run_loop(messages);
    assert!(!finished);
    assert_eq!(shown, vec![vec!["timeout".to_string(), "timeout".to_string()]]);
}

#[test]
fn dictionary_lines_follow_the_paragraphs() {
    let entry = |pos: &str, terms: &[&str]| {
        Json::Object(vec![
            ("pos".to_string(), Json::Str(pos.to_string())),
            ("terms".to_string(), Json::Array(terms.iter().map(|t| Json::Str(t.to_string())).collect())),
        ])
    };
    let body = Json::Object(vec![
        ("sentences".to_string(), Json::Array(vec![pair("fast", "rápido")])),
        ("dict".to_string(), Json::Array(vec![
            entry("verb", &["ayunar"]),
            entry("adjective", &["rápido", "veloz", "ligero"]),
            entry("adverb", &["deprisa"]),
        ])),
    ]);
    let t = GoogleTranslate::parse(body).ok().expect("a translation");
    let lines = render(&Message::Translation(t));
    assert_eq!(lines, vec![
        "==============================".to_string(),
        "rápido".to_string(),
        "Adjetivo: rápido, veloz, ligero.".to_string(),
        "# Adverbio: deprisa.".to_string(),
        "# Verbo: ayunar.".to_string(),
    ]);
}

#[test]
fn settings_message_shows_nothing() {
    assert!(render(&Message::Settings(Settings::default())).is_empty());
    assert!(matches!(on_receive(&Received::Message(Message::Quit)), LoopStep::Finish));
}
