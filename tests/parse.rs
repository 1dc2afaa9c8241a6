use oit::api::{GoogleTranslate, Translation};
use oit::json::Json;

fn text(s: &str) -> Json {
    Json::Str(s.to_string())
}

fn object(fields: Vec<(&str, Json)>) -> Json {
    Json::Object(fields.into_iter().map(|(k, v)| (k.to_string(), v)).collect())
}

fn pair(orig: &str, trans: &str) -> Json {
    object(vec![("trans", text(trans)), ("orig", text(orig)), ("backend", Json::Number("1".to_string()))])
}

fn entry(pos: &str, terms: &[&str]) -> Json {
    object(vec![
        ("pos", text(pos)),
        ("terms", Json::Array(terms.iter().map(|t| text(t)).collect())),
        ("base_form", text("x")),
    ])
}

fn parse(j: Json) -> Translation {
    match GoogleTranslate::parse(j) {
        Ok(t) => t,
        Err(_) => panic!("the reply should parse"),
    }
}

#[test]
fn plain_reply_keeps_every_pair_trimmed_and_in_order() {
    let j = object(vec![(
        "sentences",
        Json::Array(vec![pair(" Hello. ", "Hola. "), pair("How are you?\n", "  ¿Cómo estás?"), pair("Bye", "Adiós")]),
    )]);
    let t = parse(j);
    assert_eq!(t.src(), &vec!["Hello.".to_string(), "How are you?".to_string(), "Bye".to_string()]);
    assert_eq!(t.out(), &vec!["Hola.".to_string(), "¿Cómo estás?".to_string(), "Adiós".to_string()]);
    assert!(t.dict().is_none());
}

#[test]
fn null_dict_is_the_plain_shape() {
    let j = object(vec![
        ("sentences", Json::Array(vec![pair("a", "b"), pair("c", "d")])),
        ("dict", Json::Null),
    ]);
    let t = parse(j);
    assert_eq!(t.src().len(), 2);
    assert_eq!(t.out().len(), 2);
    assert!(t.dict().is_none());
}

#[test]
fn noun_and_verb_only_leave_other_categories_absent() {
    let j = object(vec![
        ("sentences", Json::Array(vec![pair("run ", "correr"), pair("second", "segundo")])),
        ("dict", Json::Array(vec![entry("noun", &["carrera", "recorrido"]), entry("verb", &["correr"])])),
    ]);
    let t = parse(j);
    assert_eq!(t.src(), &vec!["run".to_string()]);
    assert_eq!(t.out(), &vec!["correr".to_string()]);
    let d = t.dict().as_ref().expect("a dictionary");
    assert_eq!(d.noun(), &Some(vec!["carrera".to_string(), "recorrido".to_string()]));
    assert_eq!(d.verb(), &Some(vec!["correr".to_string()]));
    assert!(d.adjective().is_none());
    assert!(d.adverb().is_none());
    assert!(d.conjunction().is_none());
    assert!(d.pronoun().is_none());
    assert!(d.preposition().is_none());
}

#[test]
fn unknown_pos_is_ignored() {
    let j = object(vec![
        ("sentences", Json::Array(vec![pair("to", "a")])),
        (
            "dict",
            Json::Array(vec![
                entry("preposition", &["a", "hacia"]),
                object(vec![("pos", text("interjection")), ("terms", Json::Null)]),
                entry("particle", &["zu"]),
                entry("preposition", &["para"]),
            ]),
        ),
    ]);
    let t = parse(j);
    let d = t.dict().as_ref().expect("a dictionary");
    assert_eq!(d.preposition(), &Some(vec!["a".to_string(), "hacia".to_string(), "para".to_string()]));
    assert!(d.noun().is_none());
    assert!(d.verb().is_none());
    assert!(d.adjective().is_none());
}

#[test]
fn every_category_is_routed_to_its_bucket() {
    let j = object(vec![
        ("sentences", Json::Array(vec![pair("x", "y")])),
        (
            "dict",
            Json::Array(vec![
                entry("adjective", &["bueno"]),
                entry("adverb", &["bien"]),
                entry("conjunction", &["y"]),
                entry("pronoun", &["él"]),
            ]),
        ),
    ]);
    let t = parse(j);
    let d = t.dict().as_ref().expect("a dictionary");
    assert_eq!(d.adjective(), &Some(vec!["bueno".to_string()]));
    assert_eq!(d.adverb(), &Some(vec!["bien".to_string()]));
    assert_eq!(d.conjunction(), &Some(vec!["y".to_string()]));
    assert_eq!(d.pronoun(), &Some(vec!["él".to_string()]));
    assert!(d.noun().is_none());
}

#[test]
fn malformed_replies_fail() {
    assert!(GoogleTranslate::parse(text("sentences")).is_err());
    assert!(GoogleTranslate::parse(object(vec![])).is_err());
    assert!(GoogleTranslate::parse(object(vec![("sentences", text("x"))])).is_err());
    assert!(GoogleTranslate::parse(object(vec![("sentences", Json::Array(vec![]))])).is_err());
    let missing_trans = object(vec![("orig", text("a"))]);
    assert!(GoogleTranslate::parse(object(vec![("sentences", Json::Array(vec![pair("a", "b"), missing_trans]))])).is_err());
    let not_object = object(vec![("sentences", Json::Array(vec![text("a")]))]);
    assert!(GoogleTranslate::parse(not_object).is_err());
    let dict_not_array = object(vec![("sentences", Json::Array(vec![pair("a", "b")])), ("dict", text("x"))]);
    assert!(GoogleTranslate::parse(dict_not_array).is_err());
    let untagged = object(vec![
        ("sentences", Json::Array(vec![pair("a", "b")])),
        ("dict", Json::Array(vec![object(vec![("terms", Json::Array(vec![]))])])),
    ]);
    assert!(GoogleTranslate::parse(untagged).is_err());
    let bad_terms = object(vec![
        ("sentences", Json::Array(vec![pair("a", "b")])),
        ("dict", Json::Array(vec![object(vec![("pos", text("noun")), ("terms", Json::Array(vec![Json::Bool(true)]))])])),
    ]);
    assert!(GoogleTranslate::parse(bad_terms).is_err());
}
