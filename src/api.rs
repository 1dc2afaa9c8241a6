//! The translation result, and the parser that turns the service's reply into it.
use vstd::prelude::*;

use crate::json::{array_field, field, get_array_field, get_field, get_text_field, text_field, texts_of, Json};

verus! {

/// What `str::trim` returns for a text: it depends on the characters alone.
pub uninterp spec fn trimmed(s: Seq<char>) -> Seq<char>;

/// Relies on `str::trim`: the text without its leading and trailing white space.
#[verifier::external_body]
fn trim_text(s: &str) -> (r: String)
    ensures
        r@ == trimmed(s@),
{
    s.trim().to_owned()
}

/// The terms of a dictionary, by part of speech. A category is present only when it
/// holds at least one term.
pub struct Dict {
    pub adjective: Option<Vec<String>>,
    pub adverb: Option<Vec<String>>,
    pub noun: Option<Vec<String>>,
    pub verb: Option<Vec<String>>,
    pub conjunction: Option<Vec<String>>,
    pub pronoun: Option<Vec<String>>,
    pub preposition: Option<Vec<String>>,
}

/// The terms of each category, as texts.
pub struct DictModel {
    pub adjective: Option<Seq<Seq<char>>>,
    pub adverb: Option<Seq<Seq<char>>>,
    pub noun: Option<Seq<Seq<char>>>,
    pub verb: Option<Seq<Seq<char>>>,
    pub conjunction: Option<Seq<Seq<char>>>,
    pub pronoun: Option<Seq<Seq<char>>>,
    pub preposition: Option<Seq<Seq<char>>>,
}

pub open spec fn terms_view(o: Option<Vec<String>>) -> Option<Seq<Seq<char>>> {
    match o {
        Some(v) => Some(v.deep_view()),
        None => None,
    }
}

impl View for Dict {
    type V = DictModel;

    open spec fn view(&self) -> DictModel {
        DictModel {
            adjective: terms_view(self.adjective),
            adverb: terms_view(self.adverb),
            noun: terms_view(self.noun),
            verb: terms_view(self.verb),
            conjunction: terms_view(self.conjunction),
            pronoun: terms_view(self.pronoun),
            preposition: terms_view(self.preposition),
        }
    }
}

/// A translation: the source paragraphs, their translations in the same order, and
/// the dictionary entries where the service sent any.
pub struct Translation {
    pub src: Vec<String>,
    pub out: Vec<String>,
    pub dict: Option<Dict>,
}

pub struct TranslationModel {
    pub src: Seq<Seq<char>>,
    pub out: Seq<Seq<char>>,
    pub dict: Option<DictModel>,
}

impl View for Translation {
    type V = TranslationModel;

    open spec fn view(&self) -> TranslationModel {
        TranslationModel {
            src: self.src.deep_view(),
            out: self.out.deep_view(),
            dict: match self.dict {
                Some(d) => Some(d@),
                None => None,
            },
        }
    }
}

impl Translation {
    /// As many translated paragraphs as source ones, at least one; a single pair
    /// where a dictionary is present.
    pub open spec fn wf(&self) -> bool {
        &&& self.src@.len() == self.out@.len()
        &&& self.src@.len() > 0
        &&& self.dict is Some ==> self.src@.len() == 1
    }
}

impl Translation {
    pub fn src(&self) -> (r: &Vec<String>)
        ensures
            r == self.src,
    {
        &self.src
    }

    pub fn out(&self) -> (r: &Vec<String>)
        ensures
            r == self.out,
    {
        &self.out
    }

    pub fn dict(&self) -> (r: &Option<Dict>)
        ensures
            r == self.dict,
    {
        &self.dict
    }
}

impl Dict {
    pub fn adjective(&self) -> (r: &Option<Vec<String>>)
        ensures
            r == self.adjective,
    {
        &self.adjective
    }

    pub fn adverb(&self) -> (r: &Option<Vec<String>>)
        ensures
            r == self.adverb,
    {
        &self.adverb
    }

    pub fn noun(&self) -> (r: &Option<Vec<String>>)
        ensures
            r == self.noun,
    {
        &self.noun
    }

    pub fn verb(&self) -> (r: &Option<Vec<String>>)
        ensures
            r == self.verb,
    {
        &self.verb
    }

    pub fn conjunction(&self) -> (r: &Option<Vec<String>>)
        ensures
            r == self.conjunction,
    {
        &self.conjunction
    }

    pub fn pronoun(&self) -> (r: &Option<Vec<String>>)
        ensures
            r == self.pronoun,
    {
        &self.pronoun
    }

    pub fn preposition(&self) -> (r: &Option<Vec<String>>)
        ensures
            r == self.preposition,
    {
        &self.preposition
    }
}

/// A slot reserved for a local store of earlier translations; it holds nothing.
pub struct Cache;

/// The reply of the translation service does not have the expected shape.
pub struct ParseError;

/// The terms of a dictionary entry, where it has an array of strings under `terms`.
pub open spec fn entry_terms(e: Json) -> Option<Seq<Seq<char>>> {
    match array_field(e, "terms"@) {
        Some(items) => texts_of(items),
        None => None,
    }
}

/// All terms of the entries tagged `name`, in order.
pub open spec fn bucket(entries: Seq<Json>, name: Seq<char>) -> Seq<Seq<char>>
    decreases entries.len(),
{
    if entries.len() == 0 {
        Seq::empty()
    } else {
        let init = bucket(entries.drop_last(), name);
        if text_field(entries.last(), "pos"@) == Some(name) {
            match entry_terms(entries.last()) {
                Some(t) => init + t,
                None => init,
            }
        } else {
            init
        }
    }
}

/// A category is present only with at least one term.
pub open spec fn present(b: Seq<Seq<char>>) -> Option<Seq<Seq<char>>> {
    if b.len() == 0 {
        None
    } else {
        Some(b)
    }
}

/// Every entry tagged `name` has a list of strings as its terms.
pub open spec fn terms_valid(entries: Seq<Json>, name: Seq<char>) -> bool {
    forall|i: int|
        0 <= i < entries.len() && #[trigger] text_field(entries[i], "pos"@) == Some(name)
            ==> entry_terms(entries[i]) is Some
}

/// One of the seven parts of speech that a dictionary keeps.
pub open spec fn is_category(p: Seq<char>) -> bool {
    ||| p == "adjective"@
    ||| p == "adverb"@
    ||| p == "noun"@
    ||| p == "verb"@
    ||| p == "conjunction"@
    ||| p == "pronoun"@
    ||| p == "preposition"@
}

/// Every entry is an object with a text `pos`, and every entry of a known category
/// has a list of strings as its terms. Entries of other categories are ignored.
pub open spec fn dict_valid(entries: Seq<Json>) -> bool {
    &&& forall|i: int| 0 <= i < entries.len() ==> (#[trigger] text_field(entries[i], "pos"@)) is Some
    &&& forall|i: int|
        0 <= i < entries.len() && is_category(#[trigger] text_field(entries[i], "pos"@)->0)
            ==> entry_terms(entries[i]) is Some
}

pub open spec fn dict_model(entries: Seq<Json>) -> DictModel {
    DictModel {
        adjective: present(bucket(entries, "adjective"@)),
        adverb: present(bucket(entries, "adverb"@)),
        noun: present(bucket(entries, "noun"@)),
        verb: present(bucket(entries, "verb"@)),
        conjunction: present(bucket(entries, "conjunction"@)),
        pronoun: present(bucket(entries, "pronoun"@)),
        preposition: present(bucket(entries, "preposition"@)),
    }
}

/// A sentence pair: an object with the texts `orig` and `trans`.
pub open spec fn pair_valid(e: Json) -> bool {
    text_field(e, "orig"@) is Some && text_field(e, "trans"@) is Some
}

pub open spec fn orig_of(e: Json) -> Seq<char> {
    trimmed(text_field(e, "orig"@)->0)
}

pub open spec fn trans_of(e: Json) -> Seq<char> {
    trimmed(text_field(e, "trans"@)->0)
}

/// The sentence pairs of a reply: the array `sentences` of the top-level object.
pub open spec fn sentences_of(j: Json) -> Option<Seq<Json>> {
    array_field(j, "sentences"@)
}

/// Whether the reply has a dictionary: a `dict` member that is not null.
pub open spec fn has_dict(j: Json) -> bool {
    match field(j, "dict"@) {
        None => false,
        Some(Json::Null) => false,
        Some(_) => true,
    }
}

/// Whether the reply has one of the two shapes that the parser accepts.
pub open spec fn payload_valid(j: Json) -> bool {
    match sentences_of(j) {
        None => false,
        Some(s) => {
            &&& s.len() > 0
            &&& if has_dict(j) {
                &&& pair_valid(s[0])
                &&& array_field(j, "dict"@) matches Some(d) && dict_valid(d)
            } else {
                forall|i: int| 0 <= i < s.len() ==> pair_valid(#[trigger] s[i])
            }
        },
    }
}

/// The translation that a valid reply stands for.
pub open spec fn payload_model(j: Json) -> TranslationModel {
    let s = sentences_of(j)->0;
    if has_dict(j) {
        TranslationModel {
            src: seq![orig_of(s[0])],
            out: seq![trans_of(s[0])],
            dict: Some(dict_model(array_field(j, "dict"@)->0)),
        }
    } else {
        TranslationModel {
            src: Seq::new(s.len(), |i: int| orig_of(s[i])),
            out: Seq::new(s.len(), |i: int| trans_of(s[i])),
            dict: None,
        }
    }
}

/// The texts of `items`, where all of them are strings.
fn collect_texts(items: &Vec<Json>, acc: &mut Vec<String>) -> (r: bool)
    ensures
        r == texts_of(items@) is Some,
        r ==> final(acc).deep_view() == old(acc).deep_view() + texts_of(items@)->0,
{
    let mut i: usize = 0;
    let ghost start = acc.deep_view();
    while i < items.len()
        invariant
            i <= items@.len(),
            texts_of(items@.subrange(0, i as int)) is Some,
            acc.deep_view() == start + texts_of(items@.subrange(0, i as int))->0,
        decreases items@.len() - i,
    {
        assert(items@.subrange(0, i as int) == items@.subrange(0, i + 1).drop_last());
        match &items[i] {
            Json::Str(s) => {
                let ghost before = acc.deep_view();
                acc.push(s.clone());
                assert(acc.deep_view() =~= before.push(s@));
                assert(texts_of(items@.subrange(0, i + 1)) == Some(
                    texts_of(items@.subrange(0, i as int))->0.push(s@),
                ));
            },
            _ => {
                assert(texts_of(items@.subrange(0, i + 1)) is None);
                proof { lemma_texts_none_extends(items@, i + 1); }
                return false;
            },
        }
        i += 1;
        assert(acc.deep_view() =~= start + texts_of(items@.subrange(0, i as int))->0);
    }
    assert(items@.subrange(0, i as int) == items@);
    true
}

/// Once a prefix of `items` holds something other than a string, so does `items`.
proof fn lemma_texts_none_extends(items: Seq<Json>, k: int)
    requires
        0 <= k <= items.len(),
        texts_of(items.subrange(0, k)) is None,
    ensures
        texts_of(items) is None,
    decreases items.len() - k,
{
    if k < items.len() {
        assert(items.subrange(0, k + 1).drop_last() == items.subrange(0, k));
        lemma_texts_none_extends(items, k + 1);
    } else {
        assert(items.subrange(0, k) == items);
    }
}

/// All terms of the entries tagged `name`, where each of those entries has a list of
/// strings as its terms.
fn gather_terms(entries: &Vec<Json>, name: &str) -> (r: Option<Vec<String>>)
    ensures
        r is Some <==> terms_valid(entries@, name@),
        r matches Some(v) ==> v.deep_view() == bucket(entries@, name@),
{
    let mut acc: Vec<String> = Vec::new();
    let mut i: usize = 0;
    while i < entries.len()
        invariant
            i <= entries@.len(),
            terms_valid(entries@.subrange(0, i as int), name@),
            acc.deep_view() == bucket(entries@.subrange(0, i as int), name@),
        decreases entries@.len() - i,
    {
        let e = &entries[i];
        let ghost prefix = entries@.subrange(0, i + 1);
        assert(prefix.drop_last() == entries@.subrange(0, i as int));
        assert(prefix.last() == *e);
        let matched = match get_text_field(e, "pos") {
            Some(p) => crate::json::same_text(p.as_str(), name),
            None => false,
        };
        if matched {
            match get_array_field(e, "terms") {
                Some(items) => {
                    if !collect_texts(items, &mut acc) {
                        assert(text_field(entries@[i as int], "pos"@) == Some(name@));
                        return None;
                    }
                },
                None => {
                    assert(text_field(entries@[i as int], "pos"@) == Some(name@));
                    return None;
                },
            }
        }
        i += 1;
        assert forall|k: int|
            0 <= k < prefix.len() && #[trigger] text_field(prefix[k], "pos"@) == Some(name@)
                implies entry_terms(prefix[k]) is Some by {
            if k < prefix.len() - 1 {
                assert(prefix[k] == entries@.subrange(0, i - 1)[k]);
            }
        }
    }
    assert(entries@.subrange(0, i as int) == entries@);
    Some(acc)
}

/// Whether every entry is an object with a text `pos`.
fn all_tagged(entries: &Vec<Json>) -> (r: bool)
    ensures
        r == forall|i: int|
            0 <= i < entries@.len() ==> (#[trigger] text_field(entries@[i], "pos"@)) is Some,
{
    let mut i: usize = 0;
    while i < entries.len()
        invariant
            i <= entries@.len(),
            forall|k: int| 0 <= k < i ==> (#[trigger] text_field(entries@[k], "pos"@)) is Some,
        decreases entries@.len() - i,
    {
        if get_text_field(&entries[i], "pos").is_none() {
            return false;
        }
        i += 1;
    }
    true
}

/// The terms of a category, kept only where there is at least one.
fn nonempty(v: Vec<String>) -> (r: Option<Vec<String>>)
    ensures
        terms_view(r) == present(v.deep_view()),
{
    if v.len() == 0 {
        None
    } else {
        Some(v)
    }
}

/// The seven categories of a dictionary, where the entries are valid.
fn parse_dict(entries: &Vec<Json>) -> (r: Option<Dict>)
    ensures
        r is Some <==> dict_valid(entries@),
        r matches Some(d) ==> d@ == dict_model(entries@),
{
    if !all_tagged(entries) {
        return None;
    }
    let adjective = match gather_terms(entries, "adjective") {
        Some(v) => v,
        None => return None,
    };
    let adverb = match gather_terms(entries, "adverb") {
        Some(v) => v,
        None => return None,
    };
    let noun = match gather_terms(entries, "noun") {
        Some(v) => v,
        None => return None,
    };
    let verb = match gather_terms(entries, "verb") {
        Some(v) => v,
        None => return None,
    };
    let conjunction = match gather_terms(entries, "conjunction") {
        Some(v) => v,
        None => return None,
    };
    let pronoun = match gather_terms(entries, "pronoun") {
        Some(v) => v,
        None => return None,
    };
    let preposition = match gather_terms(entries, "preposition") {
        Some(v) => v,
        None => return None,
    };
    Some(
        Dict {
            adjective: nonempty(adjective),
            adverb: nonempty(adverb),
            noun: nonempty(noun),
            verb: nonempty(verb),
            conjunction: nonempty(conjunction),
            pronoun: nonempty(pronoun),
            preposition: nonempty(preposition),
        },
    )
}

/// The trimmed `orig` and `trans` texts of a sentence pair.
fn parse_pair(e: &Json) -> (r: Option<(String, String)>)
    ensures
        r is Some <==> pair_valid(*e),
        r matches Some(p) ==> p.0@ == orig_of(*e) && p.1@ == trans_of(*e),
{
    let orig = match get_text_field(e, "orig") {
        Some(s) => s,
        None => return None,
    };
    let trans = match get_text_field(e, "trans") {
        Some(s) => s,
        None => return None,
    };
    Some((trim_text(orig.as_str()), trim_text(trans.as_str())))
}

/// The trimmed pairs of all `sentences`, in order.
fn parse_pairs(sentences: &Vec<Json>) -> (r: Option<(Vec<String>, Vec<String>)>)
    ensures
        r is Some <==> forall|i: int| 0 <= i < sentences@.len() ==> pair_valid(#[trigger] sentences@[i]),
        r matches Some(p) ==> {
            &&& p.0.deep_view() == Seq::new(sentences@.len(), |i: int| orig_of(sentences@[i]))
            &&& p.1.deep_view() == Seq::new(sentences@.len(), |i: int| trans_of(sentences@[i]))
        },
{
    let mut src: Vec<String> = Vec::new();
    let mut out: Vec<String> = Vec::new();
    let mut i: usize = 0;
    while i < sentences.len()
        invariant
            i <= sentences@.len(),
            forall|k: int| 0 <= k < i ==> pair_valid(#[trigger] sentences@[k]),
            src.deep_view() == Seq::new(i as nat, |k: int| orig_of(sentences@[k])),
            out.deep_view() == Seq::new(i as nat, |k: int| trans_of(sentences@[k])),
        decreases sentences@.len() - i,
    {
        match parse_pair(&sentences[i]) {
            Some((a, b)) => {
                let ghost (s0, o0) = (src.deep_view(), out.deep_view());
                src.push(a);
                out.push(b);
                assert(src.deep_view() =~= s0.push(a@));
                assert(out.deep_view() =~= o0.push(b@));
                assert(src.deep_view() =~= Seq::new((i + 1) as nat, |k: int| orig_of(sentences@[k])));
                assert(out.deep_view() =~= Seq::new((i + 1) as nat, |k: int| trans_of(sentences@[k])));
            },
            None => return None,
        }
        i += 1;
    }
    Some((src, out))
}

/// The translation service: a free endpoint that answers with translation and
/// dictionary data as JSON.
pub struct GoogleTranslate;

/// The address that every request goes to; the language pair and the text follow as
/// query parameters.
pub const ENDPOINT: &'static str = "https://translate.googleapis.com/translate_a/single?client=gtx&dt=t&dt=bd&dj=1";

impl GoogleTranslate {
    /// The translation that a reply of the service stands for. A reply without a
    /// dictionary gives every sentence pair; one with a dictionary gives the first pair
    /// and the terms of the seven known categories. Any other shape is an error.
    pub fn parse(json: Json) -> (r: Result<Translation, ParseError>)
        ensures
            r is Ok <==> payload_valid(json),
            r matches Ok(t) ==> t@ == payload_model(json) && t.wf(),
    {
        let sentences = match get_array_field(&json, "sentences") {
            Some(s) => s,
            None => return Err(ParseError),
        };
        if sentences.len() == 0 {
            return Err(ParseError);
        }
        let with_dict = match get_field(&json, "dict") {
            None => false,
            Some(Json::Null) => false,
            Some(_) => true,
        };
        if !with_dict {
            match parse_pairs(sentences) {
                Some((src, out)) => {
                    let t = Translation { src, out, dict: None };
                    assert(t.src@.len() == t.src.deep_view().len());
                    assert(t.out@.len() == t.out.deep_view().len());
                    assert(t@ == payload_model(json));
                    Ok(t)
                },
                None => Err(ParseError),
            }
        } else {
            let entries = match get_array_field(&json, "dict") {
                Some(d) => d,
                None => return Err(ParseError),
            };
            let dict = match parse_dict(entries) {
                Some(d) => d,
                None => return Err(ParseError),
            };
            match parse_pair(&sentences[0]) {
                Some((a, b)) => {
                    let src = vec![a];
                    let out = vec![b];
                    assert(src.deep_view() =~= seq![orig_of(sentences@[0])]);
                    assert(out.deep_view() =~= seq![trans_of(sentences@[0])]);
                    let t = Translation { src, out, dict: Some(dict) };
                    assert(t@ == payload_model(json));
                    Ok(t)
                },
                None => Err(ParseError),
            }
        }
    }
}

/// What `code` names under ISO 639-1, as `isolang` knows the codes.
pub uninterp spec fn known_639_1(code: Seq<char>) -> bool;

/// Relies on `isolang::Language::from_639_1`: whether a language has that two-letter
/// code.
#[verifier::external_body]
fn is_639_1(code: &str) -> (r: bool)
    ensures
        r == known_639_1(code@),
{
    isolang::Language::from_639_1(code).is_some()
}

/// The language pair of one translation, as ISO 639-1 codes.
pub struct Lang {
    pub from: String,
    pub to: String,
}

impl Lang {
    /// Both codes name a language.
    pub open spec fn wf(&self) -> bool {
        known_639_1(self.from@) && known_639_1(self.to@)
    }

    /// The pair from `from` to `to`, where both are ISO 639-1 codes.
    pub fn new(from: &str, to: &str) -> (r: Option<Lang>)
        ensures
            r is Some <==> known_639_1(from@) && known_639_1(to@),
            r matches Some(l) ==> l.from@ == from@ && l.to@ == to@ && l.wf(),
    {
        if is_639_1(from) && is_639_1(to) {
            Some(Lang { from: from.to_owned(), to: to.to_owned() })
        } else {
            None
        }
    }
}

/// A text with every line break turned into a space.
pub open spec fn one_line(s: Seq<char>) -> Seq<char> {
    s.map_values(|c: char| if c == '\n' { ' ' } else { c })
}

/// Relies on `str::replace`: every line break replaced by a single space.
#[verifier::external_body]
fn replace_newlines(text: &str) -> (r: String)
    ensures
        r@ == one_line(text@),
{
    text.replace('\n', " ")
}

/// The query text that goes to the service: line breaks become spaces, so that the
/// service sees one logical query.
pub fn filter_newline(text: &str) -> (r: String)
    ensures
        r@ == one_line(text@),
{
    replace_newlines(text)
}

/// The query parameters of a request: source language, target language and the
/// text on one line, in that order.
pub fn request_params(text: &str, lang: &Lang) -> (r: Vec<(String, String)>)
    ensures
        r@.len() == 3,
        r@[0].0@ == "sl"@ && r@[0].1@ == lang.from@,
        r@[1].0@ == "tl"@ && r@[1].1@ == lang.to@,
        r@[2].0@ == "q"@ && r@[2].1@ == one_line(text@),
{
    let mut r: Vec<(String, String)> = Vec::new();
    r.push((String::from_str("sl"), lang.from.clone()));
    r.push((String::from_str("tl"), lang.to.clone()));
    r.push((String::from_str("q"), filter_newline(text)));
    r
}

/// Why a translation failed.
pub enum TranslateError {
    /// The service answered with another status than `200 OK`.
    BadResponse,
    /// No answer came in time.
    Timeout,
    /// The answer did not have the expected shape.
    Parse,
    /// The request could not be made; the text says why.
    Network(String),
}

impl TranslateError {
    /// The one-line description of the failure.
    pub fn describe(&self) -> (r: String)
        ensures
            r@ == self.describe_spec(),
    {
        match self {
            TranslateError::BadResponse => String::from_str("bad response"),
            TranslateError::Timeout => String::from_str("timeout"),
            TranslateError::Parse => String::from_str("api error"),
            TranslateError::Network(why) => why.clone(),
        }
    }

    pub open spec fn describe_spec(&self) -> Seq<char> {
        match self {
            TranslateError::BadResponse => "bad response"@,
            TranslateError::Timeout => "timeout"@,
            TranslateError::Parse => "api error"@,
            TranslateError::Network(why) => why@,
        }
    }
}

/// Whether a status line is the one success needs: `200` with the reason `OK`.
pub open spec fn status_ok(status: i32, reason: Seq<char>) -> bool {
    status == 200 && reason == "OK"@
}

impl GoogleTranslate {
    /// The outcome of a request from what the service answered: its status code, its
    /// reason phrase and its body read as JSON (`None` where it was no JSON).
    pub fn interpret(status: i32, reason: &str, body: Option<Json>) -> (r: Result<Translation, TranslateError>)
        ensures
            !status_ok(status, reason@) ==> r is Err && r->Err_0 is BadResponse,
            status_ok(status, reason@) ==> match body {
                None => r is Err && r->Err_0 is Parse,
                Some(j) => {
                    &&& r is Ok <==> payload_valid(j)
                    &&& !payload_valid(j) ==> r is Err && r->Err_0 is Parse
                    &&& r matches Ok(t) ==> t@ == payload_model(j) && t.wf()
                },
            },
    {
        if !(status == 200 && crate::json::same_text(reason, "OK")) {
            return Err(TranslateError::BadResponse);
        }
        match body {
            None => Err(TranslateError::Parse),
            Some(j) => match GoogleTranslate::parse(j) {
                Ok(t) => Ok(t),
                Err(_) => Err(TranslateError::Parse),
            },
        }
    }
}

/// A reply without a dictionary and with `n` sentence pairs gives `n` source and `n`
/// translated paragraphs, each trimmed, in the order of the reply.
pub proof fn lemma_plain_reply_keeps_pairs(j: Json)
    requires
        sentences_of(j) matches Some(s) && s.len() > 0,
        !has_dict(j),
        forall|i: int|
            0 <= i < sentences_of(j)->0.len() ==> pair_valid(#[trigger] sentences_of(j)->0[i]),
    ensures
        payload_valid(j),
        ({
            let s = sentences_of(j)->0;
            let m = payload_model(j);
            &&& m.src.len() == s.len()
            &&& m.out.len() == s.len()
            &&& m.dict is None
            &&& forall|i: int|
                0 <= i < s.len() ==> m.src[i] == trimmed(#[trigger] text_field(s[i], "orig"@)->0)
                    && m.out[i] == trimmed(text_field(s[i], "trans"@)->0)
        }),
{
}

/// Where no entry is tagged `name`, the category `name` is absent, not empty.
pub proof fn lemma_untagged_category_absent(entries: Seq<Json>, name: Seq<char>)
    requires
        forall|i: int| 0 <= i < entries.len() ==> #[trigger] text_field(entries[i], "pos"@) != Some(name),
    ensures
        present(bucket(entries, name)) is None,
    decreases entries.len(),
{
    if entries.len() > 0 {
        let init = entries.drop_last();
        assert forall|i: int| 0 <= i < init.len() implies #[trigger] text_field(init[i], "pos"@) != Some(name) by {
            assert(init[i] == entries[i]);
        }
        lemma_untagged_category_absent(init, name);
        assert(text_field(entries[entries.len() - 1], "pos"@) != Some(name));
    }
}

/// An entry tagged `name` with at least one term makes the category `name` present.
pub proof fn lemma_tagged_category_present(entries: Seq<Json>, name: Seq<char>, i: int)
    requires
        0 <= i < entries.len(),
        text_field(entries[i], "pos"@) == Some(name),
        entry_terms(entries[i]) matches Some(t) && t.len() > 0,
    ensures
        present(bucket(entries, name)) is Some,
    decreases entries.len(),
{
    lemma_bucket_grows(entries, name);
    if i < entries.len() - 1 {
        let init = entries.drop_last();
        assert(init[i] == entries[i]);
        lemma_tagged_category_present(init, name, i);
    }
}

proof fn lemma_bucket_grows(entries: Seq<Json>, name: Seq<char>)
    requires
        entries.len() > 0,
    ensures
        bucket(entries, name).len() >= bucket(entries.drop_last(), name).len(),
        text_field(entries.last(), "pos"@) == Some(name) ==> (entry_terms(entries.last()) matches Some(t)
            ==> bucket(entries, name).len() >= t.len()),
{
}

/// A reply whose dictionary holds entries tagged "noun" and "verb" only, each
/// category with some term, gives those two categories and none of the other five.
pub proof fn lemma_noun_verb_dictionary(j: Json, noun_at: int, verb_at: int)
    requires
        payload_valid(j),
        has_dict(j),
        forall|i: int|
            0 <= i < array_field(j, "dict"@)->0.len() ==> {
                let p = #[trigger] text_field(array_field(j, "dict"@)->0[i], "pos"@);
                p == Some("noun"@) || p == Some("verb"@)
            },
        0 <= noun_at < array_field(j, "dict"@)->0.len(),
        text_field(array_field(j, "dict"@)->0[noun_at], "pos"@) == Some("noun"@),
        entry_terms(array_field(j, "dict"@)->0[noun_at]) matches Some(t) && t.len() > 0,
        0 <= verb_at < array_field(j, "dict"@)->0.len(),
        text_field(array_field(j, "dict"@)->0[verb_at], "pos"@) == Some("verb"@),
        entry_terms(array_field(j, "dict"@)->0[verb_at]) matches Some(t) && t.len() > 0,
    ensures
        payload_model(j).dict matches Some(d) && {
            &&& d.noun is Some
            &&& d.verb is Some
            &&& d.adjective is None
            &&& d.adverb is None
            &&& d.conjunction is None
            &&& d.pronoun is None
            &&& d.preposition is None
        },
{
    let d = array_field(j, "dict"@)->0;
    reveal_strlit("noun");
    reveal_strlit("verb");
    reveal_strlit("adjective");
    reveal_strlit("adverb");
    reveal_strlit("conjunction");
    reveal_strlit("pronoun");
    reveal_strlit("preposition");
    assert("adjective"@.len() != "noun"@.len() && "adjective"@.len() != "verb"@.len());
    assert("adverb"@.len() != "noun"@.len() && "adverb"@.len() != "verb"@.len());
    assert("pronoun"@.len() != "noun"@.len() && "pronoun"@.len() != "verb"@.len());
    assert("conjunction"@.len() != "noun"@.len() && "conjunction"@.len() != "verb"@.len());
    assert("preposition"@.len() != "noun"@.len() && "preposition"@.len() != "verb"@.len());
    lemma_tagged_category_present(d, "noun"@, noun_at);
    lemma_tagged_category_present(d, "verb"@, verb_at);
    lemma_untagged_category_absent(d, "adjective"@);
    lemma_untagged_category_absent(d, "adverb"@);
    lemma_untagged_category_absent(d, "conjunction"@);
    lemma_untagged_category_absent(d, "pronoun"@);
    lemma_untagged_category_absent(d, "preposition"@);
}

/// An entry whose `pos` is none of the seven categories adds to no category: inserting
/// it anywhere leaves every category as it was.
pub proof fn lemma_unknown_pos_ignored(entries: Seq<Json>, k: int, e: Json)
    requires
        0 <= k <= entries.len(),
        text_field(e, "pos"@) matches Some(p) && !is_category(p),
    ensures
        dict_model(entries.insert(k, e)) == dict_model(entries),
{
    lemma_insert_keeps_bucket(entries, k, e, "adjective"@);
    lemma_insert_keeps_bucket(entries, k, e, "adverb"@);
    lemma_insert_keeps_bucket(entries, k, e, "noun"@);
    lemma_insert_keeps_bucket(entries, k, e, "verb"@);
    lemma_insert_keeps_bucket(entries, k, e, "conjunction"@);
    lemma_insert_keeps_bucket(entries, k, e, "pronoun"@);
    lemma_insert_keeps_bucket(entries, k, e, "preposition"@);
}

proof fn lemma_insert_keeps_bucket(entries: Seq<Json>, k: int, e: Json, name: Seq<char>)
    requires
        0 <= k <= entries.len(),
        text_field(e, "pos"@) != Some(name),
    ensures
        bucket(entries.insert(k, e), name) == bucket(entries, name),
    decreases entries.len(),
{
    let ins = entries.insert(k, e);
    if k == entries.len() {
        assert(ins.drop_last() == entries);
        assert(ins.last() == e);
    } else {
        assert(ins.drop_last() == entries.drop_last().insert(k, e));
        assert(ins.last() == entries.last());
        lemma_insert_keeps_bucket(entries.drop_last(), k, e, name);
    }
}

} // verus!
