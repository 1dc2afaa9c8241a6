//! The text-mode presentation loop: what it shows for each message, and when it stops.
use vstd::prelude::*;

use crate::api::{DictModel, Translation, TranslationModel};
use crate::model::{cause_text, Message};
use crate::settings::InputKind;

verus! {

/// Seconds that the loop waits for a message before it gives up.
pub const RECEIVE_TIMEOUT_SECS: u64 = 20;

/// What the loop's wait for a message gave.
pub enum Received {
    Message(Message),
    /// No message came within the wait.
    TimedOut,
}

/// Why the presentation loop failed.
pub enum PresentationError {
    /// No message came within the wait.
    Timeout,
}

impl PresentationError {
    pub fn describe(&self) -> (r: String)
        ensures
            r@ == "timeout error"@,
    {
        String::from_str("timeout error")
    }
}

/// What the loop does after a wait.
pub enum LoopStep {
    /// Print these lines and wait again.
    Show(Vec<String>),
    /// The stream has ended: leave the loop with success.
    Finish,
    /// Leave the loop with this failure.
    Fail(PresentationError),
}

/// Terms joined by a comma and a space.
pub open spec fn join_terms(t: Seq<Seq<char>>) -> Seq<char>
    decreases t.len(),
{
    if t.len() == 0 {
        Seq::empty()
    } else if t.len() == 1 {
        t[0]
    } else {
        join_terms(t.drop_last()) + ", "@ + t.last()
    }
}

/// The line of a category: its label, then its terms as a list that ends in a period.
/// An absent category has no line.
pub open spec fn category_line(label: Seq<char>, terms: Option<Seq<Seq<char>>>) -> Seq<Seq<char>> {
    match terms {
        Some(t) => seq![label + join_terms(t) + "."@],
        None => Seq::empty(),
    }
}

/// The lines of a dictionary, its categories in a fixed order.
pub open spec fn dict_lines(d: DictModel) -> Seq<Seq<char>> {
    category_line("Adjetivo: "@, d.adjective) + category_line("# Adverbio: "@, d.adverb)
        + category_line("# Sustantivo: "@, d.noun) + category_line("# Verbo: "@, d.verb)
        + category_line("# Conjunción: "@, d.conjunction) + category_line(
        "# Pronombre: "@,
        d.pronoun,
    ) + category_line("# Preposición: "@, d.preposition)
}

/// The lines of a translation: a rule, the translated paragraphs, the dictionary.
pub open spec fn translation_lines(t: TranslationModel) -> Seq<Seq<char>> {
    seq!["=============================="@] + t.out + match t.dict {
        Some(d) => dict_lines(d),
        None => Seq::empty(),
    }
}

/// The name of an input kind, as the loop reports it.
pub open spec fn kind_name(k: InputKind) -> Seq<char> {
    match k {
        InputKind::Stdin => "Stdin"@,
        InputKind::SelectionPrimary => "SelectionPrimary"@,
        InputKind::SelectionClipboard => "SelectionClipboard"@,
    }
}

impl InputKind {
    pub fn name(&self) -> (r: &'static str)
        ensures
            r@ == kind_name(*self),
    {
        match self {
            InputKind::Stdin => "Stdin",
            InputKind::SelectionPrimary => "SelectionPrimary",
            InputKind::SelectionClipboard => "SelectionClipboard",
        }
    }
}

/// `terms` joined by a comma and a space, with a period at the end.
fn join_list(terms: &Vec<String>) -> (r: String)
    ensures
        r@ == join_terms(terms.deep_view()) + "."@,
{
    let mut acc = String::new();
    let mut i: usize = 0;
    while i < terms.len()
        invariant
            i <= terms@.len(),
            acc@ == join_terms(terms.deep_view().subrange(0, i as int)),
        decreases terms@.len() - i,
    {
        let ghost prev = terms.deep_view().subrange(0, i as int);
        let ghost next = terms.deep_view().subrange(0, i + 1);
        assert(next.drop_last() == prev);
        if i > 0 {
            acc.append(", ");
        }
        acc.append(terms[i].as_str());
        i += 1;
    }
    assert(terms.deep_view().subrange(0, i as int) == terms.deep_view());
    acc.append(".");
    acc
}

/// Adds the line of a category to `lines`, where it is present.
fn push_category(lines: &mut Vec<String>, label: &str, terms: &Option<Vec<String>>)
    ensures
        final(lines).deep_view() == old(lines).deep_view() + category_line(
            label@,
            crate::api::terms_view(*terms),
        ),
{
    match terms {
        Some(t) => {
            let mut line = String::from_str(label);
            let list = join_list(t);
            line.append(list.as_str());
            let ghost before = lines.deep_view();
            let ghost lv = line@;
            assert(lv == label@ + join_terms(t.deep_view()) + "."@);
            lines.push(line);
            assert(lines.deep_view() =~= before.push(lv));
            assert(lines.deep_view() =~= before + seq![label@ + join_terms(t.deep_view()) + "."@]);
        },
        None => {
            assert(lines.deep_view() =~= lines.deep_view() + Seq::<Seq<char>>::empty());
        },
    }
}

/// The lines that show a translation.
pub fn render_translation(t: &Translation) -> (r: Vec<String>)
    ensures
        r.deep_view() == translation_lines(t@),
{
    let mut lines: Vec<String> = Vec::new();
    lines.push(String::from_str("=============================="));
    let mut i: usize = 0;
    while i < t.out.len()
        invariant
            i <= t.out@.len(),
            lines.deep_view() == seq!["=============================="@] + t.out.deep_view().subrange(0, i as int),
        decreases t.out@.len() - i,
    {
        let ghost before = lines.deep_view();
        lines.push(t.out[i].clone());
        assert(lines.deep_view() =~= before.push(t.out.deep_view()[i as int]));
        assert(t.out.deep_view().subrange(0, i + 1) == t.out.deep_view().subrange(0, i as int).push(
            t.out.deep_view()[i as int],
        ));
        i += 1;
    }
    assert(t.out.deep_view().subrange(0, i as int) == t.out.deep_view());
    let ghost head = lines.deep_view();
    match &t.dict {
        Some(d) => {
            push_category(&mut lines, "Adjetivo: ", &d.adjective);
            push_category(&mut lines, "# Adverbio: ", &d.adverb);
            push_category(&mut lines, "# Sustantivo: ", &d.noun);
            push_category(&mut lines, "# Verbo: ", &d.verb);
            push_category(&mut lines, "# Conjunción: ", &d.conjunction);
            push_category(&mut lines, "# Pronombre: ", &d.pronoun);
            push_category(&mut lines, "# Preposición: ", &d.preposition);
            assert(lines.deep_view() =~= head + dict_lines(d@));
        },
        None => {
            assert(lines.deep_view() =~= head + Seq::<Seq<char>>::empty());
        },
    }
    lines
}

/// The lines that show a message other than the end of the stream.
pub open spec fn message_lines(m: Message) -> Seq<Seq<char>> {
    match m {
        Message::Translation(t) => translation_lines(t@),
        Message::InputKind(k) => seq!["Tipo entrada: "@ + kind_name(k)],
        Message::Error { header, cause } => seq![header@, cause_text(cause)],
        Message::Settings(_) => Seq::empty(),
        Message::Quit => Seq::empty(),
    }
}

/// The lines that show a message.
pub fn render(m: &Message) -> (r: Vec<String>)
    ensures
        r.deep_view() == message_lines(*m),
{
    let mut lines: Vec<String> = Vec::new();
    match m {
        Message::Translation(t) => {
            return render_translation(t);
        },
        Message::InputKind(k) => {
            let mut line = String::from_str("Tipo entrada: ");
            line.append(k.name());
            lines.push(line);
            assert(lines.deep_view() =~= message_lines(*m));
        },
        Message::Error { header, cause } => {
            lines.push(header.clone());
            lines.push(cause.describe());
            assert(lines.deep_view() =~= message_lines(*m));
        },
        Message::Settings(_) => {
            assert(lines.deep_view() =~= message_lines(*m));
        },
        Message::Quit => {
            assert(lines.deep_view() =~= message_lines(*m));
        },
    }
    lines
}

/// One turn of the presentation loop: the end of the stream finishes it, a wait
/// without a message fails it, and any other message is shown.
pub fn on_receive(event: &Received) -> (r: LoopStep)
    ensures
        match event {
            Received::TimedOut => r matches LoopStep::Fail(PresentationError::Timeout),
            Received::Message(Message::Quit) => r is Finish,
            Received::Message(m) => r matches LoopStep::Show(lines) && lines.deep_view() == message_lines(*m),
        },
{
    match event {
        Received::TimedOut => LoopStep::Fail(PresentationError::Timeout),
        Received::Message(Message::Quit) => LoopStep::Finish,
        Received::Message(m) => LoopStep::Show(render(m)),
    }
}

} // verus!
