//! Resolution of the text to translate: the first source in the configured order that
//! holds text wins.
use vstd::prelude::*;

use crate::settings::InputKind;

verus! {

/// The command line of the program; it takes no arguments of its own.
pub struct Args;

/// The text to translate and where it came from.
pub struct Input {
    pub kind: InputKind,
    pub text: String,
}

impl Input {
    pub fn kind(&self) -> (r: InputKind)
        ensures
            r == self.kind,
    {
        self.kind
    }

    pub fn text(&self) -> (r: &String)
        ensures
            r == self.text,
    {
        &self.text
    }
}

/// What one attempt to read a source gave.
pub enum Probe {
    /// The source cannot be read now (standard input is an interactive terminal).
    Unavailable,
    /// The text that the source holds, perhaps empty.
    Text(String),
    /// The subsystem behind the source failed; the text says why.
    Failed(String),
}

/// Why no text could be resolved.
pub enum ResolveError {
    /// No source in the order held text.
    EmptyBuffers,
    /// The subsystem of a source could not be used; the text says why.
    SubsystemInit(String),
}

impl ResolveError {
    /// The one-line description of the failure.
    pub fn describe(&self) -> (r: String)
        ensures
            match self {
                ResolveError::EmptyBuffers => r@ == "empty buffers"@,
                ResolveError::SubsystemInit(why) => r@ == why@,
            },
    {
        match self {
            ResolveError::EmptyBuffers => String::from_str("empty buffers"),
            ResolveError::SubsystemInit(why) => why.clone(),
        }
    }
}

/// The next thing that resolution needs.
pub enum Resolution {
    /// Read this source and hand what it gave back.
    Probe(InputKind),
    /// Resolution is over.
    Done(Result<Input, ResolveError>),
}

/// A probe that ends resolution: text that is not empty, or a failure.
pub open spec fn decisive(p: Probe) -> bool {
    match p {
        Probe::Unavailable => false,
        Probe::Text(t) => t@.len() > 0,
        Probe::Failed(_) => true,
    }
}

/// The position of the first decisive probe at or after `i`, or the number of probes
/// where there is none.
pub open spec fn first_decisive(probes: Seq<Probe>, i: int) -> int
    decreases probes.len() - i,
{
    if i < 0 || i >= probes.len() {
        probes.len() as int
    } else if decisive(probes[i]) {
        i
    } else {
        first_decisive(probes, i + 1)
    }
}

/// The outcome of resolution once the sources of `order` have given `probes`, in
/// order; `None` while the next source must still be read.
pub open spec fn resolution(order: Seq<InputKind>, probes: Seq<Probe>) -> Option<Result<Input, ResolveError>> {
    let k = first_decisive(probes, 0);
    if k < probes.len() {
        match probes[k] {
            Probe::Text(t) => Some(Ok(Input { kind: order[k], text: t })),
            Probe::Failed(why) => Some(Err(ResolveError::SubsystemInit(why))),
            Probe::Unavailable => None,
        }
    } else if probes.len() >= order.len() {
        Some(Err(ResolveError::EmptyBuffers))
    } else {
        None
    }
}

/// Decides resolution from what the first sources of `order` gave: the first source
/// with text wins, a failed subsystem stops it, and sources without text are passed
/// over. Where no decision can be made yet, names the source to read next.
pub fn resolve(order: &Vec<InputKind>, probes: &Vec<Probe>) -> (r: Resolution)
    requires
        probes@.len() <= order@.len(),
    ensures
        match r {
            Resolution::Done(outcome) => resolution(order@, probes@) == Some(outcome),
            Resolution::Probe(kind) => {
                &&& resolution(order@, probes@) is None
                &&& probes@.len() < order@.len()
                &&& kind == order@[probes@.len() as int]
            },
        },
{
    let mut i: usize = 0;
    while i < probes.len()
        invariant
            i <= probes@.len(),
            probes@.len() <= order@.len(),
            first_decisive(probes@, 0) == first_decisive(probes@, i as int),
        decreases probes@.len() - i,
    {
        match &probes[i] {
            Probe::Text(t) => {
                if t.unicode_len() > 0 {
                    return Resolution::Done(Ok(Input { kind: order[i], text: t.clone() }));
                }
            },
            Probe::Failed(why) => {
                return Resolution::Done(Err(ResolveError::SubsystemInit(why.clone())));
            },
            Probe::Unavailable => {},
        }
        i += 1;
    }
    if probes.len() < order.len() {
        Resolution::Probe(order[probes.len()])
    } else {
        Resolution::Done(Err(ResolveError::EmptyBuffers))
    }
}

/// Resolution over every source of `order`, where `probes` holds what each gave.
pub fn collect(order: &Vec<InputKind>, probes: &Vec<Probe>) -> (r: Result<Input, ResolveError>)
    requires
        probes@.len() == order@.len(),
    ensures
        resolution(order@, probes@) == Some(r),
{
    match resolve(order, probes) {
        Resolution::Done(outcome) => outcome,
        Resolution::Probe(_) => {
            proof { lemma_complete_is_decided(order@, probes@); }
            Err(ResolveError::EmptyBuffers)
        },
    }
}

/// Once every source has been read, resolution is decided.
pub proof fn lemma_complete_is_decided(order: Seq<InputKind>, probes: Seq<Probe>)
    requires
        probes.len() == order.len(),
    ensures
        resolution(order, probes) is Some,
{
    lemma_first_decisive_is_decisive(probes, 0);
}

proof fn lemma_first_decisive_is_decisive(probes: Seq<Probe>, i: int)
    requires
        0 <= i <= probes.len(),
    ensures
        i <= first_decisive(probes, i) <= probes.len(),
        first_decisive(probes, i) < probes.len() ==> decisive(probes[first_decisive(probes, i)]),
        forall|j: int| i <= j < first_decisive(probes, i) ==> !decisive(#[trigger] probes[j]),
    decreases probes.len() - i,
{
    if i < probes.len() && !decisive(probes[i]) {
        lemma_first_decisive_is_decisive(probes, i + 1);
    }
}

/// A source without text: unavailable, or holding the empty text.
pub open spec fn without_text(p: Probe) -> bool {
    match p {
        Probe::Unavailable => true,
        Probe::Text(t) => t@.len() == 0,
        Probe::Failed(_) => false,
    }
}

/// The first source with text wins, whatever the sources before it held, so long as
/// none of them failed; no later source is looked at.
pub proof fn lemma_first_text_wins(order: Seq<InputKind>, probes: Seq<Probe>, i: int)
    requires
        probes.len() <= order.len(),
        0 <= i < probes.len(),
        probes[i] matches Probe::Text(t) && t@.len() > 0,
        forall|j: int| 0 <= j < i ==> without_text(#[trigger] probes[j]),
    ensures
        resolution(order, probes) == Some(
            Ok::<Input, ResolveError>(Input { kind: order[i], text: probes[i]->Text_0 }),
        ),
        forall|n: int| i < n <= probes.len() ==> resolution(order, probes.subrange(0, n)) == resolution(order, probes),
{
    lemma_first_decisive_is_decisive(probes, 0);
    assert(first_decisive(probes, 0) == i);
    assert forall|n: int| i < n <= probes.len() implies resolution(order, probes.subrange(0, n))
        == resolution(order, probes) by {
        let p = probes.subrange(0, n);
        lemma_first_decisive_is_decisive(p, 0);
        assert(p[i] == probes[i]);
        assert(first_decisive(p, 0) == i);
    }
}

/// Where no source holds text, resolution fails with `EmptyBuffers`.
pub proof fn lemma_no_text_is_empty_buffers(order: Seq<InputKind>, probes: Seq<Probe>)
    requires
        probes.len() == order.len(),
        forall|j: int| 0 <= j < probes.len() ==> without_text(#[trigger] probes[j]),
    ensures
        resolution(order, probes) == Some(Err::<Input, ResolveError>(ResolveError::EmptyBuffers)),
{
    lemma_first_decisive_is_decisive(probes, 0);
    if first_decisive(probes, 0) < probes.len() {
        assert(without_text(probes[first_decisive(probes, 0)]));
    }
}

} // verus!
