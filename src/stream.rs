use vstd::prelude::*;
use vstd::string::*;

use crate::error::{call_fallback, diag_view, diagnostic_or, ErrorKind, NativeCall, UdpipeError};
use crate::input::check_text;
use crate::sentence::{raw_well_formed, sentence_from_raw, RawSentence, Sentence};

verus! {

/// The state of a streaming parse session.
#[derive(Debug, Clone, Copy, PartialEq, Eq, Structural)]
pub enum ParseState {
    /// No error yet; more input may remain.
    Active,
    /// A pull failed; the session yields nothing more.
    Errored,
    /// All input was consumed; the session yields nothing more.
    Exhausted,
}

/// What one call of the engine's "parse next sentence" operation gave.
#[derive(Debug, Clone)]
pub enum PullOutcome {
    /// The engine produced a sentence.
    Produced(RawSentence),
    /// The engine produced no sentence and its session recorded no error.
    End,
    /// The engine produced no sentence and its session recorded an error,
    /// with the engine's diagnostic where it gave one.
    Failed(Option<String>),
}

/// One item of the sequence a session yields: `None` ends the sequence.
pub type Pulled = Option<Result<Sentence, UdpipeError>>;

/// The state after one pull in state `s` with outcome `o`.
pub open spec fn next_state(s: ParseState, o: PullOutcome) -> ParseState {
    if s != ParseState::Active {
        s
    } else {
        match o {
            PullOutcome::Produced(raw) => if raw_well_formed(raw) {
                ParseState::Active
            } else {
                ParseState::Errored
            },
            PullOutcome::End => ParseState::Exhausted,
            PullOutcome::Failed(_) => ParseState::Errored,
        }
    }
}

/// `r` is what one pull in state `s` with outcome `o` yields.
pub open spec fn pulled(s: ParseState, o: PullOutcome, r: Pulled) -> bool {
    if s != ParseState::Active {
        r is None
    } else {
        match o {
            PullOutcome::Produced(raw) => if raw_well_formed(raw) {
                r matches Some(Ok(sen)) && sentence_from_raw(raw, sen)
            } else {
                r matches Some(Err(e)) && e.kind == ErrorKind::ParseFailed
            },
            PullOutcome::End => r is None,
            PullOutcome::Failed(d) => r matches Some(Err(e)) && e.kind == ErrorKind::ParseFailed
                && e.message@ == diagnostic_or(diag_view(d), call_fallback(NativeCall::Pull)),
        }
    }
}

/// The state of a fresh session after the pulls with outcomes `outs`.
pub open spec fn state_after(outs: Seq<PullOutcome>) -> ParseState
    decreases outs.len(),
{
    if outs.len() == 0 {
        ParseState::Active
    } else {
        next_state(state_after(outs.drop_last()), outs.last())
    }
}

/// `items` is what a fresh session yields over the pulls with outcomes `outs`.
pub open spec fn is_run(outs: Seq<PullOutcome>, items: Seq<Pulled>) -> bool {
    &&& outs.len() == items.len()
    &&& forall|i: int|
        0 <= i < outs.len() ==> #[trigger] pulled(state_after(outs.take(i)), outs[i], items[i])
}

/// The outcome is a sentence that meets the invariants of [`Sentence`].
pub open spec fn produces_sentence(o: PullOutcome) -> bool {
    o matches PullOutcome::Produced(raw) && raw_well_formed(raw)
}

/// Item `i` of a run is the owned copy of the sentence that pull `i` produced.
pub open spec fn yields_sentence_of(o: PullOutcome, r: Pulled) -> bool {
    o matches PullOutcome::Produced(raw) && r matches Some(Ok(sen)) && sentence_from_raw(raw, sen)
}

/// The streaming parse protocol over one text: it decides, pull by pull, what
/// the engine's outcome turns into, and latches the end of the sequence.
#[derive(Debug)]
pub struct SentenceStream {
    state: ParseState,
}

impl SentenceStream {
    /// The state of the session.
    pub closed spec fn spec_state(&self) -> ParseState {
        self.state
    }

    /// A session over `text`. Fails with [`ErrorKind::MalformedInput`], and
    /// yields no session, exactly when `text` holds a null byte.
    pub fn new(text: &str) -> (r: Result<SentenceStream, UdpipeError>)
        ensures
            r is Err <==> text@.contains('\0'),
            r matches Ok(s) ==> s.spec_state() == ParseState::Active,
            r matches Err(e) ==> e.kind == ErrorKind::MalformedInput,
    {
        match check_text(text) {
            Ok(()) => Ok(SentenceStream { state: ParseState::Active }),
            Err(e) => Err(e),
        }
    }

    /// The state of the session.
    pub fn state(&self) -> (r: ParseState)
        ensures
            r == self.spec_state(),
    {
        self.state
    }

    /// Whether the next pull should ask the engine for a sentence; once this is
    /// false the session yields nothing more.
    pub fn is_active(&self) -> (r: bool)
        ensures
            r == (self.spec_state() == ParseState::Active),
    {
        self.state == ParseState::Active
    }

    /// One pull: turns the engine's outcome into the next item and moves to the
    /// next state. After an error or the end, every further pull yields `None`.
    pub fn pull(&mut self, outcome: PullOutcome) -> (r: Pulled)
        ensures
            final(self).spec_state() == next_state(old(self).spec_state(), outcome),
            pulled(old(self).spec_state(), outcome, r),
    {
        if self.state != ParseState::Active {
            return None;
        }
        match outcome {
            PullOutcome::Produced(raw) => {
                let r = Sentence::from_raw(&raw);
                if r.is_err() {
                    self.state = ParseState::Errored;
                }
                Some(r)
            },
            PullOutcome::End => {
                self.state = ParseState::Exhausted;
                None
            },
            PullOutcome::Failed(d) => {
                self.state = ParseState::Errored;
                Some(Err(UdpipeError::from_native(NativeCall::Pull, d)))
            },
        }
    }
}

proof fn lemma_state_step(outs: Seq<PullOutcome>, i: int)
    requires
        0 <= i < outs.len(),
    ensures
        state_after(outs.take(i + 1)) == next_state(state_after(outs.take(i)), outs[i]),
{
    assert(outs.take(i + 1).drop_last() =~= outs.take(i));
}

/// Once a session has left the active state, it stays where it is.
proof fn lemma_latched(outs: Seq<PullOutcome>, i: int, j: int)
    requires
        0 <= i <= j <= outs.len(),
        state_after(outs.take(i)) != ParseState::Active,
    ensures
        state_after(outs.take(j)) == state_after(outs.take(i)),
    decreases j - i,
{
    if j > i {
        lemma_latched(outs, i, j - 1);
        lemma_state_step(outs, j - 1);
    }
}

/// A session whose first `n` pulls all produced sentences is still active.
proof fn lemma_active_prefix(outs: Seq<PullOutcome>, n: int)
    requires
        0 <= n <= outs.len(),
        forall|i: int| 0 <= i < n ==> #[trigger] produces_sentence(outs[i]),
    ensures
        state_after(outs.take(n)) == ParseState::Active,
    decreases n,
{
    if n == 0 {
        assert(outs.take(0) =~= Seq::<PullOutcome>::empty());
    } else {
        lemma_active_prefix(outs, n - 1);
        lemma_state_step(outs, n - 1);
        assert(produces_sentence(outs[n - 1]));
    }
}

/// When the first `n` pulls produce sentences and the next one reaches the end
/// without an error, a session yields exactly those `n` sentences, in order,
/// and then nothing: no error item, however often it is pulled.
pub proof fn lemma_clean_run(outs: Seq<PullOutcome>, items: Seq<Pulled>, n: int)
    requires
        is_run(outs, items),
        0 <= n < outs.len(),
        forall|i: int| 0 <= i < n ==> #[trigger] produces_sentence(outs[i]),
        outs[n] is End,
    ensures
        forall|i: int| 0 <= i < n ==> #[trigger] yields_sentence_of(outs[i], items[i]),
        forall|j: int| n <= j < items.len() ==> #[trigger] items[j] is None,
{
    assert forall|i: int| 0 <= i < n implies #[trigger] yields_sentence_of(outs[i], items[i]) by {
        lemma_active_prefix(outs, i);
        assert(pulled(state_after(outs.take(i)), outs[i], items[i]));
        assert(produces_sentence(outs[i]));
    }
    lemma_active_prefix(outs, n);
    lemma_state_step(outs, n);
    assert forall|j: int| n <= j < items.len() implies #[trigger] items[j] is None by {
        assert(pulled(state_after(outs.take(j)), outs[j], items[j]));
        if j > n {
            lemma_latched(outs, n + 1, j);
        }
    }
}

/// When the first `k` pulls produce sentences and the next one fails, a session
/// yields those `k` sentences unchanged, then one error, then nothing, however
/// often it is pulled.
pub proof fn lemma_error_latches(outs: Seq<PullOutcome>, items: Seq<Pulled>, k: int)
    requires
        is_run(outs, items),
        0 <= k < outs.len(),
        forall|i: int| 0 <= i < k ==> #[trigger] produces_sentence(outs[i]),
        outs[k] is Failed,
    ensures
        forall|i: int| 0 <= i < k ==> #[trigger] yields_sentence_of(outs[i], items[i]),
        items[k] matches Some(Err(e)) && e.kind == ErrorKind::ParseFailed,
        forall|j: int| k < j < items.len() ==> #[trigger] items[j] is None,
{
    assert forall|i: int| 0 <= i < k implies #[trigger] yields_sentence_of(outs[i], items[i]) by {
        lemma_active_prefix(outs, i);
        assert(pulled(state_after(outs.take(i)), outs[i], items[i]));
        assert(produces_sentence(outs[i]));
    }
    lemma_active_prefix(outs, k);
    assert(pulled(state_after(outs.take(k)), outs[k], items[k]));
    lemma_state_step(outs, k);
    assert forall|j: int| k < j < items.len() implies #[trigger] items[j] is None by {
        assert(pulled(state_after(outs.take(j)), outs[j], items[j]));
        lemma_latched(outs, k + 1, j);
    }
}

/// A session yields at most one error: every pull after an error yields
/// nothing.
pub proof fn lemma_at_most_one_error(outs: Seq<PullOutcome>, items: Seq<Pulled>, i: int, j: int)
    requires
        is_run(outs, items),
        0 <= i < j < items.len(),
        items[i] matches Some(Err(_)),
    ensures
        items[j] is None,
{
    assert(pulled(state_after(outs.take(i)), outs[i], items[i]));
    lemma_state_step(outs, i);
    assert(state_after(outs.take(i + 1)) == ParseState::Errored);
    lemma_latched(outs, i + 1, j);
    assert(pulled(state_after(outs.take(j)), outs[j], items[j]));
}

/// When the engine finds no sentence at all (as for an empty text), a session
/// yields nothing, and no error.
pub proof fn lemma_no_sentence_run(outs: Seq<PullOutcome>, items: Seq<Pulled>)
    requires
        is_run(outs, items),
        outs.len() > 0,
        outs[0] is End,
    ensures
        forall|j: int| 0 <= j < items.len() ==> #[trigger] items[j] is None,
{
    lemma_clean_run(outs, items, 0);
}

} // verus!
