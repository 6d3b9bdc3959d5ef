//! The fragment sequence of a streamed completion.
//!
//! The caller pulls chunks from the transport, one at a time, and hands
//! each to the sequence, which says what to yield and whether to go on.
//! Fragments come out in the order in which they went in. The first
//! failure is yielded once and ends the sequence, as the end of the stream
//! does. A caller that stops pulling cancels the stream.

use crate::completion::{CompletionFragment, ExecutionError, Reply};
use vstd::prelude::*;

verus! {

/// What one pull of the transport reports: a chunk, readable or not, or
/// `None` at the end of the stream.
pub type Pull = Option<Reply<CompletionFragment>>;

/// What the sequence yields: a fragment, or the error that ended it.
pub type Element = Result<CompletionFragment, ExecutionError>;

/// What a sequence that has not terminated yields for one pull.
pub open spec fn yield_of(pull: Pull) -> Option<Element> {
    match pull {
        Some(reply) => Some(reply.outcome()),
        None => None,
    }
}

/// Whether a sequence goes on after a pull: only after a fragment.
pub open spec fn continues_after(pull: Pull) -> bool {
    pull matches Some(Reply::Decoded(_))
}

/// All that a sequence yields when the transport would report `pulls`, in
/// this order, to a caller that pulls for as long as the sequence allows.
pub open spec fn yielded(terminated: bool, pulls: Seq<Pull>) -> Seq<Element>
    decreases pulls.len(),
{
    if terminated || pulls.len() == 0 {
        Seq::empty()
    } else {
        let rest = yielded(!continues_after(pulls[0]), pulls.skip(1));
        match yield_of(pulls[0]) {
            Some(element) => seq![element] + rest,
            None => rest,
        }
    }
}

/// How many of `pulls` are made before the sequence terminates.
pub open spec fn pulls_made(terminated: bool, pulls: Seq<Pull>) -> nat
    decreases pulls.len(),
{
    if terminated || pulls.len() == 0 {
        0
    } else {
        1 + pulls_made(!continues_after(pulls[0]), pulls.skip(1))
    }
}

/// The pulls by which the transport delivers `fragments`, one chunk each.
pub open spec fn delivering(fragments: Seq<CompletionFragment>) -> Seq<Pull> {
    Seq::new(fragments.len(), |i: int| Some(Reply::Decoded(fragments[i])))
}

/// `fragments` as elements of a sequence, in the same order.
pub open spec fn as_elements(fragments: Seq<CompletionFragment>) -> Seq<Element> {
    Seq::new(fragments.len(), |i: int| Ok(fragments[i]))
}

/// A sequence that is handed fragments yields each of them once, in the
/// order of arrival, and then goes on with whatever follows.
pub proof fn lemma_fragments_pass_in_order(fragments: Seq<CompletionFragment>, rest: Seq<Pull>)
    ensures
        yielded(false, delivering(fragments) + rest) == as_elements(fragments) + yielded(
            false,
            rest,
        ),
        pulls_made(false, delivering(fragments) + rest) == fragments.len() + pulls_made(
            false,
            rest,
        ),
    decreases fragments.len(),
{
    let pulls = delivering(fragments) + rest;
    if fragments.len() == 0 {
        assert(pulls =~= rest);
        assert(as_elements(fragments) + yielded(false, rest) =~= yielded(false, rest));
    } else {
        let tail = fragments.skip(1);
        lemma_fragments_pass_in_order(tail, rest);
        assert(pulls[0] == Some(Reply::Decoded(fragments[0])));
        assert(pulls.skip(1) =~= delivering(tail) + rest);
        assert(seq![Ok::<CompletionFragment, ExecutionError>(fragments[0])] + (as_elements(tail)
            + yielded(false, rest)) =~= as_elements(fragments) + yielded(false, rest));
    }
}

/// A stream of fragments that then ends yields exactly those fragments, in
/// the same order, none twice and none lost, and terminates: the pull that
/// finds the end is the last, whatever the transport might still hold.
pub proof fn lemma_complete_stream(fragments: Seq<CompletionFragment>, rest: Seq<Pull>)
    ensures
        yielded(false, (delivering(fragments) + seq![None::<Reply<CompletionFragment>>]) + rest)
            == as_elements(fragments),
        pulls_made(false, (delivering(fragments) + seq![None::<Reply<CompletionFragment>>]) + rest)
            == fragments.len() + 1,
{
    let end = seq![None::<Reply<CompletionFragment>>] + rest;
    lemma_fragments_pass_in_order(fragments, end);
    assert((delivering(fragments) + seq![None::<Reply<CompletionFragment>>]) + rest
        =~= delivering(fragments) + end);
    assert(yielded(true, end.skip(1)) =~= Seq::<Element>::empty());
    assert(pulls_made(true, end.skip(1)) == 0);
    assert(as_elements(fragments) + yielded(false, end) =~= as_elements(fragments));
}

/// A stream that fails after some fragments yields those fragments, then
/// the failure as one last element, and terminates: no pull follows the
/// one that failed. This holds of a failure of any layer, a broken
/// connection among them.
pub proof fn lemma_failure_ends_stream(
    fragments: Seq<CompletionFragment>,
    failure: Reply<CompletionFragment>,
    rest: Seq<Pull>,
)
    requires
        !(failure is Decoded),
    ensures
        failure.outcome() is Err,
        yielded(false, (delivering(fragments) + seq![Some(failure)]) + rest) == as_elements(
            fragments,
        ).push(failure.outcome()),
        pulls_made(false, (delivering(fragments) + seq![Some(failure)]) + rest) == fragments.len()
            + 1,
{
    let end = seq![Some(failure)] + rest;
    lemma_fragments_pass_in_order(fragments, end);
    assert((delivering(fragments) + seq![Some(failure)]) + rest =~= delivering(fragments) + end);
    assert(yielded(true, end.skip(1)) =~= Seq::<Element>::empty());
    assert(pulls_made(true, end.skip(1)) == 0);
    assert(yielded(false, end) =~= seq![failure.outcome()]);
    assert(as_elements(fragments) + yielded(false, end) =~= as_elements(fragments).push(
        failure.outcome(),
    ));
}

/// The items of `items`, last first.
fn in_reverse<T>(items: Vec<T>) -> (result: Vec<T>)
    ensures
        result@.len() == items@.len(),
        forall|i: int| 0 <= i < items@.len() ==> result@[i] == items@[items@.len() - 1 - i],
{
    let mut items = items;
    let ghost all = items@;
    let mut out: Vec<T> = Vec::new();
    while items.len() > 0
        invariant
            items@.len() + out@.len() == all.len(),
            items@ == all.take(items@.len() as int),
            forall|i: int| 0 <= i < out@.len() ==> out@[i] == all[all.len() - 1 - i],
        decreases items@.len(),
    {
        let item = items.pop().unwrap();
        out.push(item);
    }
    out
}

/// The state of a streamed completion between two pulls.
#[derive(Debug, PartialEq, Eq)]
pub struct FragmentSequence {
    terminated: bool,
}

impl FragmentSequence {
    /// Whether the sequence has ended: nothing more is to be pulled.
    pub closed spec fn is_terminated(&self) -> bool {
        self.terminated
    }

    /// The sequence of a stream that was just opened.
    pub fn new() -> (result: FragmentSequence)
        ensures
            !result.is_terminated(),
    {
        FragmentSequence { terminated: false }
    }

    /// Whether to pull another chunk from the transport.
    pub fn wants_pull(&self) -> (result: bool)
        ensures
            result == !self.is_terminated(),
    {
        !self.terminated
    }

    /// Takes the outcome of one pull and gives the element to yield, if
    /// any.
    ///
    /// A fragment is yielded as it is and the sequence goes on. The end of
    /// the stream yields nothing and terminates the sequence. A failure of
    /// any layer is yielded as the last element and terminates the
    /// sequence. A terminated sequence yields nothing and stays so.
    pub fn next(&mut self, pull: Pull) -> (result: Option<Element>)
        ensures
            old(self).is_terminated() ==> result is None && final(self).is_terminated(),
            !old(self).is_terminated() ==> result == yield_of(pull) && final(self).is_terminated()
                == !continues_after(pull),
    {
        if self.terminated {
            return None;
        }
        match pull {
            None => {
                self.terminated = true;
                None
            },
            Some(reply) => {
                let element = reply.into_result();
                if element.is_err() {
                    self.terminated = true;
                }
                Some(element)
            },
        }
    }

    /// Runs a fresh sequence over recorded pulls, pulling for as long as
    /// the sequence allows, and gives what it yields and the number of
    /// pulls made.
    pub fn replay(pulls: Vec<Pull>) -> (result: (Vec<Element>, usize))
        ensures
            result.0@ == yielded(false, pulls@),
            result.1 == pulls_made(false, pulls@),
    {
        let mut sequence = FragmentSequence::new();
        let ghost all = pulls@;
        let mut out: Vec<Element> = Vec::new();
        let mut made: usize = 0;
        let total: usize = pulls.len();
        let mut pulls = in_reverse(pulls);
        proof {
            assert(all.skip(0) =~= all);
            assert(out@ + yielded(false, all) =~= yielded(false, all));
        }
        while sequence.wants_pull() && made < total
            invariant
                made <= total,
                total == all.len(),
                pulls@.len() == total - made,
                forall|i: int| 0 <= i < pulls@.len() ==> pulls@[i] == all[total - 1 - i],
                yielded(false, all) == out@ + yielded(
                    sequence.is_terminated(),
                    all.skip(made as int),
                ),
                pulls_made(false, all) == made + pulls_made(
                    sequence.is_terminated(),
                    all.skip(made as int),
                ),
            decreases total - made,
        {
            let pull = pulls.pop().unwrap();
            let ghost before = out@;
            let ghost rest = all.skip(made as int);
            assert(rest[0] == pull);
            assert(rest.skip(1) =~= all.skip(made + 1));
            match sequence.next(pull) {
                Some(element) => {
                    out.push(element);
                    assert(out@ + yielded(sequence.is_terminated(), rest.skip(1)) =~= before
                        + yielded(false, rest));
                },
                None => {},
            }
            made = made + 1;
        }
        assert(out@ + yielded(sequence.is_terminated(), all.skip(made as int)) =~= out@);
        (out, made)
    }
}

} // verus!
