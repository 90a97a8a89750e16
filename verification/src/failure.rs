//! Failures: a message and the messages of its causes, from the outermost inwards.

use vstd::prelude::*;

use crate::text::{join, joined, push_text, same_text, texts};

verus! {

/// Why an operation failed.
#[derive(Debug)]
pub struct Failure {
    pub message: String,
    pub causes: Vec<String>,
}

impl View for Failure {
    type V = Seq<Seq<char>>;

    /// The messages, from the outermost inwards: never an empty list.
    open spec fn view(&self) -> Seq<Seq<char>> {
        seq![self.message@] + texts(self.causes@)
    }
}

/// What an operation that yields nothing came to.
pub open spec fn outcome(result: Result<(), Failure>) -> Result<(), Seq<Seq<char>>> {
    match result {
        Ok(_) => Ok(()),
        Err(failure) => Err(failure@),
    }
}

/// What an operation that yields a text came to.
pub open spec fn text_outcome(result: Result<String, Failure>) -> Result<
    Seq<char>,
    Seq<Seq<char>>,
> {
    match result {
        Ok(text) => Ok(text@),
        Err(failure) => Err(failure@),
    }
}

impl Failure {
    /// A failure with no cause but itself.
    pub fn new(message: String) -> (failure: Failure)
        ensures
            failure@ == seq![message@],
    {
        let failure = Failure { message, causes: Vec::new() };
        assert(failure@ =~= seq![message@]);
        failure
    }

    /// The failure of a larger operation, caused by this one.
    pub fn context(self, message: String) -> (failure: Failure)
        ensures
            failure@ == seq![message@] + self@,
    {
        let mut causes: Vec<String> = Vec::new();
        let inner = self.causes;
        push_text(&mut causes, self.message);
        for i in 0..inner.len()
            invariant
                inner@ == self.causes@,
                texts(causes@) =~= seq![self.message@] + texts(inner@).take(i as int),
        {
            push_text(&mut causes, inner[i].clone());
        }
        let failure = Failure { message, causes };
        assert(failure@ =~= seq![message@] + self@);
        failure
    }
}

/// The messages without those that repeat the message before them.
pub open spec fn without_repeats(messages: Seq<Seq<char>>) -> Seq<Seq<char>>
    decreases messages.len(),
{
    if messages.len() == 0 {
        messages
    } else {
        let kept = without_repeats(messages.drop_last());
        if kept.len() > 0 && kept.last() == messages.last() {
            kept
        } else {
            kept.push(messages.last())
        }
    }
}

/// The text that a failure is reported with.
pub open spec fn error_chain(messages: Seq<Seq<char>>) -> Seq<char> {
    joined(without_repeats(messages), "\ncaused by: "@)
}

/// Adds a message unless it repeats the last one.
fn push_distinct(lines: &mut Vec<String>, message: &String)
    ensures
        texts(final(lines)@) == (if texts(old(lines)@).len() > 0 && texts(old(lines)@).last()
            == message@ {
            texts(old(lines)@)
        } else {
            texts(old(lines)@).push(message@)
        }),
{
    if lines.len() > 0 && same_text(lines[lines.len() - 1].as_str(), message.as_str()) {
        return;
    }
    push_text(lines, message.clone());
}

/// Reports a failure: its messages from the outermost inwards, one below the other, where a
/// message that repeats the one before it is left out.
pub fn format_error_chain(error: &Failure) -> (report: String)
    ensures
        report@ == error_chain(error@),
{
    let mut lines: Vec<String> = Vec::new();
    push_distinct(&mut lines, &error.message);
    proof {
        reveal_with_fuel(without_repeats, 2);
        assert(error@.take(1).drop_last() =~= Seq::<Seq<char>>::empty());
        assert(texts(lines@) =~= without_repeats(error@.take(1)));
    }
    for i in 0..error.causes.len()
        invariant
            texts(lines@) == without_repeats(error@.take(i + 1)),
    {
        proof {
            assert(error@.take(i + 2).drop_last() =~= error@.take(i + 1));
            assert(error@.take(i + 2).last() == error.causes@[i as int]@);
        }
        push_distinct(&mut lines, &error.causes[i]);
    }
    assert(error@.take(error@.len() as int) =~= error@);
    join(&lines, "\ncaused by: ")
}

/// A report holds every message of the failure, and no message twice in a row.
pub proof fn law_report_keeps_every_message(messages: Seq<Seq<char>>)
    ensures
        forall|i: int|
            0 <= i < messages.len() ==> without_repeats(messages).contains(#[trigger] messages[i]),
        forall|i: int, j: int|
            0 <= i < without_repeats(messages).len() && j == i + 1 && j < without_repeats(
                messages,
            ).len() ==> #[trigger] without_repeats(messages)[i] != #[trigger] without_repeats(
                messages,
            )[j],
        messages.len() > 0 ==> without_repeats(messages).len() > 0 && without_repeats(
            messages,
        ).last() == messages.last(),
    decreases messages.len(),
{
    if messages.len() > 0 {
        let head = messages.drop_last();
        law_report_keeps_every_message(head);
        let kept = without_repeats(head);
        let all = without_repeats(messages);
        assert forall|i: int| 0 <= i < messages.len() implies all.contains(
            #[trigger] messages[i],
        ) by {
            if i < head.len() {
                assert(head[i] == messages[i]);
                let k = choose|k: int| 0 <= k < kept.len() && kept[k] == messages[i];
                assert(all[k] == messages[i]);
            } else {
                assert(all[all.len() - 1] == messages[i]);
            }
        }
    }
}

/// The messages of a failure come in their order, and one is left out exactly where it repeats the one
/// before it.
pub proof fn law_repeats_alone_are_left_out(
    before: Seq<Seq<char>>,
    message: Seq<char>,
    after: Seq<Seq<char>>,
)
    ensures
        (forall|i: int, j: int|
            0 <= i && j == i + 1 && j < before.len() ==> #[trigger] before[i]
                != #[trigger] before[j]) ==> without_repeats(before) == before,
        without_repeats(before + seq![message, message] + after) == without_repeats(
            before + seq![message] + after,
        ),
{
    if forall|i: int, j: int|
        0 <= i && j == i + 1 && j < before.len() ==> #[trigger] before[i] != #[trigger] before[j] {
        lemma_distinct_neighbours_stay(before);
    }
    lemma_repeat_is_left_out(before, message, after);
}

proof fn lemma_distinct_neighbours_stay(messages: Seq<Seq<char>>)
    requires
        forall|i: int, j: int|
            0 <= i && j == i + 1 && j < messages.len() ==> #[trigger] messages[i]
                != #[trigger] messages[j],
    ensures
        without_repeats(messages) == messages,
    decreases messages.len(),
{
    if messages.len() > 0 {
        let head = messages.drop_last();
        assert forall|i: int, j: int| 0 <= i && j == i + 1 && j < head.len() implies #[trigger] head[i]
            != #[trigger] head[j] by {
            assert(messages[i] != messages[j]);
        }
        lemma_distinct_neighbours_stay(head);
        if head.len() > 0 {
            assert(messages[head.len() - 1] != messages[head.len() as int]);
        }
        assert(head.push(messages.last()) =~= messages);
    }
}

proof fn lemma_repeat_is_left_out(
    before: Seq<Seq<char>>,
    message: Seq<char>,
    after: Seq<Seq<char>>,
)
    ensures
        without_repeats(before + seq![message, message] + after) == without_repeats(
            before + seq![message] + after,
        ),
    decreases after.len(),
{
    let twice = before + seq![message, message] + after;
    let once = before + seq![message] + after;
    if after.len() == 0 {
        assert(twice.drop_last() =~= once);
        law_report_keeps_every_message(once);
    } else {
        let fewer = after.drop_last();
        lemma_repeat_is_left_out(before, message, fewer);
        assert(twice.drop_last() =~= before + seq![message, message] + fewer);
        assert(once.drop_last() =~= before + seq![message] + fewer);
    }
}

/// A report has the messages one below the other, each but the first after the words that say that it is
/// the cause of the one above.
pub proof fn law_report_leads_to_the_cause(messages: Seq<Seq<char>>, cause: Seq<char>)
    requires
        messages.len() > 0,
        messages.last() != cause,
    ensures
        error_chain(seq![cause]) == cause,
        error_chain(messages.push(cause)) == error_chain(messages) + "\ncaused by: "@ + cause,
{
    reveal_with_fuel(without_repeats, 2);
    reveal_with_fuel(joined, 2);
    law_report_keeps_every_message(messages);
    let kept = without_repeats(messages);
    assert(messages.push(cause).drop_last() =~= messages);
    assert(kept.push(cause).drop_last() =~= kept);
    assert(seq![cause].drop_last() =~= Seq::<Seq<char>>::empty());
    assert(without_repeats(seq![cause]) =~= seq![cause]);
}

/// A failure is known by all of its messages, and a result by its value or by its failure.
pub proof fn law_results_keep_their_failure(failure: Failure, text: String)
    ensures
        failure@.len() == 1 + failure.causes@.len(),
        failure@[0] == failure.message@,
        forall|i: int|
            0 <= i < failure.causes@.len() ==> failure@[i + 1] == (#[trigger] failure.causes@[i])@,
        outcome(Ok(())) is Ok,
        outcome(Err(failure)) == Err::<(), Seq<Seq<char>>>(failure@),
        text_outcome(Ok(text)) == Ok::<Seq<char>, Seq<Seq<char>>>(text@),
        text_outcome(Err(failure)) == Err::<Seq<char>, Seq<Seq<char>>>(failure@),
{
}

} // verus!
