use crate::route_op::outcome::{Outcome, OutcomeView};
use crate::text::{decimal, push_decimal};
use vstd::prelude::*;
use vstd::string::StringExecFns;

verus! {

/// How many of `outcomes` are `Applied`.
pub open spec fn count_applied(outcomes: Seq<OutcomeView>) -> nat
    decreases outcomes.len(),
{
    if outcomes.len() == 0 {
        0
    } else {
        count_applied(outcomes.drop_last()) + if outcomes.last() is Applied {
            1nat
        } else {
            0nat
        }
    }
}

/// How many of `outcomes` are `Ignored`.
pub open spec fn count_ignored(outcomes: Seq<OutcomeView>) -> nat
    decreases outcomes.len(),
{
    if outcomes.len() == 0 {
        0
    } else {
        count_ignored(outcomes.drop_last()) + if outcomes.last() is Ignored {
            1nat
        } else {
            0nat
        }
    }
}

/// How many of `outcomes` are `Failed`.
pub open spec fn count_failed(outcomes: Seq<OutcomeView>) -> nat
    decreases outcomes.len(),
{
    if outcomes.len() == 0 {
        0
    } else {
        count_failed(outcomes.drop_last()) + if outcomes.last() is Failed {
            1nat
        } else {
            0nat
        }
    }
}

/// Every outcome falls in exactly one of the three classes.
pub proof fn lemma_counts_add_up(outcomes: Seq<OutcomeView>)
    ensures
        count_applied(outcomes) + count_ignored(outcomes) + count_failed(outcomes)
            == outcomes.len(),
    decreases outcomes.len(),
{
    if outcomes.len() > 0 {
        lemma_counts_add_up(outcomes.drop_last());
    }
}

/// The place of the first failure among the outcomes, if there is one.
pub open spec fn first_failure(outcomes: Seq<OutcomeView>) -> Option<int>
    decreases outcomes.len(),
{
    if outcomes.len() == 0 {
        None
    } else {
        match first_failure(outcomes.drop_last()) {
            Some(k) => Some(k),
            None => if outcomes.last() is Failed {
                Some(outcomes.len() - 1)
            } else {
                None
            },
        }
    }
}

/// The first failure is a failure, and no outcome before it is one; and
/// where there is no first failure, there is no failure.
pub proof fn lemma_first_failure(outcomes: Seq<OutcomeView>)
    ensures
        match first_failure(outcomes) {
            Some(k) => 0 <= k < outcomes.len() && outcomes[k] is Failed && forall|i: int|
                0 <= i < k ==> !((#[trigger] outcomes[i]) is Failed),
            None => forall|i: int| 0 <= i < outcomes.len() ==> !((#[trigger] outcomes[i]) is Failed),
        },
    decreases outcomes.len(),
{
    if outcomes.len() > 0 {
        let init = outcomes.drop_last();
        lemma_first_failure(init);
        match first_failure(init) {
            Some(k) => {
                assert forall|i: int| 0 <= i < k implies !((#[trigger] outcomes[i]) is Failed) by {
                    assert(init[i] == outcomes[i]);
                }
            },
            None => {
                assert forall|i: int| 0 <= i < init.len() implies !((#[trigger] outcomes[i])
                    is Failed) by {
                    assert(init[i] == outcomes[i]);
                }
            },
        }
    }
}

/// The first failure of a list of outcomes is at the place `k` if a
/// failure stands there and none before.
pub proof fn lemma_first_failure_at(outcomes: Seq<OutcomeView>, k: int)
    requires
        0 <= k < outcomes.len(),
        outcomes[k] is Failed,
        forall|i: int| 0 <= i < k ==> !((#[trigger] outcomes[i]) is Failed),
    ensures
        first_failure(outcomes) == Some(k),
{
    lemma_first_failure(outcomes);
}

/// Where the outcomes begin with a run without failure and a failure
/// follows, that failure is the first.
pub proof fn lemma_first_failure_from_begin(outcomes: Seq<OutcomeView>, k: int)
    requires
        0 <= k < outcomes.len(),
        first_failure(outcomes.take(k)) is None,
        outcomes[k] is Failed,
    ensures
        first_failure(outcomes) == Some(k),
{
    lemma_first_failure(outcomes.take(k));
    assert forall|i: int| 0 <= i < k implies !((#[trigger] outcomes[i]) is Failed) by {
        assert(outcomes.take(k)[i] == outcomes[i]);
    }
    lemma_first_failure_at(outcomes, k);
}

/// No outcome counts as failed exactly when none is a failure.
pub proof fn lemma_none_failed(outcomes: Seq<OutcomeView>)
    ensures
        count_failed(outcomes) == 0 <==> forall|i: int|
            0 <= i < outcomes.len() ==> !((#[trigger] outcomes[i]) is Failed),
    decreases outcomes.len(),
{
    if outcomes.len() > 0 {
        let init = outcomes.drop_last();
        lemma_none_failed(init);
        if count_failed(outcomes) == 0 {
            assert forall|i: int| 0 <= i < outcomes.len() implies !((#[trigger] outcomes[i])
                is Failed) by {
                if i < init.len() {
                    assert(init[i] == outcomes[i]);
                }
            }
        }
    }
}

/// Outcomes that are all ignored count as ignored, and as nothing else.
pub proof fn law_all_ignored(outcomes: Seq<OutcomeView>)
    requires
        forall|i: int| 0 <= i < outcomes.len() ==> (#[trigger] outcomes[i]) is Ignored,
    ensures
        count_ignored(outcomes) == outcomes.len(),
        count_applied(outcomes) == 0,
        count_failed(outcomes) == 0,
    decreases outcomes.len(),
{
    if outcomes.len() > 0 {
        let init = outcomes.drop_last();
        law_all_ignored(init);
    }
}

/// The outcomes with each cause's message as a sequence of characters.
pub open spec fn views(outcomes: Seq<Outcome>) -> Seq<OutcomeView> {
    Seq::new(outcomes.len(), |i: int| outcomes[i]@)
}

/// The outcomes of one batch, in the order in which its prefixes were
/// submitted, with the number of outcomes in each class.
#[derive(Debug, PartialEq, Eq)]
pub struct BatchResult {
    outcomes: Vec<Outcome>,
    applied: usize,
    ignored: usize,
    failed: usize,
}

impl View for BatchResult {
    type V = Seq<OutcomeView>;

    open spec fn view(&self) -> Seq<OutcomeView> {
        views(self.spec_outcomes())
    }
}

impl BatchResult {
    /// What holds of every result: its counts are those of its outcomes.
    #[verifier::type_invariant]
    spec fn counts_match(self) -> bool {
        &&& self.applied == count_applied(views(self.outcomes@))
        &&& self.ignored == count_ignored(views(self.outcomes@))
        &&& self.failed == count_failed(views(self.outcomes@))
    }

    /// The outcomes, in the order in which the prefixes were submitted.
    pub closed spec fn spec_outcomes(&self) -> Seq<Outcome> {
        self.outcomes@
    }

    /// The result of a batch whose prefixes ended with `outcomes`, in this
    /// order.
    pub fn from_outcomes(outcomes: Vec<Outcome>) -> (result: BatchResult)
        ensures
            result.spec_outcomes() == outcomes@,
    {
        let mut applied: usize = 0;
        let mut ignored: usize = 0;
        let mut failed: usize = 0;
        let mut i: usize = 0;
        while i < outcomes.len()
            invariant
                i <= outcomes.len(),
                applied == count_applied(views(outcomes@.take(i as int))),
                ignored == count_ignored(views(outcomes@.take(i as int))),
                failed == count_failed(views(outcomes@.take(i as int))),
            decreases outcomes.len() - i,
        {
            proof {
                lemma_counts_add_up(views(outcomes@.take(i as int)));
                assert(views(outcomes@.take(i + 1)).drop_last() == views(
                    outcomes@.take(i as int),
                ));
            }
            match &outcomes[i] {
                Outcome::Applied => {
                    applied += 1;
                },
                Outcome::Ignored(_) => {
                    ignored += 1;
                },
                Outcome::Failed(_) => {
                    failed += 1;
                },
            }
            i += 1;
        }
        proof {
            assert(outcomes@.take(outcomes.len() as int) == outcomes@);
        }
        BatchResult { outcomes, applied, ignored, failed }
    }

    /// The outcomes, in the order in which the prefixes were submitted.
    pub fn outcomes(&self) -> (outcomes: &Vec<Outcome>)
        ensures
            outcomes@ == self.spec_outcomes(),
    {
        &self.outcomes
    }

    /// The number of prefixes in the batch.
    pub fn len(&self) -> (n: usize)
        ensures
            n == self@.len(),
    {
        self.outcomes.len()
    }

    /// The number of prefixes whose operation changed the table.
    pub fn applied(&self) -> (n: usize)
        ensures
            n == count_applied(self@),
    {
        proof {
            use_type_invariant(self);
        }
        self.applied
    }

    /// The number of prefixes for which the table was as asked already.
    pub fn ignored(&self) -> (n: usize)
        ensures
            n == count_ignored(self@),
    {
        proof {
            use_type_invariant(self);
        }
        self.ignored
    }

    /// The number of prefixes whose operation the operating system refused.
    pub fn failed(&self) -> (n: usize)
        ensures
            n == count_failed(self@),
    {
        proof {
            use_type_invariant(self);
        }
        self.failed
    }

    /// The line that sums the batch up, such as `Routes added: 2, ignored:
    /// 0, failed: 0.` for the word `added`.
    pub open spec fn summary_text(&self, done: Seq<char>) -> Seq<char> {
        "Routes "@ + done + ": "@ + decimal(count_applied(self@)) + ", ignored: "@ + decimal(
            count_ignored(self@),
        ) + ", failed: "@ + decimal(count_failed(self@)) + "."@
    }

    /// Sums the batch up in one line. `done` says what the batch did.
    pub fn summary(&self, done: &str) -> (line: String)
        ensures
            line@ == self.summary_text(done@),
    {
        proof {
            use_type_invariant(self);
        }
        let mut line = String::from_str("Routes ");
        line.append(done);
        line.append(": ");
        push_decimal(&mut line, self.applied as u64);
        line.append(", ignored: ");
        push_decimal(&mut line, self.ignored as u64);
        line.append(", failed: ");
        push_decimal(&mut line, self.failed as u64);
        line.append(".");
        line
    }

    /// Whether no operation of the batch was refused.
    pub fn succeeded(&self) -> (b: bool)
        ensures
            b == (count_failed(self@) == 0),
    {
        proof {
            use_type_invariant(self);
        }
        self.failed == 0
    }
}

/// The slots of a collector after the outcome of the prefix submitted at
/// `index` came in. A completion for a prefix that was not submitted, or
/// whose outcome is known already, changes nothing.
pub open spec fn recorded(slots: Seq<Option<Outcome>>, index: int, outcome: Outcome) -> Seq<
    Option<Outcome>,
> {
    if 0 <= index < slots.len() && slots[index] is None {
        slots.update(index, Some(outcome))
    } else {
        slots
    }
}

/// Whether the outcome of every prefix is known.
pub open spec fn all_known(slots: Seq<Option<Outcome>>) -> bool {
    forall|i: int| 0 <= i < slots.len() ==> (#[trigger] slots[i]) is Some
}

/// The outcomes that the slots hold, in the order of the slots.
pub open spec fn gathered(slots: Seq<Option<Outcome>>) -> Seq<Outcome> {
    Seq::new(slots.len(), |i: int| slots[i]->Some_0)
}

/// The slots after completions came in one after the other. A completion
/// names the place of a prefix in the submission and gives its outcome.
pub open spec fn recorded_all(slots: Seq<Option<Outcome>>, completions: Seq<(int, Outcome)>) -> Seq<
    Option<Outcome>,
>
    decreases completions.len(),
{
    if completions.len() == 0 {
        slots
    } else {
        recorded(
            recorded_all(slots, completions.drop_last()),
            completions.last().0,
            completions.last().1,
        )
    }
}

/// Gathers the outcomes of one batch as they come in, in whatever order,
/// and hands them out in the order in which the prefixes were submitted.
#[derive(Debug)]
pub struct OutcomeCollector {
    slots: Vec<Option<Outcome>>,
}

impl View for OutcomeCollector {
    type V = Seq<Option<Outcome>>;

    /// For each prefix, by its place in the submission, the outcome if it
    /// is known.
    closed spec fn view(&self) -> Seq<Option<Outcome>> {
        self.slots@
    }
}

impl OutcomeCollector {
    /// A collector for a batch of `n` prefixes, none of whose outcomes is
    /// known yet.
    pub fn new(n: usize) -> (collector: OutcomeCollector)
        ensures
            collector@ == Seq::new(n as nat, |i: int| None::<Outcome>),
    {
        let mut slots: Vec<Option<Outcome>> = Vec::new();
        let mut i: usize = 0;
        while i < n
            invariant
                i <= n,
                slots@.len() == i,
                forall|j: int| 0 <= j < i ==> slots@[j] is None,
            decreases n - i,
        {
            slots.push(None);
            i += 1;
        }
        OutcomeCollector { slots }
    }

    /// The number of prefixes in the batch.
    pub fn len(&self) -> (n: usize)
        ensures
            n == self@.len(),
    {
        self.slots.len()
    }

    /// Takes in the outcome of the prefix submitted at `index`. Returns
    /// whether it was taken in: it is not where the batch has no such
    /// prefix or the prefix has an outcome already.
    pub fn record(&mut self, index: usize, outcome: Outcome) -> (accepted: bool)
        ensures
            final(self)@ == recorded(old(self)@, index as int, outcome),
            accepted == (index < old(self)@.len() && old(self)@[index as int] is None),
    {
        if index < self.slots.len() && self.slots[index].is_none() {
            self.slots.set(index, Some(outcome));
            true
        } else {
            false
        }
    }

    /// Whether the outcome of every prefix is known.
    pub fn is_complete(&self) -> (b: bool)
        ensures
            b == all_known(self@),
    {
        let mut i: usize = 0;
        while i < self.slots.len()
            invariant
                i <= self.slots@.len(),
                forall|j: int| 0 <= j < i ==> self.slots@[j] is Some,
            decreases self.slots.len() - i,
        {
            if self.slots[i].is_none() {
                return false;
            }
            i += 1;
        }
        true
    }

    /// The result of the batch, once the outcome of every prefix is known.
    pub fn finish(self) -> (result: Option<BatchResult>)
        ensures
            all_known(self@) ==> result is Some && result->Some_0.spec_outcomes() == gathered(
                self@,
            ),
            !all_known(self@) ==> result is None,
    {
        let mut outcomes: Vec<Outcome> = Vec::new();
        let mut i: usize = 0;
        while i < self.slots.len()
            invariant
                i <= self.slots@.len(),
                outcomes@.len() == i,
                forall|j: int| 0 <= j < i ==> self.slots@[j] == Some(outcomes@[j]),
            decreases self.slots.len() - i,
        {
            match &self.slots[i] {
                Some(outcome) => {
                    outcomes.push(outcome.clone());
                },
                None => {
                    return None;
                },
            }
            i += 1;
        }
        Some(BatchResult::from_outcomes(outcomes))
    }
}

} // verus!
