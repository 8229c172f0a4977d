use amqprs::channel::BasicAckArguments;
use vstd::prelude::*;

/// Tools that used to process AMQP messages
pub mod event;

verus! {

/// `amqprs::channel::BasicAckArguments`: the delivery tag to acknowledge, and
/// whether every earlier delivery is acknowledged with it. Both fields are
/// public in amqprs, and Verus reads them.
#[verifier::external_type_specification]
pub struct ExBasicAckArguments(BasicAckArguments);

/// `BasicAckArguments::new`, which stores its two arguments in the two
/// fields.
#[verifier::external_body]
pub(crate) fn ack_arguments(delivery_tag: u64, multiple: bool) -> (args: BasicAckArguments)
    ensures
        args.delivery_tag == delivery_tag,
        args.multiple == multiple,
{
    BasicAckArguments::new(delivery_tag, multiple)
}

/// The `Clone` that amqprs derives for `BasicAckArguments` copies both fields.
pub assume_specification[ <BasicAckArguments as Clone>::clone ](args: &BasicAckArguments) -> (copy:
    BasicAckArguments)
    ensures
        copy == *args,
;

/// The broker refused an acknowledgement as often as the retrier was allowed
/// to try. The delivery is neither acknowledged nor retained by choice: the
/// host decides whether to go on without it or to stop consuming.
#[derive(Debug, Clone, Copy, PartialEq, Eq, Structural)]
pub struct AckExhausted {
    /// The delivery that could not be acknowledged.
    pub delivery_tag: u64,
    /// How many acknowledgements were sent, all of them in vain.
    pub attempts: u32,
}

/// What the retrier asks of its host next.
#[derive(Debug)]
pub enum AckStep {
    /// Send this acknowledgement to the broker, then `record` how it went.
    Attempt(BasicAckArguments),
    /// The broker took the acknowledgement. Nothing is left to do.
    Acked,
    /// Every allowed attempt failed. Nothing more is sent.
    Exhausted(AckExhausted),
}

/// How far one acknowledgement has come: the model that the contracts of
/// [`AckRetrier`] speak of.
pub struct AckProgress {
    /// What is sent to the broker at each attempt.
    pub arg: BasicAckArguments,
    /// How many attempts may fail.
    pub max_retries: nat,
    /// How many attempts have failed.
    pub retries: nat,
    /// Whether an attempt has succeeded.
    pub acked: bool,
}

impl AckProgress {
    /// Nothing has been sent yet.
    pub open spec fn start(arg: BasicAckArguments, max_retries: u32) -> AckProgress {
        AckProgress { arg, max_retries: max_retries as nat, retries: 0, acked: false }
    }

    /// What holds of every progress that `start` and `record` can reach: no
    /// more refusals are counted than allowed, and an acknowledgement that
    /// was taken was sent within the bound.
    pub open spec fn within_bound(self) -> bool {
        &&& self.retries <= self.max_retries
        &&& self.acked ==> self.retries < self.max_retries
    }

    /// No further attempt will be made.
    pub open spec fn settled(self) -> bool {
        self.acked || self.retries >= self.max_retries
    }

    /// How many acknowledgements have been sent to the broker.
    pub open spec fn attempts(self) -> nat {
        if self.acked {
            self.retries + 1
        } else {
            self.retries
        }
    }

    /// What the host is asked to do at this point.
    pub open spec fn step(self) -> AckStep {
        if self.acked {
            AckStep::Acked
        } else if self.retries < self.max_retries {
            AckStep::Attempt(self.arg)
        } else {
            AckStep::Exhausted(
                AckExhausted {
                    delivery_tag: self.arg.delivery_tag,
                    attempts: self.retries as u32,
                },
            )
        }
    }

    /// The progress after one more attempt, which the broker took
    /// (`acknowledged`) or refused. Once settled, nothing changes any more.
    pub open spec fn record(self, acknowledged: bool) -> AckProgress {
        if self.settled() {
            self
        } else if acknowledged {
            AckProgress { acked: true, ..self }
        } else {
            AckProgress { retries: self.retries + 1, ..self }
        }
    }

    /// The progress after a whole history of attempts, oldest first.
    pub open spec fn run(self, outcomes: Seq<bool>) -> AckProgress
        decreases outcomes.len(),
    {
        if outcomes.len() == 0 {
            self
        } else {
            self.run(outcomes.drop_last()).record(outcomes.last())
        }
    }
}

/// A history in which the broker refused `count` acknowledgements in a row.
pub open spec fn refusals(count: nat) -> Seq<bool> {
    Seq::new(count, |i: int| false)
}

/// An acknowledgement with bounded retry. The retrier sends nothing itself:
/// it says through [`AckRetrier::step`] what to send, and learns through
/// [`AckRetrier::record`] how it went.
pub struct AckRetrier {
    arg: BasicAckArguments,
    max_retries: u32,
    retries: u32,
    acked: bool,
}

impl View for AckRetrier {
    type V = AckProgress;

    closed spec fn view(&self) -> AckProgress {
        AckProgress {
            arg: self.arg,
            max_retries: self.max_retries as nat,
            retries: self.retries as nat,
            acked: self.acked,
        }
    }
}

impl AckRetrier {
    #[verifier::type_invariant]
    spec fn within_bound(self) -> bool {
        &&& self.retries <= self.max_retries
        &&& self.acked ==> self.retries < self.max_retries
    }

    /// What to do next: send the acknowledgement once more, or stop because
    /// it was taken or because `max_retries` attempts have failed.
    pub fn step(&self) -> (step: AckStep)
        ensures
            step == self@.step(),
    {
        if self.acked {
            AckStep::Acked
        } else if self.retries < self.max_retries {
            AckStep::Attempt(self.arg.clone())
        } else {
            AckStep::Exhausted(
                AckExhausted { delivery_tag: self.arg.delivery_tag, attempts: self.retries },
            )
        }
    }

    /// Takes note of how the attempt went that `step` asked for. A refusal
    /// counts against `max_retries`. After the last step nothing is counted
    /// any more.
    pub fn record(&mut self, acknowledged: bool)
        ensures
            final(self)@ == old(self)@.record(acknowledged),
    {
        proof {
            use_type_invariant(&*self);
        }
        if !self.acked && self.retries < self.max_retries {
            if acknowledged {
                self.acked = true;
            } else {
                self.retries = self.retries + 1;
            }
        }
    }

    /// How many acknowledgements have been sent to the broker so far.
    pub fn attempts(&self) -> (attempts: u32)
        ensures
            attempts == self@.attempts(),
    {
        proof {
            use_type_invariant(self);
        }
        if self.acked {
            self.retries + 1
        } else {
            self.retries
        }
    }
}

/// Ack message with retry
///
/// Starts the acknowledgement that `arg` describes. It is sent until the
/// broker takes it, at most `max_retries` times.
pub fn ack(arg: BasicAckArguments, max_retries: u32) -> (retrier: AckRetrier)
    ensures
        retrier@ == AckProgress::start(arg, max_retries),
{
    AckRetrier { arg, max_retries, retries: 0, acked: false }
}

/// One more outcome at the end of a history is one more `record`.
proof fn lemma_run_push(progress: AckProgress, outcomes: Seq<bool>, last: bool)
    ensures
        progress.run(outcomes.push(last)) == progress.run(outcomes).record(last),
{
    assert(outcomes.push(last).drop_last() =~= outcomes);
}

/// While the broker refuses and the bound is not reached, each refusal is
/// counted and the acknowledgement is sent again.
proof fn lemma_run_refusals(arg: BasicAckArguments, max_retries: u32, count: nat)
    requires
        count <= max_retries,
    ensures
        AckProgress::start(arg, max_retries).run(refusals(count)) == (AckProgress {
            retries: count,
            ..AckProgress::start(arg, max_retries)
        }),
    decreases count,
{
    if count > 0 {
        let before = (count - 1) as nat;
        lemma_run_refusals(arg, max_retries, before);
        assert(refusals(count) =~= refusals(before).push(false));
        lemma_run_push(AckProgress::start(arg, max_retries), refusals(before), false);
    }
}

/// Whatever the broker answers, and however long the history, the retrier
/// never sends more than `max_retries` acknowledgements.
pub proof fn lemma_ack_attempts_are_bounded(
    arg: BasicAckArguments,
    max_retries: u32,
    outcomes: Seq<bool>,
)
    ensures
        AckProgress::start(arg, max_retries).run(outcomes).arg == arg,
        AckProgress::start(arg, max_retries).run(outcomes).max_retries == max_retries,
        AckProgress::start(arg, max_retries).run(outcomes).within_bound(),
        AckProgress::start(arg, max_retries).run(outcomes).attempts() <= max_retries,
        AckProgress::start(arg, max_retries).run(outcomes).attempts() <= outcomes.len(),
    decreases outcomes.len(),
{
    if outcomes.len() > 0 {
        lemma_ack_attempts_are_bounded(arg, max_retries, outcomes.drop_last());
    }
}

/// A broker that refuses the acknowledgement `refused` times, with `refused`
/// below `max_retries`, and then takes it: the retrier asks for an attempt
/// after each refusal, and is done after `refused + 1` attempts.
pub proof fn lemma_ack_succeeds_after_refusals(
    arg: BasicAckArguments,
    max_retries: u32,
    refused: nat,
)
    requires
        refused < max_retries,
    ensures
        forall|seen: nat|
            seen <= refused ==> #[trigger] AckProgress::start(arg, max_retries).run(
                refusals(seen),
            ).step() == AckStep::Attempt(arg),
        AckProgress::start(arg, max_retries).run(refusals(refused).push(true)).step()
            == AckStep::Acked,
        AckProgress::start(arg, max_retries).run(refusals(refused).push(true)).attempts()
            == refused + 1,
{
    let start = AckProgress::start(arg, max_retries);
    assert forall|seen: nat| seen <= refused implies #[trigger] start.run(refusals(seen)).step()
        == AckStep::Attempt(arg) by {
        lemma_run_refusals(arg, max_retries, seen);
    }
    lemma_run_refusals(arg, max_retries, refused);
    lemma_run_push(start, refusals(refused), true);
}

/// A broker that refuses every acknowledgement: after exactly `max_retries`
/// attempts the retrier reports exhaustion, and however many more refusals
/// it is told of, it has sent `max_retries` acknowledgements and no more.
pub proof fn lemma_ack_exhausts_at_the_bound(
    arg: BasicAckArguments,
    max_retries: u32,
    refused: nat,
)
    requires
        refused >= max_retries,
    ensures
        AckProgress::start(arg, max_retries).run(refusals(refused)).step() == AckStep::Exhausted(
            AckExhausted { delivery_tag: arg.delivery_tag, attempts: max_retries },
        ),
        AckProgress::start(arg, max_retries).run(refusals(refused)).attempts() == max_retries,
    decreases refused,
{
    let start = AckProgress::start(arg, max_retries);
    if refused == max_retries {
        lemma_run_refusals(arg, max_retries, refused);
    } else {
        let before = (refused - 1) as nat;
        lemma_ack_exhausts_at_the_bound(arg, max_retries, before);
        assert(refusals(refused) =~= refusals(before).push(false));
        lemma_run_push(start, refusals(before), false);
    }
}

/// Once the broker has taken the acknowledgement, or the bound is reached,
/// the retrier is done for good: whatever it is told afterwards, it asks for
/// no further attempt and counts none.
pub proof fn lemma_settled_is_final(progress: AckProgress, outcomes: Seq<bool>)
    requires
        progress.settled(),
    ensures
        progress.run(outcomes) == progress,
        !(progress.run(outcomes).step() is Attempt),
    decreases outcomes.len(),
{
    if outcomes.len() > 0 {
        lemma_settled_is_final(progress, outcomes.drop_last());
    }
}

} // verus!
