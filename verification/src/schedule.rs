//! A model of a message loop: how it takes messages off the queue, and how the threads that deal
//! with them come to their end, in whatever order.
//!
//! The model is specification only. It describes the loop of the application, which calls
//! `Run::is_running`, `Run::note` and `Run::queue_closed`; that the loop does what the model says
//! is not proved.
use crate::decoder::{
    interpretable, interpretation_error, interpretation_leads, is_interpretation,
};
use crate::messages::{has_fields, lemma_fields_unique};
use crate::run::{
    is_received, is_reception, lemma_texts_decide_reception, too_long, Reception, Run, Verdict,
};
use crate::text::texts;
use vstd::prelude::*;

verus! {

/// Something that happens in the message loop.
pub enum Step {
    /// The loop finds that the run goes on, and waits for the queue.
    Wait,
    /// The queue gives its next message. A thread begins to deal with it.
    Take,
    /// The thread that deals with the message of this number, counted from zero, is done: the
    /// events of the message have been handed on, and the run has taken in the verdict or the
    /// thread has died, which leaves the run as it is.
    Finish(int),
    /// The queue says that no more messages will come.
    Close,
}

/// How far the message loop has come.
pub struct Schedule {
    pub run: Run,
    /// Whether the loop waits for the queue.
    pub waiting: bool,
    /// How many messages the loop has taken off the queue.
    pub taken: int,
    /// The messages whose threads are done, in the order in which they were.
    pub finished: Seq<int>,
}

impl Schedule {
    /// The message loop at its beginning.
    pub open spec fn start() -> Schedule {
        Schedule { run: Run::spec_start(), waiting: false, taken: 0, finished: seq![] }
    }

    /// Whether a step can happen, where the queue gives `count` messages and then closes.
    pub open spec fn can(self, count: int, step: Step) -> bool {
        match step {
            Step::Wait => !self.waiting && self.run.spec_running(),
            Step::Take => self.waiting && self.taken < count,
            Step::Finish(i) => 0 <= i < self.taken && !self.finished.contains(i),
            Step::Close => self.waiting && self.taken == count,
        }
    }

    /// The message loop after a step, where `verdicts` has the verdict on each message.
    pub open spec fn after(self, verdicts: Seq<Verdict>, step: Step) -> Schedule {
        match step {
            Step::Wait => Schedule { waiting: true, ..self },
            Step::Take => Schedule { waiting: false, taken: self.taken + 1, ..self },
            Step::Finish(i) => Schedule {
                run: self.run.spec_after(verdicts[i]),
                finished: self.finished.push(i),
                ..self
            },
            Step::Close => Schedule { run: self.run.spec_closed(), waiting: false, ..self },
        }
    }

    /// The message loop after several steps.
    pub open spec fn after_all(self, verdicts: Seq<Verdict>, steps: Seq<Step>) -> Schedule
        decreases steps.len(),
    {
        if steps.len() == 0 {
            self
        } else {
            self.after_all(verdicts, steps.drop_last()).after(verdicts, steps.last())
        }
    }

    /// Whether several steps can happen one after the other.
    pub open spec fn can_all(self, verdicts: Seq<Verdict>, steps: Seq<Step>) -> bool
        decreases steps.len(),
    {
        steps.len() > 0 ==> {
            &&& self.can_all(verdicts, steps.drop_last())
            &&& self.after_all(verdicts, steps.drop_last()).can(
                verdicts.len() as int,
                steps.last(),
            )
        }
    }

    /// Whether the loop has been left.
    pub open spec fn is_left(self) -> bool {
        !self.waiting && !self.run.spec_running()
    }

    /// Whether the loop has been left and all its threads are done.
    pub open spec fn is_over(self) -> bool {
        &&& self.is_left()
        &&& forall|i: int| 0 <= i < self.taken ==> self.finished.contains(i)
    }

    /// As long as the loop has not been left, it can go on.
    pub proof fn lemma_goes_on(self, count: int)
        requires
            self.taken <= count,
        ensures
            self.is_left() || self.can(count, Step::Wait) || self.can(count, Step::Take)
                || self.can(count, Step::Close),
    {
    }

    /// Whatever the verdicts and the order of steps: no message is dealt with that was not taken
    /// off the queue, none is dealt with twice, and the run has failed exactly where a message
    /// that has been dealt with says so.
    pub proof fn lemma_dealt_with_once(verdicts: Seq<Verdict>, steps: Seq<Step>)
        requires
            Schedule::start().can_all(verdicts, steps),
        ensures
            ({
                let now = Schedule::start().after_all(verdicts, steps);
                &&& 0 <= now.taken <= verdicts.len()
                &&& now.finished.no_duplicates()
                &&& forall|i: int| #[trigger]
                    now.finished.contains(i) ==> 0 <= i < now.taken
                &&& now.run.spec_failed() <==> exists|i: int| #[trigger]
                    now.finished.contains(i) && verdicts[i] == Verdict::Fail
            }),
        decreases steps.len(),
    {
        if steps.len() == 0 {
            Run::spec_start().lemma_steps(Verdict::Continue);
        } else {
            let before = Schedule::start().after_all(verdicts, steps.drop_last());
            let now = Schedule::start().after_all(verdicts, steps);
            Schedule::lemma_dealt_with_once(verdicts, steps.drop_last());
            before.run.lemma_steps(Verdict::Continue);
            if let Step::Finish(k) = steps.last() {
                before.run.lemma_steps(verdicts[k]);
                assert(now.finished == before.finished.push(k));
                assert(now.finished[before.finished.len() as int] == k);
                assert forall|i: int| #[trigger] now.finished.contains(i) <==> i == k
                    || before.finished.contains(i) by {
                    if before.finished.contains(i) {
                        let j = choose|j: int|
                            0 <= j < before.finished.len() && before.finished[j] == i;
                        assert(now.finished[j] == i);
                    }
                    if now.finished.contains(i) && i != k {
                        let j = choose|j: int| 0 <= j < now.finished.len() && now.finished[j] == i;
                        assert(before.finished[j] == i);
                    }
                }
                assert(now.finished.no_duplicates()) by {
                    assert(forall|j: int|
                        0 <= j < before.finished.len() ==> before.finished.contains(
                            #[trigger] before.finished[j],
                        ));
                }
                assert(now.finished.contains(k));
                if before.run.spec_failed() {
                    let i = choose|i: int| #[trigger]
                        before.finished.contains(i) && verdicts[i] == Verdict::Fail;
                    assert(now.finished.contains(i));
                }
            }
        }
    }

    /// Where every verdict lets the run go on, it does until the queue has given all its messages.
    proof fn lemma_takes_all(verdicts: Seq<Verdict>, steps: Seq<Step>)
        requires
            Schedule::start().can_all(verdicts, steps),
            forall|i: int| 0 <= i < verdicts.len() ==> (#[trigger] verdicts[i]).goes_on(),
        ensures
            ({
                let now = Schedule::start().after_all(verdicts, steps);
                &&& now.waiting ==> now.run.spec_running()
                &&& now.run.spec_running() || now.taken == verdicts.len()
            }),
        decreases steps.len(),
    {
        if steps.len() == 0 {
            Run::spec_start().lemma_steps(Verdict::Continue);
        } else {
            let before = Schedule::start().after_all(verdicts, steps.drop_last());
            Schedule::lemma_takes_all(verdicts, steps.drop_last());
            Schedule::lemma_dealt_with_once(verdicts, steps.drop_last());
            before.run.lemma_steps(Verdict::Continue);
            if let Step::Finish(k) = steps.last() {
                before.run.lemma_steps(verdicts[k]);
            }
        }
    }
}

/// Whether a message does not end the run: it is not too long, and its fields are not in error.
pub open spec fn is_harmless(server_version: i32, message: Seq<char>) -> bool {
    &&& !too_long(message)
    &&& exists|f: Seq<String>|
        has_fields(message, texts(f)) && #[trigger] interpretation_error(server_version, f) is None
}

/// Whether what comes of a message, `r`, is what the fields of the message tell, to their end or
/// until they break off, and the run goes on.
pub open spec fn is_fed(server_version: i32, message: Seq<char>, r: Reception) -> bool {
    &&& r.verdict.goes_on()
    &&& exists|f: Seq<String>| #[trigger]
        has_fields(message, texts(f)) && if interpretable(server_version, f) {
            &&& r.verdict == Verdict::Continue
            &&& is_interpretation(server_version, f, Ok(r.events))
        } else {
            &&& r.verdict == Verdict::Broken
            &&& interpretation_leads(server_version, f, r.events@)
        }
}

/// The verdicts on messages.
pub open spec fn verdicts_of(receptions: Seq<Reception>) -> Seq<Verdict> {
    receptions.map_values(|r: Reception| r.verdict)
}

/// What is received of a message that does not end the run is what its fields tell.
pub proof fn lemma_harmless_is_fed(server_version: i32, message: Seq<char>, r: Reception)
    requires
        is_harmless(server_version, message),
        is_received(server_version, message, r),
    ensures
        is_fed(server_version, message, r),
{
    let f = choose|f: Seq<String>|
        has_fields(message, texts(f)) && #[trigger] interpretation_error(server_version, f) is None;
    let g = choose|g: Seq<String>|
        has_fields(message, texts(g)) && #[trigger] is_reception(server_version, g, r);
    lemma_fields_unique(message, texts(f), texts(g));
    lemma_texts_decide_reception(server_version, f, g, r);
}

/// A queue gives messages of which none is too long or in error, and then closes. Whatever the
/// order in which the loop takes them and the threads that deal with them come to their end:
/// - what is received of each message is what its fields tell, to their end or, where they cannot
///   be interpreted, until they break off;
/// - the run never fails, and goes on until the queue closes;
/// - when the loop has been left, all messages have been taken off the queue;
/// - when the threads are done, too, each message has been fed, and none of them twice.
pub proof fn lemma_every_message_is_fed(
    server_version: i32,
    messages: Seq<Seq<char>>,
    receptions: Seq<Reception>,
    steps: Seq<Step>,
)
    requires
        receptions.len() == messages.len(),
        forall|i: int|
            0 <= i < messages.len() ==> is_harmless(server_version, #[trigger] messages[i]),
        forall|i: int|
            0 <= i < messages.len() ==> is_received(
                server_version,
                #[trigger] messages[i],
                receptions[i],
            ),
        Schedule::start().can_all(verdicts_of(receptions), steps),
    ensures
        forall|i: int|
            0 <= i < messages.len() ==> is_fed(
                server_version,
                #[trigger] messages[i],
                receptions[i],
            ),
        Run::spec_start().after_all(verdicts_of(receptions)).spec_running(),
        !Run::spec_start().after_all(verdicts_of(receptions)).spec_closed().spec_failed(),
        ({
            let now = Schedule::start().after_all(verdicts_of(receptions), steps);
            &&& !now.run.spec_failed()
            &&& now.is_left() ==> now.taken == messages.len()
            &&& now.finished.no_duplicates()
            &&& now.is_over() ==> forall|i: int| #[trigger]
                now.finished.contains(i) <==> 0 <= i < messages.len()
        }),
{
    let verdicts = verdicts_of(receptions);
    assert forall|i: int| 0 <= i < messages.len() implies is_fed(
        server_version,
        #[trigger] messages[i],
        receptions[i],
    ) by {
        lemma_harmless_is_fed(server_version, messages[i], receptions[i]);
    }
    assert forall|i: int| 0 <= i < verdicts.len() implies (#[trigger] verdicts[i]).goes_on() by {
        assert(is_fed(server_version, messages[i], receptions[i]));
    }
    Run::spec_start().lemma_steps(Verdict::Continue);
    Run::spec_start().lemma_after_all(verdicts);
    Run::spec_start().after_all(verdicts).lemma_steps(Verdict::Continue);
    Schedule::lemma_dealt_with_once(verdicts, steps);
    Schedule::lemma_takes_all(verdicts, steps);
}

} // verus!
