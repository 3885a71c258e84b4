//! The run of a decoder over the messages that a server sends: what each of them does to it.
use crate::codes::ConnStatus;
use crate::decoder::{
    interpretable, interpretation_error, interpretation_leads, is_interpretation, Decoder, Ending,
    Interpretation,
};
use crate::errors::{IBKRApiLibError, TwsError};
use crate::event::Event;
use crate::messages::{
    are_field_texts, framed, has_fields, lemma_fields_unique, lemma_framed_reads_back, read_fields,
};
use crate::properties::{interpretation_count, lemma_any_interpretation, lemma_texts_decide};
use crate::text::{
    decimal, decimal_text, integer, integer_text, lemma_integer_reads_back, texts,
};
use vstd::prelude::*;
use vstd::string::StringExecFns;
use vstd::utf8::encode_utf8;

verus! {

/// The length in bytes of the longest message.
pub const MAX_MSG_LEN: usize = 0xFF_FFFF;

/// The number that stands for no request.
pub const NO_VALID_ID: i32 = -1;

/// What a message means for the run that it belongs to.
#[derive(Clone, Copy, Debug, PartialEq, Eq, Structural)]
pub enum Verdict {
    /// The run goes on.
    Continue,
    /// The thread that deals with the message dies of it. The run goes on.
    Broken,
    /// The run is over.
    Disconnect,
    /// The run is over, and has failed.
    Fail,
}

impl Verdict {
    /// Whether the run goes on after the message.
    pub open spec fn goes_on(self) -> bool {
        self == Verdict::Continue || self == Verdict::Broken
    }

    /// The verdict once the events of the message have been handed to the application, or could
    /// not all be.
    pub open spec fn spec_after_delivery(self, delivered: bool) -> Verdict {
        if delivered {
            self
        } else {
            Verdict::Fail
        }
    }

    /// The verdict on a message once its events have been handed to the application: it stays
    /// as it is where all of them could be `delivered`, else the run has failed.
    pub fn after_delivery(self, delivered: bool) -> (r: Verdict)
        ensures
            r == self.spec_after_delivery(delivered),
    {
        if delivered {
            self
        } else {
            Verdict::Fail
        }
    }
}

/// What comes of a message.
#[derive(Clone, Debug)]
pub struct Reception {
    /// What the application is notified of, in this order.
    pub events: Vec<Event>,
    pub verdict: Verdict,
}

/// Whether a message is too long.
pub open spec fn too_long(message: Seq<char>) -> bool {
    encode_utf8(message).len() > MAX_MSG_LEN
}

/// What is reported of a message that is too long.
pub open spec fn too_long_report(message: Seq<char>) -> Seq<char> {
    TwsError::NotConnected.spec_message() + seq![':'] + decimal(encode_utf8(message).len())
        + seq![':'] + message
}

/// Whether `r` is what comes of a message that is too long: an error, the end of the connection
/// and of the run.
pub open spec fn is_refusal(message: Seq<char>, r: Reception) -> bool {
    &&& r.verdict == Verdict::Disconnect
    &&& r.events@.len() == 2
    &&& r.events@[0] matches Event::Error { req_id, code, text } && {
        &&& req_id == NO_VALID_ID
        &&& code == TwsError::NotConnected.spec_code()
        &&& text@ == too_long_report(message)
    }
    &&& r.events@[1] == Event::ConnectionClosed
}

/// Whether `r` is what comes of a message with the fields `f`: what they tell where they can be
/// interpreted, a failed run where they are in error, and else what they tell before they break
/// off, which breaks the thread but not the run.
pub open spec fn is_reception(server_version: i32, f: Seq<String>, r: Reception) -> bool {
    match r.verdict {
        Verdict::Continue => {
            &&& interpretable(server_version, f)
            &&& is_interpretation(server_version, f, Ok(r.events))
        },
        Verdict::Fail => {
            &&& interpretable(server_version, f)
            &&& r.events@.len() == 0
            &&& exists|error: IBKRApiLibError|
                is_interpretation(server_version, f, Err::<Vec<Event>, IBKRApiLibError>(error))
        },
        Verdict::Broken => {
            &&& !interpretable(server_version, f)
            &&& interpretation_leads(server_version, f, r.events@)
        },
        Verdict::Disconnect => false,
    }
}

/// Whether `r` is what comes of a message: a refusal where it is too long, else what its fields
/// say.
pub open spec fn is_received(server_version: i32, message: Seq<char>, r: Reception) -> bool {
    &&& too_long(message) ==> is_refusal(message, r)
    &&& !too_long(message) ==> exists|f: Seq<String>|
        has_fields(message, texts(f)) && #[trigger] is_reception(server_version, f, r)
}

impl Decoder {
    /// Receives a message.
    pub fn receive(&self, message: &str) -> (r: Reception)
        ensures
            is_received(self.server_version, message@, r),
    {
        let len: usize = message.as_bytes().len();
        if len > MAX_MSG_LEN {
            let mut text: String = TwsError::NotConnected.message().to_owned();
            text.push(':');
            text.append(decimal_text(len).as_str());
            text.push(':');
            text.append(message);
            assert(text@ == too_long_report(message@));
            let mut events: Vec<Event> = Vec::new();
            events.push(
                Event::Error { req_id: NO_VALID_ID, code: TwsError::NotConnected.code(), text },
            );
            events.push(Event::ConnectionClosed);
            Reception { events, verdict: Verdict::Disconnect }
        } else {
            let fields = read_fields(message);
            let interpretation = Self::interpret_any(self.server_version, fields.as_slice());
            let verdict = match interpretation.ending {
                Ending::Done => Verdict::Continue,
                Ending::Failed(_) => Verdict::Fail,
                Ending::BrokenOff => Verdict::Broken,
            };
            let r = Reception { events: interpretation.events, verdict };
            assert(is_reception(self.server_version, fields@, r));
            r
        }
    }
}

/// What is reported of a message that is too long names the error, its length in bytes, in a form
/// that reads back, and the message itself.
pub proof fn lemma_refusal(
    server_version: i32,
    message: Seq<char>,
    length: Seq<char>,
    r: Reception,
)
    requires
        encode_utf8(message).len() > 16777215,
        length == integer_text(encode_utf8(message).len() as int),
        is_received(server_version, message, r),
    ensures
        integer(length) == Some(encode_utf8(message).len() as int),
        r.verdict == Verdict::Disconnect,
        r.events@.len() == 2,
        r.events@[0] matches Event::Error { req_id, code, text } && {
            &&& req_id == -1
            &&& code == 504
            &&& text@ == "Not connected"@ + seq![':'] + length + seq![':'] + message
        },
        r.events@[1] == Event::ConnectionClosed,
{
    lemma_integer_reads_back(encode_utf8(message).len() as int);
}

/// The verdict on a message with the fields `f`.
pub open spec fn verdict_of(server_version: i32, f: Seq<String>) -> Verdict {
    if !interpretable(server_version, f) {
        Verdict::Broken
    } else if interpretation_error(server_version, f) is Some {
        Verdict::Fail
    } else {
        Verdict::Continue
    }
}

/// What comes of a message is decided by what its fields hold: where those that were read, `g`,
/// hold the same as `f`, the verdict and the number of events are those of `f`.
pub proof fn lemma_texts_decide_reception(
    server_version: i32,
    f: Seq<String>,
    g: Seq<String>,
    r: Reception,
)
    requires
        texts(f) == texts(g),
        is_reception(server_version, g, r),
    ensures
        r.verdict == verdict_of(server_version, f),
        r.events@.len() == interpretation_count(server_version, f),
{
    lemma_texts_decide(server_version, f, g);
    let ending = match r.verdict {
        Verdict::Continue => Ending::Done,
        Verdict::Fail => Ending::Failed(
            choose|error: IBKRApiLibError|
                is_interpretation(server_version, g, Err::<Vec<Event>, IBKRApiLibError>(error)),
        ),
        _ => Ending::BrokenOff,
    };
    lemma_any_interpretation(server_version, g, Interpretation { events: r.events, ending });
}

/// A message that was made of the fields `f` is received as these fields: those that were read,
/// `g`, hold the same, and the verdict and the number of events are those of `f`.
pub proof fn lemma_framed_is_received(
    server_version: i32,
    f: Seq<String>,
    g: Seq<String>,
    r: Reception,
)
    requires
        are_field_texts(texts(f)),
        has_fields(framed(texts(f)), texts(g)),
        is_reception(server_version, g, r),
    ensures
        texts(g) == texts(f),
        r.verdict == verdict_of(server_version, f),
        r.events@.len() == interpretation_count(server_version, f),
{
    lemma_framed_reads_back(texts(f));
    lemma_fields_unique(framed(texts(f)), texts(f), texts(g));
    lemma_texts_decide_reception(server_version, f, g, r);
}

/// A run of a decoder.
#[derive(Clone, Copy, Debug, PartialEq, Eq, Structural)]
pub struct Run {
    running: bool,
    failed: bool,
}

impl Run {
    /// Whether the run goes on.
    pub closed spec fn spec_running(self) -> bool {
        self.running
    }

    /// Whether the run has failed.
    pub closed spec fn spec_failed(self) -> bool {
        self.failed
    }

    /// A run that has failed is over.
    pub open spec fn wf(self) -> bool {
        self.spec_failed() ==> !self.spec_running()
    }

    /// A run at its beginning.
    pub closed spec fn spec_start() -> Run {
        Run { running: true, failed: false }
    }

    /// The run once no more messages will come.
    pub closed spec fn spec_closed(self) -> Run {
        Run { running: false, ..self }
    }

    /// The run after the verdict on a message.
    pub closed spec fn spec_after(self, verdict: Verdict) -> Run {
        match verdict {
            Verdict::Continue | Verdict::Broken => self,
            Verdict::Disconnect => Run { running: false, ..self },
            Verdict::Fail => Run { running: false, failed: true },
        }
    }

    /// The run after the verdicts on several messages.
    pub open spec fn after_all(self, verdicts: Seq<Verdict>) -> Run
        decreases verdicts.len(),
    {
        if verdicts.len() == 0 {
            self
        } else {
            self.after_all(verdicts.drop_last()).spec_after(verdicts.last())
        }
    }

    /// A run at its beginning.
    pub fn start() -> (r: Run)
        ensures
            r == Run::spec_start(),
            r.wf(),
            r.spec_running(),
            !r.spec_failed(),
    {
        Run { running: true, failed: false }
    }

    /// Whether the run goes on.
    pub fn is_running(&self) -> (r: bool)
        ensures
            r == self.spec_running(),
    {
        self.running
    }

    /// Whether the run has not failed.
    pub fn succeeded(&self) -> (r: bool)
        ensures
            r == !self.spec_failed(),
    {
        !self.failed
    }

    /// Takes in the verdict on a message.
    pub fn note(&mut self, verdict: Verdict)
        requires
            old(self).wf(),
        ensures
            final(self).wf(),
            *final(self) == old(self).spec_after(verdict),
            final(self).spec_running() == (old(self).spec_running() && (verdict
                == Verdict::Continue || verdict == Verdict::Broken)),
            final(self).spec_failed() == (old(self).spec_failed() || verdict == Verdict::Fail),
    {
        match verdict {
            Verdict::Continue | Verdict::Broken => {},
            Verdict::Disconnect => {
                self.running = false;
            },
            Verdict::Fail => {
                self.failed = true;
                self.running = false;
            },
        }
    }

    /// Takes in that no more messages will come: the run is over. The connection is closed; the
    /// application is notified of that unless it was closed already.
    pub fn queue_closed(&mut self, conn_state: ConnStatus) -> (r: (Vec<Event>, ConnStatus))
        requires
            old(self).wf(),
        ensures
            final(self).wf(),
            *final(self) == old(self).spec_closed(),
            !final(self).spec_running(),
            final(self).spec_failed() == old(self).spec_failed(),
            r.0@ == if conn_state != ConnStatus::DISCONNECTED {
                seq![Event::ConnectionClosed]
            } else {
                seq![]
            },
            r.1 == ConnStatus::DISCONNECTED,
    {
        let mut events: Vec<Event> = Vec::new();
        if conn_state != ConnStatus::DISCONNECTED {
            events.push(Event::ConnectionClosed);
        }
        self.running = false;
        (events, ConnStatus::DISCONNECTED)
    }

    /// A run begins, takes in a verdict and comes to its end as follows.
    pub proof fn lemma_steps(self, verdict: Verdict)
        ensures
            Run::spec_start().spec_running(),
            !Run::spec_start().spec_failed(),
            self.spec_after(verdict).spec_running() == (self.spec_running() && verdict.goes_on()),
            self.spec_after(verdict).spec_failed() == (self.spec_failed() || verdict
                == Verdict::Fail),
            !self.spec_closed().spec_running(),
            self.spec_closed().spec_failed() == self.spec_failed(),
    {
    }

    /// A run goes on as long as every verdict says so, and has failed once one of them says so.
    pub proof fn lemma_after_all(self, verdicts: Seq<Verdict>)
        ensures
            self.after_all(verdicts).spec_running() <==> self.spec_running() && forall|i: int|
                0 <= i < verdicts.len() ==> (#[trigger] verdicts[i]).goes_on(),
            self.after_all(verdicts).spec_failed() <==> self.spec_failed() || exists|i: int|
                0 <= i < verdicts.len() && verdicts[i] == Verdict::Fail,
        decreases verdicts.len(),
    {
        if verdicts.len() > 0 {
            let n = verdicts.len() as int;
            let before = verdicts.drop_last();
            self.lemma_after_all(before);
            assert(forall|i: int| 0 <= i < n - 1 ==> before[i] == verdicts[i]);
            assert(verdicts.last() == verdicts[n - 1]);
            if self.after_all(before).spec_failed() && !self.spec_failed() {
                let i = choose|i: int| 0 <= i < before.len() && before[i] == Verdict::Fail;
                assert(verdicts[i] == Verdict::Fail);
            }
        }
    }

    /// The order in which the verdicts on several messages come in makes no difference.
    pub proof fn lemma_order_is_free(self, a: Seq<Verdict>, b: Seq<Verdict>)
        requires
            a.to_multiset() == b.to_multiset(),
        ensures
            self.after_all(a) == self.after_all(b),
    {
        broadcast use vstd::seq_lib::group_to_multiset_ensures;

        self.lemma_after_all(a);
        self.lemma_after_all(b);
        assert forall|v: Verdict| a.contains(v) == b.contains(v) by {
            assert(a.contains(v) <==> a.to_multiset().count(v) > 0);
            assert(b.contains(v) <==> b.to_multiset().count(v) > 0);
        }
        assert(a.contains(Verdict::Fail) == b.contains(Verdict::Fail));
        assert(a.contains(Verdict::Disconnect) == b.contains(Verdict::Disconnect));
    }
}

} // verus!
