//! One endpoint of a two-way, non-blocking, point-to-point link.

use crate::channel::{offer, poll};
use crate::communique::{Communique, Envelope};
use std::sync::mpsc::{Receiver, Sender};
use vstd::prelude::*;

verus! {

/// What an endpoint is, mathematically: the channel ends it owns, the next
/// correlation id it will allot, and two records that the endpoint keeps
/// itself, oldest entry first: one of its sends and one of its drains.
///
/// The records are written by the endpoint's own code beside each call on a
/// channel. They say what this endpoint did and was told; no contract ties
/// them to what the channel holds or to what the peer has sent.
#[verifier::reject_recursive_types(IN)]
#[verifier::reject_recursive_types(OUT)]
pub struct Ledger<IN, OUT> {
    pub inbound: Receiver<Communique<IN>>,
    pub outbound: Sender<Communique<OUT>>,
    pub next_id: nat,
    /// The record of sends: the envelope that each send built for the
    /// outbound channel, whether or not it was accepted.
    pub dispatched: Seq<Envelope<OUT>>,
    /// The record of drains: for each time the endpoint asked its inbound
    /// channel for an envelope, the envelope it was handed, or `None` where
    /// it was handed none.
    pub polled: Seq<Option<Envelope<IN>>>,
}

/// The entries that the record of drains gets for `envelopes` handed over
/// one after the other.
pub open spec fn gifts<T>(envelopes: Seq<Envelope<T>>) -> Seq<Option<Envelope<T>>> {
    envelopes.map_values(|envelope: Envelope<T>| Some(envelope))
}

/// What `answer` holds, as the record of drains notes it.
pub open spec fn noted<T>(answer: Option<Communique<T>>) -> Option<Envelope<T>> {
    match answer {
        Some(message) => Some(message@),
        None => None,
    }
}

/// The envelopes among `answers`, in the same order.
pub open spec fn given<T>(answers: Seq<Option<Envelope<T>>>) -> Seq<Envelope<T>>
    decreases answers.len(),
{
    if answers.len() == 0 {
        Seq::empty()
    } else {
        match answers.last() {
            Some(envelope) => given(answers.drop_last()).push(envelope),
            None => given(answers.drop_last()),
        }
    }
}

/// One call of a sending operation.
pub enum Posting<OUT> {
    /// `send_message`
    Plain(OUT),
    /// `send_message_with_id`
    WithId(usize, OUT),
    /// `send_message_with_auto_id`
    AutoId(OUT),
}

impl<IN, OUT> Ledger<IN, OUT> {
    /// The ledger after a send that built `envelope`.
    pub open spec fn dispatch(self, envelope: Envelope<OUT>) -> Self {
        Ledger { dispatched: self.dispatched.push(envelope), ..self }
    }

    /// Every envelope in the record of drains, oldest first.
    pub open spec fn received(self) -> Seq<Envelope<IN>> {
        given(self.polled)
    }

    /// The ledger after one drain that gathered `envelopes`: the record of
    /// drains has an entry for each of them in turn, and then one `None`.
    pub open spec fn receive(self, envelopes: Seq<Envelope<IN>>) -> Self {
        Ledger { polled: self.polled + gifts(envelopes).push(None), ..self }
    }

    /// The envelope that `posting` builds.
    pub open spec fn envelope_of(self, posting: Posting<OUT>) -> Envelope<OUT> {
        match posting {
            Posting::Plain(load) => Envelope { id: None, load },
            Posting::WithId(id, load) => Envelope { id: Some(id), load },
            Posting::AutoId(load) => Envelope { id: Some(self.next_id as usize), load },
        }
    }

    /// The ledger after `posting`, whether or not the channel accepted it: an
    /// allotted id is spent either way.
    pub open spec fn post(self, posting: Posting<OUT>) -> Self {
        let counted = if posting is AutoId {
            Ledger { next_id: self.next_id + 1, ..self }
        } else {
            self
        };
        counted.dispatch(self.envelope_of(posting))
    }

    /// The ledger after each of `postings` in turn.
    pub open spec fn post_all(self, postings: Seq<Posting<OUT>>) -> Self
        decreases postings.len(),
    {
        if postings.len() == 0 {
            self
        } else {
            self.post_all(postings.drop_last()).post(postings.last())
        }
    }

    /// The ids that the `AutoId` calls among `postings` allot, in call order.
    pub open spec fn auto_ids(self, postings: Seq<Posting<OUT>>) -> Seq<nat>
        decreases postings.len(),
    {
        if postings.len() == 0 {
            Seq::empty()
        } else {
            let earlier = self.auto_ids(postings.drop_last());
            if postings.last() is AutoId {
                earlier.push(self.post_all(postings.drop_last()).next_id)
            } else {
                earlier
            }
        }
    }
}

/// The envelopes that `items` stand for, in the same order.
pub open spec fn envelopes<T>(items: Seq<Communique<T>>) -> Seq<Envelope<T>> {
    items.map_values(|item: Communique<T>| item@)
}

/// What a send returns where the outbound channel refused the envelope,
/// which a channel of the standard library does once its receiving end is
/// gone. The refused envelope comes back in it.
pub struct SendFailure<T> {
    pub unsent: Communique<T>,
}

/// Turns what the channel said of an untagged or explicitly tagged send into
/// the caller's result.
pub fn delivery<T>(outcome: Result<(), Communique<T>>) -> (result: Result<(), SendFailure<T>>)
    ensures
        outcome is Ok ==> result is Ok,
        outcome is Err ==> result is Err && result->Err_0.unsent == outcome->Err_0,
{
    match outcome {
        Ok(()) => Ok(()),
        Err(unsent) => Err(SendFailure { unsent }),
    }
}

/// Turns what the channel said of a send tagged with the allotted `id` into
/// the caller's result.
pub fn delivery_with_id<T>(
    id: usize,
    outcome: Result<(), SendFailure<T>>,
) -> (result: Result<usize, SendFailure<T>>)
    ensures
        outcome is Ok ==> result == Ok::<usize, SendFailure<T>>(id),
        outcome is Err ==> result is Err && result->Err_0 == outcome->Err_0,
{
    match outcome {
        Ok(()) => Ok(id),
        Err(failure) => Err(failure),
    }
}

/// One step of a drain, for one answer of the inbound channel: an envelope
/// is put at the end of `gathered` and the drain goes on; with no envelope
/// `gathered` stays as it is and the drain is over.
pub fn absorb<T>(gathered: &mut Vec<Communique<T>>, answer: Option<Communique<T>>) -> (more: bool)
    ensures
        more == answer is Some,
        final(gathered)@ == match answer {
            Some(message) => old(gathered)@.push(message),
            None => old(gathered)@,
        },
{
    match answer {
        Some(message) => {
            gathered.push(message);
            true
        },
        None => false,
    }
}

/// One endpoint of a link: the receiving end of one channel, the sending end
/// of another, and a counter for correlation ids that is local to this endpoint.
#[verifier::reject_recursive_types(IN)]
#[verifier::reject_recursive_types(OUT)]
pub struct Communicator<IN, OUT> {
    id_counter: usize,
    receiver: Receiver<Communique<IN>>,
    sender: Sender<Communique<OUT>>,
    dispatched: Ghost<Seq<Envelope<OUT>>>,
    polled: Ghost<Seq<Option<Envelope<IN>>>>,
}

impl<IN, OUT> View for Communicator<IN, OUT> {
    type V = Ledger<IN, OUT>;

    closed spec fn view(&self) -> Ledger<IN, OUT> {
        Ledger {
            inbound: self.receiver,
            outbound: self.sender,
            next_id: self.id_counter as nat,
            dispatched: self.dispatched@,
            polled: self.polled@,
        }
    }
}

impl<IN, OUT> Communicator<IN, OUT> {
    /// An endpoint over the two given channel ends, with nothing sent or
    /// received yet and ids starting at 0.
    pub fn new(
        command_channel_receiver: Receiver<Communique<IN>>,
        message_channel_sender: Sender<Communique<OUT>>,
    ) -> (communicator: Communicator<IN, OUT>)
        ensures
            communicator@ == (Ledger {
                inbound: command_channel_receiver,
                outbound: message_channel_sender,
                next_id: 0,
                dispatched: Seq::empty(),
                polled: Seq::empty(),
            }),
    {
        Communicator {
            id_counter: 0,
            receiver: command_channel_receiver,
            sender: message_channel_sender,
            dispatched: Ghost(Seq::empty()),
            polled: Ghost(Seq::empty()),
        }
    }

    /// The id that the next `send_message_with_auto_id` will allot.
    pub fn next_id(&self) -> (id: usize)
        ensures
            id == self@.next_id,
    {
        self.id_counter
    }

    fn generate_id(&mut self) -> (id: usize)
        requires
            old(self)@.next_id < usize::MAX,
        ensures
            id == old(self)@.next_id,
            final(self)@ == (Ledger { next_id: old(self)@.next_id + 1, ..old(self)@ }),
    {
        let new_id = self.id_counter;
        self.id_counter += 1;
        new_id
    }

    /// Hands `envelope` to the outbound channel and records it.
    fn dispatch(&mut self, envelope: Communique<OUT>) -> (result: Result<(), SendFailure<OUT>>)
        ensures
            final(self)@ == old(self)@.dispatch(envelope@),
            result is Err ==> result->Err_0.unsent == envelope,
    {
        self.dispatched = Ghost(self.dispatched@.push(envelope@));
        delivery(offer(&self.sender, envelope))
    }

    /// Builds an envelope without a correlation id around `message` and
    /// hands it to the outbound channel by `Sender::send`, which does not
    /// wait. Whether the channel takes it is the channel's answer; where it
    /// refuses, the envelope comes back in the failure.
    pub fn send_message(&mut self, message: OUT) -> (result: Result<(), SendFailure<OUT>>)
        ensures
            final(self)@ == old(self)@.post(Posting::Plain(message)),
            result is Err ==> result->Err_0.unsent@ == old(self)@.envelope_of(
                Posting::Plain(message),
            ),
    {
        self.dispatch(Communique::new_no_id(message))
    }

    /// Sends `message` tagged with the caller's `id`; the endpoint's own
    /// counter is left as it was.
    pub fn send_message_with_id(
        &mut self,
        id: usize,
        message: OUT,
    ) -> (result: Result<(), SendFailure<OUT>>)
        ensures
            final(self)@ == old(self)@.post(Posting::WithId(id, message)),
            result is Err ==> result->Err_0.unsent@ == old(self)@.envelope_of(
                Posting::WithId(id, message),
            ),
    {
        self.dispatch(Communique::new(id, message))
    }

    /// Allots the next id, sends `message` tagged with it and returns the id.
    /// The id is spent even where the send fails.
    pub fn send_message_with_auto_id(
        &mut self,
        message: OUT,
    ) -> (result: Result<usize, SendFailure<OUT>>)
        requires
            old(self)@.next_id < usize::MAX,
        ensures
            final(self)@ == old(self)@.post(Posting::AutoId(message)),
            result is Ok ==> result->Ok_0 == old(self)@.next_id,
            result is Err ==> result->Err_0.unsent@ == old(self)@.envelope_of(
                Posting::AutoId(message),
            ),
    {
        let id = self.generate_id();
        let sent = self.send_message_with_id(id, message);
        delivery_with_id(id, sent)
    }

    /// Drains the inbound channel: asks it for its next envelope by
    /// `try_recv`, which does not wait, hands each answer to [`absorb`], and
    /// stops at the first answer that holds none. Returns what was gathered,
    /// in the order of the answers. There is no error to report: an answer
    /// without an envelope, from an empty channel or a disconnected one, ends
    /// the drain.
    ///
    /// Which envelopes the channel answers with is the channel's affair and
    /// depends on what the peer has sent: the contract speaks of the
    /// endpoint's record alone.
    pub fn collect_messages(&mut self) -> (messages: Vec<Communique<IN>>)
        ensures
            final(self)@ == old(self)@.receive(envelopes(messages@)),
            final(self)@.received() == old(self)@.received() + envelopes(messages@),
    {
        let mut messages: Vec<Communique<IN>> = Vec::new();
        assert(gifts(envelopes(messages@)) =~= Seq::empty());
        assert(old(self)@.polled + Seq::<Option<Envelope<IN>>>::empty() =~= old(self)@.polled);
        // The loop is left only on an answer without an envelope; no vector
        // holds more than `usize::MAX` items, which bounds it.
        loop
            invariant_except_break
                self@ == (Ledger {
                    polled: old(self)@.polled + gifts(envelopes(messages@)),
                    ..old(self)@
                }),
            ensures
                self@ == old(self)@.receive(envelopes(messages@)),
            decreases usize::MAX - messages.len(),
        {
            let answer = poll(&self.receiver);
            let ghost before = envelopes(messages@);
            self.polled = Ghost(self.polled@.push(noted(answer)));
            let more = absorb(&mut messages, answer);
            proof {
                let after = envelopes(messages@);
                if more {
                    assert(gifts(after) =~= gifts(before).push(noted(answer)));
                    assert(old(self)@.polled + gifts(after) =~= (old(self)@.polled + gifts(
                        before,
                    )).push(noted(answer)));
                } else {
                    assert((old(self)@.polled + gifts(after)).push(None) =~= old(self)@.polled
                        + gifts(after).push(None));
                }
            }
            if !more {
                break ;
            }
        }
        proof {
            lemma_receive_appends(old(self)@, envelopes(messages@));
        }
        messages
    }
}

/// Of two runs of entries joined, the envelopes are those of the first run
/// followed by those of the second.
pub proof fn lemma_given_of_joined<T>(
    earlier: Seq<Option<Envelope<T>>>,
    later: Seq<Option<Envelope<T>>>,
)
    ensures
        given(earlier + later) == given(earlier) + given(later),
    decreases later.len(),
{
    if later.len() == 0 {
        assert(earlier + later =~= earlier);
        assert(given(earlier) + given(later) =~= given(earlier));
    } else {
        lemma_given_of_joined(earlier, later.drop_last());
        assert((earlier + later).drop_last() =~= earlier + later.drop_last());
        assert((earlier + later).last() == later.last());
        match later.last() {
            Some(envelope) => {
                assert((given(earlier) + given(later.drop_last())).push(envelope) =~= given(earlier)
                    + given(later.drop_last()).push(envelope));
            },
            None => {},
        }
    }
}

/// The entries for `envelopes` handed over in turn hold exactly them, in
/// the same order.
pub proof fn lemma_given_of_gifts<T>(envelopes: Seq<Envelope<T>>)
    ensures
        given(gifts(envelopes)) == envelopes,
    decreases envelopes.len(),
{
    if envelopes.len() == 0 {
        assert(gifts(envelopes).len() == 0);
        assert(given(gifts(envelopes)) =~= envelopes);
    } else {
        lemma_given_of_gifts(envelopes.drop_last());
        assert(gifts(envelopes).drop_last() =~= gifts(envelopes.drop_last()));
        assert(gifts(envelopes).last() == Some(envelopes.last()));
        assert(envelopes.drop_last().push(envelopes.last()) =~= envelopes);
    }
}

/// One drain adds what it gathered to what the record held before, at the
/// end and in the same order, and nothing else.
pub proof fn lemma_receive_appends<IN, OUT>(ledger: Ledger<IN, OUT>, envelopes: Seq<Envelope<IN>>)
    ensures
        ledger.receive(envelopes).received() == ledger.received() + envelopes,
{
    let answers = gifts(envelopes).push(None);
    lemma_given_of_joined(ledger.polled, answers);
    assert(answers.drop_last() =~= gifts(envelopes));
    lemma_given_of_gifts(envelopes);
}

/// The k-th id that a run of sends allots is the counter's starting value
/// plus k: whatever else is sent in between, with or without an id of the
/// caller's, the allotted ids count up from the first one without a gap.
pub proof fn lemma_auto_ids_count_up<IN, OUT>(
    ledger: Ledger<IN, OUT>,
    postings: Seq<Posting<OUT>>,
    k: int,
)
    requires
        0 <= k < ledger.auto_ids(postings).len(),
    ensures
        ledger.auto_ids(postings)[k] == ledger.next_id + k,
        ledger.post_all(postings).next_id == ledger.next_id + ledger.auto_ids(postings).len(),
    decreases postings.len(),
{
    lemma_counter_after(ledger, postings);
    let earlier = postings.drop_last();
    lemma_counter_after(ledger, earlier);
    if k < ledger.auto_ids(earlier).len() {
        lemma_auto_ids_count_up(ledger, earlier, k);
    }
}

/// After a run of sends the counter has advanced by the number of ids
/// allotted, and by nothing else.
pub proof fn lemma_counter_after<IN, OUT>(ledger: Ledger<IN, OUT>, postings: Seq<Posting<OUT>>)
    ensures
        ledger.post_all(postings).next_id == ledger.next_id + ledger.auto_ids(postings).len(),
    decreases postings.len(),
{
    if postings.len() > 0 {
        lemma_counter_after(ledger, postings.drop_last());
    }
}

/// The ids that one endpoint allots are strictly increasing in call order,
/// and so no two of them are equal.
pub proof fn lemma_auto_ids_strictly_increase<IN, OUT>(
    ledger: Ledger<IN, OUT>,
    postings: Seq<Posting<OUT>>,
    i: int,
    j: int,
)
    requires
        0 <= i < j < ledger.auto_ids(postings).len(),
    ensures
        ledger.auto_ids(postings)[i] < ledger.auto_ids(postings)[j],
{
    lemma_auto_ids_count_up(ledger, postings, i);
    lemma_auto_ids_count_up(ledger, postings, j);
}

} // verus!
