//! The bridge pipeline: a receiver stage that turns datagrams into readings,
//! a hand-off queue, and a publisher stage that turns readings into
//! publications. The stages only meet at the queue.

use std::collections::VecDeque;
use vstd::prelude::*;
use vstd::string::*;
use crate::codec::{decode, decoded, encode, encoded};
use crate::common::{JsonData, Reading};
use crate::error::CodecError;

verus! {

/// The topic of an inertial reading, or of a range reading: there are these
/// two topics and no other.
pub open spec fn topic_of(reading: Reading) -> Seq<char> {
    match reading {
        Reading::Inertial { .. } => "MOTIONCAPTURE/MPU6050"@,
        Reading::Range { .. } => "MOTIONCAPTURE/UWB"@,
    }
}

/// The topic that a reading is published to, by its kind.
pub fn topic(reading: &JsonData) -> (name: &'static str)
    ensures
        name@ == topic_of(reading@),
        reading is MPU6050Data ==> name@ == "MOTIONCAPTURE/MPU6050"@,
        reading is UWBData ==> name@ == "MOTIONCAPTURE/UWB"@,
        name@ == "MOTIONCAPTURE/MPU6050"@ || name@ == "MOTIONCAPTURE/UWB"@,
{
    match reading {
        JsonData::MPU6050Data { .. } => "MOTIONCAPTURE/MPU6050",
        JsonData::UWBData { .. } => "MOTIONCAPTURE/UWB",
    }
}

/// Routing tells the kinds apart: two readings share a topic exactly if they
/// are of the same kind.
pub proof fn lemma_topic_by_kind(first: Reading, second: Reading)
    ensures
        topic_of(first) == topic_of(second) <==> (first is Inertial <==> second is Inertial),
{
    reveal_strlit("MOTIONCAPTURE/MPU6050");
    reveal_strlit("MOTIONCAPTURE/UWB");
    assert("MOTIONCAPTURE/MPU6050"@.len() != "MOTIONCAPTURE/UWB"@.len());
}

/// One message for the broker. Readings are sent at the lowest quality of
/// service and are not retained.
#[derive(Debug)]
pub struct Publication {
    pub topic: String,
    pub payload: String,
    pub qos: i32,
    pub retained: bool,
}

/// The mathematical value of a [`Publication`].
pub struct PublicationView {
    pub topic: Seq<char>,
    pub payload: Seq<char>,
    pub qos: i32,
    pub retained: bool,
}

impl View for Publication {
    type V = PublicationView;

    open spec fn view(&self) -> PublicationView {
        PublicationView {
            topic: self.topic@,
            payload: self.payload@,
            qos: self.qos,
            retained: self.retained,
        }
    }
}

/// The message that publishes a reading: its JSON text, on the topic of its
/// kind, fire-and-forget.
pub open spec fn publication_of(reading: Reading) -> PublicationView {
    PublicationView {
        topic: topic_of(reading),
        payload: encoded(reading),
        qos: 0,
        retained: false,
    }
}

/// The message that publishes a reading.
pub fn publication(reading: &JsonData) -> (message: Publication)
    ensures
        message@ == publication_of(reading@),
{
    Publication {
        topic: String::from_str(topic(reading)),
        payload: encode(reading),
        qos: 0,
        retained: false,
    }
}

/// The queue between the two stages: readings leave it in the order in which
/// they entered. It has no bound. Once closed it takes no more readings.
pub struct HandoffQueue {
    items: VecDeque<JsonData>,
    open: bool,
}

impl HandoffQueue {
    /// The readings that wait, the oldest first.
    pub closed spec fn readings(&self) -> Seq<Reading> {
        self.items@.map_values(|item: JsonData| item@)
    }

    /// Whether the queue still takes readings.
    pub closed spec fn is_open(&self) -> bool {
        self.open
    }

    /// An open queue with nothing in it.
    pub fn new() -> (queue: Self)
        ensures
            queue.readings() == Seq::<Reading>::empty(),
            queue.is_open(),
    {
        let queue = HandoffQueue { items: VecDeque::new(), open: true };
        assert(queue.readings() =~= Seq::<Reading>::empty());
        queue
    }

    /// How many readings wait.
    pub fn len(&self) -> (count: usize)
        ensures
            count == self.readings().len(),
    {
        self.items.len()
    }

    /// Puts a reading behind those that wait. A closed queue hands the
    /// reading back and stays as it is.
    pub fn push(&mut self, reading: JsonData) -> (outcome: Result<(), JsonData>)
        ensures
            final(self).is_open() == old(self).is_open(),
            old(self).is_open() ==> outcome is Ok && final(self).readings() == old(self).readings().push(reading@),
            !old(self).is_open() ==> outcome == Err::<(), JsonData>(reading) && final(self).readings() == old(self).readings(),
    {
        if self.open {
            self.items.push_back(reading);
            assert(final(self).readings() =~= old(self).readings().push(reading@));
            Ok(())
        } else {
            Err(reading)
        }
    }

    /// Takes the reading that has waited longest, if there is one.
    pub fn pop(&mut self) -> (head: Option<JsonData>)
        ensures
            final(self).is_open() == old(self).is_open(),
            old(self).readings().len() == 0 ==> head is None && final(self).readings() == old(self).readings(),
            old(self).readings().len() > 0 ==> head is Some && head->0@ == old(self).readings().first() && final(self).readings() == old(self).readings().drop_first(),
    {
        let head = self.items.pop_front();
        assert(old(self).readings().len() > 0 ==> final(self).readings() =~= old(self).readings().drop_first());
        head
    }

    /// Closes the queue: from now on `push` hands its reading back. What
    /// waits stays.
    pub fn close(&mut self)
        ensures
            !final(self).is_open(),
            final(self).readings() == old(self).readings(),
    {
        self.open = false;
    }
}

/// What the receiver stage did with one datagram.
#[derive(Debug, Clone, Copy, PartialEq, Eq, Structural)]
pub enum Reception {
    /// The reading now waits in the queue.
    Enqueued,
    /// The datagram gave no reading and was dropped.
    Rejected(CodecError),
    /// The queue was closed; the reading was dropped.
    QueueClosed,
}

/// The queue after the receiver stage has seen a datagram: a reading joins
/// the end, anything else leaves the queue as it was.
pub open spec fn received(waiting: Seq<Reading>, datagram: Seq<u8>) -> Seq<Reading> {
    match decoded(datagram) {
        Ok(reading) => waiting.push(reading),
        Err(_) => waiting,
    }
}

/// One step of the receiver stage: decodes the datagram and hands the
/// reading to the queue. A datagram that gives no reading is dropped, and so
/// is a reading that the queue no longer takes; neither stops the stage.
pub fn receive(queue: &mut HandoffQueue, datagram: &[u8]) -> (outcome: Reception)
    ensures
        final(queue).is_open() == old(queue).is_open(),
        old(queue).is_open() ==> final(queue).readings() == received(
            old(queue).readings(),
            datagram@,
        ),
        match decoded(datagram@) {
            Ok(reading) => if old(queue).is_open() {
                outcome == Reception::Enqueued && final(queue).readings() == old(queue).readings().push(reading)
            } else {
                outcome == Reception::QueueClosed && final(queue).readings() == old(queue).readings()
            },
            Err(error) => outcome == Reception::Rejected(error) && final(queue).readings() == old(queue).readings(),
        },
{
    match decode(datagram) {
        Ok(reading) => match queue.push(reading) {
            Ok(()) => Reception::Enqueued,
            Err(_) => Reception::QueueClosed,
        },
        Err(error) => Reception::Rejected(error),
    }
}

/// One step of the publisher stage: takes the reading that has waited
/// longest and gives the message that publishes it; `None` where nothing
/// waits.
pub fn next_publication(queue: &mut HandoffQueue) -> (message: Option<Publication>)
    ensures
        final(queue).is_open() == old(queue).is_open(),
        old(queue).readings().len() == 0 ==> message is None && final(queue).readings() == old(queue).readings(),
        old(queue).readings().len() > 0 ==> message is Some && message->0@ == publication_of(
            old(queue).readings().first(),
        ) && final(queue).readings() == old(queue).readings().drop_first(),
{
    match queue.pop() {
        Some(reading) => Some(publication(&reading)),
        None => None,
    }
}

/// The queue after the receiver stage has seen the datagrams one after the
/// other.
pub open spec fn received_all(waiting: Seq<Reading>, datagrams: Seq<Seq<u8>>) -> Seq<Reading>
    decreases datagrams.len(),
{
    if datagrams.len() == 0 {
        waiting
    } else {
        received(received_all(waiting, datagrams.drop_last()), datagrams.last())
    }
}

/// The messages that the publisher stage gives when it empties the queue.
pub open spec fn published(waiting: Seq<Reading>) -> Seq<PublicationView>
    decreases waiting.len(),
{
    if waiting.len() == 0 {
        seq![]
    } else {
        seq![publication_of(waiting.first())] + published(waiting.drop_first())
    }
}

/// Emptying the queue gives one message for each reading, in the order of
/// the queue.
pub proof fn lemma_published_in_order(waiting: Seq<Reading>)
    ensures
        published(waiting).len() == waiting.len(),
        forall|i: int|
            0 <= i < waiting.len() ==> published(waiting)[i] == publication_of(waiting[i]),
    decreases waiting.len(),
{
    if waiting.len() > 0 {
        let rest = waiting.drop_first();
        lemma_published_in_order(rest);
        assert forall|i: int| 0 <= i < waiting.len() implies published(waiting)[i]
            == publication_of(waiting[i]) by {
            if i > 0 {
                assert(published(waiting)[i] == published(rest)[i - 1]);
                assert(rest[i - 1] == waiting[i]);
            }
        }
    }
}

proof fn lemma_received_behind(waiting: Seq<Reading>, datagrams: Seq<Seq<u8>>)
    ensures
        received_all(waiting, datagrams) == waiting + received_all(Seq::empty(), datagrams),
    decreases datagrams.len(),
{
    if datagrams.len() > 0 {
        lemma_received_behind(waiting, datagrams.drop_last());
        let before = received_all(Seq::empty(), datagrams.drop_last());
        match decoded(datagrams.last()) {
            Ok(reading) => {
                assert((waiting + before).push(reading) =~= waiting + before.push(reading));
            },
            Err(_) => {},
        }
    } else {
        assert(waiting + Seq::<Reading>::empty() =~= waiting);
    }
}

proof fn lemma_published_concat(first: Seq<Reading>, second: Seq<Reading>)
    ensures
        published(first + second) == published(first) + published(second),
    decreases first.len(),
{
    if first.len() > 0 {
        lemma_published_concat(first.drop_first(), second);
        assert((first + second).drop_first() =~= first.drop_first() + second);
        assert(published(first + second) =~= published(first) + published(second));
    } else {
        assert(first + second =~= second);
        assert(published(first) + published(second) =~= published(second));
    }
}

/// What waits is published before what arrives: the messages for a queue
/// that has received more datagrams are the messages for what waited,
/// followed by the messages for the new datagrams, as if they had come to an
/// empty queue.
pub proof fn lemma_waiting_goes_first(waiting: Seq<Reading>, datagrams: Seq<Seq<u8>>)
    ensures
        published(received_all(waiting, datagrams)) == published(waiting) + published(
            received_all(Seq::empty(), datagrams),
        ),
{
    lemma_received_behind(waiting, datagrams);
    lemma_published_concat(waiting, received_all(Seq::empty(), datagrams));
}

/// Datagrams that each hold a reading leave the bridge in the order in which
/// they came: from an empty queue, as many messages are published as
/// datagrams were received, and the message at each place is the one of the
/// reading in the datagram at that place.
pub proof fn lemma_first_in_first_out(datagrams: Seq<Seq<u8>>)
    requires
        forall|i: int| 0 <= i < datagrams.len() ==> decoded(#[trigger] datagrams[i]) is Ok,
    ensures
        published(received_all(Seq::empty(), datagrams)).len() == datagrams.len(),
        forall|i: int|
            0 <= i < datagrams.len() ==> published(received_all(Seq::empty(), datagrams))[i]
                == publication_of(decoded(#[trigger] datagrams[i])->Ok_0),
{
    lemma_received_all(datagrams);
    lemma_published_in_order(received_all(Seq::empty(), datagrams));
}

proof fn lemma_received_all(datagrams: Seq<Seq<u8>>)
    requires
        forall|i: int| 0 <= i < datagrams.len() ==> decoded(#[trigger] datagrams[i]) is Ok,
    ensures
        received_all(Seq::empty(), datagrams).len() == datagrams.len(),
        forall|i: int|
            0 <= i < datagrams.len() ==> received_all(Seq::empty(), datagrams)[i] == decoded(
                #[trigger] datagrams[i],
            )->Ok_0,
    decreases datagrams.len(),
{
    if datagrams.len() > 0 {
        let front = datagrams.drop_last();
        assert forall|i: int| 0 <= i < front.len() implies decoded(#[trigger] front[i]) is Ok by {
            assert(front[i] == datagrams[i]);
        }
        lemma_received_all(front);
        assert(decoded(datagrams[datagrams.len() - 1]) is Ok);
        assert forall|i: int| 0 <= i < datagrams.len() implies received_all(
            Seq::empty(),
            datagrams,
        )[i] == decoded(#[trigger] datagrams[i])->Ok_0 by {
            if i < front.len() {
                assert(front[i] == datagrams[i]);
            }
        }
    }
}

} // verus!
