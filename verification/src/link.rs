//! The frame counters of one end of a connection, and what its worker does next.
use vstd::prelude::*;
use crate::{Frame, NetError};

verus! {

/// The counters one end of a connection keeps: the counter of the next frame
/// it sends, and the counter of the next frame it expects (0 while it has not
/// yet heard from the peer).
pub struct Link {
    pub send_frame_counter: u64,
    pub recv_frame_counter: u64,
}

/// A received frame's data, judged against the frame that was expected.
pub enum Delivery<T> {
    InOrder(T),
    OutOfOrder(T),
}

/// What a connection worker does next.
pub enum Step<S, M> {
    /// Nothing to do on this turn.
    Idle,
    /// Shut the stream down and end with success.
    Shutdown,
    /// Serialise and write this frame; once written, record it with `Link::frame_sent`.
    Write(Frame<S>),
    /// Hand this message to the user's end and carry on.
    Report(M),
    /// Hand this message to the user's end, then end with success.
    ReportAndStop(M),
    /// End with this error.
    Fail(NetError),
}

/// The outside work a step asks of the worker.
pub enum Action<S, M> {
    /// No outside work.
    Nothing,
    /// Shut the stream down in both directions.
    ShutdownStream,
    /// Serialise and write this frame; once written, record it with `Link::frame_sent`.
    Write(Frame<S>),
    /// Hand this message to the user's end.
    Report(M),
}

/// How the worker goes on once a step's action was carried out.
pub enum Flow {
    /// Take the next turn.
    Continue,
    /// End the worker with this result.
    End(Result<(), NetError>),
}

impl<S, M> Step<S, M> {
    /// A step as the action it asks for and how the worker goes on after it:
    /// `Idle`, `Write` and `Report` carry on; `Shutdown` and `ReportAndStop`
    /// end the worker with success; `Fail` ends it with its error.
    pub fn into_parts(self) -> (parts: (Action<S, M>, Flow))
        ensures
            match self {
                Step::Idle => parts.0 is Nothing && parts.1 is Continue,
                Step::Shutdown => parts.0 is ShutdownStream && parts.1 == Flow::End(Ok(())),
                Step::Write(f) => parts.0 == Action::<S, M>::Write(f) && parts.1 is Continue,
                Step::Report(m) => parts.0 == Action::<S, M>::Report(m) && parts.1 is Continue,
                Step::ReportAndStop(m) => parts.0 == Action::<S, M>::Report(m) && parts.1 == Flow::End(Ok(())),
                Step::Fail(e) => parts.0 is Nothing && parts.1 == Flow::End(Err(e)),
            },
    {
        match self {
            Step::Idle => (Action::Nothing, Flow::Continue),
            Step::Shutdown => (Action::ShutdownStream, Flow::End(Ok(()))),
            Step::Write(f) => (Action::Write(f), Flow::Continue),
            Step::Report(m) => (Action::Report(m), Flow::Continue),
            Step::ReportAndStop(m) => (Action::Report(m), Flow::End(Ok(()))),
            Step::Fail(e) => (Action::Nothing, Flow::End(Err(e))),
        }
    }
}

/// A frame is taken as in order when the receiver has not heard from the peer
/// yet (it expects 0), or when it carries exactly the expected counter.
pub open spec fn in_order(expected: u64, counter: u64) -> bool {
    expected == 0 || counter == expected
}

/// The counters `start`, `start + 1`, ... of `n` frames in a row.
pub open spec fn consecutive(start: u64, n: nat) -> Seq<u64> {
    Seq::new(n, |i: int| (start + i) as u64)
}

/// The counters a link gives to its next `n` frames when its send counter is
/// `send`: each frame takes the counter (`frame_for`), then the counter moves
/// on by one (`frame_sent`).
pub open spec fn sent_counters(send: u64, n: nat) -> Seq<u64>
    decreases n,
{
    if n == 0 {
        Seq::empty()
    } else {
        seq![send].add(sent_counters((send + 1) as u64, (n - 1) as nat))
    }
}

/// How a receiver that expects `expected` judges frames with these counters,
/// taking them in one after another (`receive`): in order (`true`) or not.
pub open spec fn judgements(expected: u64, counters: Seq<u64>) -> Seq<bool>
    decreases counters.len(),
{
    if counters.len() == 0 {
        Seq::empty()
    } else {
        seq![in_order(expected, counters[0])].add(
            judgements((counters[0] + 1) as u64, counters.drop_first()),
        )
    }
}

/// The counter a receiver that expects `expected` expects after taking in
/// frames with these counters.
pub open spec fn expected_after(expected: u64, counters: Seq<u64>) -> u64
    decreases counters.len(),
{
    if counters.len() == 0 {
        expected
    } else {
        expected_after((counters[0] + 1) as u64, counters.drop_first())
    }
}

/// One more `receive` extends a run of received frames: a link whose
/// expected counter is what the run left (`expected_after`) judges the new
/// frame as `receive` states (`in_order`), which is the run's judgement of
/// that frame, and then expects the counter `receive` states, which is what
/// the longer run leaves. So the counters a link sees, taken in by `receive`
/// one after another, are judged as `judgements` says.
pub proof fn lemma_receive_extends_run(expected: u64, counters: Seq<u64>, counter: u64)
    ensures
        judgements(expected, counters.push(counter))
            == judgements(expected, counters).push(in_order(expected_after(expected, counters), counter)),
        expected_after(expected, counters.push(counter)) == (counter + 1) as u64,
    decreases counters.len(),
{
    let longer = counters.push(counter);
    if counters.len() == 0 {
        assert(longer.drop_first() =~= Seq::<u64>::empty());
        assert(longer[0] == counter);
        assert(judgements((counter + 1) as u64, Seq::<u64>::empty()) =~= Seq::<bool>::empty());
        assert(judgements(expected, longer) =~= seq![in_order(expected, counter)]);
        assert(judgements(expected, counters) =~= Seq::<bool>::empty());
        assert(expected_after(expected, longer) == expected_after((counter + 1) as u64, longer.drop_first()));
    } else {
        let next = (counters[0] + 1) as u64;
        assert(longer.drop_first() =~= counters.drop_first().push(counter));
        assert(longer[0] == counters[0]);
        lemma_receive_extends_run(next, counters.drop_first(), counter);
        assert(expected_after(expected, longer) == expected_after(next, longer.drop_first()));
        assert(expected_after(expected, counters) == expected_after(next, counters.drop_first()));
        assert(judgements(expected, longer) =~= judgements(expected, counters).push(
            in_order(expected_after(expected, counters), counter),
        ));
    }
}

/// One more `frame_for` and `frame_sent` extends a run of sent frames: after
/// `n` frames from the send counter `send`, the link's counter is
/// `send + n` (each `frame_sent` adds one), and that is the counter the
/// next frame takes, as `sent_counters` says.
pub proof fn lemma_send_extends_run(send: u64, n: nat)
    requires
        send + n < u64::MAX,
    ensures
        sent_counters(send, n + 1) == sent_counters(send, n).push((send + n) as u64),
    decreases n,
{
    if n == 0 {
        assert(sent_counters((send + 1) as u64, 0) =~= Seq::<u64>::empty());
        assert(sent_counters(send, 1) =~= seq![send]);
        assert(sent_counters(send, 0) =~= Seq::<u64>::empty());
    } else {
        lemma_send_extends_run((send + 1) as u64, (n - 1) as nat);
        assert(sent_counters(send, n + 1) =~= sent_counters(send, n).push((send + n) as u64));
    }
}

/// A sender numbers its frames one after another: the frames it sends next
/// carry the counters `send`, `send + 1`, ...
pub proof fn lemma_sender_numbers_consecutively(send: u64, n: nat)
    requires
        send + n <= u64::MAX,
    ensures
        sent_counters(send, n) == consecutive(send, n),
    decreases n,
{
    if n > 0 {
        lemma_sender_numbers_consecutively((send + 1) as u64, (n - 1) as nat);
        assert(sent_counters(send, n) =~= consecutive(send, n));
    }
}

/// Frames with consecutive counters, starting at the one the receiver expects
/// (or at any counter, where it has not heard from the peer yet), are all
/// taken as in order, and afterwards the frame after the last one is expected.
pub proof fn lemma_consecutive_frames_in_order(expected: u64, start: u64, n: nat)
    requires
        expected == 0 || expected == start,
        start + n <= u64::MAX,
    ensures
        judgements(expected, consecutive(start, n)).len() == n,
        forall|i: int| 0 <= i < n ==> #[trigger] judgements(expected, consecutive(start, n))[i],
        n > 0 ==> expected_after(expected, consecutive(start, n)) == start + n,
    decreases n,
{
    if n > 0 {
        let counters = consecutive(start, n);
        let rest = consecutive((start + 1) as u64, (n - 1) as nat);
        assert(counters.drop_first() =~= rest);
        assert(counters[0] == start);
        lemma_consecutive_frames_in_order((start + 1) as u64, (start + 1) as u64, (n - 1) as nat);
        assert(expected_after(expected, counters) == expected_after((start + 1) as u64, rest));
        if n == 1 {
            assert(rest.len() == 0);
        }
        let js = judgements(expected, counters);
        assert forall|i: int| 0 <= i < n implies #[trigger] js[i] by {
            if i > 0 {
                assert(js[i] == judgements((start + 1) as u64, rest)[i - 1]);
            }
        }
    }
}

/// What one end sends, the other end takes in order: the first `n` frames of
/// a fresh link, received one after another by a fresh link, are all judged
/// in order, and the receiver then expects the next frame the sender will send.
pub proof fn lemma_fresh_links_deliver_in_order(n: nat)
    requires
        0 < n <= u64::MAX,
    ensures
        judgements(0, sent_counters(0, n)).len() == n,
        forall|i: int| 0 <= i < n ==> #[trigger] judgements(0, sent_counters(0, n))[i],
        expected_after(0, sent_counters(0, n)) == n,
{
    lemma_sender_numbers_consecutively(0, n);
    lemma_consecutive_frames_in_order(0, 0, n);
}

/// After any frame, whether taken in order or not, the receiver follows the
/// sender again: frames carrying the counters right after it are in order.
pub proof fn lemma_receiver_resynchronises(expected: u64, counter: u64, n: nat)
    requires
        counter + 1 + n <= u64::MAX,
    ensures
        judgements(expected, seq![counter].add(consecutive((counter + 1) as u64, n)))[0]
            == in_order(expected, counter),
        forall|i: int|
            1 <= i <= n ==> #[trigger] judgements(
                expected,
                seq![counter].add(consecutive((counter + 1) as u64, n)),
            )[i],
{
    let counters = seq![counter].add(consecutive((counter + 1) as u64, n));
    assert(counters.drop_first() =~= consecutive((counter + 1) as u64, n));
    lemma_consecutive_frames_in_order((counter + 1) as u64, (counter + 1) as u64, n);
}

/// Frames taken in one after another are judged against the frame before
/// them: the first against the counter expected at the start, and each later
/// one is in order exactly when it carries the previous frame's counter plus
/// one. (A frame that failed to parse in between changes nothing: `frame_step`
/// leaves the counters as they were.)
pub proof fn lemma_judged_against_previous(expected: u64, counters: Seq<u64>)
    requires
        forall|i: int| 0 <= i < counters.len() ==> #[trigger] counters[i] < u64::MAX,
    ensures
        judgements(expected, counters).len() == counters.len(),
        counters.len() > 0 ==> judgements(expected, counters)[0] == in_order(expected, counters[0]),
        forall|i: int|
            1 <= i < counters.len() ==> #[trigger] judgements(expected, counters)[i] == (counters[i]
                == counters[i - 1] + 1),
    decreases counters.len(),
{
    if counters.len() > 0 {
        let rest = counters.drop_first();
        let next = (counters[0] + 1) as u64;
        assert forall|i: int| 0 <= i < rest.len() implies #[trigger] rest[i] < u64::MAX by {
            assert(rest[i] == counters[i + 1]);
        }
        lemma_judged_against_previous(next, rest);
        let js = judgements(expected, counters);
        assert(js == seq![in_order(expected, counters[0])].add(judgements(next, rest)));
        assert forall|i: int| 1 <= i < counters.len() implies #[trigger] js[i] == (counters[i]
            == counters[i - 1] + 1) by {
            assert(js[i] == judgements(next, rest)[i - 1]);
            assert(rest[i - 1] == counters[i]);
            if i > 1 {
                assert(rest[i - 2] == counters[i - 1]);
            }
        }
    }
}

/// A fresh receiver judges its first frame in order, and each later one in
/// order exactly when it carries the previous frame's counter plus one.
pub proof fn lemma_fresh_receiver_judgements(counters: Seq<u64>)
    requires
        forall|i: int| 0 <= i < counters.len() ==> #[trigger] counters[i] < u64::MAX,
    ensures
        judgements(0, counters).len() == counters.len(),
        forall|i: int|
            0 <= i < counters.len() ==> #[trigger] judgements(0, counters)[i] == (i == 0
                || counters[i] == counters[i - 1] + 1),
{
    lemma_judged_against_previous(0, counters);
}

/// A receiver that has heard from the peer flags every frame that does not
/// carry the counter it expects.
pub proof fn lemma_gap_is_flagged(expected: u64, counter: u64)
    requires
        expected != 0,
        counter != expected,
    ensures
        !in_order(expected, counter),
        judgements(expected, seq![counter]) == seq![false],
{
    assert(seq![counter].drop_first() =~= Seq::<u64>::empty());
    assert(judgements((counter + 1) as u64, Seq::<u64>::empty()) =~= Seq::<bool>::empty());
    assert(judgements(expected, seq![counter]) =~= seq![false]);
}

/// Whether a successful read gave bytes to parse as a frame; a read that gave
/// none leaves the worker with nothing to do.
pub fn holds_data(chunk: &[u8]) -> (b: bool)
    ensures
        b == (chunk@.len() > 0),
{
    chunk.len() > 0
}

impl Link {
    /// A link on which nothing was sent or received.
    pub fn new() -> (link: Link)
        ensures
            link.send_frame_counter == 0,
            link.recv_frame_counter == 0,
    {
        Link { send_frame_counter: 0, recv_frame_counter: 0 }
    }

    /// The frame that carries `data` as the next frame of this link.
    pub fn frame_for<T>(&self, data: T) -> (frame: Frame<T>)
        ensures
            frame.frame_counter == self.send_frame_counter,
            frame.data == data,
    {
        Frame { frame_counter: self.send_frame_counter, data }
    }

    /// Records that the frame built by `frame_for` went out.
    pub fn frame_sent(&mut self)
        requires
            old(self).send_frame_counter < u64::MAX,
        ensures
            final(self).send_frame_counter == old(self).send_frame_counter + 1,
            final(self).recv_frame_counter == old(self).recv_frame_counter,
    {
        self.send_frame_counter = self.send_frame_counter + 1;
    }

    /// Takes in a received frame: its data, judged in or out of order, and
    /// from now on the frame after it is the one expected.
    pub fn receive<T>(&mut self, frame: Frame<T>) -> (delivery: Delivery<T>)
        requires
            frame.frame_counter < u64::MAX,
        ensures
            final(self).recv_frame_counter == frame.frame_counter + 1,
            final(self).send_frame_counter == old(self).send_frame_counter,
            delivery == if in_order(old(self).recv_frame_counter, frame.frame_counter) {
                Delivery::InOrder(frame.data)
            } else {
                Delivery::OutOfOrder(frame.data)
            },
    {
        let in_order = self.recv_frame_counter == 0 || frame.frame_counter == self.recv_frame_counter;
        self.recv_frame_counter = frame.frame_counter + 1;
        if in_order {
            Delivery::InOrder(frame.data)
        } else {
            Delivery::OutOfOrder(frame.data)
        }
    }
}

} // verus!
