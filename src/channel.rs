use vstd::prelude::*;

use crate::error::HarnessError;

verus! {

/// The abstract state of a frame channel: every frame sent so far, in order; the
/// position in that list of the last frame handed to the consumer (-1 before the
/// first); and whether the producer has gone away.
pub ghost struct ChannelModel {
    pub sent: Seq<Seq<u8>>,
    pub delivered: int,
    pub closed: bool,
}

impl ChannelModel {
    pub open spec fn wf(self) -> bool {
        -1 <= self.delivered < self.sent.len()
    }

    /// Whether a frame newer than the last one delivered is waiting.
    pub open spec fn has_pending(self) -> bool {
        self.delivered < self.sent.len() - 1
    }

    /// The channel after the producer sends `frame`.
    pub open spec fn after_send(self, frame: Seq<u8>) -> ChannelModel {
        ChannelModel { sent: self.sent.push(frame), ..self }
    }

    /// The channel after the producer sends each of `frames`, first to last.
    pub open spec fn after_sends(self, frames: Seq<Seq<u8>>) -> ChannelModel
        decreases frames.len(),
    {
        if frames.len() == 0 {
            self
        } else {
            self.after_sends(frames.drop_last()).after_send(frames.last())
        }
    }

    /// What one poll by the consumer returns: the newest frame if one arrived since
    /// the last poll; otherwise nothing, or `ChannelDisconnected` once the producer
    /// has gone away.
    pub open spec fn receive_result(self) -> Result<Option<Seq<u8>>, HarnessError> {
        if self.has_pending() {
            Ok(Some(self.sent.last()))
        } else if self.closed {
            Err(HarnessError::ChannelDisconnected)
        } else {
            Ok(None)
        }
    }

    /// The channel after a run of producer and consumer steps, first to last: a
    /// `Some(frame)` step sends that frame, a `None` step is one poll.
    pub open spec fn after_steps(self, steps: Seq<Option<Seq<u8>>>) -> ChannelModel
        decreases steps.len(),
    {
        if steps.len() == 0 {
            self
        } else {
            let m = self.after_steps(steps.drop_last());
            match steps.last() {
                Some(frame) => m.after_send(frame),
                None => m.after_receive(),
            }
        }
    }

    /// The channel after one poll by the consumer.
    pub open spec fn after_receive(self) -> ChannelModel {
        if self.has_pending() {
            ChannelModel { delivered: self.sent.len() - 1, ..self }
        } else {
            self
        }
    }
}

/// Hands display frames from the engine's thread to the render loop. Sending
/// never waits and replaces a frame that has not been taken yet, so the consumer
/// always sees the newest frame; frames it was too slow for are dropped.
pub struct FrameChannel {
    pending: Option<Vec<u8>>,
    closed: bool,
    sent: Ghost<Seq<Seq<u8>>>,
    delivered: Ghost<int>,
}

impl View for FrameChannel {
    type V = ChannelModel;

    closed spec fn view(&self) -> ChannelModel {
        ChannelModel { sent: self.sent@, delivered: self.delivered@, closed: self.closed }
    }
}

impl FrameChannel {
    /// The channel's private fields agree with its model.
    pub closed spec fn wf(&self) -> bool {
        &&& self@.wf()
        &&& match self.pending {
            Some(f) => self@.has_pending() && f@ == self.sent@.last(),
            None => !self@.has_pending(),
        }
    }

    /// An open channel through which nothing has been sent.
    pub fn new() -> (r: FrameChannel)
        ensures
            r.wf(),
            r@.wf(),
            r@ == (ChannelModel { sent: Seq::empty(), delivered: -1, closed: false }),
    {
        FrameChannel { pending: None, closed: false, sent: Ghost(Seq::empty()), delivered: Ghost(-1) }
    }

    /// Offers a frame to the consumer, replacing any frame it has not taken yet.
    pub fn send(&mut self, frame: Vec<u8>)
        requires
            old(self).wf(),
        ensures
            final(self).wf(),
            final(self)@.wf(),
            final(self)@ == old(self)@.after_send(frame@),
    {
        proof {
            self.sent@ = self.sent@.push(frame@);
        }
        self.pending = Some(frame);
    }

    /// Marks the producer as gone; the consumer sees that once it has taken the
    /// last frame.
    pub fn close(&mut self)
        requires
            old(self).wf(),
        ensures
            final(self).wf(),
            final(self)@.wf(),
            final(self)@ == (ChannelModel { closed: true, ..old(self)@ }),
    {
        self.closed = true;
    }

    /// Takes the newest frame if one arrived since the last call. Returns
    /// `Ok(None)` when none did, and `ChannelDisconnected` when none did and the
    /// producer has gone away.
    pub fn try_receive(&mut self) -> (r: Result<Option<Vec<u8>>, HarnessError>)
        requires
            old(self).wf(),
        ensures
            final(self).wf(),
            final(self)@.wf(),
            final(self)@ == old(self)@.after_receive(),
            match r {
                Ok(Some(f)) => old(self)@.receive_result() == Ok::<Option<Seq<u8>>, HarnessError>(
                    Some(f@),
                ),
                Ok(None) => old(self)@.receive_result() == Ok::<Option<Seq<u8>>, HarnessError>(None),
                Err(e) => old(self)@.receive_result() == Err::<Option<Seq<u8>>, HarnessError>(e),
            },
    {
        match self.pending.take() {
            Some(f) => {
                proof {
                    self.delivered@ = self.sent@.len() - 1;
                }
                Ok(Some(f))
            },
            None => {
                if self.closed {
                    Err(HarnessError::ChannelDisconnected)
                } else {
                    Ok(None)
                }
            },
        }
    }
}

proof fn lemma_after_sends(m: ChannelModel, frames: Seq<Seq<u8>>)
    ensures
        m.after_sends(frames).sent == m.sent + frames,
        m.after_sends(frames).delivered == m.delivered,
        m.after_sends(frames).closed == m.closed,
    decreases frames.len(),
{
    if frames.len() > 0 {
        lemma_after_sends(m, frames.drop_last());
        assert(m.sent + frames == (m.sent + frames.drop_last()).push(frames.last()));
    }
}

/// Most recent wins: when the producer sends one or more frames before the
/// consumer polls, that poll returns the last of them.
pub proof fn lemma_most_recent_wins(m: ChannelModel, frames: Seq<Seq<u8>>)
    requires
        m.wf(),
        frames.len() > 0,
    ensures
        m.after_sends(frames).receive_result() == Ok::<Option<Seq<u8>>, HarnessError>(
            Some(frames.last()),
        ),
        m.after_sends(frames).after_receive().delivered == m.sent.len() + frames.len() - 1,
{
    lemma_after_sends(m, frames);
    let s = m.sent + frames;
    assert(s.last() == frames.last());
}

/// Frames arrive in the order they were sent: each frame a poll returns comes
/// later in the sent order than every frame returned before it.
pub proof fn lemma_delivery_in_order(m: ChannelModel)
    requires
        m.wf(),
    ensures
        m.after_receive().wf(),
        m.after_receive().sent == m.sent,
        m.after_receive().delivered >= m.delivered,
        m.receive_result() matches Ok(Some(f)) ==> m.after_receive().delivered > m.delivered
            && f == m.sent[m.after_receive().delivered],
{
}

/// Over any run of sends and polls the sent frames only grow at the end and the
/// position of the last delivered frame never moves back; together with
/// `lemma_delivery_in_order`, a frame is never delivered after a later one.
pub proof fn lemma_order_kept(m: ChannelModel, steps: Seq<Option<Seq<u8>>>)
    requires
        m.wf(),
    ensures
        m.after_steps(steps).wf(),
        m.after_steps(steps).sent.len() >= m.sent.len(),
        m.after_steps(steps).sent.subrange(0, m.sent.len() as int) == m.sent,
        m.after_steps(steps).delivered >= m.delivered,
    decreases steps.len(),
{
    if steps.len() > 0 {
        let rest = steps.drop_last();
        lemma_order_kept(m, rest);
        let p = m.after_steps(rest);
        match steps.last() {
            Some(frame) => {
                assert(p.after_send(frame).sent.subrange(0, m.sent.len() as int) == p.sent.subrange(
                    0,
                    m.sent.len() as int,
                ));
            },
            None => {},
        }
    }
}

/// No older frame after a newer one: take any valid channel state, such as the one
/// just after a poll returned frame F. Whatever sends and polls follow, a frame
/// that a later poll returns sits after F in the order of sending.
pub proof fn lemma_later_deliveries_are_newer(m: ChannelModel, steps: Seq<Option<Seq<u8>>>)
    requires
        m.wf(),
    ensures
        ({
            let p = m.after_steps(steps);
            p.receive_result() matches Ok(Some(f)) ==> {
                &&& m.delivered < p.after_receive().delivered
                &&& f == p.sent[p.after_receive().delivered]
                &&& p.sent.subrange(0, m.sent.len() as int) == m.sent
            }
        }),
{
    lemma_order_kept(m, steps);
    lemma_delivery_in_order(m.after_steps(steps));
}

} // verus!
