use vstd::prelude::*;

verus! {

/// What the frame relay of one viewer connection observes next.
#[derive(Debug, PartialEq, Eq)]
pub enum RelayEvent {
    /// The viewer sent something or closed the connection.
    ViewerMessage,
    /// The renderer pushed a chunk of frame bytes.
    Chunk(Vec<u8>),
    /// The renderer's channel has no more chunks.
    ChannelClosed,
}

/// The relay of rendered chunks to one connected viewer.
#[derive(Debug, PartialEq, Eq)]
pub struct FrameRelay {
    /// The viewer connection is still served.
    pub open: bool,
}

/// One relay step: from whether the connection is served and the next
/// event, whether it is served afterwards and which chunk, if any, goes to
/// the viewer as one binary message.
pub open spec fn relay_next(open: bool, event: RelayEvent) -> (bool, Option<Seq<u8>>) {
    if !open {
        (false, None)
    } else {
        match event {
            RelayEvent::ViewerMessage => (false, None),
            RelayEvent::Chunk(c) => (true, Some(c@)),
            RelayEvent::ChannelClosed => (true, None),
        }
    }
}

/// The messages that a relay in state `open` sends over `events`, in order.
pub open spec fn relay_run(open: bool, events: Seq<RelayEvent>) -> Seq<Seq<u8>>
    decreases events.len(),
{
    if events.len() == 0 {
        Seq::empty()
    } else {
        let (next, sent) = relay_next(open, events[0]);
        let rest = relay_run(next, events.drop_first());
        match sent {
            Some(c) => seq![c].add(rest),
            None => rest,
        }
    }
}

/// The chunks pushed among `events` before the viewer's first message.
pub open spec fn chunks_before_close(events: Seq<RelayEvent>) -> Seq<Seq<u8>>
    decreases events.len(),
{
    if events.len() == 0 {
        Seq::empty()
    } else {
        match events[0] {
            RelayEvent::ViewerMessage => Seq::empty(),
            RelayEvent::Chunk(c) => seq![c@].add(chunks_before_close(events.drop_first())),
            RelayEvent::ChannelClosed => chunks_before_close(events.drop_first()),
        }
    }
}

impl FrameRelay {
    /// The relay of a viewer that has just connected.
    pub fn new() -> (r: FrameRelay)
        ensures
            r.open,
    {
        FrameRelay { open: true }
    }

    /// Handles one event. The result is the chunk to send to the viewer as
    /// one binary message; once the viewer has sent anything, the
    /// connection is no longer served and nothing more is sent.
    pub fn step(&mut self, event: RelayEvent) -> (sent: Option<Vec<u8>>)
        ensures
            ({
                let (next, expected) = relay_next(old(self).open, event);
                &&& final(self).open == next
                &&& match sent {
                    Some(c) => expected == Some(c@),
                    None => expected is None,
                }
            }),
    {
        if !self.open {
            return None;
        }
        match event {
            RelayEvent::ViewerMessage => {
                self.open = false;
                None
            },
            RelayEvent::Chunk(c) => Some(c),
            RelayEvent::ChannelClosed => None,
        }
    }
}

/// A viewer receives exactly the chunks that the renderer pushed after it
/// connected and before it sent anything, each once and in push order.
pub proof fn lemma_relay_keeps_push_order(events: Seq<RelayEvent>)
    ensures
        relay_run(true, events) == chunks_before_close(events),
    decreases events.len(),
{
    if events.len() > 0 {
        lemma_relay_keeps_push_order(events.drop_first());
        lemma_closed_relay_sends_nothing(events.drop_first());
    }
}

/// A relay that no longer serves its viewer sends nothing.
pub proof fn lemma_closed_relay_sends_nothing(events: Seq<RelayEvent>)
    ensures
        relay_run(false, events) == Seq::<Seq<u8>>::empty(),
    decreases events.len(),
{
    if events.len() > 0 {
        lemma_closed_relay_sends_nothing(events.drop_first());
    }
}

} // verus!
