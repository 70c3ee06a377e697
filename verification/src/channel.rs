use crate::error::OsError;
use crate::monitor::DeviceHandle;
use vstd::prelude::*;

verus! {

/// What travels through the handoff channel: an adopted device, or the one
/// fatal error the monitor publishes before it dies.
#[derive(Clone, Debug, PartialEq, Eq)]
pub enum HandoffItem {
    Device { device: DeviceHandle },
    Fault { error: OsError },
}

/// Answer to an attempted publication.
#[derive(Clone, Debug, PartialEq, Eq)]
pub enum SendOutcome {
    /// The item now sits in the slot.
    Accepted,
    /// The slot still holds the previous item; the caller must wait until
    /// the consumer drains it. The item comes back untouched.
    Full { item: HandoffItem },
    /// The consumer is gone; nothing will ever be read again. The item
    /// comes back untouched.
    Disconnected { item: HandoffItem },
}

/// What one attempt to drain the channel found.
#[derive(Clone, Debug, PartialEq, Eq)]
pub enum RecvOutcome {
    /// The slot held this item; it is now empty.
    Item { item: HandoffItem },
    /// The slot is empty but the producer may still publish: wait.
    Empty,
    /// The slot is empty and the producer is gone for good.
    Ended,
}

/// What the consumer's blocking read comes to.
#[derive(Clone, Debug, PartialEq, Eq)]
pub enum ReadOutcome {
    /// The next adopted device.
    Device { device: DeviceHandle },
    /// The monitor's terminal error.
    Fault { error: OsError },
    /// The monitor has exited; every further read ends here too. This is
    /// the broken-pipe-class answer, distinct from a merely empty channel.
    Exited,
    /// Nothing yet; the producer is still alive, so suspend and retry.
    NotYet,
}

/// The single-slot handoff channel between the monitor and its consumer.
/// Its capacity is one item: the producer cannot publish a second adoption
/// until the consumer drains the first, which is the backpressure the
/// monitor relies on.
pub struct Handoff {
    pub slot: Option<HandoffItem>,
    pub producer_gone: bool,
    pub consumer_gone: bool,
}

impl Handoff {
    /// How many items are pending.
    pub open spec fn len(self) -> nat {
        if self.slot is Some {
            1
        } else {
            0
        }
    }

    /// The channel state after a publication attempt, with its answer.
    pub open spec fn try_send_spec(self, item: HandoffItem) -> (Handoff, SendOutcome) {
        if self.consumer_gone {
            (self, SendOutcome::Disconnected { item })
        } else if self.slot is Some {
            (self, SendOutcome::Full { item })
        } else {
            (Handoff { slot: Some(item), ..self }, SendOutcome::Accepted)
        }
    }

    /// An empty channel with both ends attached.
    pub fn new() -> (h: Handoff)
        ensures
            h.slot is None,
            !h.producer_gone,
            !h.consumer_gone,
            h.len() == 0,
    {
        Handoff { slot: None, producer_gone: false, consumer_gone: false }
    }

    /// The producer's non-blocking publication attempt.
    pub fn try_send(&mut self, item: HandoffItem) -> (r: SendOutcome)
        ensures
            (*final(self), r) == old(self).try_send_spec(item),
    {
        if self.consumer_gone {
            return SendOutcome::Disconnected { item };
        }
        if self.slot.is_some() {
            return SendOutcome::Full { item };
        }
        self.slot = Some(item);
        SendOutcome::Accepted
    }

    /// The consumer's non-blocking drain attempt.
    pub fn recv(&mut self) -> (r: RecvOutcome)
        ensures
            final(self).slot is None,
            final(self).producer_gone == old(self).producer_gone,
            final(self).consumer_gone == old(self).consumer_gone,
            match old(self).slot {
                Some(item) => r == RecvOutcome::Item { item },
                None => r == if old(self).producer_gone {
                    RecvOutcome::Ended
                } else {
                    RecvOutcome::Empty
                },
            },
    {
        match self.slot.take() {
            Some(item) => RecvOutcome::Item { item },
            None => if self.producer_gone {
                RecvOutcome::Ended
            } else {
                RecvOutcome::Empty
            },
        }
    }

    /// The consumer's blocking read, one poll at a time: an adopted device
    /// or the terminal error if one is pending, the broken-pipe-class
    /// `Exited` once the monitor is gone, and `NotYet` where a real
    /// consumer would suspend until the producer moves.
    pub fn read(&mut self) -> (r: ReadOutcome)
        ensures
            final(self).slot is None,
            final(self).producer_gone == old(self).producer_gone,
            final(self).consumer_gone == old(self).consumer_gone,
            match old(self).slot {
                Some(HandoffItem::Device { device }) => r == ReadOutcome::Device { device },
                Some(HandoffItem::Fault { error }) => r == ReadOutcome::Fault { error },
                None => r == if old(self).producer_gone {
                    ReadOutcome::Exited
                } else {
                    ReadOutcome::NotYet
                },
            },
    {
        match self.recv() {
            RecvOutcome::Item { item } => match item {
                HandoffItem::Device { device } => ReadOutcome::Device { device },
                HandoffItem::Fault { error } => ReadOutcome::Fault { error },
            },
            RecvOutcome::Empty => ReadOutcome::NotYet,
            RecvOutcome::Ended => ReadOutcome::Exited,
        }
    }

    /// The producer is done (the monitor task ended); pending items stay
    /// readable, after which every read says `Exited`.
    pub fn close_producer(&mut self)
        ensures
            final(self).producer_gone,
            final(self).slot == old(self).slot,
            final(self).consumer_gone == old(self).consumer_gone,
    {
        self.producer_gone = true;
    }

    /// The consumer is dropped; every later publication attempt answers
    /// `Disconnected`.
    pub fn close_consumer(&mut self)
        ensures
            final(self).consumer_gone,
            final(self).slot == old(self).slot,
            final(self).producer_gone == old(self).producer_gone,
    {
        self.consumer_gone = true;
    }
}

/// The handoff channel never holds more than one pending item.
pub proof fn lemma_handoff_capacity(h: Handoff)
    ensures
        h.len() <= 1,
{
}

/// A second adoption cannot be published while one is pending: against a
/// full channel a publication attempt changes nothing and hands the item
/// back, so the producer can only wait for the consumer to drain the slot.
pub proof fn lemma_full_refuses_send(h: Handoff, item: HandoffItem)
    requires
        h.len() == 1,
    ensures
        h.try_send_spec(item).0 == h,
        !h.consumer_gone ==> h.try_send_spec(item).1 == (SendOutcome::Full { item }),
{
}

/// Publication never grows the channel past its capacity.
pub proof fn lemma_send_preserves_capacity(h: Handoff, item: HandoffItem)
    ensures
        h.try_send_spec(item).0.len() <= 1,
{
}

} // verus!
