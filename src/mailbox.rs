//! The two event queues that feed one component task.
//!
//! User messages and system events (properties, mount, unmount) arrive on two
//! independent queues. Each queue is first in, first out. Across the two the
//! order is left open: the mailbox takes turns between them, and a caller may
//! rely on nothing more than "one of the two heads comes next".
use std::collections::VecDeque;
use vstd::pervasive::cloned;
use vstd::prelude::*;

verus! {

/// An event delivered to a running component.
pub enum ComponentMessage<M, P> {
    /// A message of the component's own type.
    Update(M),
    /// New properties from the parent.
    Props(P),
    /// The component's widget was attached to the tree.
    Mounted,
    /// The component's widget was detached from the tree.
    Unmounted,
}

impl<M: Clone, P: Clone> Clone for ComponentMessage<M, P> {
    fn clone(&self) -> (r: Self)
        ensures
            match (*self, r) {
                (ComponentMessage::Update(a), ComponentMessage::Update(b)) => cloned(a, b),
                (ComponentMessage::Props(a), ComponentMessage::Props(b)) => cloned(a, b),
                (ComponentMessage::Mounted, ComponentMessage::Mounted) => true,
                (ComponentMessage::Unmounted, ComponentMessage::Unmounted) => true,
                _ => false,
            },
    {
        match self {
            ComponentMessage::Update(msg) => ComponentMessage::Update(msg.clone()),
            ComponentMessage::Props(props) => ComponentMessage::Props(props.clone()),
            ComponentMessage::Mounted => ComponentMessage::Mounted,
            ComponentMessage::Unmounted => ComponentMessage::Unmounted,
        }
    }
}

/// What one look at the mailbox finds.
pub enum Polled<T> {
    /// An event was ready and has been taken.
    Ready(T),
    /// Nothing is ready now, but senders are still open.
    Pending,
    /// Nothing is ready and every sender has been dropped.
    Exhausted,
}

/// The two queues of one component, its mute flag and whether any sender is
/// still open.
pub struct Mailbox<M, P> {
    user: VecDeque<M>,
    system: VecDeque<ComponentMessage<M, P>>,
    muted: bool,
    open: bool,
    user_first: bool,
}

impl<M, P> Mailbox<M, P> {
    /// Messages sent through the component's scope, oldest first.
    pub closed spec fn user_queue(&self) -> Seq<M> {
        self.user@
    }

    /// System events, oldest first.
    pub closed spec fn system_queue(&self) -> Seq<ComponentMessage<M, P>> {
        self.system@
    }

    pub closed spec fn muted(&self) -> bool {
        self.muted
    }

    pub closed spec fn open(&self) -> bool {
        self.open
    }

    /// Number of events waiting on both queues.
    pub open spec fn ready_count(&self) -> nat {
        self.user_queue().len() + self.system_queue().len()
    }

    /// An empty, unmuted mailbox whose senders are open.
    pub fn new() -> (r: Self)
        ensures
            r.user_queue() == Seq::<M>::empty(),
            r.system_queue() == Seq::<ComponentMessage<M, P>>::empty(),
            !r.muted(),
            r.open(),
    {
        Mailbox {
            user: VecDeque::new(),
            system: VecDeque::new(),
            muted: false,
            open: true,
            user_first: true,
        }
    }

    /// Sends a user message through the scope. While muted the message is
    /// dropped, not deferred; once every sender is dropped nothing is queued.
    pub fn send(&mut self, msg: M)
        ensures
            final(self).user_queue() == (if old(self).muted() || !old(self).open() {
                old(self).user_queue()
            } else {
                old(self).user_queue().push(msg)
            }),
            final(self).system_queue() == old(self).system_queue(),
            final(self).muted() == old(self).muted(),
            final(self).open() == old(self).open(),
    {
        if !self.muted && self.open {
            self.user.push_back(msg);
        }
    }

    /// Delivers a system event. The mute flag guards the scope only, so this
    /// is queued whenever a sender is open.
    pub fn send_system(&mut self, event: ComponentMessage<M, P>)
        ensures
            final(self).system_queue() == (if old(self).open() {
                old(self).system_queue().push(event)
            } else {
                old(self).system_queue()
            }),
            final(self).user_queue() == old(self).user_queue(),
            final(self).muted() == old(self).muted(),
            final(self).open() == old(self).open(),
    {
        if self.open {
            self.system.push_back(event);
        }
    }

    /// Suppresses delivery through the scope.
    pub fn mute(&mut self)
        ensures
            final(self).muted(),
            final(self).user_queue() == old(self).user_queue(),
            final(self).system_queue() == old(self).system_queue(),
            final(self).open() == old(self).open(),
    {
        self.muted = true;
    }

    /// Restores delivery through the scope.
    pub fn unmute(&mut self)
        ensures
            !final(self).muted(),
            final(self).user_queue() == old(self).user_queue(),
            final(self).system_queue() == old(self).system_queue(),
            final(self).open() == old(self).open(),
    {
        self.muted = false;
    }

    /// Drops every sender: what is queued can still be drained, after which
    /// the mailbox reports exhaustion.
    pub fn close(&mut self)
        ensures
            !final(self).open(),
            final(self).user_queue() == old(self).user_queue(),
            final(self).system_queue() == old(self).system_queue(),
            final(self).muted() == old(self).muted(),
    {
        self.open = false;
    }

    pub fn is_muted(&self) -> (r: bool)
        ensures
            r == self.muted(),
    {
        self.muted
    }

    pub fn is_open(&self) -> (r: bool)
        ensures
            r == self.open(),
    {
        self.open
    }

    /// Takes the next ready event. When both queues hold one, either head may
    /// come first; within a queue the order of sending is kept.
    pub fn next(&mut self) -> (r: Polled<ComponentMessage<M, P>>)
        ensures
            final(self).muted() == old(self).muted(),
            final(self).open() == old(self).open(),
            old(self).ready_count() == 0 ==> {
                &&& final(self).user_queue() == old(self).user_queue()
                &&& final(self).system_queue() == old(self).system_queue()
                &&& r == (if old(self).open() {
                    Polled::<ComponentMessage<M, P>>::Pending
                } else {
                    Polled::<ComponentMessage<M, P>>::Exhausted
                })
            },
            old(self).ready_count() > 0 ==> {
                ||| {
                    &&& old(self).user_queue().len() > 0
                    &&& r == Polled::Ready(ComponentMessage::<M, P>::Update(old(self).user_queue()[0]))
                    &&& final(self).user_queue() == old(self).user_queue().drop_first()
                    &&& final(self).system_queue() == old(self).system_queue()
                }
                ||| {
                    &&& old(self).system_queue().len() > 0
                    &&& r == Polled::Ready(old(self).system_queue()[0])
                    &&& final(self).system_queue() == old(self).system_queue().drop_first()
                    &&& final(self).user_queue() == old(self).user_queue()
                }
            },
    {
        let take_user = if self.user.len() == 0 {
            false
        } else if self.system.len() == 0 {
            true
        } else {
            self.user_first
        };
        if take_user {
            self.user_first = false;
            match self.user.pop_front() {
                Some(msg) => Polled::Ready(ComponentMessage::Update(msg)),
                None => Polled::Pending,
            }
        } else {
            self.user_first = true;
            match self.system.pop_front() {
                Some(event) => Polled::Ready(event),
                None => if self.open {
                    Polled::Pending
                } else {
                    Polled::Exhausted
                },
            }
        }
    }
}

} // verus!
