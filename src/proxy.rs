use crate::action::Action;
use std::sync::mpsc::{Receiver, SyncSender, TryRecvError, TrySendError};
use vstd::prelude::*;

verus! {

/// How many actions the channel holds, and how many one pass takes out.
pub const MAX_SIZE: usize = 100;

#[verifier::external_type_specification]
#[verifier::external_body]
#[verifier::reject_recursive_types(T)]
pub struct ExSyncSender<T>(SyncSender<T>);

#[verifier::external_type_specification]
#[verifier::external_body]
#[verifier::reject_recursive_types(T)]
pub struct ExReceiver<T>(Receiver<T>);

/// Why an action was not sent; the action comes back.
#[derive(Debug)]
pub enum SendError<T> {
    /// The channel holds `MAX_SIZE` actions already: retry once some are taken.
    Full(T),
    /// The receiving side is gone.
    Disconnected(T),
}

/// What one attempt to take an action out of the channel found.
#[derive(Debug)]
pub enum Received<T> {
    Item(T),
    Empty,
    Closed,
}

/// Relies on `std::sync::mpsc::sync_channel`: a channel that holds at most
/// `bound` values.
#[verifier::external_body]
fn sync_channel<T>(bound: usize) -> (r: (SyncSender<T>, Receiver<T>)) {
    std::sync::mpsc::sync_channel(bound)
}

/// Relies on `SyncSender::try_send`: it never blocks, and a value that is
/// refused comes back unchanged.
#[verifier::external_body]
fn try_send<T>(sender: &SyncSender<T>, value: T) -> (r: Result<(), SendError<T>>)
    ensures
        r matches Err(SendError::Full(v)) ==> v == value,
        r matches Err(SendError::Disconnected(v)) ==> v == value,
{
    match sender.try_send(value) {
        Ok(()) => Ok(()),
        Err(TrySendError::Full(v)) => Err(SendError::Full(v)),
        Err(TrySendError::Disconnected(v)) => Err(SendError::Disconnected(v)),
    }
}

/// Relies on `Receiver::try_recv`: it never blocks.
#[verifier::external_body]
fn try_recv<T>(receiver: &Receiver<T>) -> (r: Received<T>) {
    match receiver.try_recv() {
        Ok(v) => Received::Item(v),
        Err(TryRecvError::Empty) => Received::Empty,
        Err(TryRecvError::Disconnected) => Received::Closed,
    }
}

/// Relies on `Clone` for `SyncSender`: another sender into the same channel.
#[verifier::external_body]
fn clone_sender<T>(sender: &SyncSender<T>) -> (r: SyncSender<T>) {
    sender.clone()
}

/// The sending side of the action channel; tasks on any thread hold clones.
#[derive(Debug)]
#[verifier::reject_recursive_types(T)]
pub struct ProxySink<T> {
    sender: SyncSender<Action<T>>,
}

impl<T> Clone for ProxySink<T> {
    fn clone(&self) -> Self {
        ProxySink { sender: clone_sender(&self.sender) }
    }
}

impl<T> ProxySink<T> {
    /// Hands `action` to the event loop without blocking. While the channel
    /// holds `MAX_SIZE` actions it is refused as `Full`, and the caller retries
    /// after the loop has taken some.
    pub fn try_send(&self, action: Action<T>) -> (r: Result<(), SendError<Action<T>>>)
        ensures
            r matches Err(SendError::Full(a)) ==> a == action,
            r matches Err(SendError::Disconnected(a)) ==> a == action,
    {
        try_send(&self.sender, action)
    }
}

/// The receiving side of the action channel, and whether the end of the
/// channel was already reported.
#[derive(Debug)]
#[verifier::reject_recursive_types(T)]
pub struct ProxySourceInner<T> {
    receiver: Receiver<Action<T>>,
    closed: bool,
}

/// The receiving side of the action channel, as the event loop polls it.
#[derive(Debug)]
#[verifier::reject_recursive_types(T)]
pub struct ProxySource<T>(ProxySourceInner<T>);

/// What the event loop does with the source after a pass.
#[derive(Clone, Copy, Debug, PartialEq, Eq, Structural)]
pub enum PostAction {
    /// Keep polling it.
    Continue,
    /// Unregister it: every sender is gone.
    Remove,
}

/// The outcome of one pass over the channel.
#[verifier::reject_recursive_types(T)]
pub struct Drained<T> {
    /// The actions taken, in the order they were sent.
    pub actions: Vec<Action<T>>,
    pub post: PostAction,
    /// Whether the wake signal must be raised again, because the pass stopped
    /// at its bound with actions possibly left.
    pub rearm: bool,
}

/// A new action channel: a sender, and the source that the event loop polls.
pub fn new<T>() -> (r: (ProxySink<T>, ProxySource<T>))
    ensures
        !r.1.is_closed(),
{
    let (sender, receiver) = sync_channel(MAX_SIZE);
    (ProxySink { sender }, ProxySource(ProxySourceInner { receiver, closed: false }))
}

impl<T> ProxySource<T> {
    /// Whether the end of the channel was already reported.
    pub closed spec fn is_closed(&self) -> bool {
        self.0.closed
    }

    /// Takes the outcome `received` of one attempt into a pass that has
    /// collected `acc` so far. An action is kept, and a pass that reaches
    /// `MAX_SIZE` actions ends with the wake signal to be raised again. An
    /// empty channel ends the pass. A closed channel adds one `Exit`, marks
    /// the end of the channel as reported and ends the pass with the source
    /// to be removed. Returns, when the pass ends, what to do with the source
    /// and whether to raise the wake signal again.
    pub fn take(&mut self, acc: &mut Vec<Action<T>>, received: Received<Action<T>>) -> (done: Option<(PostAction, bool)>)
        requires
            !old(self).is_closed(),
            old(acc)@.len() < MAX_SIZE,
        ensures
            match received {
                Received::Item(a) => {
                    &&& final(acc)@ == old(acc)@.push(a)
                    &&& !final(self).is_closed()
                    &&& done == (if final(acc)@.len() == MAX_SIZE {
                        Some((PostAction::Continue, true))
                    } else {
                        None
                    })
                },
                Received::Empty => {
                    &&& final(acc)@ == old(acc)@
                    &&& !final(self).is_closed()
                    &&& done == Some((PostAction::Continue, false))
                },
                Received::Closed => {
                    &&& final(acc)@ == old(acc)@.push(Action::Exit)
                    &&& final(self).is_closed()
                    &&& done == Some((PostAction::Remove, false))
                },
            },
    {
        match received {
            Received::Item(a) => {
                acc.push(a);
                if acc.len() == MAX_SIZE {
                    Some((PostAction::Continue, true))
                } else {
                    None
                }
            },
            Received::Empty => Some((PostAction::Continue, false)),
            Received::Closed => {
                acc.push(Action::Exit);
                self.0.closed = true;
                Some((PostAction::Remove, false))
            },
        }
    }

    /// One pass over the channel: each attempt to take an action goes through
    /// `take`, until it ends the pass. So at most `MAX_SIZE` actions come out,
    /// in the order they were sent; when every sender is gone one `Exit` ends
    /// the pass after them and the source asks to be removed, and later passes
    /// take nothing; the wake signal is raised again exactly when the pass
    /// stopped at its bound.
    pub fn process_events(&mut self) -> (r: Drained<T>)
        ensures
            r.actions@.len() <= MAX_SIZE,
            old(self).is_closed() ==> r.actions@.len() == 0 && r.post is Remove && !r.rearm && final(self).is_closed(),
            final(self).is_closed() <==> r.post is Remove,
            !old(self).is_closed() && r.post is Remove ==> r.actions@.len() > 0 && r.actions@.last() is Exit,
            !old(self).is_closed() ==> (r.rearm <==> r.post is Continue && r.actions@.len() == MAX_SIZE),
    {
        let mut actions: Vec<Action<T>> = Vec::new();
        if self.0.closed {
            return Drained { actions, post: PostAction::Remove, rearm: false };
        }
        loop
            invariant
                !self.0.closed,
                !old(self).0.closed,
                actions@.len() < MAX_SIZE,
            decreases MAX_SIZE - actions@.len(),
        {
            let received = try_recv(&self.0.receiver);
            match self.take(&mut actions, received) {
                Some((post, rearm)) => {
                    return Drained { actions, post, rearm };
                },
                None => {},
            }
        }
    }
}

} // verus!
