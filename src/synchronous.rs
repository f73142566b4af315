use crate::channel::{receive, receive_within};
use crate::error::TimeoutIteratorError;
use crate::lookahead::{
    advances, looks, outcome_of, outcome_of_option, shown_by, shown_by_option, Lookahead, Progress,
    Pulled,
};
use std::sync::mpsc::Receiver;
use std::time::Duration;
use vstd::prelude::*;

verus! {

/// An adapter over the receiving end of a queue, with bounded waits and a
/// one-item lookahead.
#[verifier::reject_recursive_types(T)]
pub struct TimeoutIterator<T> {
    source: Receiver<T>,
    ahead: Lookahead<T>,
}

impl<T> TimeoutIterator<T> {
    pub closed spec fn progress(&self) -> Progress<T> {
        self.ahead.progress()
    }

    pub closed spec fn wf(&self) -> bool {
        self.ahead.wf()
    }

    /// A well-formed adapter holds back at most one item, and none once its
    /// source has ended.
    pub proof fn lemma_valid(&self)
        requires
            self.wf(),
        ensures
            self.progress().valid(),
    {
        self.ahead.lemma_valid();
    }

    /// An adapter that reads from `source`, with nothing taken from it yet.
    pub fn with_receiver(source: Receiver<T>) -> (r: TimeoutIterator<T>)
        ensures
            r.wf(),
            r.progress() == Progress::<T>::start(),
    {
        TimeoutIterator { source, ahead: Lookahead::new() }
    }

    /// An adapter over the queue that a background relay fills, once the
    /// attempt to start that relay has given `spawned`: the spawner's error
    /// is reported and no adapter is made.
    pub fn from_relay(spawned: Result<(), std::io::Error>, source: Receiver<T>) -> (r: Result<
        TimeoutIterator<T>,
        TimeoutIteratorError,
    >)
        ensures
            match spawned {
                Ok(()) => r matches Ok(it) && it.wf() && it.progress() == Progress::<T>::start(),
                Err(e) => r == Err::<TimeoutIterator<T>, _>(
                    TimeoutIteratorError::ErrorSpawningThread(e),
                ),
            },
    {
        match spawned {
            Ok(()) => Ok(TimeoutIterator::with_receiver(source)),
            Err(e) => Err(TimeoutIteratorError::from(e)),
        }
    }

    /// Waits at most `timeout` for the next item and hands it out.
    pub fn next_timeout(&mut self, timeout: Duration) -> (r: Result<T, TimeoutIteratorError>)
        requires
            old(self).wf(),
        ensures
            final(self).wf(),
            advances(old(self).progress(), final(self).progress(), outcome_of(r)),
            !(r matches Err(TimeoutIteratorError::ErrorSpawningThread(_))),
    {
        proof {
            self.ahead.lemma_valid();
        }
        let out = if self.ahead.must_pull() {
            let pulled = receive_within(&self.source, timeout);
            self.ahead.accept_next(pulled)
        } else {
            self.ahead.take_pending()
        };
        out.into_result()
    }

    /// Waits at most `timeout` for the next item and shows it without
    /// handing it out.
    pub fn peek_timeout(&mut self, timeout: Duration) -> (r: Result<&T, TimeoutIteratorError>)
        requires
            old(self).wf(),
        ensures
            final(self).wf(),
            looks(old(self).progress(), final(self).progress(), shown_by(r)),
            !(r matches Err(TimeoutIteratorError::ErrorSpawningThread(_))),
    {
        proof {
            self.ahead.lemma_valid();
        }
        if self.ahead.must_pull() {
            let pulled = receive_within(&self.source, timeout);
            self.ahead.accept_peek(pulled);
        }
        self.ahead.shown()
    }

    /// Waits for the next item, however long it takes, and shows it without
    /// handing it out; `None` once the source has ended.
    pub fn peek(&mut self) -> (r: Option<&T>)
        requires
            old(self).wf(),
        ensures
            final(self).wf(),
            looks(old(self).progress(), final(self).progress(), shown_by_option(r)),
    {
        proof {
            self.ahead.lemma_valid();
        }
        if self.ahead.must_pull() {
            let pulled = receive(&self.source);
            self.ahead.accept_peek(pulled);
        }
        self.ahead.pending()
    }

    /// Waits for the next item, however long it takes, and hands it out;
    /// `None` once the source has ended.
    pub fn next(&mut self) -> (r: Option<T>)
        requires
            old(self).wf(),
        ensures
            final(self).wf(),
            advances(old(self).progress(), final(self).progress(), outcome_of_option(r)),
    {
        proof {
            self.ahead.lemma_valid();
        }
        let out = if self.ahead.must_pull() {
            let pulled = receive(&self.source);
            self.ahead.accept_next(pulled)
        } else {
            self.ahead.take_pending()
        };
        match out {
            Pulled::Item(x) => Some(x),
            _ => None,
        }
    }
}

} // verus!
