use crate::error::TimeoutIteratorError;
use vstd::prelude::*;

verus! {

/// The outcome of one pull from an underlying source.
#[derive(Debug)]
pub enum Pulled<T> {
    /// The source produced an item.
    Item(T),
    /// The wait elapsed before the source produced anything.
    TimedOut,
    /// The source has ended and will produce nothing more.
    Disconnected,
}

/// The outcome that a `next`-like result stands for.
pub open spec fn outcome_of<T>(r: Result<T, TimeoutIteratorError>) -> Pulled<T> {
    match r {
        Ok(x) => Pulled::Item(x),
        Err(TimeoutIteratorError::TimedOut) => Pulled::TimedOut,
        Err(_) => Pulled::Disconnected,
    }
}

/// The outcome that a result of the unbounded `next` stands for.
pub open spec fn outcome_of_option<T>(r: Option<T>) -> Pulled<T> {
    match r {
        Some(x) => Pulled::Item(x),
        None => Pulled::Disconnected,
    }
}

/// The outcome that a `peek`-like result stands for.
pub open spec fn shown_by<T>(r: Result<&T, TimeoutIteratorError>) -> Pulled<T> {
    match r {
        Ok(v) => Pulled::Item(*v),
        Err(TimeoutIteratorError::TimedOut) => Pulled::TimedOut,
        Err(_) => Pulled::Disconnected,
    }
}

/// The outcome that a result of the unbounded `peek` stands for.
pub open spec fn shown_by_option<T>(r: Option<&T>) -> Pulled<T> {
    match r {
        Some(v) => Pulled::Item(*v),
        None => Pulled::Disconnected,
    }
}

impl<T> Pulled<T> {
    /// The result that a bounded `next` reports for this outcome.
    pub fn into_result(self) -> (r: Result<T, TimeoutIteratorError>)
        ensures
            outcome_of(r) == self,
            !(r matches Err(TimeoutIteratorError::ErrorSpawningThread(_))),
    {
        match self {
            Pulled::Item(x) => Ok(x),
            Pulled::TimedOut => Err(TimeoutIteratorError::TimedOut),
            Pulled::Disconnected => Err(TimeoutIteratorError::Disconnected),
        }
    }
}

/// What can be known of an adapter: the items taken from its source so far,
/// in the order the source produced them, how many of those were handed out
/// by `next`-like operations, and whether the source has reported its end.
pub ghost struct Progress<T> {
    pub taken: Seq<T>,
    pub handed: nat,
    pub ended: bool,
}

impl<T> Progress<T> {
    /// A fresh adapter: nothing taken, nothing handed out, source not ended.
    pub open spec fn start() -> Progress<T> {
        Progress { taken: Seq::empty(), handed: 0, ended: false }
    }

    /// At most one item is held back, and none once the source has ended.
    pub open spec fn valid(self) -> bool {
        &&& self.handed <= self.taken.len() <= self.handed + 1
        &&& self.ended ==> self.taken.len() == self.handed
    }

    /// The item taken from the source but not handed out yet, if any.
    pub open spec fn pending(self) -> Option<T> {
        if self.handed < self.taken.len() {
            Some(self.taken[self.handed as int])
        } else {
            None
        }
    }

    /// The next operation has to pull from the source.
    pub open spec fn must_pull(self) -> bool {
        self.pending() is None && !self.ended
    }
}

/// What a `next`-like operation does: it hands out the pending item without
/// touching the source; otherwise, unless the source has ended, it pulls once
/// and hands out what came, records the end, or changes nothing on a timeout.
pub open spec fn advances<T>(pre: Progress<T>, post: Progress<T>, out: Pulled<T>) -> bool {
    match pre.pending() {
        Some(x) => out == Pulled::Item(x) && post == Progress {
            handed: pre.handed + 1,
            ..pre
        },
        None => if pre.ended {
            out is Disconnected && post == pre
        } else {
            match out {
                Pulled::Item(x) => post == Progress {
                    taken: pre.taken.push(x),
                    handed: pre.handed + 1,
                    ended: false,
                },
                Pulled::TimedOut => post == pre,
                Pulled::Disconnected => post == Progress { ended: true, ..pre },
            }
        },
    }
}

/// What a `peek`-like operation does: it shows the pending item without
/// touching the source; otherwise, unless the source has ended, it pulls once
/// and keeps what came as the pending item, records the end, or changes
/// nothing on a timeout.
pub open spec fn looks<T>(pre: Progress<T>, post: Progress<T>, out: Pulled<T>) -> bool {
    match pre.pending() {
        Some(x) => out == Pulled::Item(x) && post == pre,
        None => if pre.ended {
            out is Disconnected && post == pre
        } else {
            match out {
                Pulled::Item(x) => post == Progress { taken: pre.taken.push(x), ..pre },
                Pulled::TimedOut => post == pre,
                Pulled::Disconnected => post == Progress { ended: true, ..pre },
            }
        },
    }
}

/// A one-item lookahead slot over a source that the owner pulls from.
///
/// The owner asks `must_pull` before each operation; when it holds, the owner
/// pulls once and hands the outcome to `accept_next` or `accept_peek`, and
/// otherwise calls `take_pending` or reads `pending`.
pub struct Lookahead<T> {
    slot: Option<T>,
    ended: bool,
    taken: Ghost<Seq<T>>,
    handed: Ghost<nat>,
}

impl<T> Lookahead<T> {
    pub closed spec fn progress(&self) -> Progress<T> {
        Progress { taken: self.taken@, handed: self.handed@, ended: self.ended }
    }

    pub closed spec fn wf(&self) -> bool {
        &&& self.progress().valid()
        &&& self.slot == self.progress().pending()
    }

    /// A well-formed slot holds back at most one item, and none once the
    /// source has ended.
    pub proof fn lemma_valid(&self)
        requires
            self.wf(),
        ensures
            self.progress().valid(),
    {
    }

    pub fn new() -> (r: Lookahead<T>)
        ensures
            r.wf(),
            r.progress() == Progress::<T>::start(),
    {
        Lookahead { slot: None, ended: false, taken: Ghost(Seq::empty()), handed: Ghost(0) }
    }

    /// Whether nothing is pending and the source has not ended.
    pub fn must_pull(&self) -> (r: bool)
        requires
            self.wf(),
        ensures
            r == self.progress().must_pull(),
    {
        self.slot.is_none() && !self.ended
    }

    /// Whether the source has reported its end.
    pub fn has_ended(&self) -> (r: bool)
        ensures
            r == self.progress().ended,
    {
        self.ended
    }

    /// The pending item, if any.
    pub fn pending(&self) -> (r: Option<&T>)
        requires
            self.wf(),
        ensures
            match r {
                Some(v) => self.progress().pending() == Some(*v),
                None => self.progress().pending() is None,
            },
    {
        self.slot.as_ref()
    }

    /// The result that a bounded `peek` reports once any pull it made has
    /// been accepted: the pending item, else the end of the source, else a
    /// timeout, as nothing came.
    pub fn shown(&self) -> (r: Result<&T, TimeoutIteratorError>)
        requires
            self.wf(),
        ensures
            match r {
                Ok(v) => self.progress().pending() == Some(*v),
                Err(TimeoutIteratorError::TimedOut) => self.progress().must_pull(),
                Err(TimeoutIteratorError::Disconnected) => self.progress().pending() is None
                    && self.progress().ended,
                Err(TimeoutIteratorError::ErrorSpawningThread(_)) => false,
            },
    {
        match self.slot.as_ref() {
            Some(v) => Ok(v),
            None => if self.ended {
                Err(TimeoutIteratorError::Disconnected)
            } else {
                Err(TimeoutIteratorError::TimedOut)
            },
        }
    }

    /// A `next`-like operation that needs no pull: hands out the pending
    /// item, or reports the end of the source.
    pub fn take_pending(&mut self) -> (out: Pulled<T>)
        requires
            old(self).wf(),
            !old(self).progress().must_pull(),
        ensures
            final(self).wf(),
            advances(old(self).progress(), final(self).progress(), out),
    {
        match self.slot.take() {
            Some(x) => {
                self.handed = Ghost(self.handed@ + 1);
                Pulled::Item(x)
            },
            None => Pulled::Disconnected,
        }
    }

    /// A `next`-like operation that pulled once: hands out what came.
    pub fn accept_next(&mut self, pulled: Pulled<T>) -> (out: Pulled<T>)
        requires
            old(self).wf(),
            old(self).progress().must_pull(),
        ensures
            final(self).wf(),
            advances(old(self).progress(), final(self).progress(), out),
            out == pulled,
    {
        match pulled {
            Pulled::Item(x) => {
                self.taken = Ghost(self.taken@.push(x));
                self.handed = Ghost(self.handed@ + 1);
                Pulled::Item(x)
            },
            Pulled::TimedOut => Pulled::TimedOut,
            Pulled::Disconnected => {
                self.ended = true;
                Pulled::Disconnected
            },
        }
    }

    /// A `peek`-like operation that pulled once: keeps what came as the
    /// pending item.
    pub fn accept_peek(&mut self, pulled: Pulled<T>)
        requires
            old(self).wf(),
            old(self).progress().must_pull(),
        ensures
            final(self).wf(),
            looks(old(self).progress(), final(self).progress(), pulled),
    {
        match pulled {
            Pulled::Item(x) => {
                self.taken = Ghost(self.taken@.push(x));
                self.slot = Some(x);
            },
            Pulled::TimedOut => {},
            Pulled::Disconnected => {
                self.ended = true;
            },
        }
    }
}

} // verus!
