//! The admission state of a reader/writer file lock.
use vstd::prelude::*;

verus! {

/// The shared state of a reader/writer lock: the number of readers that hold
/// access and whether a writer holds it.
#[derive(Clone, Copy, Debug, PartialEq, Eq, Structural)]
pub struct LockState {
    pub reader_count: usize,
    pub writing: bool,
}

/// One request made of the admission state: a reader or a writer asking to be
/// let in, or giving its access back.
#[derive(Clone, Copy, Debug, PartialEq, Eq, Structural)]
pub enum Event {
    AdmitReader,
    AdmitWriter,
    ReleaseReader,
    ReleaseWriter,
}

impl LockState {
    /// A writer excludes every reader.
    pub open spec fn wf(self) -> bool {
        self.writing ==> self.reader_count == 0
    }

    /// No reader and no writer holds access.
    pub open spec fn is_idle(self) -> bool {
        self.reader_count == 0 && !self.writing
    }

    /// A reader may be let in: no writer is active, and the count has room
    /// for one more reader.
    pub open spec fn admits_reader(self) -> bool {
        !self.writing && self.reader_count < usize::MAX
    }

    /// A writer may be let in: nobody holds access.
    pub open spec fn admits_writer(self) -> bool {
        self.is_idle()
    }

    pub open spec fn with_reader(self) -> LockState {
        LockState { reader_count: (self.reader_count + 1) as usize, writing: self.writing }
    }

    pub open spec fn without_reader(self) -> LockState {
        LockState { reader_count: (self.reader_count - 1) as usize, writing: self.writing }
    }

    pub open spec fn with_writer(self) -> LockState {
        LockState { reader_count: self.reader_count, writing: true }
    }

    pub open spec fn without_writer(self) -> LockState {
        LockState { reader_count: self.reader_count, writing: false }
    }

    /// The state after `e`: a request to be let in that the state does not
    /// admit, or a release with nothing to give back, leaves it unchanged.
    pub open spec fn step(self, e: Event) -> LockState {
        match e {
            Event::AdmitReader => if self.admits_reader() { self.with_reader() } else { self },
            Event::AdmitWriter => if self.admits_writer() { self.with_writer() } else { self },
            Event::ReleaseReader => if self.reader_count > 0 { self.without_reader() } else { self },
            Event::ReleaseWriter => if self.writing { self.without_writer() } else { self },
        }
    }

    /// The state after the requests of `events`, in order.
    pub open spec fn run(self, events: Seq<Event>) -> LockState
        decreases events.len(),
    {
        if events.len() == 0 {
            self
        } else {
            self.run(events.drop_last()).step(events.last())
        }
    }

    /// The state after `n` more readers are let in.
    pub open spec fn with_readers(self, n: nat) -> LockState
        decreases n,
    {
        if n == 0 {
            self
        } else {
            self.with_readers((n - 1) as nat).with_reader()
        }
    }

    /// The state after `n` readers give their access back.
    pub open spec fn without_readers(self, n: nat) -> LockState
        decreases n,
    {
        if n == 0 {
            self
        } else {
            self.without_readers((n - 1) as nat).without_reader()
        }
    }

    /// The state of a lock that nobody holds.
    pub fn idle() -> (s: LockState)
        ensures
            s.is_idle(),
            s.wf(),
    {
        LockState { reader_count: 0, writing: false }
    }

    /// Lets a reader in when the state admits one; otherwise leaves the state
    /// as it was.
    pub fn try_admit_reader(&mut self) -> (granted: bool)
        requires
            old(self).wf(),
        ensures
            granted == old(self).admits_reader(),
            granted ==> *final(self) == old(self).with_reader(),
            !granted ==> *final(self) == *old(self),
            final(self).wf(),
    {
        if !self.writing && self.reader_count < usize::MAX {
            self.reader_count = self.reader_count + 1;
            true
        } else {
            false
        }
    }

    /// Lets a writer in when the state admits one; otherwise leaves the state
    /// as it was.
    pub fn try_admit_writer(&mut self) -> (granted: bool)
        requires
            old(self).wf(),
        ensures
            granted == old(self).admits_writer(),
            granted ==> *final(self) == old(self).with_writer(),
            !granted ==> *final(self) == *old(self),
            final(self).wf(),
    {
        if !self.writing && self.reader_count == 0 {
            self.writing = true;
            true
        } else {
            false
        }
    }

    /// Gives back the access of one reader that was let in.
    pub fn release_reader(&mut self)
        requires
            old(self).wf(),
            old(self).reader_count > 0,
        ensures
            *final(self) == old(self).without_reader(),
            final(self).wf(),
    {
        self.reader_count = self.reader_count - 1;
    }

    /// Gives back the access of the writer that was let in.
    pub fn release_writer(&mut self)
        requires
            old(self).wf(),
            old(self).writing,
        ensures
            *final(self) == old(self).without_writer(),
            final(self).is_idle(),
    {
        self.writing = false;
    }
}

/// Whatever requests are made, in whatever order, a writer never holds access
/// together with a reader: every state reached from a well-formed one is
/// well formed, so at every moment `writing` implies no reader and a reader
/// implies no writing.
pub proof fn lemma_mutual_exclusion(s: LockState, events: Seq<Event>)
    requires
        s.wf(),
    ensures
        s.run(events).wf(),
        s.run(events).writing ==> s.run(events).reader_count == 0,
        s.run(events).reader_count > 0 ==> !s.run(events).writing,
    decreases events.len(),
{
    if events.len() > 0 {
        lemma_mutual_exclusion(s, events.drop_last());
    }
}

/// Each access that was granted is given back once: when `n` readers are let
/// in and the same `n` give their access back, the state is what it was, and
/// from an idle lock no further release is owed.
pub proof fn lemma_release_once(s: LockState, n: nat)
    requires
        s.wf(),
        !s.writing,
        s.reader_count + n <= usize::MAX,
    ensures
        s.with_readers(n).wf(),
        s.with_readers(n).reader_count == s.reader_count + n,
        s.with_readers(n).without_readers(n) == s,
        s.is_idle() ==> s.with_readers(n).without_readers(n).reader_count == 0,
    decreases n,
{
    if n > 0 {
        let m = (n - 1) as nat;
        lemma_release_once(s, m);
        lemma_release_once(s.with_reader(), m);
        lemma_readers_commute(s, m);
    }
}

/// Letting a reader in before or after `n` others gives the same state.
proof fn lemma_readers_commute(s: LockState, n: nat)
    requires
        !s.writing,
        s.reader_count + n + 1 <= usize::MAX,
    ensures
        s.with_readers(n).with_reader() == s.with_reader().with_readers(n),
        s.with_reader().with_readers(n).reader_count == s.reader_count + n + 1,
        !s.with_readers(n).writing,
    decreases n,
{
    if n > 0 {
        lemma_readers_commute(s, (n - 1) as nat);
    }
}

/// A grant taken back at once, as when opening the file fails after the
/// reservation, leaves the state exactly as it was before the request.
pub proof fn lemma_rollback(s: LockState)
    requires
        s.wf(),
    ensures
        s.admits_reader() ==> s.step(Event::AdmitReader).step(Event::ReleaseReader) == s,
        s.admits_writer() ==> s.step(Event::AdmitWriter).step(Event::ReleaseWriter) == s,
{
}

/// While a reader holds access no writer is let in, so no write that starts
/// after a read was admitted can overlap it.
pub proof fn lemma_reader_excludes_writer(s: LockState)
    requires
        s.wf(),
        s.reader_count > 0,
    ensures
        !s.admits_writer(),
        s.step(Event::AdmitWriter) == s,
{
}

} // verus!
