//! An event that threads can wait for: a flag that is set, cleared, and wakes its waiters when
//! set.
use vstd::prelude::*;

verus! {

/// Identifier of a thread.
pub type ThreadId = u8;

/// The state of an event: set, or unset with the threads blocked waiting for it.
pub enum LockState {
    Unlocked,
    Locked(Vec<ThreadId>),
}

/// An event, used to notify threads that something has happened.
///
/// The event holds a flag that `set` sets and `clear` resets; `wait` blocks the calling thread
/// until the flag is set. The flag is unset initially.
///
/// The blocking and waking of threads is up to the scheduler: `wait` says whether the caller
/// must block, and `set` returns the threads to wake.
pub struct Event {
    state: LockState,
}

impl Event {
    /// Whether the event is set.
    pub closed spec fn spec_is_set(&self) -> bool {
        self.state is Unlocked
    }

    /// The threads blocked on the event, in the order they started waiting.
    pub closed spec fn waiters(&self) -> Seq<ThreadId> {
        match self.state {
            LockState::Unlocked => Seq::empty(),
            LockState::Locked(w) => w@,
        }
    }

    /// A set event has no waiters.
    pub proof fn law_set_event_has_no_waiters(&self)
        ensures
            self.spec_is_set() ==> self.waiters() == Seq::<ThreadId>::empty(),
    {
    }

    /// Creates a new unset event.
    pub fn new() -> (r: Self)
        ensures
            !r.spec_is_set(),
            r.waiters() == Seq::<ThreadId>::empty(),
    {
        Self { state: LockState::Locked(Vec::new()) }
    }

    /// Creates a new set event.
    pub fn new_set() -> (r: Self)
        ensures
            r.spec_is_set(),
            r.waiters() == Seq::<ThreadId>::empty(),
    {
        Self { state: LockState::Unlocked }
    }

    /// Returns whether the event is set.
    pub fn is_set(&self) -> (r: bool)
        ensures
            r == self.spec_is_set(),
    {
        match &self.state {
            LockState::Unlocked => true,
            LockState::Locked(_) => false,
        }
    }

    /// Waits for the event to be set: when it is set, returns `false` at once; otherwise the
    /// thread `current` joins the waiters, and `true` tells that it must block until woken.
    pub fn wait(&mut self, current: ThreadId) -> (blocked: bool)
        ensures
            blocked == !old(self).spec_is_set(),
            final(self).spec_is_set() == old(self).spec_is_set(),
            final(self).waiters() == if blocked {
                old(self).waiters().push(current)
            } else {
                old(self).waiters()
            },
    {
        match &mut self.state {
            LockState::Unlocked => false,
            LockState::Locked(waiters) => {
                waiters.push(current);
                true
            },
        }
    }

    /// Clears the event: returns `true` if it was set (it is now unset), `false` if it was
    /// already unset (then nothing changes).
    pub fn clear(&mut self) -> (r: bool)
        ensures
            r == old(self).spec_is_set(),
            !final(self).spec_is_set(),
            final(self).waiters() == old(self).waiters(),
    {
        match &self.state {
            LockState::Unlocked => {
                self.state = LockState::Locked(Vec::new());
                true
            },
            LockState::Locked(_) => false,
        }
    }

    /// Sets the event and returns the threads to wake: all the waiters, in order (none if the
    /// event was already set).
    pub fn set(&mut self) -> (woken: Vec<ThreadId>)
        ensures
            final(self).spec_is_set(),
            woken@ == old(self).waiters(),
    {
        let mut previous = LockState::Unlocked;
        core::mem::swap(&mut previous, &mut self.state);
        match previous {
            LockState::Unlocked => Vec::new(),
            LockState::Locked(waiters) => waiters,
        }
    }
}

impl Default for Event {
    /// An unset event.
    fn default() -> (r: Self)
        ensures
            !r.spec_is_set(),
            r.waiters() == Seq::<ThreadId>::empty(),
    {
        Self::new()
    }
}

} // verus!
