//! Wake locks: a named resource acquired from the power layer and released
//! by explicit call or when its owner lets go of it.
//!
//! The acquire and release calls themselves are stateless one-shot native
//! calls performed by the shell; what stands here is the promotion of an
//! acquire outcome into an owned lock value and the release discipline:
//! release is idempotent — safe to call any number of times from the
//! owner, and the shell's scope-exit release after a manual one is
//! harmless by the same rule.

use vstd::prelude::*;
use vstd::string::StringSliceAdditionalSpecFns;

verus! {

/// The two kinds of wake locks supported.
#[derive(Clone, Copy, Debug, PartialEq, Eq, Structural)]
pub enum WakelockLevel {
    /// The cpu stays on, but the screen is off.
    Partial,
    /// The cpu and the screen stay on.
    Full,
}

/// The native code of a wake lock level.
pub open spec fn wakelock_level_code(level: WakelockLevel) -> i32 {
    match level {
        WakelockLevel::Partial => 1,
        WakelockLevel::Full => 2,
    }
}

impl WakelockLevel {
    /// The level as the native acquire call takes it.
    pub fn native_code(&self) -> (r: i32)
        ensures
            r == wakelock_level_code(*self),
    {
        match self {
            WakelockLevel::Partial => 1,
            WakelockLevel::Full => 2,
        }
    }
}

/// A wake lock that can be manually released, or that the owning shell
/// releases when the value goes out of scope.
#[derive(Debug)]
pub struct Wakelock {
    name: String,
    level: WakelockLevel,
    held: bool,
}

impl Wakelock {
    /// The lock's name, as it identifies the lock to the power layer.
    pub closed spec fn name(self) -> Seq<char> {
        self.name@
    }

    /// The lock's level.
    pub closed spec fn level(self) -> WakelockLevel {
        self.level
    }

    /// Whether the lock is still held.
    pub closed spec fn is_held(self) -> bool {
        self.held
    }

    /// Promotes a successful native acquire into an owned lock: the zero
    /// status yields the lock, any other status yields `None`.  The name
    /// must be expressible in the native string convention — a name with
    /// an embedded terminator byte is a caller mistake the shell treats as
    /// fatal before any acquire is attempted.
    pub fn new(name: &str, level: WakelockLevel, acquire_status: i32) -> (r: Option<Wakelock>)
        requires
            !name.spec_bytes().contains(0u8),
        ensures
            r is Some <==> acquire_status == 0,
            r matches Some(w) ==> w.is_held() && w.name() == name@ && w.level() == level,
    {
        if acquire_status == 0 {
            Some(Wakelock { name: name.to_owned(), level, held: true })
        } else {
            None
        }
    }

    /// Releases the wake lock.  Idempotent: whatever state the lock was
    /// in, afterwards it is not held, and releasing again changes
    /// nothing.
    pub fn release(&mut self)
        ensures
            !final(self).is_held(),
            final(self).name() == old(self).name(),
            final(self).level() == old(self).level(),
    {
        self.held = false;
    }

    /// The lock's name.
    pub fn name_str(&self) -> (r: &String)
        ensures
            r@ == self.name(),
    {
        &self.name
    }

    /// Whether the lock is still held.
    pub fn holds(&self) -> (r: bool)
        ensures
            r == self.is_held(),
    {
        self.held
    }
}

} // verus!
