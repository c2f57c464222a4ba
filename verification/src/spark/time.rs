//! Points in time.
use vstd::prelude::*;

verus! {

pub const NANOS_PER_SEC: u32 = 1_000_000_000;

/// A point in time: whole seconds since the Unix epoch, negative before it,
/// and the nanoseconds past them.
#[derive(Clone, Copy, Debug, PartialEq, Eq, Structural)]
pub struct SystemTime {
    secs: i64,
    nanos: u32,
}

impl SystemTime {
    #[verifier::type_invariant]
    closed spec fn inv(self) -> bool {
        self.nanos < NANOS_PER_SEC
    }

    pub closed spec fn spec_secs(self) -> int {
        self.secs as int
    }

    pub closed spec fn spec_nanos(self) -> int {
        self.nanos as int
    }

    /// The seconds and nanoseconds of every point in time are in range.
    pub proof fn secs_fit(self)
        ensures
            i64::MIN <= self.spec_secs() <= i64::MAX,
            0 <= self.spec_nanos() <= u32::MAX,
    {
    }

    pub fn new(secs: i64, nanos: u32) -> (res: Option<SystemTime>)
        ensures
            match res {
                Some(t) => t.spec_secs() == secs && t.spec_nanos() == nanos,
                None => nanos >= NANOS_PER_SEC,
            },
    {
        if nanos < NANOS_PER_SEC {
            Some(SystemTime { secs, nanos })
        } else {
            None
        }
    }

    pub fn is_before_epoch(&self) -> (res: bool)
        ensures
            res == (self.spec_secs() < 0),
    {
        self.secs < 0
    }

    /// The whole seconds since the Unix epoch, zero before it.
    pub fn secs_since_epoch(&self) -> (res: u64)
        ensures
            res == if self.spec_secs() < 0 {
                0
            } else {
                self.spec_secs()
            },
            res <= i64::MAX,
    {
        if self.secs < 0 {
            0
        } else {
            self.secs as u64
        }
    }

    /// The nanoseconds past the whole seconds since the Unix epoch, zero before
    /// it.
    pub fn nanos_since_epoch(&self) -> (res: u32)
        ensures
            res == if self.spec_secs() < 0 {
                0
            } else {
                self.spec_nanos()
            },
            res < NANOS_PER_SEC,
    {
        proof {
            use_type_invariant(&*self);
        }
        if self.secs < 0 {
            0
        } else {
            self.nanos
        }
    }

    /// The Unix epoch plus `secs` seconds and `nanos` nanoseconds, where that
    /// can be represented.
    pub fn after_epoch(secs: u64, nanos: u64) -> (res: Option<SystemTime>)
        ensures
            match res {
                Some(t) => {
                    &&& t.spec_secs() == secs + nanos / 1_000_000_000
                    &&& t.spec_secs() <= i64::MAX
                    &&& t.spec_nanos() == nanos % 1_000_000_000
                },
                None => secs + nanos / 1_000_000_000 > i64::MAX,
            },
    {
        let carry: u64 = nanos / 1_000_000_000;
        if secs > i64::MAX as u64 || carry > i64::MAX as u64 - secs {
            None
        } else {
            Some(SystemTime { secs: (secs + carry) as i64, nanos: (nanos % 1_000_000_000) as u32 })
        }
    }
}

} // verus!
