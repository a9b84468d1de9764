//! The device registry boundary.
//!
//! At module load each device implementation is bound to a minor number;
//! at unload every binding is torn down. Minor numbers are unique and
//! bounded by a count fixed per device kind. Registration of several minors
//! is all or nothing: when one fails, those already taken are released and
//! the load aborts. The kernel-side file-table wiring stays outside; this
//! module holds the bookkeeping those rules are about.

use vstd::prelude::*;

use crate::errors::DeviceError;

verus! {

/// Minor-number bookkeeping for one device kind. Minors are handed out
/// consecutively from zero, so the ones in use are exactly `0 .. registered`.
pub struct DeviceRegistry {
    limit: usize,
    next_minor: usize,
}

impl DeviceRegistry {
    /// How many minors this registry may hand out.
    pub closed spec fn limit(&self) -> nat {
        self.limit as nat
    }

    /// How many minors are currently registered.
    pub closed spec fn registered(&self) -> nat {
        self.next_minor as nat
    }

    /// Whether minor number `minor` is currently bound.
    pub open spec fn minor_registered(&self, minor: nat) -> bool {
        minor < self.registered()
    }

    /// Never more minors than the fixed count.
    pub open spec fn wf(&self) -> bool {
        self.registered() <= self.limit()
    }

    /// An empty registry for a device kind with `limit` minors.
    pub fn new(limit: usize) -> (reg: DeviceRegistry)
        ensures
            reg.wf(),
            reg.limit() == limit as nat,
            reg.registered() == 0,
    {
        DeviceRegistry { limit, next_minor: 0 }
    }

    /// Binds one more minor. The minor returned is fresh — it was not bound
    /// before the call and is bound after it — and every earlier binding is
    /// kept. Fails exactly when the fixed count is exhausted, leaving the
    /// registry unchanged.
    pub fn register(&mut self) -> (result: Result<usize, DeviceError>)
        requires
            old(self).wf(),
        ensures
            final(self).wf(),
            final(self).limit() == old(self).limit(),
            old(self).registered() < old(self).limit() ==> {
                &&& result == Ok::<usize, DeviceError>(old(self).registered() as usize)
                &&& final(self).registered() == old(self).registered() + 1
            },
            old(self).registered() >= old(self).limit() ==> {
                &&& result == Err::<usize, DeviceError>(DeviceError::RegistrationFailure)
                &&& final(self).registered() == old(self).registered()
            },
            forall|m: nat| old(self).minor_registered(m) ==> final(self).minor_registered(m),
    {
        if self.next_minor < self.limit {
            let minor = self.next_minor;
            self.next_minor = self.next_minor + 1;
            Ok(minor)
        } else {
            Err(DeviceError::RegistrationFailure)
        }
    }

    /// Tears every binding down, as module unload does. Safe whatever the
    /// registry holds, a partially failed load included.
    pub fn unregister_all(&mut self)
        ensures
            final(self).registered() == 0,
            final(self).limit() == old(self).limit(),
            final(self).wf(),
    {
        self.next_minor = 0;
    }

    /// Module load for one device kind: binds `wanted` minors, all or
    /// nothing. On success the new minors are exactly the next `wanted`
    /// numbers; when the fixed count cannot hold them, every minor taken by
    /// this call is released again and the registry is as it was.
    pub fn register_all(&mut self, wanted: usize) -> (result: Result<(), DeviceError>)
        requires
            old(self).wf(),
        ensures
            final(self).wf(),
            final(self).limit() == old(self).limit(),
            old(self).registered() + wanted <= old(self).limit() ==> {
                &&& result == Ok::<(), DeviceError>(())
                &&& final(self).registered() == old(self).registered() + wanted
            },
            old(self).registered() + wanted > old(self).limit() ==> {
                &&& result == Err::<(), DeviceError>(DeviceError::RegistrationFailure)
                &&& final(self).registered() == old(self).registered()
            },
    {
        let start = self.next_minor;
        let mut taken: usize = 0;
        while taken < wanted
            invariant
                self.wf(),
                self.limit() == old(self).limit(),
                start as nat == old(self).registered(),
                taken <= wanted,
                self.registered() == start as nat + taken as nat,
            decreases wanted - taken,
        {
            match self.register() {
                Ok(_) => {
                    taken = taken + 1;
                }
                Err(_) => {
                    self.next_minor = start;
                    return Err(DeviceError::RegistrationFailure);
                }
            }
        }
        Ok(())
    }
}

} // verus!
