use vstd::prelude::*;
use vstd::slice::SliceAdditionalExecFns;

use crate::error::{check_result, OsError};

verus! {

/// A set of readiness flags, held as the kernel's bit field.
#[derive(Clone, Copy, PartialEq, Eq, Structural, PartialOrd, Ord, Hash, Debug)]
pub struct Events {
    pub bits: u32,
}

impl Events {
    /// The set with no flag.
    pub fn empty() -> (r: Events)
        ensures
            r.bits == 0,
    {
        Events { bits: 0 }
    }

    /// The set whose bit field is `bits`.
    pub fn from_bits(bits: u32) -> (r: Events)
        ensures
            r.bits == bits,
    {
        Events { bits }
    }

    /// The bit field of the set.
    pub fn bits(&self) -> (r: u32)
        ensures
            r == self.bits,
    {
        self.bits
    }

    /// The flags in either set.
    pub fn union(self, rhs: Events) -> (r: Events)
        ensures
            r.bits == self.bits | rhs.bits,
    {
        Events { bits: self.bits | rhs.bits }
    }

    /// The flags in both sets.
    pub fn intersection(self, rhs: Events) -> (r: Events)
        ensures
            r.bits == self.bits & rhs.bits,
    {
        Events { bits: self.bits & rhs.bits }
    }
}

impl core::ops::BitAnd for Events {
    type Output = Events;

    fn bitand(self, rhs: Events) -> (r: Events) {
        self.intersection(rhs)
    }
}

impl vstd::std_specs::ops::BitAndSpecImpl for Events {
    open spec fn obeys_bitand_spec() -> bool {
        true
    }

    open spec fn bitand_req(self, rhs: Events) -> bool {
        true
    }

    open spec fn bitand_spec(self, rhs: Events) -> Events {
        Events { bits: self.bits & rhs.bits }
    }
}

impl core::ops::BitOr for Events {
    type Output = Events;

    fn bitor(self, rhs: Events) -> (r: Events) {
        self.union(rhs)
    }
}

impl vstd::std_specs::ops::BitOrSpecImpl for Events {
    open spec fn obeys_bitor_spec() -> bool {
        true
    }

    open spec fn bitor_req(self, rhs: Events) -> bool {
        true
    }

    open spec fn bitor_spec(self, rhs: Events) -> Events {
        Events { bits: self.bits | rhs.bits }
    }
}

/// Sets the edge-triggered behaviour for the associated file descriptor.
///
/// The default behaviour of epoll is level-triggered.
pub const EPOLLET: u32 = 0x8000_0000;

/// The associated file is available for read operations.
pub const EPOLLIN: u32 = 0x1;

/// An error condition happened on the associated file descriptor.
///
/// `wait` always reports this event; it need not be set in the interest set.
pub const EPOLLERR: u32 = 0x8;

/// A hang-up happened on the associated file descriptor.
///
/// `wait` always reports this event; it need not be set in the interest set.
/// When reading from a pipe or a stream socket it only means that the peer
/// closed its end: reads return end of file once the buffered data is consumed.
pub const EPOLLHUP: u32 = 0x10;

/// The associated file is available for write operations.
pub const EPOLLOUT: u32 = 0x4;

/// There is urgent data available for read operations.
pub const EPOLLPRI: u32 = 0x2;

/// A stream socket peer closed the connection or shut down its writing half.
pub const EPOLLRDHUP: u32 = 0x2000;

/// Keeps the system from suspending while the event is pending or being
/// processed (needs `CAP_BLOCK_SUSPEND`, and neither `EPOLLONESHOT` nor `EPOLLET`).
pub const EPOLLWAKEUP: u32 = 0x2000_0000;

/// One-shot behaviour: after one event is delivered by `wait` the descriptor
/// is disabled until it is re-armed with a modify operation.
pub const EPOLLONESHOT: u32 = 0x4000_0000;

/// Exclusive wake-up mode. It may be given only when a descriptor is added;
/// a modify operation that names it, or that targets a descriptor added with
/// it, fails with an invalid-argument error. It is never reported by `wait`.
pub const EPOLLEXCLUSIVE: u32 = 0x1000_0000;

/// One record of the kernel's event list: the flags and the caller's 64-bit tag.
#[derive(Clone, Copy, Debug)]
pub struct Event {
    events: u32,
    data: u64,
}

impl Event {
    /// The flags of the record, as a set.
    pub closed spec fn events_spec(&self) -> u32 {
        self.events
    }

    /// The caller's tag.
    pub closed spec fn data_spec(&self) -> u64 {
        self.data
    }

    /// A record with the given flags and tag.
    pub fn new(events: Events, data: u64) -> (r: Event)
        ensures
            r.events_spec() == events.bits,
            r.data_spec() == data,
    {
        Event { events: events.bits(), data }
    }

    /// The flags of the record.
    pub fn events(&self) -> (r: Events)
        ensures
            r.bits == self.events_spec(),
    {
        Events::from_bits(self.events)
    }

    /// The flags of the record, as the raw bit field.
    pub fn raw_events(&self) -> (r: u32)
        ensures
            r == self.events_spec(),
    {
        self.events
    }

    /// The caller's tag, unchanged.
    pub fn raw_data(&self) -> (r: u64)
        ensures
            r == self.data_spec(),
    {
        self.data
    }
}

impl Default for Event {
    fn default() -> (r: Event)
        ensures
            r.events_spec() == 0,
            r.data_spec() == 0,
    {
        Event::new(Events::empty(), 0)
    }
}

/// The change that a control call makes to the interest list.
#[allow(non_camel_case_types)]
#[derive(Clone, Copy, PartialEq, Eq, Structural, Debug)]
pub enum Control {
    /// Adds a descriptor to the interest list.
    EPOLL_CTL_ADD,
    /// Changes the flags and tag of a descriptor already in the list.
    EPOLL_CTL_MOD,
    /// Removes a descriptor from the list.
    EPOLL_CTL_DEL,
}

impl Control {
    /// The operation number the kernel expects.
    pub open spec fn code_spec(self) -> i32 {
        match self {
            Control::EPOLL_CTL_ADD => 1,
            Control::EPOLL_CTL_DEL => 2,
            Control::EPOLL_CTL_MOD => 3,
        }
    }

    /// The operation number the kernel expects.
    pub fn code(self) -> (r: i32)
        ensures
            r == self.code_spec(),
    {
        match self {
            Control::EPOLL_CTL_ADD => 1,
            Control::EPOLL_CTL_DEL => 2,
            Control::EPOLL_CTL_MOD => 3,
        }
    }
}

/// The creation flag that closes the handle when the process image is replaced.
pub const EPOLL_CLOEXEC: i32 = 0x80000;

/// The handle state of one epoll instance: an open descriptor, or -1 once
/// it has been released.
pub struct Epoll {
    epfd: i32,
}

/// `after` is the state that releasing `before` leaves, and `closed` the
/// descriptor that the release hands out to be closed.
pub open spec fn release_step(before: Epoll, after: Epoll, closed: Option<i32>) -> bool {
    if before.is_open_spec() {
        closed == Some(before.fd_spec()) && after.fd_spec() == -1
    } else {
        closed is None && after == before
    }
}

impl Epoll {
    /// The descriptor held, or -1 once released.
    pub closed spec fn fd_spec(&self) -> i32 {
        self.epfd
    }

    /// The handle still holds a descriptor.
    pub open spec fn is_open_spec(&self) -> bool {
        self.fd_spec() >= 0
    }

    /// The flags to create an instance with.
    pub fn create_flags(cloexec: bool) -> (r: i32)
        ensures
            r == (if cloexec { EPOLL_CLOEXEC } else { 0i32 }),
    {
        if cloexec {
            EPOLL_CLOEXEC
        } else {
            0
        }
    }

    /// The handle that a creation call returned, or the error it reported.
    pub fn from_create(ret: i32, errno: i32) -> (r: Result<Epoll, OsError>)
        ensures
            r is Ok <==> ret >= 0,
            r matches Ok(e) ==> e.fd_spec() == ret && e.is_open_spec(),
            r matches Err(e) ==> e.code == errno,
    {
        match check_result(ret, errno) {
            Ok(fd) => Ok(Epoll { epfd: fd }),
            Err(e) => Err(e),
        }
    }

    /// The descriptor held, or -1 once released.
    pub fn as_raw_fd(&self) -> (r: i32)
        ensures
            r == self.fd_spec(),
    {
        self.epfd
    }

    /// Whether the handle still holds a descriptor.
    pub fn is_open(&self) -> (r: bool)
        ensures
            r == self.is_open_spec(),
    {
        self.epfd >= 0
    }

    /// Gives up the descriptor: the first call hands it out to be closed and
    /// marks the handle released; later calls hand out nothing.
    pub fn release(&mut self) -> (r: Option<i32>)
        ensures
            release_step(*old(self), *final(self), r),
    {
        if self.epfd >= 0 {
            let fd = self.epfd;
            self.epfd = -1;
            Some(fd)
        } else {
            None
        }
    }

    /// The result of a control call that returned `ret`.
    pub fn ctl_outcome(ret: i32, errno: i32) -> (r: Result<(), OsError>)
        ensures
            r is Ok <==> ret >= 0,
            r matches Err(e) ==> e.code == errno,
    {
        match check_result(ret, errno) {
            Ok(_) => Ok(()),
            Err(e) => Err(e),
        }
    }

    /// The timeout handed to the kernel: any value below -1 becomes -1,
    /// which blocks until an event comes; 0 polls without blocking.
    pub fn wait_timeout(timeout: i32) -> (r: i32)
        ensures
            r == (if timeout < -1 { -1i32 } else { timeout }),
    {
        if timeout < -1 {
            -1
        } else {
            timeout
        }
    }

    /// The number of slots handed to the kernel for a buffer of `len` records.
    pub fn max_events(len: usize) -> (r: i32)
        ensures
            r as int == (if len > i32::MAX { i32::MAX as int } else { len as int }),
    {
        if len > i32::MAX as usize {
            i32::MAX
        } else {
            len as i32
        }
    }

    /// Copies the first `n` ready records into the first `n` slots of `buf`
    /// and leaves the other slots as they were.
    pub fn deliver(buf: &mut [Event], ready: &[Event], n: usize)
        requires
            n <= old(buf)@.len(),
            n <= ready@.len(),
        ensures
            delivered(old(buf)@, ready@, n as int, final(buf)@),
    {
        let mut i: usize = 0;
        while i < n
            invariant
                i <= n,
                n <= buf@.len(),
                n <= ready@.len(),
                delivered(old(buf)@, ready@, i as int, buf@),
            decreases n - i,
        {
            buf.set(i, ready[i]);
            i = i + 1;
        }
    }

    /// The number of ready records that a wait call returned, or its error.
    pub fn wait_outcome(ret: i32, errno: i32) -> (r: Result<usize, OsError>)
        ensures
            r is Ok <==> ret >= 0,
            r matches Ok(n) ==> n == ret,
            r matches Err(e) ==> e.code == errno,
    {
        match check_result(ret, errno) {
            Ok(n) => Ok(n as usize),
            Err(e) => Err(e),
        }
    }
}

/// `after` is the buffer `before` once its first `n` slots hold the first `n`
/// ready records and the remaining slots are left as they were.
pub open spec fn delivered(before: Seq<Event>, ready: Seq<Event>, n: int, after: Seq<Event>) -> bool {
    &&& after.len() == before.len()
    &&& forall|i: int| 0 <= i < n ==> after[i] == ready[i]
    &&& forall|i: int| n <= i < before.len() ==> after[i] == before[i]
}

/// A wait that reports no ready record leaves every slot of the buffer as it was.
pub proof fn lemma_nothing_ready_keeps_buffer(before: Seq<Event>, ready: Seq<Event>, after: Seq<Event>)
    requires
        delivered(before, ready, 0, after),
    ensures
        after == before,
{
    assert(after =~= before);
}

/// Releasing a handle twice hands out its descriptor at most once: the
/// second release hands out nothing, so no reused descriptor number is closed,
/// and the handle holds -1 from the first release on.
pub proof fn lemma_release_twice(e0: Epoll, e1: Epoll, e2: Epoll, r1: Option<i32>, r2: Option<i32>)
    requires
        release_step(e0, e1, r1),
        release_step(e1, e2, r2),
    ensures
        r2 is None,
        r1 is Some ==> r1 == Some(e0.fd_spec()),
        e0.is_open_spec() ==> e1.fd_spec() == -1 && e2.fd_spec() == -1,
        !e2.is_open_spec(),
{
}

/// Union and intersection are commutative and associative; the empty set
/// absorbs under intersection and is neutral under union.
pub proof fn lemma_set_algebra(x: Events, y: Events, z: Events)
    ensures
        (x.bits | y.bits) == (y.bits | x.bits),
        (x.bits & y.bits) == (y.bits & x.bits),
        ((x.bits | y.bits) | z.bits) == (x.bits | (y.bits | z.bits)),
        ((x.bits & y.bits) & z.bits) == (x.bits & (y.bits & z.bits)),
        (x.bits & 0u32) == 0u32,
        (x.bits | 0u32) == x.bits,
{
    let (a, b, c) = (x.bits, y.bits, z.bits);
    assert((a | b) == (b | a)) by (bit_vector);
    assert((a & b) == (b & a)) by (bit_vector);
    assert(((a | b) | c) == (a | (b | c))) by (bit_vector);
    assert(((a & b) & c) == (a & (b & c))) by (bit_vector);
    assert((a & 0u32) == 0u32) by (bit_vector);
    assert((a | 0u32) == a) by (bit_vector);
}

} // verus!
