use vstd::prelude::*;

use crate::error::{check_result, OsError};

verus! {

/// The number of descriptors a set can hold: 0 up to, not including, this.
pub const FD_SETSIZE: usize = 1024;

/// The number of 64-bit words that hold the set's bits.
pub const FD_WORDS: usize = 16;

/// Bit `b` of `w`.
pub open spec fn bit_of(w: u64, b: u64) -> bool {
    (w >> b) & 1u64 == 1u64
}

/// Setting bit `b` keeps every other bit and sets `b`.
proof fn lemma_set_bit(w: u64, b: u64, c: u64)
    requires
        b < 64,
        c < 64,
    ensures
        bit_of(w | (1u64 << b), c) == (c == b || bit_of(w, c)),
{
    assert(((w | (1u64 << b)) >> c) & 1u64 == 1u64 <==> (c == b || (w >> c) & 1u64 == 1u64))
        by (bit_vector)
        requires
            b < 64,
            c < 64,
    ;
}

/// The zero word has no bit set.
proof fn lemma_zero_word(c: u64)
    requires
        c < 64,
    ensures
        !bit_of(0u64, c),
{
    assert((0u64 >> c) & 1u64 != 1u64) by (bit_vector);
}

/// A set of descriptors, as the bit array that `select` reads and writes.
#[derive(Clone, Debug)]
pub struct FdSet {
    words: Vec<u64>,
}

impl FdSet {
    /// The set holds the right number of words.
    pub closed spec fn wf(&self) -> bool {
        self.words@.len() == FD_WORDS
    }

    /// Descriptor `fd` is in the set.
    pub closed spec fn contains_spec(&self, fd: int) -> bool {
        0 <= fd < FD_SETSIZE && bit_of(self.words@[fd / 64], (fd % 64) as u64)
    }

    /// The empty set.
    pub fn new() -> (r: FdSet)
        ensures
            r.wf(),
            forall|fd: int| !#[trigger] r.contains_spec(fd),
    {
        let mut words: Vec<u64> = Vec::new();
        let mut i: usize = 0;
        while i < FD_WORDS
            invariant
                i <= FD_WORDS,
                words@.len() == i,
                forall|j: int| 0 <= j < i ==> words@[j] == 0u64,
            decreases FD_WORDS - i,
        {
            words.push(0);
            i = i + 1;
        }
        let r = FdSet { words };
        assert forall|fd: int| !#[trigger] r.contains_spec(fd) by {
            if 0 <= fd < FD_SETSIZE {
                lemma_zero_word((fd % 64) as u64);
            }
        }
        r
    }

    /// Whether descriptor `fd` is in the set.
    pub fn contains(&self, fd: i32) -> (r: bool)
        requires
            self.wf(),
        ensures
            r == self.contains_spec(fd as int),
    {
        if fd < 0 || fd as usize >= FD_SETSIZE {
            return false;
        }
        let w = self.words[fd as usize / 64];
        let b = (fd as usize % 64) as u64;
        (w >> b) & 1 == 1
    }

    /// Adds descriptor `fd`, which must lie below `FD_SETSIZE`.
    pub fn insert(&mut self, fd: i32)
        requires
            old(self).wf(),
            0 <= fd < FD_SETSIZE,
        ensures
            final(self).wf(),
            final(self).contains_spec(fd as int),
            forall|g: int| g != fd ==> #[trigger] final(self).contains_spec(g) == old(self).contains_spec(g),
    {
        let i = fd as usize / 64;
        let b = (fd as usize % 64) as u64;
        let w = self.words[i];
        self.words.set(i, w | (1u64 << b));
        proof {
            assert forall|g: int| #[trigger] self.contains_spec(g) == (g == fd || old(self).contains_spec(g)) by {
                if 0 <= g < FD_SETSIZE && g / 64 == i {
                    lemma_set_bit(w, b, (g % 64) as u64);
                }
            }
        }
    }
}

impl Default for FdSet {
    fn default() -> (r: FdSet)
        ensures
            r.wf(),
            forall|fd: int| !#[trigger] r.contains_spec(fd),
    {
        FdSet::new()
    }
}

/// The seconds and microseconds of a `select` timeout, or `None` where the
/// seconds do not fit the kernel's signed field.
pub fn timeval_parts(secs: u64, subsec_micros: u32) -> (r: Option<(i64, i64)>)
    ensures
        r is Some <==> secs <= i64::MAX,
        r matches Some(p) ==> p.0 == secs && p.1 == subsec_micros,
{
    if secs > i64::MAX as u64 {
        None
    } else {
        Some((secs as i64, subsec_micros as i64))
    }
}

/// The result of a `select` call that returned `ret`: `None` when it timed
/// out with nothing ready, `Some(())` when a descriptor is ready.
pub fn select_outcome(ret: i32, errno: i32) -> (r: Result<Option<()>, OsError>)
    ensures
        r is Err <==> ret < 0,
        r matches Err(e) ==> e.code == errno,
        r == Ok::<Option<()>, OsError>(None) <==> ret == 0,
        r == Ok::<Option<()>, OsError>(Some(())) <==> ret > 0,
{
    match check_result(ret, errno) {
        Err(e) => Err(e),
        Ok(0) => Ok(None),
        Ok(_) => Ok(Some(())),
    }
}

} // verus!
