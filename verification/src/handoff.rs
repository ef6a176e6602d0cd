//! The memory-handoff protocol: how variable-length results cross the
//! boundary without leaking or double-freeing.
//!
//! Two call shapes exist.  Blocking variants write into a *caller-supplied*
//! buffer: the bridge writes output only if it fits, updates the length to
//! the actual size, and otherwise reports insufficient capacity — it never
//! truncates silently.  Non-blocking variants deliver through a callback, so
//! the caller cannot pre-size a buffer: the bridge allocates, hands over a
//! (token, length) pair, and the caller must later release that exact pair,
//! exactly once.
//!
//! `BufferLedger` is the model of the bridge-allocated side: it tracks every
//! buffer handed across the boundary and accepts a release only for an exact
//! live pair, so the round-trip and double-free properties can be stated and
//! proved over it.

use vstd::prelude::*;

use crate::codes::{CODE_INVALID_PARAM, CODE_OK};

verus! {

/// A caller-supplied output buffer: storage of a fixed capacity that the
/// bridge may fill with one result.
pub struct CallerBuffer {
    data: Vec<u8>,
    capacity: usize,
}

impl CallerBuffer {
    /// The bytes currently written.
    pub closed spec fn contents(self) -> Seq<u8> {
        self.data@
    }

    /// The capacity the caller declared.
    pub closed spec fn cap(self) -> nat {
        self.capacity as nat
    }

    /// The buffer never holds more than its capacity.
    pub open spec fn wf(self) -> bool {
        self.contents().len() <= self.cap()
    }

    /// An empty buffer of the given capacity.
    pub fn new(capacity: usize) -> (b: CallerBuffer)
        ensures
            b.wf(),
            b.cap() == capacity,
            b.contents() == Seq::<u8>::empty(),
    {
        CallerBuffer { data: Vec::new(), capacity }
    }

    /// Write one result if it fits.  On success the buffer holds exactly the
    /// payload and its actual length; if the payload is larger than the
    /// declared capacity, nothing is written and the caller gets the
    /// invalid-parameter code — output is never truncated silently.
    pub fn write(&mut self, payload: &[u8]) -> (code: i32)
        requires
            old(self).wf(),
        ensures
            final(self).wf(),
            final(self).cap() == old(self).cap(),
            payload@.len() <= old(self).cap() ==> code == CODE_OK && final(self).contents()
                == payload@,
            payload@.len() > old(self).cap() ==> code == CODE_INVALID_PARAM
                && final(self).contents() == old(self).contents(),
    {
        if payload.len() > self.capacity {
            CODE_INVALID_PARAM
        } else {
            self.data.clear();
            self.data.extend_from_slice(payload);
            proof {
                assert(self.data@ =~= payload@);
            }
            CODE_OK
        }
    }

    /// The number of bytes written so far (the "actual length" reported back
    /// to the caller).
    pub fn len(&self) -> (n: usize)
        ensures
            n == self.contents().len(),
    {
        self.data.len()
    }

    /// Read back the written bytes.
    pub fn as_bytes(&self) -> (s: &[u8])
        ensures
            s@ == self.contents(),
    {
        self.data.as_slice()
    }
}

/// One buffer currently on loan across the boundary: the token standing for
/// its address, and its exact length.
#[derive(Clone, Copy, Debug, PartialEq, Eq, Structural)]
pub struct LoanedBuffer {
    pub token: u64,
    pub len: usize,
}

/// The position of `token` among the live loans, or `-1` if absent.
pub open spec fn token_index(live: Seq<LoanedBuffer>, token: u64) -> int
    decreases live.len(),
{
    if live.len() == 0 {
        -1
    } else if live[0].token == token {
        0
    } else {
        let r = token_index(live.drop_first(), token);
        if r == -1 {
            -1
        } else {
            r + 1
        }
    }
}

/// `token_index` finds exactly the first occurrence, and `-1` exactly when
/// the token is not live.
pub proof fn lemma_token_index(live: Seq<LoanedBuffer>, token: u64)
    ensures
        token_index(live, token) == -1 <==> (forall|i: int|
            0 <= i < live.len() ==> (#[trigger] live[i]).token != token),
        token_index(live, token) != -1 ==> {
            let k = token_index(live, token);
            &&& 0 <= k < live.len()
            &&& live[k].token == token
            &&& forall|i: int| 0 <= i < k ==> (#[trigger] live[i]).token != token
        },
    decreases live.len(),
{
    if live.len() == 0 || live[0].token == token {
        // Immediate from the definition.
    } else {
        let d = live.drop_first();
        lemma_token_index(d, token);
        let r = token_index(d, token);
        if r == -1 {
            assert forall|i: int| 0 <= i < live.len() implies (#[trigger] live[i]).token
                != token by {
                if i > 0 {
                    assert(live[i] == d[i - 1]);
                }
            }
        } else {
            let k = token_index(live, token);
            assert(k == r + 1);
            assert(live[k] == d[r]);
            assert forall|i: int| 0 <= i < k implies (#[trigger] live[i]).token != token by {
                if i > 0 {
                    assert(live[i] == d[i - 1]);
                }
            }
        }
    }
}

/// The ledger of every bridge-allocated buffer currently on loan across the
/// boundary.
pub struct BufferLedger {
    next_token: u64,
    live: Vec<LoanedBuffer>,
}

impl BufferLedger {
    /// The live loans, oldest first.
    pub closed spec fn loans(self) -> Seq<LoanedBuffer> {
        self.live@
    }

    /// The next token to hand out.
    pub closed spec fn next(self) -> u64 {
        self.next_token
    }

    /// Tokens are unique among live loans and below the allocation counter.
    pub open spec fn wf(self) -> bool {
        &&& forall|i: int, j: int|
            0 <= i < j < self.loans().len() ==> (#[trigger] self.loans()[i]).token != (
            #[trigger] self.loans()[j]).token
        &&& forall|i: int|
            0 <= i < self.loans().len() ==> (#[trigger] self.loans()[i]).token < self.next()
    }

    /// A ledger with nothing on loan.
    pub fn new() -> (l: BufferLedger)
        ensures
            l.wf(),
            l.loans() == Seq::<LoanedBuffer>::empty(),
            l.next() == 0,
    {
        BufferLedger { next_token: 0, live: Vec::new() }
    }

    /// How many buffers are on loan (the tracked allocation count).
    pub fn outstanding(&self) -> (n: usize)
        ensures
            n == self.loans().len(),
    {
        self.live.len()
    }

    /// Hand one buffer of `len` bytes across the boundary.  The returned
    /// loan is fresh: its token was never used before, and the caller must
    /// later release exactly this (token, length) pair, exactly once.
    pub fn hand_out(&mut self, len: usize) -> (loan: LoanedBuffer)
        requires
            old(self).wf(),
            old(self).next() < u64::MAX,
        ensures
            final(self).wf(),
            loan.token == old(self).next(),
            loan.len == len,
            final(self).loans() == old(self).loans().push(loan),
            final(self).next() == old(self).next() + 1,
    {
        let loan = LoanedBuffer { token: self.next_token, len };
        self.live.push(loan);
        self.next_token = self.next_token + 1;
        proof {
            let s = self.loans();
            assert forall|i: int, j: int| 0 <= i < j < s.len() implies (#[trigger] s[i]).token != (
            #[trigger] s[j]).token by {
                if j < s.len() - 1 {
                    assert(s[i] == old(self).loans()[i]);
                    assert(s[j] == old(self).loans()[j]);
                } else {
                    assert(s[i] == old(self).loans()[i]);
                    assert(s[i].token < loan.token);
                }
            }
            assert forall|i: int| 0 <= i < s.len() implies (#[trigger] s[i]).token
                < self.next() by {
                if i < s.len() - 1 {
                    assert(s[i] == old(self).loans()[i]);
                }
            }
        }
        loan
    }

    /// Release one loan.  Succeeds exactly when the given (token, length)
    /// pair is live — the exact pair that was handed out — and removes it;
    /// any other pair (a foreign token, a mismatched length, or a pair
    /// already released) changes nothing and reports failure.
    pub fn release(&mut self, token: u64, len: usize) -> (ok: bool)
        requires
            old(self).wf(),
        ensures
            final(self).wf(),
            final(self).next() == old(self).next(),
            ok <==> exists|i: int|
                0 <= i < old(self).loans().len() && old(self).loans()[i] == (LoanedBuffer {
                    token,
                    len,
                }),
            ok ==> {
                let k = token_index(old(self).loans(), token);
                final(self).loans() == old(self).loans().remove(k)
            },
            !ok ==> final(self).loans() == old(self).loans(),
    {
        proof {
            lemma_token_index(self.loans(), token);
        }
        let n = self.live.len();
        let mut i: usize = 0;
        while i < n
            invariant
                *self == *old(self),
                old(self).wf(),
                n == self.live@.len(),
                0 <= i <= n,
                forall|j: int| 0 <= j < i ==> (#[trigger] self.loans()[j]).token != token,
            decreases n - i,
        {
            if self.live[i].token == token {
                proof {
                    lemma_token_index(self.loans(), token);
                    assert(token_index(self.loans(), token) == i);
                }
                if self.live[i].len == len {
                    proof {
                        let s = self.loans();
                        s.remove_ensures(i as int);
                        let r = s.remove(i as int);
                        assert forall|a: int, b: int| 0 <= a < b < r.len() implies (
                        #[trigger] r[a]).token != (#[trigger] r[b]).token by {
                            assert(r[a] == (if a < i { s[a] } else { s[a + 1] }));
                            assert(r[b] == (if b < i { s[b] } else { s[b + 1] }));
                        }
                        assert forall|a: int| 0 <= a < r.len() implies (#[trigger] r[a]).token
                            < self.next() by {
                            assert(r[a] == (if a < i { s[a] } else { s[a + 1] }));
                        }
                    }
                    self.live.remove(i);
                    return true;
                } else {
                    // The token is live but the length does not match the
                    // loan: this is not the exact pair that was handed out.
                    proof {
                        assert forall|k: int|
                            0 <= k < self.loans().len() implies self.loans()[k] != (LoanedBuffer {
                            token,
                            len,
                        }) by {
                            if self.loans()[k].token == token && k != i {
                                assert(self.loans()[k].token != self.loans()[i as int].token);
                            }
                        }
                    }
                    return false;
                }
            }
            i = i + 1;
        }
        false
    }
}

/// Round trip: releasing the exact pair that was just handed out succeeds
/// and returns the ledger's loans to the baseline — nothing leaks, and the
/// release is accepted exactly once.
pub proof fn lemma_handoff_round_trip(l: BufferLedger, loan: LoanedBuffer, after: BufferLedger)
    requires
        l.wf(),
        loan.token == l.next(),
        after.loans() == l.loans().push(loan),
    ensures
        exists|i: int|
            0 <= i < after.loans().len() && after.loans()[i] == (LoanedBuffer {
                token: loan.token,
                len: loan.len,
            }),
        after.loans().remove(token_index(after.loans(), loan.token)) == l.loans(),
{
    let s = after.loans();
    lemma_token_index(s, loan.token);
    assert(s[s.len() - 1] == loan);
    assert(loan == (LoanedBuffer { token: loan.token, len: loan.len }));
    let k = token_index(s, loan.token);
    assert(k != -1);
    assert(s[k].token == loan.token);
    if k < s.len() - 1 {
        assert(s[k] == l.loans()[k]);
        assert(false);
    }
    assert(k == s.len() - 1);
    assert(s.remove(k) =~= l.loans());
}

/// No double free: once the exact pair has been released, releasing it again
/// is rejected, because its token is no longer among the live loans.
pub proof fn lemma_no_double_free(l: BufferLedger, loan: LoanedBuffer, after: BufferLedger)
    requires
        l.wf(),
        loan.token == l.next(),
        after.loans() == l.loans().push(loan).remove(
            token_index(l.loans().push(loan), loan.token),
        ),
    ensures
        forall|i: int|
            0 <= i < after.loans().len() ==> (#[trigger] after.loans()[i]) != (LoanedBuffer {
                token: loan.token,
                len: loan.len,
            }),
{
    let s = l.loans().push(loan);
    lemma_token_index(s, loan.token);
    let k = token_index(s, loan.token);
    assert(s[s.len() - 1] == loan);
    assert(k != -1);
    if k < s.len() - 1 {
        assert(s[k] == l.loans()[k]);
        assert(false);
    }
    assert(after.loans() =~= l.loans());
}

} // verus!
