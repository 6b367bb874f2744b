use vstd::prelude::*;

use crate::token::{commission_of, Token};

verus! {

/// Nanoseconds in one second: timestamps are counted in nanoseconds.
pub const TICKS_PER_SECOND: u64 = 1_000_000_000;

/// A 256-bit stream identifier, held as two halves.
#[derive(Clone, Copy, Debug, PartialEq, Eq, Structural, Hash)]
pub struct StreamId {
    pub hi: u128,
    pub lo: u128,
}

#[derive(Clone, Copy, Debug, PartialEq, Eq, Structural)]
pub enum StreamFinishReason {
    StoppedByOwner,
    StoppedByReceiver,
    FinishedNatually,
}

#[derive(Clone, Copy, Debug, PartialEq, Eq, Structural)]
pub enum StreamStatus {
    Initialized,
    Active,
    Paused,
    Finished { reason: StreamFinishReason },
}

impl StreamStatus {
    pub fn is_terminated(&self) -> (r: bool)
        ensures
            r == self is Finished,
    {
        match self {
            StreamStatus::Finished { .. } => true,
            _ => false,
        }
    }
}

#[derive(Debug)]
pub struct Stream {
    pub id: StreamId,
    pub description: Option<String>,
    pub owner_id: String,
    pub receiver_id: String,
    pub token_account_id: String,
    pub timestamp_created: u64,
    pub last_action: u64,
    pub balance: u128,
    pub tokens_per_sec: u128,
    pub status: StreamStatus,
    pub tokens_total_withdrawn: u128,
    pub is_expirable: bool,
}

/// A stored stream record, tagged by the version of its layout.
#[derive(Debug)]
pub enum VStream {
    Current(Stream),
}

impl From<VStream> for Stream {
    fn from(v: VStream) -> (r: Stream)
        ensures
            v == VStream::Current(r),
    {
        match v {
            VStream::Current(c) => c,
        }
    }
}

impl vstd::std_specs::convert::FromSpecImpl<VStream> for Stream {
    open spec fn obeys_from_spec() -> bool {
        true
    }

    open spec fn from_spec(v: VStream) -> Stream {
        match v {
            VStream::Current(c) => c,
        }
    }
}

impl From<Stream> for VStream {
    fn from(c: Stream) -> (r: VStream)
        ensures
            r == VStream::Current(c),
    {
        VStream::Current(c)
    }
}

impl vstd::std_specs::convert::FromSpecImpl<Stream> for VStream {
    open spec fn obeys_from_spec() -> bool {
        true
    }

    open spec fn from_spec(c: Stream) -> VStream {
        VStream::Current(c)
    }
}

/// Whole seconds between two timestamps, rounded down.
pub open spec fn elapsed_seconds(from: u64, to: u64) -> int {
    (to - from) / (TICKS_PER_SECOND as int)
}

pub open spec fn min(a: int, b: int) -> int {
    if a <= b {
        a
    } else {
        b
    }
}

/// What has accrued on `s` by time `now`: the whole seconds since the last
/// settlement times the rate, capped by the balance; nothing unless active.
pub open spec fn available(s: Stream, now: u64) -> int {
    if s.status == StreamStatus::Active {
        min(s.balance as int, elapsed_seconds(s.last_action, now) * s.tokens_per_sec)
    } else {
        0
    }
}

/// The stream after a settlement at `now`: what accrued moves from the
/// balance to the withdrawn total, and a stream left with nothing finishes.
pub open spec fn settled(s: Stream, now: u64) -> Stream {
    let gross = available(s, now);
    if s.balance > gross {
        Stream {
            balance: (s.balance - gross) as u128,
            tokens_total_withdrawn: (s.tokens_total_withdrawn + gross) as u128,
            last_action: now,
            ..s
        }
    } else {
        Stream {
            balance: 0,
            tokens_total_withdrawn: (s.tokens_total_withdrawn + gross) as u128,
            status: StreamStatus::Finished { reason: StreamFinishReason::FinishedNatually },
            last_action: now,
            ..s
        }
    }
}

impl Stream {
    /// Balance and withdrawn total together fit in 128 bits.
    pub open spec fn wf(&self) -> bool {
        self.balance + self.tokens_total_withdrawn <= u128::MAX
    }

    /// A new stream, created at `now` under the identifier `id`.
    pub fn new(
        id: StreamId,
        description: Option<String>,
        owner_id: String,
        receiver_id: String,
        token_account_id: String,
        initial_balance: u128,
        tokens_per_sec: u128,
        is_expirable: bool,
        now: u64,
    ) -> (r: Stream)
        ensures
            r.wf(),
            r.id == id,
            r.description == description,
            r.owner_id == owner_id,
            r.receiver_id == receiver_id,
            r.token_account_id == token_account_id,
            r.timestamp_created == now,
            r.last_action == now,
            r.balance == initial_balance,
            r.tokens_per_sec == tokens_per_sec,
            r.status == StreamStatus::Initialized,
            r.tokens_total_withdrawn == 0,
            r.is_expirable == is_expirable,
    {
        Stream {
            id,
            description,
            owner_id,
            receiver_id,
            token_account_id,
            timestamp_created: now,
            last_action: now,
            balance: initial_balance,
            tokens_per_sec,
            status: StreamStatus::Initialized,
            tokens_total_withdrawn: 0,
            is_expirable,
        }
    }

    /// The amount that a settlement at `now` would pay out.
    pub fn available_to_withdraw(&self, now: u64) -> (r: u128)
        requires
            self.last_action <= now,
        ensures
            r == available(*self, now),
            r <= self.balance,
            self.status != StreamStatus::Active ==> r == 0,
    {
        if self.status == StreamStatus::Active {
            let seconds = ((now - self.last_action) / TICKS_PER_SECOND) as u128;
            let rate = self.tokens_per_sec;
            if rate > 0 && seconds > self.balance / rate {
                proof {
                    lemma_past_cap(seconds as int, rate as int, self.balance as int);
                }
                self.balance
            } else {
                proof {
                    if rate > 0 {
                        lemma_under_cap(seconds as int, rate as int, self.balance as int);
                    }
                }
                seconds * rate
            }
        } else {
            0
        }
    }

    /// Settles what accrued by `now`, and returns the payment split into the
    /// part paid out and the fee kept.
    pub fn process_withdraw(&mut self, token: &Token, now: u64) -> (r: (u128, u128))
        requires
            old(self).wf(),
            old(self).last_action <= now,
            token.wf(),
        ensures
            *final(self) == settled(*old(self), now),
            final(self).wf(),
            final(self).balance + final(self).tokens_total_withdrawn
                == old(self).balance + old(self).tokens_total_withdrawn,
            final(self).tokens_total_withdrawn >= old(self).tokens_total_withdrawn,
            final(self).balance <= old(self).balance,
            r.1 == commission_of(*token, available(*old(self), now)),
            r.0 + r.1 == available(*old(self), now),
    {
        let gross_payment = self.available_to_withdraw(now);
        self.tokens_total_withdrawn = self.tokens_total_withdrawn + gross_payment;
        let (payment, commission) = token.apply_commission(gross_payment);
        if self.balance > gross_payment {
            self.balance = self.balance - gross_payment;
        } else {
            self.balance = 0;
            self.status = StreamStatus::Finished { reason: StreamFinishReason::FinishedNatually };
        }
        self.last_action = now;
        (payment, commission)
    }
}

/// A settlement moves what it pays from the balance to the withdrawn total:
/// their sum stays as it was and the withdrawn total does not shrink.
pub proof fn lemma_settle_conserves(s: Stream, now: u64)
    requires
        s.wf(),
        s.last_action <= now,
    ensures
        settled(s, now).balance + settled(s, now).tokens_total_withdrawn == s.balance
            + s.tokens_total_withdrawn,
        settled(s, now).tokens_total_withdrawn >= s.tokens_total_withdrawn,
        settled(s, now).balance <= s.balance,
{
    assert(elapsed_seconds(s.last_action, now) >= 0);
    assert(elapsed_seconds(s.last_action, now) * s.tokens_per_sec >= 0) by (nonlinear_arith)
        requires elapsed_seconds(s.last_action, now) >= 0, s.tokens_per_sec >= 0;
}

/// Settling twice at the same time: the second settlement finds nothing
/// accrued and leaves the stream as the first one left it.
pub proof fn lemma_settle_twice_same_time(s: Stream, now: u64)
    requires
        s.last_action <= now,
    ensures
        available(settled(s, now), now) == 0,
        settled(settled(s, now), now) == settled(s, now),
{
    let s1 = settled(s, now);
    assert(elapsed_seconds(now, now) == 0);
    assert(0 * s1.tokens_per_sec == 0);
    assert(available(s1, now) == 0);
}

/// Once what accrued covers the whole balance, the settlement finishes the
/// stream naturally with nothing left; any later settlement pays nothing and
/// leaves the balance at zero and the stream finished.
pub proof fn lemma_finishes_when_exhausted(s: Stream, now: u64, later: u64)
    requires
        s.last_action <= now <= later,
        available(s, now) >= s.balance,
    ensures
        settled(s, now).status == (StreamStatus::Finished {
            reason: StreamFinishReason::FinishedNatually,
        }),
        settled(s, now).balance == 0,
        available(settled(s, now), later) == 0,
        settled(settled(s, now), later).balance == 0,
        settled(settled(s, now), later).status == settled(s, now).status,
        settled(settled(s, now), later).tokens_total_withdrawn == settled(
            s,
            now,
        ).tokens_total_withdrawn,
{
    let s1 = settled(s, now);
    assert(available(s1, later) == 0);
}

proof fn lemma_past_cap(seconds: int, rate: int, balance: int)
    requires
        rate > 0,
        balance >= 0,
        seconds > balance / rate,
    ensures
        seconds * rate > balance,
{
    vstd::arithmetic::div_mod::lemma_fundamental_div_mod(balance, rate);
    let q = balance / rate;
    assert(balance % rate < rate) by {
        vstd::arithmetic::div_mod::lemma_mod_bound(balance, rate);
    }
    assert(seconds * rate >= (q + 1) * rate) by (nonlinear_arith)
        requires seconds >= q + 1, rate > 0;
    assert((q + 1) * rate == rate * q + rate) by (nonlinear_arith);
}

proof fn lemma_under_cap(seconds: int, rate: int, balance: int)
    requires
        rate > 0,
        balance >= 0,
        0 <= seconds <= balance / rate,
    ensures
        seconds * rate <= balance,
{
    vstd::arithmetic::div_mod::lemma_fundamental_div_mod(balance, rate);
    let q = balance / rate;
    assert(balance % rate >= 0) by {
        vstd::arithmetic::div_mod::lemma_mod_bound(balance, rate);
    }
    assert(seconds * rate <= q * rate) by (nonlinear_arith)
        requires seconds <= q, rate > 0;
    assert(q * rate == rate * q) by (nonlinear_arith);
}

} // verus!
