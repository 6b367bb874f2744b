use vstd::prelude::*;

use crate::account::Account;
use crate::action::{action_done, action_error};
use crate::stream::{Stream, StreamFinishReason, StreamId, StreamStatus, VStream};
use crate::token::Token;

verus! {

#[derive(Debug)]
pub enum ContractError {
    /// No stream is stored under this identifier.
    UnreachableStream { stream_id: StreamId },
    /// A bookkeeping invariant does not hold: the operation stops.
    DataCorruption,
    /// No fee policy is known for this token.
    UnknownToken { token_account_id: String },
}

#[derive(Clone, Copy, Debug, PartialEq, Eq, Structural)]
pub enum ActionType {
    Init,
    Start,
    Pause,
    Stop { reason: StreamFinishReason },
    Withdraw,
}

/// A transfer still to be made, once the state is committed.
#[derive(Debug)]
pub struct Transfer {
    pub token_account_id: String,
    pub receiver_id: String,
    pub amount: u128,
}

pub open spec fn is_transfer(t: Transfer, token: Seq<char>, to: Seq<char>, amount: int) -> bool {
    &&& t.token_account_id@ == token
    &&& t.receiver_id@ == to
    &&& t.amount == amount
}

/// The fee policies of the known tokens.
#[derive(Debug)]
pub struct Dao {
    pub tokens: Vec<Token>,
}

impl Dao {
    /// Every policy is well formed and no token has two.
    pub open spec fn wf(&self) -> bool {
        &&& forall|i: int| 0 <= i < self.tokens@.len() ==> (#[trigger] self.tokens@[i]).wf()
        &&& forall|i: int, j: int|
            0 <= i < j < self.tokens@.len() ==> (#[trigger] self.tokens@[i]).account_id@
                != (#[trigger] self.tokens@[j]).account_id@
    }

    pub open spec fn has_token(&self, t: Seq<char>) -> bool {
        exists|i: int| 0 <= i < self.tokens@.len() && (#[trigger] self.tokens@[i]).account_id@ == t
    }

    /// The policy of a known token.
    pub open spec fn policy(&self, t: Seq<char>) -> Token {
        self.tokens@[choose|i: int|
            0 <= i < self.tokens@.len() && (#[trigger] self.tokens@[i]).account_id@ == t]
    }

    pub fn get_token(&self, token_account_id: &String) -> (r: Result<&Token, ContractError>)
        requires
            self.wf(),
        ensures
            r is Ok <==> self.has_token(token_account_id@),
            r matches Ok(t) ==> *t == self.policy(token_account_id@) && t.wf(),
            r matches Err(e) ==> e == (ContractError::UnknownToken {
                token_account_id: *token_account_id,
            }),
    {
        let mut k: usize = 0;
        while k < self.tokens.len()
            invariant
                self.wf(),
                k <= self.tokens@.len(),
                forall|j: int|
                    0 <= j < k ==> (#[trigger] self.tokens@[j]).account_id@ != token_account_id@,
            decreases self.tokens@.len() - k,
        {
            if self.tokens[k].account_id == *token_account_id {
                proof {
                    let c = choose|i: int|
                        0 <= i < self.tokens@.len() && (#[trigger] self.tokens@[i]).account_id@
                            == token_account_id@;
                    assert(self.tokens@[k as int].account_id@ == token_account_id@);
                    if c != k {
                        if c < k {
                            assert(self.tokens@[c].account_id@ != self.tokens@[k as int].account_id@);
                        } else {
                            assert(self.tokens@[k as int].account_id@ != self.tokens@[c].account_id@);
                        }
                    }
                }
                return Ok(&self.tokens[k]);
            }
            k = k + 1;
        }
        Err(ContractError::UnknownToken { token_account_id: token_account_id.clone() })
    }
}

/// The identifier that a stored record holds.
pub open spec fn record_id(v: VStream) -> StreamId {
    match v {
        VStream::Current(s) => s.id,
    }
}

pub open spec fn stores(records: Seq<VStream>, id: StreamId) -> bool {
    exists|i: int| 0 <= i < records.len() && record_id(#[trigger] records[i]) == id
}

pub struct Contract {
    pub dao: Dao,
    pub streams: Vec<VStream>,
    pub accounts: Vec<Account>,
}

impl Contract {
    /// The policies are well formed and no stream is stored twice.
    pub open spec fn wf(&self) -> bool {
        &&& self.dao.wf()
        &&& forall|i: int| 0 <= i < self.accounts@.len() ==> (#[trigger] self.accounts@[i]).wf()
        &&& forall|i: int, j: int|
            0 <= i < j < self.streams@.len() ==> record_id(#[trigger] self.streams@[i])
                != record_id(#[trigger] self.streams@[j])
    }

    pub fn new(dao: Dao) -> (r: Contract)
        requires
            dao.wf(),
        ensures
            r.wf(),
            r.dao == dao,
            r.streams@.len() == 0,
            r.accounts@.len() == 0,
    {
        Contract { dao, streams: Vec::new(), accounts: Vec::new() }
    }

    /// Takes the stream stored under `stream_id` out of the store.
    pub fn extract_stream(&mut self, stream_id: &StreamId) -> (r: Result<Stream, ContractError>)
        requires
            old(self).wf(),
        ensures
            final(self).wf(),
            final(self).dao == old(self).dao,
            final(self).accounts == old(self).accounts,
            r is Ok <==> stores(old(self).streams@, *stream_id),
            r matches Ok(s) ==> s.id == *stream_id && exists|i: int|
                0 <= i < old(self).streams@.len() && old(self).streams@[i] == VStream::Current(s)
                    && final(self).streams@ == old(self).streams@.remove(i),
            !stores(final(self).streams@, *stream_id),
            r matches Err(e) ==> e == (ContractError::UnreachableStream { stream_id: *stream_id })
                && final(self).streams == old(self).streams,
    {
        let ghost s0 = self.streams@;
        let mut k: usize = 0;
        while k < self.streams.len()
            invariant
                *self == *old(self),
                self.wf(),
                self.streams@ == s0,
                k <= s0.len(),
                forall|j: int| 0 <= j < k ==> record_id(#[trigger] s0[j]) != *stream_id,
            decreases s0.len() - k,
        {
            let found = match &self.streams[k] {
                VStream::Current(c) => c.id == *stream_id,
            };
            if found {
                let v = self.streams.remove(k);
                proof {
                    assert(self.streams@ =~= s0.remove(k as int));
                    assert forall|i: int, j: int|
                        0 <= i < j < self.streams@.len() implies record_id(
                        #[trigger] self.streams@[i],
                    ) != record_id(#[trigger] self.streams@[j]) by {
                        let i0 = if i < k { i } else { i + 1 };
                        let j0 = if j < k { j } else { j + 1 };
                        assert(self.streams@[i] == s0[i0]);
                        assert(self.streams@[j] == s0[j0]);
                    }
                    assert forall|i: int| 0 <= i < self.streams@.len() implies record_id(
                        #[trigger] self.streams@[i],
                    ) != *stream_id by {
                        if i < k {
                            assert(self.streams@[i] == s0[i]);
                        } else {
                            assert(self.streams@[i] == s0[i + 1]);
                        }
                    }
                }
                return Ok(Stream::from(v));
            }
            k = k + 1;
        }
        Err(ContractError::UnreachableStream { stream_id: *stream_id })
    }

    /// Stores `stream` under `stream_id`; refuses, changing nothing, where
    /// the identifier is not the stream's own or is already stored.
    pub fn save_stream(&mut self, stream_id: &StreamId, stream: Stream) -> (r: Result<
        (),
        ContractError,
    >)
        requires
            old(self).wf(),
        ensures
            final(self).wf(),
            final(self).dao == old(self).dao,
            final(self).accounts == old(self).accounts,
            r is Ok <==> *stream_id == stream.id && !stores(old(self).streams@, *stream_id),
            r is Ok ==> final(self).streams@ == old(self).streams@.push(VStream::Current(stream)),
            r matches Err(e) ==> e == ContractError::DataCorruption && final(self).streams
                == old(self).streams,
    {
        if *stream_id != stream.id {
            return Err(ContractError::DataCorruption);
        }
        let ghost s0 = self.streams@;
        let mut k: usize = 0;
        while k < self.streams.len()
            invariant
                *self == *old(self),
                self.wf(),
                self.streams@ == s0,
                k <= s0.len(),
                forall|j: int| 0 <= j < k ==> record_id(#[trigger] s0[j]) != *stream_id,
            decreases s0.len() - k,
        {
            let found = match &self.streams[k] {
                VStream::Current(c) => c.id == *stream_id,
            };
            if found {
                return Err(ContractError::DataCorruption);
            }
            k = k + 1;
        }
        self.streams.push(VStream::from(stream));
        proof {
            assert forall|i: int, j: int|
                0 <= i < j < self.streams@.len() implies record_id(#[trigger] self.streams@[i])
                != record_id(#[trigger] self.streams@[j]) by {
                if j == s0.len() {
                    assert(self.streams@[i] == s0[i]);
                } else {
                    assert(self.streams@[i] == s0[i]);
                    assert(self.streams@[j] == s0[j]);
                }
            }
        }
        Ok(())
    }
}

/// The outcome of one action on a stream and its two participants: an
/// error that changes nothing, or what a successful action does.
pub open spec fn books_processed(
    dao: Dao,
    s0: Stream,
    s1: Stream,
    o0: Account,
    o1: Account,
    r0: Account,
    r1: Account,
    action: ActionType,
    now: u64,
    r: Result<Vec<Transfer>, ContractError>,
) -> bool {
    match r {
        Ok(ts) => action_error(dao, s0, o0, r0, action, now) is None && action_done(
            dao,
            s0,
            s1,
            o0,
            o1,
            r0,
            r1,
            action,
            now,
            ts@,
        ),
        Err(e) => Some(e) == action_error(dao, s0, o0, r0, action, now) && s1 == s0 && o1 == o0
            && r1 == r0,
    }
}

/// `a` is the record of `id` taken from `before`, or a fresh one where
/// `before` has none.
pub open spec fn loaded(before: Seq<Account>, id: Seq<char>, a: Account) -> bool {
    &&& a.account_id@ == id
    &&& before.contains(a) || (a.is_empty_for(id) && forall|i: int|
        0 <= i < before.len() ==> (#[trigger] before[i]).account_id@ != id)
}

impl Contract {
    /// Takes the record of `account_id` out of the store, or makes an empty
    /// one where there is none.
    pub fn extract_account_or_create(&mut self, account_id: &String) -> (r: Account)
        requires
            old(self).wf(),
        ensures
            final(self).wf(),
            r.wf(),
            final(self).dao == old(self).dao,
            final(self).streams == old(self).streams,
            loaded(old(self).accounts@, account_id@, r),
            forall|a: Account| #[trigger]
                final(self).accounts@.contains(a) ==> old(self).accounts@.contains(a),
            forall|a: Account|
                old(self).accounts@.contains(a) && a.account_id@ != account_id@ ==> #[trigger] final(self).accounts@.contains(a),
    {
        let ghost s0 = self.accounts@;
        let mut k: usize = 0;
        while k < self.accounts.len()
            invariant
                *self == *old(self),
                self.wf(),
                self.accounts@ == s0,
                k <= s0.len(),
                forall|j: int| 0 <= j < k ==> (#[trigger] s0[j]).account_id@ != account_id@,
            decreases s0.len() - k,
        {
            if self.accounts[k].account_id == *account_id {
                let a = self.accounts.remove(k);
                proof {
                    assert(s0[k as int] == a);
                    assert(self.accounts@ =~= s0.remove(k as int));
                    assert forall|a2: Account|
                        s0.contains(a2) && a2.account_id@ != account_id@ implies #[trigger] self.accounts@.contains(a2) by {
                        let j = choose|j: int| 0 <= j < s0.len() && s0[j] == a2;
                        if j < k {
                            assert(self.accounts@[j] == a2);
                        } else {
                            assert(j != k);
                            assert(self.accounts@[j - 1] == a2);
                        }
                    }
                    assert forall|a2: Account| #[trigger]
                        self.accounts@.contains(a2) implies s0.contains(a2) by {
                        let j = choose|j: int| 0 <= j < self.accounts@.len() && self.accounts@[j] == a2;
                        if j < k {
                            assert(s0[j] == a2);
                        } else {
                            assert(s0[j + 1] == a2);
                        }
                    }
                    assert forall|i: int| 0 <= i < self.accounts@.len() implies (#[trigger] self.accounts@[i]).wf() by {
                        if i < k {
                            assert(self.accounts@[i] == s0[i]);
                        } else {
                            assert(self.accounts@[i] == s0[i + 1]);
                        }
                    }
                }
                return a;
            }
            k = k + 1;
        }
        Account::new(account_id.clone())
    }

    /// Puts a record back into the store.
    pub fn save_account(&mut self, account: Account)
        requires
            old(self).wf(),
            account.wf(),
        ensures
            final(self).wf(),
            final(self).dao == old(self).dao,
            final(self).streams == old(self).streams,
            final(self).accounts@ == old(self).accounts@.push(account),
    {
        self.accounts.push(account);
    }

    /// Carries out one action on `stream` at `now`: loads the accounts of its
    /// owner and receiver, applies the action, and puts them back. A stream
    /// whose owner is its receiver is refused as corrupt.
    pub fn process_action(&mut self, stream: &mut Stream, action_type: ActionType, now: u64) -> (r:
        Result<Vec<Transfer>, ContractError>)
        requires
            old(self).wf(),
            old(stream).wf(),
            old(stream).last_action <= now,
            action_type != ActionType::Init ==> !(old(stream).status is Finished),
            action_type == ActionType::Pause ==> old(stream).status == StreamStatus::Active,
            action_type == ActionType::Withdraw ==> old(stream).status == StreamStatus::Active,
        ensures
            final(self).wf(),
            final(stream).wf(),
            final(self).dao == old(self).dao,
            final(self).streams == old(self).streams,
            old(stream).owner_id@ == old(stream).receiver_id@ ==> (r matches Err(e) && e
                == ContractError::DataCorruption && *final(stream) == *old(stream) && final(self).accounts == old(self).accounts),
            old(stream).owner_id@ != old(stream).receiver_id@ ==> exists|
                o0: Account,
                o1: Account,
                r0: Account,
                r1: Account,
            |
                {
                    &&& #[trigger] books_processed(
                        old(self).dao,
                        *old(stream),
                        *final(stream),
                        o0,
                        o1,
                        r0,
                        r1,
                        action_type,
                        now,
                        r,
                    )
                    &&& loaded(old(self).accounts@, old(stream).owner_id@, o0)
                    &&& loaded(old(self).accounts@, old(stream).receiver_id@, r0)
                    &&& final(self).accounts@.last() == r1
                    &&& final(self).accounts@.drop_last().last() == o1
                },
            forall|a: Account|
                old(self).accounts@.contains(a) && a.account_id@ != old(stream).owner_id@
                    && a.account_id@ != old(stream).receiver_id@ ==> #[trigger] final(self).accounts@.contains(a),
    {
        if stream.owner_id == stream.receiver_id {
            return Err(ContractError::DataCorruption);
        }
        let ghost a0 = self.accounts@;
        let mut owner = self.extract_account_or_create(&stream.owner_id);
        let ghost a1 = self.accounts@;
        let mut receiver = self.extract_account_or_create(&stream.receiver_id);
        let ghost a2 = self.accounts@;
        proof {
            if a1.contains(receiver) {
                let j = choose|j: int| 0 <= j < a1.len() && a1[j] == receiver;
                assert(a1.contains(receiver));
            }
            if !a0.contains(receiver) && !a1.contains(receiver) {
                assert forall|i: int| 0 <= i < a0.len() implies (#[trigger] a0[i]).account_id@
                    != stream.receiver_id@ by {
                    if a0[i].account_id@ == stream.receiver_id@ {
                        assert(a0.contains(a0[i]));
                        assert(a1.contains(a0[i]));
                    }
                }
            }
        }
        let ghost o0 = owner;
        let ghost r0 = receiver;
        let ghost s0 = *stream;
        let r = self.apply_action(stream, &mut owner, &mut receiver, action_type, now);
        let ghost o1 = owner;
        let ghost r1 = receiver;
        self.save_account(owner);
        self.save_account(receiver);
        proof {
            assert(books_processed(self.dao, s0, *stream, o0, o1, r0, r1, action_type, now, r));
            assert(self.accounts@.drop_last() =~= a2.push(o1));
            assert forall|a: Account|
                a0.contains(a) && a.account_id@ != s0.owner_id@ && a.account_id@
                    != s0.receiver_id@ implies #[trigger] self.accounts@.contains(a) by {
                assert(a1.contains(a));
                assert(a2.contains(a));
                let j = choose|j: int| 0 <= j < a2.len() && a2[j] == a;
                assert(self.accounts@[j] == a);
            }
        }
        r
    }
}

} // verus!
