use vstd::prelude::*;

use crate::account::{
    activated, add_amount, amount_of, contains_id, deactivated, get_amount, insert_id,
    remove_id, shifted, sub_amount, Account,
};
use crate::contract::{is_transfer, ActionType, Contract, ContractError, Dao, Transfer};
use crate::stream::{available, settled, Stream, StreamId, StreamStatus};
use crate::token::commission_of;

verus! {

/// What the receiver is paid when `s` is settled at `now`: what accrued,
/// less the token's fee.
pub open spec fn payment_of(dao: Dao, s: Stream, now: u64) -> int {
    available(s, now) - commission_of(dao.policy(s.token_account_id@), available(s, now))
}

/// The receiver's received total can take the payment.
pub open spec fn payment_fits(dao: Dao, s: Stream, receiver: Account, now: u64) -> bool {
    amount_of(receiver.total_received@, s.token_account_id@) + payment_of(dao, s, now)
        <= u128::MAX
}

/// Neither account knows the stream yet.
pub open spec fn can_register(s: Stream, owner: Account, receiver: Account) -> bool {
    &&& !owner.active_streams@.contains(s.id)
    &&& !owner.inactive_streams@.contains(s.id)
    &&& !receiver.active_streams@.contains(s.id)
    &&& !receiver.inactive_streams@.contains(s.id)
}

/// Both accounts hold the stream as inactive, and the rate sums can take it.
pub open spec fn can_start(s: Stream, owner: Account, receiver: Account) -> bool {
    &&& !owner.active_streams@.contains(s.id)
    &&& owner.inactive_streams@.contains(s.id)
    &&& !receiver.active_streams@.contains(s.id)
    &&& receiver.inactive_streams@.contains(s.id)
    &&& amount_of(owner.total_outgoing@, s.token_account_id@) + s.tokens_per_sec <= u128::MAX
    &&& amount_of(receiver.total_incoming@, s.token_account_id@) + s.tokens_per_sec <= u128::MAX
}

/// Both accounts hold the stream as active, and the rate sums hold its rate.
pub open spec fn can_leave_active(s: Stream, owner: Account, receiver: Account) -> bool {
    &&& owner.active_streams@.contains(s.id)
    &&& !owner.inactive_streams@.contains(s.id)
    &&& receiver.active_streams@.contains(s.id)
    &&& !receiver.inactive_streams@.contains(s.id)
    &&& amount_of(owner.total_outgoing@, s.token_account_id@) >= s.tokens_per_sec
    &&& amount_of(receiver.total_incoming@, s.token_account_id@) >= s.tokens_per_sec
}

/// A settlement at `now` exhausts the stream.
pub open spec fn finishes(s: Stream, now: u64) -> bool {
    !(s.balance > available(s, now))
}

/// The error that an action meets, if any.
pub open spec fn action_error(
    dao: Dao,
    s: Stream,
    owner: Account,
    receiver: Account,
    action: ActionType,
    now: u64,
) -> Option<ContractError> {
    let unknown = ContractError::UnknownToken { token_account_id: s.token_account_id };
    match action {
        ActionType::Init => if can_register(s, owner, receiver) {
            None
        } else {
            Some(ContractError::DataCorruption)
        },
        ActionType::Start => if can_start(s, owner, receiver) {
            None
        } else {
            Some(ContractError::DataCorruption)
        },
        ActionType::Pause => if !dao.has_token(s.token_account_id@) {
            Some(unknown)
        } else if !can_leave_active(s, owner, receiver) || !payment_fits(dao, s, receiver, now) {
            Some(ContractError::DataCorruption)
        } else {
            None
        },
        ActionType::Withdraw => if !dao.has_token(s.token_account_id@) {
            Some(unknown)
        } else if (finishes(s, now) && !can_leave_active(s, owner, receiver)) || !payment_fits(
            dao,
            s,
            receiver,
            now,
        ) {
            Some(ContractError::DataCorruption)
        } else {
            None
        },
        ActionType::Stop { .. } => if !dao.has_token(s.token_account_id@) {
            Some(unknown)
        } else if s.status == StreamStatus::Active && (!can_leave_active(s, owner, receiver)
            || !payment_fits(dao, s, receiver, now)) {
            Some(ContractError::DataCorruption)
        } else {
            None
        },
    }
}

/// The owner's side of Start: the stream becomes active, its rate is added
/// to the outgoing sum of its token, and nothing else changes.
pub open spec fn owner_started(s: Stream, o0: Account, o1: Account) -> bool {
    &&& activated(o0, o1, s.id)
    &&& shifted(o0.total_outgoing@, o1.total_outgoing@, s.token_account_id@, s.tokens_per_sec as int)
    &&& o1.total_incoming@ == o0.total_incoming@
    &&& o1.total_received@ == o0.total_received@
    &&& o1.account_id == o0.account_id
}

/// The receiver's side of Start, with the incoming sum.
pub open spec fn receiver_started(s: Stream, r0: Account, r1: Account) -> bool {
    &&& activated(r0, r1, s.id)
    &&& shifted(r0.total_incoming@, r1.total_incoming@, s.token_account_id@, s.tokens_per_sec as int)
    &&& r1.total_outgoing@ == r0.total_outgoing@
    &&& r1.total_received@ == r0.total_received@
    &&& r1.account_id == r0.account_id
}

/// The owner's side of leaving Active: the stream becomes inactive and its
/// rate leaves the outgoing sum of its token.
pub open spec fn owner_left(s: Stream, o0: Account, o1: Account) -> bool {
    &&& deactivated(o0, o1, s.id)
    &&& shifted(o0.total_outgoing@, o1.total_outgoing@, s.token_account_id@, -s.tokens_per_sec)
    &&& o1.total_incoming@ == o0.total_incoming@
    &&& o1.total_received@ == o0.total_received@
    &&& o1.account_id == o0.account_id
}

/// The receiver's side of leaving Active, with the incoming sum; its
/// received total is another matter.
pub open spec fn receiver_left(s: Stream, r0: Account, r1: Account) -> bool {
    &&& deactivated(r0, r1, s.id)
    &&& shifted(r0.total_incoming@, r1.total_incoming@, s.token_account_id@, -s.tokens_per_sec)
    &&& r1.total_outgoing@ == r0.total_outgoing@
    &&& r1.account_id == r0.account_id
}

/// The receiver's sets and rate sums are as they were.
pub open spec fn same_streams(a0: Account, a1: Account) -> bool {
    &&& a1.active_streams@ == a0.active_streams@
    &&& a1.inactive_streams@ == a0.inactive_streams@
    &&& a1.total_incoming@ == a0.total_incoming@
    &&& a1.total_outgoing@ == a0.total_outgoing@
    &&& a1.account_id == a0.account_id
}

/// The receiver's received total grew by `amount` for the stream's token.
pub open spec fn received(s: Stream, r0: Account, r1: Account, amount: int) -> bool {
    shifted(r0.total_received@, r1.total_received@, s.token_account_id@, amount)
}

/// The stream after a Stop for `reason` at `now`: an active one is settled
/// first, and one still unfinished is refunded and finished.
pub open spec fn stopped(s: Stream, now: u64, reason: crate::stream::StreamFinishReason) -> Stream {
    let s1 = if s.status == StreamStatus::Active {
        settled(s, now)
    } else {
        Stream { last_action: now, ..s }
    };
    if s1.status is Finished {
        s1
    } else {
        Stream { balance: 0, status: StreamStatus::Finished { reason }, ..s1 }
    }
}

/// What a successful action did to the stream, the two accounts, and which
/// transfers it asks for.
pub open spec fn action_done(
    dao: Dao,
    s0: Stream,
    s1: Stream,
    o0: Account,
    o1: Account,
    r0: Account,
    r1: Account,
    action: ActionType,
    now: u64,
    ts: Seq<Transfer>,
) -> bool {
    let pay = payment_of(dao, s0, now);
    let tok = s0.token_account_id@;
    match action {
        ActionType::Init => {
            &&& s1 == (Stream { last_action: now, ..s0 })
            &&& o1.active_streams@ == o0.active_streams@
            &&& r1.active_streams@ == r0.active_streams@
            &&& forall|x| #[trigger]
                o1.inactive_streams@.contains(x) == (o0.inactive_streams@.contains(x) || x == s0.id)
            &&& forall|x| #[trigger]
                r1.inactive_streams@.contains(x) == (r0.inactive_streams@.contains(x) || x == s0.id)
            &&& o1.total_incoming@ == o0.total_incoming@
            &&& o1.total_outgoing@ == o0.total_outgoing@
            &&& o1.total_received@ == o0.total_received@
            &&& o1.account_id == o0.account_id
            &&& r1.total_incoming@ == r0.total_incoming@
            &&& r1.total_outgoing@ == r0.total_outgoing@
            &&& r1.total_received@ == r0.total_received@
            &&& r1.account_id == r0.account_id
            &&& ts.len() == 0
        },
        ActionType::Start => {
            &&& s1 == (Stream { status: StreamStatus::Active, last_action: now, ..s0 })
            &&& owner_started(s0, o0, o1)
            &&& receiver_started(s0, r0, r1)
            &&& ts.len() == 0
        },
        ActionType::Pause => {
            &&& s1 == (if settled(s0, now).status == StreamStatus::Active {
                Stream { status: StreamStatus::Paused, ..settled(s0, now) }
            } else {
                settled(s0, now)
            })
            &&& owner_left(s0, o0, o1)
            &&& receiver_left(s0, r0, r1)
            &&& received(s0, r0, r1, pay)
            &&& ts.len() == 1
            &&& is_transfer(ts[0], tok, s0.receiver_id@, pay)
        },
        ActionType::Withdraw => {
            &&& s1 == settled(s0, now)
            &&& if finishes(s0, now) {
                owner_left(s0, o0, o1) && receiver_left(s0, r0, r1)
            } else {
                o1 == o0 && same_streams(r0, r1)
            }
            &&& received(s0, r0, r1, pay)
            &&& ts.len() == 1
            &&& is_transfer(ts[0], tok, s0.receiver_id@, pay)
        },
        ActionType::Stop { reason } => {
            &&& s1 == stopped(s0, now, reason)
            &&& if s0.status == StreamStatus::Active {
                &&& owner_left(s0, o0, o1)
                &&& receiver_left(s0, r0, r1)
                &&& received(s0, r0, r1, pay)
                &&& is_transfer(ts[0], tok, s0.receiver_id@, pay)
                &&& if finishes(s0, now) {
                    ts.len() == 1
                } else {
                    ts.len() == 2 && is_transfer(
                        ts[1],
                        tok,
                        s0.owner_id@,
                        settled(s0, now).balance as int,
                    )
                }
            } else {
                &&& o1 == o0
                &&& r1 == r0
                &&& ts.len() == 1
                &&& is_transfer(ts[0], tok, s0.owner_id@, s0.balance as int)
            }
        },
    }
}

/// A Start and the later transition that leaves Active undo each other on
/// the books: the rate that Start added to the owner's outgoing sum and the
/// receiver's incoming sum is taken out once, every sum is back to its
/// value before Start, and the stream is again inactive for both.
pub proof fn lemma_rates_restored(
    s: Stream,
    o0: Account,
    o1: Account,
    o2: Account,
    r0: Account,
    r1: Account,
    r2: Account,
)
    requires
        owner_started(s, o0, o1),
        receiver_started(s, r0, r1),
        owner_left(s, o1, o2),
        receiver_left(s, r1, r2),
    ensures
        forall|u: Seq<char>|
            #[trigger] amount_of(o2.total_outgoing@, u) == amount_of(o0.total_outgoing@, u),
        forall|u: Seq<char>|
            #[trigger] amount_of(r2.total_incoming@, u) == amount_of(r0.total_incoming@, u),
        o2.total_incoming@ == o0.total_incoming@,
        r2.total_outgoing@ == r0.total_outgoing@,
        !o2.active_streams@.contains(s.id) && o2.inactive_streams@.contains(s.id),
        !r2.active_streams@.contains(s.id) && r2.inactive_streams@.contains(s.id),
        forall|x: StreamId|
            x != s.id ==> (#[trigger] o2.active_streams@.contains(x) == o0.active_streams@.contains(x)
                && o2.inactive_streams@.contains(x) == o0.inactive_streams@.contains(x)),
        forall|x: StreamId|
            x != s.id ==> (#[trigger] r2.active_streams@.contains(x) == r0.active_streams@.contains(x)
                && r2.inactive_streams@.contains(x) == r0.inactive_streams@.contains(x)),
{
    assert forall|u: Seq<char>|
        #[trigger] amount_of(o2.total_outgoing@, u) == amount_of(o0.total_outgoing@, u) by {
        assert(amount_of(o1.total_outgoing@, u) == amount_of(o0.total_outgoing@, u) + if u
            == s.token_account_id@ {
            s.tokens_per_sec as int
        } else {
            0
        });
    }
    assert forall|u: Seq<char>|
        #[trigger] amount_of(r2.total_incoming@, u) == amount_of(r0.total_incoming@, u) by {
        assert(amount_of(r1.total_incoming@, u) == amount_of(r0.total_incoming@, u) + if u
            == s.token_account_id@ {
            s.tokens_per_sec as int
        } else {
            0
        });
    }
    assert(o2.inactive_streams@.contains(s.id));
    assert(r2.inactive_streams@.contains(s.id));
    assert forall|x: StreamId|
        x != s.id implies (#[trigger] o2.active_streams@.contains(x) == o0.active_streams@.contains(x)
            && o2.inactive_streams@.contains(x) == o0.inactive_streams@.contains(x)) by {
        assert(o1.active_streams@.contains(x) == o0.active_streams@.contains(x));
        assert(o1.inactive_streams@.contains(x) == o0.inactive_streams@.contains(x));
    }
    assert forall|x: StreamId|
        x != s.id implies (#[trigger] r2.active_streams@.contains(x) == r0.active_streams@.contains(x)
            && r2.inactive_streams@.contains(x) == r0.inactive_streams@.contains(x)) by {
        assert(r1.active_streams@.contains(x) == r0.active_streams@.contains(x));
        assert(r1.inactive_streams@.contains(x) == r0.inactive_streams@.contains(x));
    }
}

fn check_leave_active(stream: &Stream, owner: &Account, receiver: &Account) -> (r: bool)
    ensures
        r == can_leave_active(*stream, *owner, *receiver),
{
    contains_id(&owner.active_streams, stream.id) && !contains_id(
        &owner.inactive_streams,
        stream.id,
    ) && contains_id(&receiver.active_streams, stream.id) && !contains_id(
        &receiver.inactive_streams,
        stream.id,
    ) && get_amount(&owner.total_outgoing, &stream.token_account_id) >= stream.tokens_per_sec
        && get_amount(&receiver.total_incoming, &stream.token_account_id) >= stream.tokens_per_sec
}

/// Moves the stream from active to inactive in both accounts and takes its
/// rate out of both sums.
fn leave_active(stream: &Stream, owner: &mut Account, receiver: &mut Account)
    requires
        old(owner).wf(),
        old(receiver).wf(),
        can_leave_active(*stream, *old(owner), *old(receiver)),
    ensures
        final(owner).wf(),
        final(receiver).wf(),
        owner_left(*stream, *old(owner), *final(owner)),
        receiver_left(*stream, *old(receiver), *final(receiver)),
        final(receiver).total_received == old(receiver).total_received,
{
    remove_id(&mut owner.active_streams, stream.id);
    remove_id(&mut receiver.active_streams, stream.id);
    insert_id(&mut owner.inactive_streams, stream.id);
    insert_id(&mut receiver.inactive_streams, stream.id);
    sub_amount(&mut owner.total_outgoing, &stream.token_account_id, stream.tokens_per_sec);
    sub_amount(&mut receiver.total_incoming, &stream.token_account_id, stream.tokens_per_sec);
}

impl Contract {
    /// The transfer of `amount` of `token_account_id` to `receiver`; an
    /// amount of zero is a transfer that moves nothing.
    pub fn ft_transfer(&self, token_account_id: &String, receiver: &String, amount: u128) -> (r:
        Transfer)
        ensures
            is_transfer(r, token_account_id@, receiver@, amount as int),
    {
        Transfer {
            token_account_id: token_account_id.clone(),
            receiver_id: receiver.clone(),
            amount,
        }
    }

    /// Settles the stream at `now`, credits the payment to the receiver's
    /// received total, and returns its transfer. Changes nothing where the
    /// token is unknown or the received total cannot take the payment.
    pub fn process_payment(&self, stream: &mut Stream, account: &mut Account, now: u64) -> (r:
        Result<Transfer, ContractError>)
        requires
            self.wf(),
            old(stream).wf(),
            old(stream).last_action <= now,
        ensures
            r is Ok <==> self.dao.has_token(old(stream).token_account_id@) && payment_fits(
                self.dao,
                *old(stream),
                *old(account),
                now,
            ),
            r matches Err(e) ==> *final(stream) == *old(stream) && *final(account) == *old(account)
                && e == if self.dao.has_token(old(stream).token_account_id@) {
                ContractError::DataCorruption
            } else {
                ContractError::UnknownToken { token_account_id: old(stream).token_account_id }
            },
            r matches Ok(t) ==> {
                &&& *final(stream) == settled(*old(stream), now)
                &&& final(stream).wf()
                &&& same_streams(*old(account), *final(account))
                &&& received(
                    *old(stream),
                    *old(account),
                    *final(account),
                    payment_of(self.dao, *old(stream), now),
                )
                &&& is_transfer(
                    t,
                    old(stream).token_account_id@,
                    old(stream).receiver_id@,
                    payment_of(self.dao, *old(stream), now),
                )
            },
    {
        let token = match self.dao.get_token(&stream.token_account_id) {
            Ok(t) => t,
            Err(e) => return Err(e),
        };
        let gross = stream.available_to_withdraw(now);
        let (net, _fee) = token.apply_commission(gross);
        if !add_amount(&mut account.total_received, &stream.token_account_id, net) {
            return Err(ContractError::DataCorruption);
        }
        let (payment, _commission) = stream.process_withdraw(token, now);
        Ok(self.ft_transfer(&stream.token_account_id, &stream.receiver_id, payment))
    }

    /// Empties the stream's balance and returns its transfer back to the owner.
    pub fn process_refund(&self, stream: &mut Stream) -> (r: Result<Transfer, ContractError>)
        requires
            self.wf(),
        ensures
            r is Ok <==> self.dao.has_token(old(stream).token_account_id@),
            r matches Err(e) ==> *final(stream) == *old(stream) && e == (ContractError::UnknownToken {
                token_account_id: old(stream).token_account_id,
            }),
            r matches Ok(t) ==> *final(stream) == (Stream { balance: 0, ..*old(stream) })
                && is_transfer(
                t,
                old(stream).token_account_id@,
                old(stream).owner_id@,
                old(stream).balance as int,
            ),
    {
        match self.dao.get_token(&stream.token_account_id) {
            Ok(_) => {},
            Err(e) => return Err(e),
        }
        let payment = stream.balance;
        stream.balance = 0;
        Ok(self.ft_transfer(&stream.token_account_id, &stream.owner_id, payment))
    }
}

impl Contract {
    /// Carries out one action on `stream` and the accounts of its owner and
    /// receiver, at time `now`, and returns the transfers it asks for. An
    /// error changes nothing.
    pub fn apply_action(
        &self,
        stream: &mut Stream,
        owner: &mut Account,
        receiver: &mut Account,
        action_type: ActionType,
        now: u64,
    ) -> (r: Result<Vec<Transfer>, ContractError>)
        requires
            self.wf(),
            old(stream).wf(),
            old(owner).wf(),
            old(receiver).wf(),
            old(stream).last_action <= now,
            action_type != ActionType::Init ==> !(old(stream).status is Finished),
            action_type == ActionType::Pause ==> old(stream).status == StreamStatus::Active,
            action_type == ActionType::Withdraw ==> old(stream).status == StreamStatus::Active,
        ensures
            final(stream).wf(),
            final(owner).wf(),
            final(receiver).wf(),
            r is Err <==> action_error(
                self.dao,
                *old(stream),
                *old(owner),
                *old(receiver),
                action_type,
                now,
            ) is Some,
            r matches Err(e) ==> {
                &&& Some(e) == action_error(
                    self.dao,
                    *old(stream),
                    *old(owner),
                    *old(receiver),
                    action_type,
                    now,
                )
                &&& *final(stream) == *old(stream)
                &&& *final(owner) == *old(owner)
                &&& *final(receiver) == *old(receiver)
            },
            r matches Ok(ts) ==> action_done(
                self.dao,
                *old(stream),
                *final(stream),
                *old(owner),
                *final(owner),
                *old(receiver),
                *final(receiver),
                action_type,
                now,
                ts@,
            ),
            final(stream).tokens_total_withdrawn >= old(stream).tokens_total_withdrawn,
            !(action_type is Stop) ==> final(stream).balance + final(stream).tokens_total_withdrawn
                == old(stream).balance + old(stream).tokens_total_withdrawn,
            final(stream).last_action == now || r is Err,
    {
        let id = stream.id;
        let rate = stream.tokens_per_sec;
        match action_type {
            ActionType::Init => {
                if contains_id(&owner.active_streams, id) || contains_id(&owner.inactive_streams, id)
                    || contains_id(&receiver.active_streams, id) || contains_id(
                    &receiver.inactive_streams,
                    id,
                ) {
                    return Err(ContractError::DataCorruption);
                }
                insert_id(&mut owner.inactive_streams, id);
                insert_id(&mut receiver.inactive_streams, id);
                stream.last_action = now;
                Ok(Vec::new())
            },
            ActionType::Start => {
                if contains_id(&owner.active_streams, id) || !contains_id(
                    &owner.inactive_streams,
                    id,
                ) || contains_id(&receiver.active_streams, id) || !contains_id(
                    &receiver.inactive_streams,
                    id,
                ) || get_amount(&owner.total_outgoing, &stream.token_account_id) > u128::MAX - rate
                    || get_amount(&receiver.total_incoming, &stream.token_account_id) > u128::MAX
                    - rate {
                    return Err(ContractError::DataCorruption);
                }
                remove_id(&mut owner.inactive_streams, id);
                remove_id(&mut receiver.inactive_streams, id);
                insert_id(&mut owner.active_streams, id);
                insert_id(&mut receiver.active_streams, id);
                add_amount(&mut owner.total_outgoing, &stream.token_account_id, rate);
                add_amount(&mut receiver.total_incoming, &stream.token_account_id, rate);
                stream.status = StreamStatus::Active;
                stream.last_action = now;
                Ok(Vec::new())
            },
            ActionType::Pause => {
                if let Err(e) = self.dao.get_token(&stream.token_account_id) {
                    return Err(e);
                }
                if !check_leave_active(stream, owner, receiver) {
                    return Err(ContractError::DataCorruption);
                }
                let payment = match self.process_payment(stream, receiver, now) {
                    Ok(t) => t,
                    Err(e) => return Err(e),
                };
                leave_active(stream, owner, receiver);
                if stream.status == StreamStatus::Active {
                    stream.status = StreamStatus::Paused;
                }
                stream.last_action = now;
                let mut transfers = Vec::new();
                transfers.push(payment);
                Ok(transfers)
            },
            ActionType::Withdraw => {
                if let Err(e) = self.dao.get_token(&stream.token_account_id) {
                    return Err(e);
                }
                let exhausts = !(stream.balance > stream.available_to_withdraw(now));
                if exhausts && !check_leave_active(stream, owner, receiver) {
                    return Err(ContractError::DataCorruption);
                }
                let payment = match self.process_payment(stream, receiver, now) {
                    Ok(t) => t,
                    Err(e) => return Err(e),
                };
                if stream.status.is_terminated() {
                    leave_active(stream, owner, receiver);
                }
                stream.last_action = now;
                let mut transfers = Vec::new();
                transfers.push(payment);
                Ok(transfers)
            },
            ActionType::Stop { reason } => {
                if let Err(e) = self.dao.get_token(&stream.token_account_id) {
                    return Err(e);
                }
                let mut transfers = Vec::new();
                if stream.status == StreamStatus::Active {
                    if !check_leave_active(stream, owner, receiver) {
                        return Err(ContractError::DataCorruption);
                    }
                    let payment = match self.process_payment(stream, receiver, now) {
                        Ok(t) => t,
                        Err(e) => return Err(e),
                    };
                    transfers.push(payment);
                    leave_active(stream, owner, receiver);
                }
                stream.last_action = now;
                if !stream.status.is_terminated() {
                    let refund = match self.process_refund(stream) {
                        Ok(t) => t,
                        Err(e) => return Err(e),
                    };
                    transfers.push(refund);
                    stream.status = StreamStatus::Finished { reason };
                }
                Ok(transfers)
            },
        }
    }
}

} // verus!
