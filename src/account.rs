use vstd::prelude::*;

use crate::stream::StreamId;

verus! {

/// An amount kept for one token.
#[derive(Debug)]
pub struct TokenAmount {
    pub token_account_id: String,
    pub amount: u128,
}

/// The amount kept for token `t`: the last entry for `t`, or zero if none.
pub open spec fn amount_of(s: Seq<TokenAmount>, t: Seq<char>) -> int
    decreases s.len(),
{
    if s.len() == 0 {
        0
    } else if s.last().token_account_id@ == t {
        s.last().amount as int
    } else {
        amount_of(s.drop_last(), t)
    }
}

/// Every token's amount in `new` is its amount in `old`, moved by `delta`
/// for token `t` alone.
pub open spec fn shifted(old: Seq<TokenAmount>, new: Seq<TokenAmount>, t: Seq<char>, delta: int) -> bool {
    forall|u: Seq<char>| #[trigger]
        amount_of(new, u) == amount_of(old, u) + if u == t {
            delta
        } else {
            0
        }
}

/// What one participant keeps: the streams it takes part in, split into
/// active and inactive ones, and per token the rates flowing out and in and
/// the total received.
#[derive(Debug)]
pub struct Account {
    pub account_id: String,
    pub active_streams: Vec<StreamId>,
    pub inactive_streams: Vec<StreamId>,
    pub total_incoming: Vec<TokenAmount>,
    pub total_outgoing: Vec<TokenAmount>,
    pub total_received: Vec<TokenAmount>,
}

/// `id` left the active streams of the account for its inactive ones.
pub open spec fn deactivated(old: Account, new: Account, id: StreamId) -> bool {
    &&& forall|x: StreamId|
        #[trigger] new.active_streams@.contains(x) == (old.active_streams@.contains(x) && x != id)
    &&& forall|x: StreamId|
        #[trigger] new.inactive_streams@.contains(x) == (old.inactive_streams@.contains(x) || x
            == id)
}

/// `id` left the inactive streams of the account for its active ones.
pub open spec fn activated(old: Account, new: Account, id: StreamId) -> bool {
    &&& forall|x: StreamId|
        #[trigger] new.active_streams@.contains(x) == (old.active_streams@.contains(x) || x == id)
    &&& forall|x: StreamId|
        #[trigger] new.inactive_streams@.contains(x) == (old.inactive_streams@.contains(x) && x
            != id)
}

impl Account {
    /// Neither stream list holds an identifier twice.
    pub open spec fn wf(&self) -> bool {
        &&& self.active_streams@.no_duplicates()
        &&& self.inactive_streams@.no_duplicates()
    }

    pub open spec fn is_empty_for(&self, account_id: Seq<char>) -> bool {
        &&& self.account_id@ == account_id
        &&& self.active_streams@.len() == 0
        &&& self.inactive_streams@.len() == 0
        &&& self.total_incoming@.len() == 0
        &&& self.total_outgoing@.len() == 0
        &&& self.total_received@.len() == 0
    }

    /// An account that takes part in no stream.
    pub fn new(account_id: String) -> (r: Account)
        ensures
            r.wf(),
            r.is_empty_for(account_id@),
    {
        Account {
            account_id,
            active_streams: Vec::new(),
            inactive_streams: Vec::new(),
            total_incoming: Vec::new(),
            total_outgoing: Vec::new(),
            total_received: Vec::new(),
        }
    }
}

proof fn lemma_amount_push(s: Seq<TokenAmount>, x: TokenAmount)
    ensures
        forall|u: Seq<char>| #[trigger]
            amount_of(s.push(x), u) == if u == x.token_account_id@ {
                x.amount as int
            } else {
                amount_of(s, u)
            },
{
    assert(s.push(x).drop_last() =~= s);
}

proof fn lemma_amount_absent(s: Seq<TokenAmount>, t: Seq<char>)
    requires
        forall|j: int| 0 <= j < s.len() ==> s[j].token_account_id@ != t,
    ensures
        amount_of(s, t) == 0,
    decreases s.len(),
{
    if s.len() > 0 {
        lemma_amount_absent(s.drop_last(), t);
    }
}

proof fn lemma_amount_update(s: Seq<TokenAmount>, i: int, x: TokenAmount)
    requires
        0 <= i < s.len(),
        x.token_account_id@ == s[i].token_account_id@,
        forall|j: int| i < j < s.len() ==> s[j].token_account_id@ != x.token_account_id@,
    ensures
        amount_of(s, x.token_account_id@) == s[i].amount,
        forall|u: Seq<char>| #[trigger]
            amount_of(s.update(i, x), u) == if u == x.token_account_id@ {
                x.amount as int
            } else {
                amount_of(s, u)
            },
    decreases s.len(),
{
    let t = s.update(i, x);
    if i == s.len() - 1 {
        assert(t.drop_last() =~= s.drop_last());
        assert(t.last() == x);
    } else {
        assert(t.drop_last() =~= s.drop_last().update(i, x));
        assert(t.last() == s.last());
        lemma_amount_update(s.drop_last(), i, x);
    }
    assert forall|u: Seq<char>| #[trigger]
        amount_of(t, u) == if u == x.token_account_id@ {
            x.amount as int
        } else {
            amount_of(s, u)
        } by {
        if i == s.len() - 1 {
            assert(t.drop_last() =~= s.drop_last());
            assert(t.last() == x);
            assert(s.last().token_account_id@ == x.token_account_id@);
        } else {
            let d = s.drop_last().update(i, x);
            assert(t.drop_last() =~= d);
            assert(t.last() == s.last());
            assert(s.last().token_account_id@ != x.token_account_id@);
            assert(amount_of(d, u) == if u == x.token_account_id@ {
                x.amount as int
            } else {
                amount_of(s.drop_last(), u)
            });
        }
    }
}

/// Index of the last entry for `t`, if any.
fn find_token(v: &Vec<TokenAmount>, t: &String) -> (r: Option<usize>)
    ensures
        r is None ==> forall|j: int| 0 <= j < v@.len() ==> v@[j].token_account_id@ != t@,
        r matches Some(i) ==> i < v@.len() && v@[i as int].token_account_id@ == t@ && forall|
            j: int,
        |
            i < j < v@.len() ==> v@[j].token_account_id@ != t@,
{
    let mut k: usize = v.len();
    while k > 0
        invariant
            k <= v@.len(),
            forall|j: int| k <= j < v@.len() ==> v@[j].token_account_id@ != t@,
        decreases k,
    {
        if v[k - 1].token_account_id == *t {
            return Some(k - 1);
        }
        k = k - 1;
    }
    None
}

/// The amount kept for `t`.
pub fn get_amount(v: &Vec<TokenAmount>, t: &String) -> (r: u128)
    ensures
        r == amount_of(v@, t@),
{
    match find_token(v, t) {
        Some(i) => {
            proof {
                lemma_amount_update(v@, i as int, v@[i as int]);
            }
            v[i].amount
        },
        None => {
            proof {
                lemma_amount_absent(v@, t@);
            }
            0
        },
    }
}

/// Adds `delta` to the amount kept for `t`; refuses, changing nothing, where
/// the sum would not fit in 128 bits.
pub fn add_amount(v: &mut Vec<TokenAmount>, t: &String, delta: u128) -> (ok: bool)
    ensures
        ok == (amount_of(old(v)@, t@) + delta <= u128::MAX),
        ok ==> shifted(old(v)@, final(v)@, t@, delta as int),
        !ok ==> *final(v) == *old(v),
{
    match find_token(v, t) {
        Some(i) => {
            proof {
                lemma_amount_update(v@, i as int, v@[i as int]);
            }
            let cur = v[i].amount;
            if cur > u128::MAX - delta {
                return false;
            }
            let entry = TokenAmount { token_account_id: t.clone(), amount: cur + delta };
            proof {
                lemma_amount_update(v@, i as int, entry);
            }
            v.set(i, entry);
            true
        },
        None => {
            proof {
                lemma_amount_absent(v@, t@);
            }
            let entry = TokenAmount { token_account_id: t.clone(), amount: delta };
            proof {
                lemma_amount_push(v@, entry);
            }
            v.push(entry);
            true
        },
    }
}

/// Takes `delta` from the amount kept for `t`; refuses, changing nothing,
/// where less than `delta` is kept.
pub fn sub_amount(v: &mut Vec<TokenAmount>, t: &String, delta: u128) -> (ok: bool)
    ensures
        ok == (amount_of(old(v)@, t@) >= delta),
        ok ==> shifted(old(v)@, final(v)@, t@, -delta),
        !ok ==> *final(v) == *old(v),
{
    match find_token(v, t) {
        Some(i) => {
            proof {
                lemma_amount_update(v@, i as int, v@[i as int]);
            }
            let cur = v[i].amount;
            if cur < delta {
                return false;
            }
            let entry = TokenAmount { token_account_id: t.clone(), amount: cur - delta };
            proof {
                lemma_amount_update(v@, i as int, entry);
            }
            v.set(i, entry);
            true
        },
        None => {
            proof {
                lemma_amount_absent(v@, t@);
            }
            delta == 0
        },
    }
}

/// Whether `id` is among `v`.
pub fn contains_id(v: &Vec<StreamId>, id: StreamId) -> (r: bool)
    ensures
        r == v@.contains(id),
{
    let mut k: usize = 0;
    while k < v.len()
        invariant
            k <= v@.len(),
            forall|j: int| 0 <= j < k ==> v@[j] != id,
        decreases v@.len() - k,
    {
        if v[k] == id {
            return true;
        }
        k = k + 1;
    }
    false
}

/// Adds `id`, which `v` does not hold.
pub fn insert_id(v: &mut Vec<StreamId>, id: StreamId)
    requires
        old(v)@.no_duplicates(),
        !old(v)@.contains(id),
    ensures
        final(v)@.no_duplicates(),
        forall|x: StreamId| #[trigger] final(v)@.contains(x) == (old(v)@.contains(x) || x == id),
{
    v.push(id);
    proof {
        assert forall|x: StreamId| #[trigger] v@.contains(x) == (old(v)@.contains(x) || x == id) by {
            if old(v)@.contains(x) {
                let j = choose|j: int| 0 <= j < old(v)@.len() && old(v)@[j] == x;
                assert(v@[j] == x);
            }
            if x == id {
                assert(v@[old(v)@.len() as int] == x);
            }
        }
    }
}

/// Removes `id`, which `v` holds.
pub fn remove_id(v: &mut Vec<StreamId>, id: StreamId)
    requires
        old(v)@.no_duplicates(),
        old(v)@.contains(id),
    ensures
        final(v)@.no_duplicates(),
        forall|x: StreamId| #[trigger] final(v)@.contains(x) == (old(v)@.contains(x) && x != id),
{
    let ghost s = v@;
    let mut k: usize = 0;
    while k < v.len() && v[k] != id
        invariant
            *v == *old(v),
            s == v@,
            k <= v@.len(),
            forall|j: int| 0 <= j < k ==> v@[j] != id,
        decreases v@.len() - k,
    {
        k = k + 1;
    }
    assert(k < s.len() && s[k as int] == id);
    v.remove(k);
    proof {
        assert(v@ =~= s.remove(k as int));
        assert forall|x: StreamId| #[trigger] v@.contains(x) == (s.contains(x) && x != id) by {
            if v@.contains(x) {
                let j = choose|j: int| 0 <= j < v@.len() && v@[j] == x;
                if j < k {
                    assert(s[j] == x);
                } else {
                    assert(s[j + 1] == x);
                }
            }
            if s.contains(x) && x != id {
                let j = choose|j: int| 0 <= j < s.len() && s[j] == x;
                if j < k {
                    assert(v@[j] == x);
                } else {
                    assert(j != k);
                    assert(v@[j - 1] == x);
                }
            }
        }
    }
}

} // verus!
