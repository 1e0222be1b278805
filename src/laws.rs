use vstd::prelude::*;

use crate::events::{TipPlan, TipRefunded};
use crate::error::TipJarError;
use crate::state::{ring_insert, JarModel, Pubkey, Tip, MAX_HISTORY_LEN, MAX_MEMO_LEN};
use crate::tipjar::{can_accept, tip_decision};

verus! {

/// The jar after it accepted each of `tips` in turn.
pub open spec fn accept_all(jar: JarModel, tips: Seq<Tip>) -> JarModel
    decreases tips.len(),
{
    if tips.len() == 0 {
        jar
    } else {
        accept_all(jar, tips.drop_last()).accept(tips.last())
    }
}

/// The sum of the amounts of `tips`.
pub open spec fn sum_amounts(tips: Seq<Tip>) -> int
    decreases tips.len(),
{
    if tips.len() == 0 {
        0
    } else {
        sum_amounts(tips.drop_last()) + tips.last().amount
    }
}

/// A history and cursor after each of `tips` went into the ring in turn.
pub open spec fn ring_fill(h: Seq<Tip>, cursor: nat, tips: Seq<Tip>) -> (Seq<Tip>, nat)
    decreases tips.len(),
{
    if tips.len() == 0 {
        (h, cursor)
    } else {
        let prev = ring_fill(h, cursor, tips.drop_last());
        ring_insert(prev.0, prev.1, tips.last())
    }
}

proof fn lemma_sum_amounts_nonneg(tips: Seq<Tip>)
    ensures
        sum_amounts(tips) >= 0,
    decreases tips.len(),
{
    if tips.len() > 0 {
        lemma_sum_amounts_nonneg(tips.drop_last());
    }
}

/// Each accepted tip adds one to the tip count and its amount to the
/// balance: after `n` tips the count has grown by `n` and the balance by
/// the sum of their amounts, while the history went through the ring.
pub proof fn lemma_tip_totals(jar: JarModel, tips: Seq<Tip>)
    requires
        jar.total_received + sum_amounts(tips) <= u64::MAX,
        jar.total_tips_count + tips.len() <= u32::MAX,
    ensures
        accept_all(jar, tips).total_tips_count == jar.total_tips_count + tips.len(),
        accept_all(jar, tips).total_received == jar.total_received + sum_amounts(tips),
        (accept_all(jar, tips).history, accept_all(jar, tips).cursor) == ring_fill(
            jar.history,
            jar.cursor,
            tips,
        ),
    decreases tips.len(),
{
    if tips.len() > 0 {
        lemma_sum_amounts_nonneg(tips.drop_last());
        lemma_tip_totals(jar, tips.drop_last());
    }
}


/// The position among `n` inserted tips of the one that last went into
/// slot `i` of a ring of `MAX_HISTORY_LEN` slots.
pub open spec fn last_writer(n: int, i: int) -> int {
    i + 100 * ((n - 1 - i) / 100)
}

proof fn lemma_div_by_hundred(x: int, q: int, s: int)
    requires
        x == 100 * q + s,
        0 <= s < 100,
    ensures
        x / 100 == q,
        x % 100 == s,
{
}

/// Filling an empty ring with `n` tips keeps the first `MAX_HISTORY_LEN`
/// of them in order; after that each tip overwrites the oldest one, so
/// that slot `i` holds the latest tip whose position is `i` modulo the
/// capacity, and the cursor stands at `n` modulo the capacity. In
/// particular `MAX_HISTORY_LEN + k` tips, for `0 < k <= MAX_HISTORY_LEN`,
/// leave the capacity full, with the `k` oldest slots overwritten by the
/// `k` newest tips in the order they came.
pub proof fn lemma_ring_overwrite(tips: Seq<Tip>)
    ensures
        ring_fill(Seq::empty(), 0, tips).0.len() == if tips.len() < MAX_HISTORY_LEN {
            tips.len()
        } else {
            MAX_HISTORY_LEN as nat
        },
        ring_fill(Seq::empty(), 0, tips).1 == if tips.len() < MAX_HISTORY_LEN {
            0
        } else {
            tips.len() % (MAX_HISTORY_LEN as nat)
        },
        forall|i: int|
            0 <= i < ring_fill(Seq::empty(), 0, tips).0.len() ==> ring_fill(
                Seq::empty(),
                0,
                tips,
            ).0[i] == tips[last_writer(tips.len() as int, i)],
        MAX_HISTORY_LEN < tips.len() <= 2 * MAX_HISTORY_LEN ==> forall|i: int|
            0 <= i < MAX_HISTORY_LEN ==> ring_fill(Seq::empty(), 0, tips).0[i] == if i < tips.len()
                - MAX_HISTORY_LEN {
                tips[MAX_HISTORY_LEN + i]
            } else {
                tips[i]
            },
    decreases tips.len(),
{
    let n = tips.len() as int;
    let e = Seq::<Tip>::empty();
    if n == 0 {
        return;
    }
    let m = n - 1;
    let prefix = tips.drop_last();
    lemma_ring_overwrite(prefix);
    let prev = ring_fill(e, 0, prefix);
    let cur = ring_fill(e, 0, tips);
    assert(cur == ring_insert(prev.0, prev.1, tips.last()));
    if m < 100 {
        assert forall|i: int| 0 <= i < cur.0.len() implies cur.0[i] == tips[last_writer(n, i)] by {
            lemma_div_by_hundred(n - 1 - i, 0, n - 1 - i);
            if i < m {
                lemma_div_by_hundred(m - 1 - i, 0, m - 1 - i);
                assert(prev.0[i] == prefix[last_writer(m, i)]);
            }
        }
        if n == 100 {
            lemma_div_by_hundred(n, 1, 0);
        }
    } else {
        let q = m / 100;
        let r = m % 100;
        lemma_div_by_hundred(m, q, r);
        assert(prev.1 == r);
        lemma_div_by_hundred(r, 0, r);
        if r == 99 {
            lemma_div_by_hundred(n, q + 1, 0);
        } else {
            lemma_div_by_hundred(n, q, r + 1);
        }
        assert forall|i: int| 0 <= i < cur.0.len() implies cur.0[i] == tips[last_writer(n, i)] by {
            if i == r {
                lemma_div_by_hundred(m - i, q, 0);
            } else if i < r {
                lemma_div_by_hundred(m - i, q, r - i);
                lemma_div_by_hundred(m - 1 - i, q, r - i - 1);
                assert(prev.0[i] == prefix[last_writer(m, i)]);
            } else {
                lemma_div_by_hundred(m - i, q - 1, 100 + r - i);
                lemma_div_by_hundred(m - 1 - i, q - 1, 99 + r - i);
                assert(prev.0[i] == prefix[last_writer(m, i)]);
            }
        }
    }
    if 100 < n <= 200 {
        assert forall|i: int| 0 <= i < 100 implies cur.0[i] == if i < n - 100 {
            tips[100 + i]
        } else {
            tips[i]
        } by {
            assert(cur.0[i] == tips[last_writer(n, i)]);
            if i < n - 100 {
                lemma_div_by_hundred(n - 1 - i, 1, n - 101 - i);
            } else {
                lemma_div_by_hundred(n - 1 - i, 0, n - 1 - i);
            }
        }
    }
}


/// A tip to a paused jar is turned back with a refund notice for the same
/// amount and no transfer, and the jar cannot take the tip, so its
/// balance, tip count and history stay as they were.
pub proof fn lemma_paused_tip_refunds(
    jar: JarModel,
    jar_key: Pubkey,
    sender: Pubkey,
    amount: u64,
    memo_len: nat,
    timestamp: u64,
)
    requires
        amount > 0,
        memo_len <= MAX_MEMO_LEN,
    ensures
        tip_decision(jar.with_active(false), jar_key, sender, amount, memo_len, timestamp) == Ok::<
            TipPlan,
            TipJarError,
        >(TipPlan::Refund(TipRefunded { tipjar: jar_key, sender, lamports: amount, timestamp })),
        !can_accept(jar.with_active(false), sender, amount),
{
}

/// Toggling twice, by the owner, makes two genuine transitions, the
/// second one allowed again, and brings the jar back to where it was.
pub proof fn lemma_toggle_twice(jar: JarModel, caller: Pubkey)
    requires
        jar.wf(),
        jar.is_owner(caller),
    ensures
        jar.with_active(!jar.is_active).is_active != jar.is_active,
        jar.with_active(!jar.is_active).is_owner(caller),
        jar.with_active(!jar.is_active).wf(),
        jar.with_active(!jar.is_active).with_active(!jar.with_active(!jar.is_active).is_active)
            == jar,
{
}

} // verus!
