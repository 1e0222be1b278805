use vstd::prelude::*;

use crate::error::TipJarError;
use crate::events::{
    CloseOrder, GoalReached, TipJarStats, TipJarStatusChanged, TipPlan, TipReceipt, TipRefunded,
    TipSent, Transfer,
};
use crate::state::{
    byte_len, utf8_len, JarModel, Pubkey, Tip, TipJar, MAX_CATEGORY_LEN, MAX_DESCRIPTION_LEN,
    MAX_MEMO_LEN,
};

verus! {

/// Most a single withdrawal may take out.
pub const WITHDRAW_LIMIT: u64 = 1000;

/// The first rule that jar metadata breaks, if any: a zero goal, then an
/// overlong description, then an overlong category (lengths in bytes).
pub open spec fn metadata_error(description_len: nat, category_len: nat, goal: u64) -> Option<
    TipJarError,
> {
    if goal == 0 {
        Some(TipJarError::InvalidGoal)
    } else if description_len > MAX_DESCRIPTION_LEN {
        Some(TipJarError::DescriptionTooLong)
    } else if category_len > MAX_CATEGORY_LEN {
        Some(TipJarError::CategoryTooLong)
    } else {
        None
    }
}

/// A new jar: active, public, nothing received, empty history.
pub open spec fn fresh_jar(
    owner: Pubkey,
    bump: u8,
    description: Seq<char>,
    category: Seq<char>,
    goal: u64,
) -> JarModel {
    JarModel {
        is_active: true,
        is_private: false,
        owner,
        description,
        category,
        goal,
        total_received: 0,
        history: Seq::empty(),
        cursor: 0,
        total_tips_count: 0,
        bump,
    }
}

/// Checks the metadata rules in their order.
fn check_metadata(description: &String, category: &String, goal: u64) -> (r: Result<(), TipJarError>)
    ensures
        match r {
            Ok(()) => metadata_error(utf8_len(description@), utf8_len(category@), goal) is None,
            Err(e) => metadata_error(utf8_len(description@), utf8_len(category@), goal) == Some(e),
        },
{
    if goal == 0 {
        return Err(TipJarError::InvalidGoal);
    }
    if byte_len(description) > MAX_DESCRIPTION_LEN {
        return Err(TipJarError::DescriptionTooLong);
    }
    if byte_len(category) > MAX_CATEGORY_LEN {
        return Err(TipJarError::CategoryTooLong);
    }
    Ok(())
}

/// Creates the jar of `owner`, whose derived address has seed bump `bump`.
pub fn initialize_tipjar(
    owner: Pubkey,
    bump: u8,
    description: String,
    category: String,
    goal: u64,
) -> (r: Result<TipJar, TipJarError>)
    ensures
        match r {
            Ok(jar) => {
                &&& metadata_error(utf8_len(description@), utf8_len(category@), goal) is None
                &&& jar@ == fresh_jar(owner, bump, description@, category@, goal)
                &&& jar@.wf()
            },
            Err(e) => metadata_error(utf8_len(description@), utf8_len(category@), goal) == Some(e),
        },
{
    match check_metadata(&description, &category, goal) {
        Err(e) => Err(e),
        Ok(()) => Ok(
            TipJar {
                is_active: true,
                is_private: false,
                owner,
                description,
                category,
                goal,
                total_received: 0,
                tips_history: Vec::new(),
                last_tip_index: 0,
                total_tips_count: 0,
                bump,
            },
        ),
    }
}


/// What a tip request comes to, checked in this order: a zero amount or an
/// overlong memo is refused; a paused jar turns the tip back before any value
/// moves; a private jar refuses anyone but its owner; a tip that would carry
/// the balance or the tip count out of range is refused; otherwise the
/// sender's amount is to be moved into the jar.
pub open spec fn tip_decision(
    jar: JarModel,
    jar_key: Pubkey,
    sender: Pubkey,
    amount: u64,
    memo_len: nat,
    timestamp: u64,
) -> Result<TipPlan, TipJarError> {
    if amount == 0 {
        Err(TipJarError::InvalidAmount)
    } else if memo_len > MAX_MEMO_LEN {
        Err(TipJarError::MemoTooLong)
    } else if !jar.is_active {
        Ok(
            TipPlan::Refund(
                TipRefunded { tipjar: jar_key, sender, lamports: amount, timestamp },
            ),
        )
    } else if jar.is_private && !jar.is_owner(sender) {
        Err(TipJarError::Unauthorized)
    } else if jar.total_received + amount > u64::MAX || jar.total_tips_count == u32::MAX {
        Err(TipJarError::UnexpectedTransactionFailure)
    } else {
        Ok(TipPlan::Transfer(Transfer { from: sender, to: jar_key, lamports: amount }))
    }
}

/// Whether the jar at `jar` may take a tip of `amount` from `sender`: it is
/// active, its privacy admits the sender, and both running totals stay in range.
pub open spec fn can_accept(jar: JarModel, sender: Pubkey, amount: u64) -> bool {
    &&& jar.is_active
    &&& !jar.is_private || jar.is_owner(sender)
    &&& jar.total_received + amount <= u64::MAX
    &&& jar.total_tips_count < u32::MAX
}

/// Decides a tip of `amount` from `sender` to the jar stored at `jar_key`.
/// Nothing changes here: the host carries out the transfer the plan names
/// and, once it went through, records the tip with `accept_tip`.
pub fn send_tip(
    jar: &TipJar,
    jar_key: Pubkey,
    sender: Pubkey,
    amount: u64,
    memo: &String,
    timestamp: u64,
) -> (r: Result<TipPlan, TipJarError>)
    ensures
        r == tip_decision(jar@, jar_key, sender, amount, utf8_len(memo@), timestamp),
{
    if amount == 0 {
        return Err(TipJarError::InvalidAmount);
    }
    if byte_len(memo) > MAX_MEMO_LEN {
        return Err(TipJarError::MemoTooLong);
    }
    if !jar.is_active {
        return Ok(
            TipPlan::Refund(
                TipRefunded { tipjar: jar_key, sender, lamports: amount, timestamp },
            ),
        );
    }
    if jar.is_private && !sender.key_eq(&jar.owner) {
        return Err(TipJarError::Unauthorized);
    }
    if amount > u64::MAX - jar.total_received || jar.total_tips_count == u32::MAX {
        return Err(TipJarError::UnexpectedTransactionFailure);
    }
    Ok(TipPlan::Transfer(Transfer { from: sender, to: jar_key, lamports: amount }))
}

/// The goal notification after a tip: present exactly when the balance
/// stands at or above the goal, on every such tip.
pub open spec fn goal_notice(jar_key: Pubkey, jar: JarModel) -> Option<GoalReached> {
    if jar.total_received >= jar.goal {
        Some(GoalReached { tipjar: jar_key, goal: jar.goal, total_received: jar.total_received })
    } else {
        None
    }
}

/// Records a tip whose transfer into the jar at `jar_key` went through:
/// the tip enters the history ring, the count grows by one and the balance
/// by the amount. Returns the notifications to emit.
pub fn accept_tip(jar: &mut TipJar, jar_key: Pubkey, tip: Tip) -> (r: TipReceipt)
    requires
        old(jar)@.wf(),
        tip.wf(),
        can_accept(old(jar)@, tip.sender, tip.amount),
    ensures
        final(jar)@ == old(jar)@.accept(tip),
        final(jar)@.wf(),
        r.sent == (TipSent {
            sender: tip.sender,
            receiver: jar_key,
            amount: tip.amount,
            memo: tip.memo,
            visibility: tip.visibility,
        }),
        r.goal_reached == goal_notice(jar_key, final(jar)@),
{
    let sent = TipSent {
        sender: tip.sender,
        receiver: jar_key,
        amount: tip.amount,
        memo: tip.memo.clone(),
        visibility: tip.visibility,
    };
    let amount = tip.amount;
    jar.record_tip(tip);
    jar.total_tips_count = jar.total_tips_count + 1;
    jar.total_received = jar.total_received + amount;
    let goal_reached = if jar.total_received >= jar.goal {
        Some(GoalReached { tipjar: jar_key, goal: jar.goal, total_received: jar.total_received })
    } else {
        None
    };
    TipReceipt { sent, goal_reached }
}


/// Where page `page` of `page_size` tips starts in a history of `len` tips,
/// and where it ends; a page past the end is empty.
pub open spec fn page_range(len: nat, page: nat, page_size: nat) -> (int, int) {
    let start = page * page_size;
    if start >= len {
        (0, 0)
    } else if start + page_size <= len {
        (start as int, (start + page_size) as int)
    } else {
        (start as int, len as int)
    }
}

/// Page `page` of the history, `page_size` tips to a page, in storage order.
/// A page that starts past the end is empty rather than an error.
pub fn get_tip_history(tip_jar: &TipJar, page: u32, page_size: u32) -> (r: Vec<&Tip>)
    ensures
        r@.len() == page_range(tip_jar@.history.len(), page as nat, page_size as nat).1
            - page_range(tip_jar@.history.len(), page as nat, page_size as nat).0,
        forall|i: int|
            0 <= i < r@.len() ==> *r@[i] == tip_jar@.history[page_range(
                tip_jar@.history.len(),
                page as nat,
                page_size as nat,
            ).0 + i],
{
    let len = tip_jar.tips_history.len();
    assert((page as int) * (page_size as int) <= u64::MAX) by (nonlinear_arith)
        requires
            page <= u32::MAX,
            page_size <= u32::MAX,
    ;
    let start: u64 = page as u64 * page_size as u64;
    let mut out: Vec<&Tip> = Vec::new();
    if start >= len as u64 {
        return out;
    }
    let start = start as usize;
    let end: usize = if page_size as usize <= len - start {
        start + page_size as usize
    } else {
        len
    };
    let mut i: usize = start;
    while i < end
        invariant
            start <= i <= end <= len,
            len == tip_jar.tips_history@.len(),
            out@.len() == i - start,
            forall|j: int| 0 <= j < out@.len() ==> *out@[j] == tip_jar.tips_history@[start + j],
        decreases end - i,
    {
        out.push(&tip_jar.tips_history[i]);
        i = i + 1;
    }
    out
}

/// How far the balance has come towards the goal, in whole percent, capped
/// at the largest `u64`; zero for a zero goal.
pub open spec fn goal_percentage(total_received: u64, goal: u64) -> u64 {
    if goal == 0 {
        0
    } else if total_received * 100 / (goal as int) > u64::MAX {
        u64::MAX
    } else {
        (total_received * 100 / (goal as int)) as u64
    }
}

/// The summary of the jar stored at `jar_key`.
pub fn get_tip_stats(tip_jar: &TipJar, jar_key: Pubkey) -> (r: TipJarStats)
    ensures
        r == (TipJarStats {
            tipjar: jar_key,
            total_tips: tip_jar.total_tips_count,
            total_received: tip_jar.total_received,
            is_active: tip_jar.is_active,
            goal_percentage: goal_percentage(tip_jar.total_received, tip_jar.goal),
        }),
{
    let percentage: u64 = if tip_jar.goal == 0 {
        0
    } else {
        let p: u128 = tip_jar.total_received as u128 * 100 / tip_jar.goal as u128;
        if p > u64::MAX as u128 {
            u64::MAX
        } else {
            p as u64
        }
    };
    TipJarStats {
        tipjar: jar_key,
        total_tips: tip_jar.total_tips_count,
        total_received: tip_jar.total_received,
        is_active: tip_jar.is_active,
        goal_percentage: percentage,
    }
}

/// Empties the history and resets its cursor; the tip count stays.
/// Owner only.
pub fn clear_tip_history(tip_jar: &mut TipJar, caller: Pubkey) -> (r: Result<(), TipJarError>)
    requires
        old(tip_jar)@.wf(),
    ensures
        final(tip_jar)@.wf(),
        match r {
            Ok(()) => {
                &&& old(tip_jar)@.is_owner(caller)
                &&& final(tip_jar)@ == (JarModel {
                    history: Seq::empty(),
                    cursor: 0,
                    ..old(tip_jar)@
                })
            },
            Err(e) => {
                &&& !old(tip_jar)@.is_owner(caller)
                &&& e == TipJarError::Unauthorized
                &&& final(tip_jar)@ == old(tip_jar)@
            },
        },
{
    if !caller.key_eq(&tip_jar.owner) {
        return Err(TipJarError::Unauthorized);
    }
    tip_jar.tips_history = Vec::new();
    tip_jar.last_tip_index = 0;
    Ok(())
}

/// Flips whether the jar takes tips and returns the notification. Owner only.
pub fn toggle_tipjar_status(tip_jar: &mut TipJar, caller: Pubkey, jar_key: Pubkey) -> (r: Result<
    TipJarStatusChanged,
    TipJarError,
>)
    requires
        old(tip_jar)@.wf(),
    ensures
        final(tip_jar)@.wf(),
        match r {
            Ok(ev) => {
                &&& old(tip_jar)@.is_owner(caller)
                &&& final(tip_jar)@ == old(tip_jar)@.with_active(!old(tip_jar)@.is_active)
                &&& ev == (TipJarStatusChanged {
                    tipjar: jar_key,
                    is_active: !old(tip_jar)@.is_active,
                })
            },
            Err(e) => {
                &&& !old(tip_jar)@.is_owner(caller)
                &&& e == TipJarError::Unauthorized
                &&& final(tip_jar)@ == old(tip_jar)@
            },
        },
{
    if !caller.key_eq(&tip_jar.owner) {
        return Err(TipJarError::Unauthorized);
    }
    let new_status = !tip_jar.is_active;
    if tip_jar.is_active == new_status {
        return Err(TipJarError::RedundantStatusChange);
    }
    tip_jar.is_active = new_status;
    Ok(TipJarStatusChanged { tipjar: jar_key, is_active: new_status })
}

/// Replaces description, category and goal, held to the same rules as at
/// creation. Owner only; the owner check comes first.
pub fn update_tipjar(
    tip_jar: &mut TipJar,
    caller: Pubkey,
    new_description: String,
    new_category: String,
    new_goal: u64,
) -> (r: Result<(), TipJarError>)
    requires
        old(tip_jar)@.wf(),
    ensures
        final(tip_jar)@.wf(),
        match r {
            Ok(()) => {
                &&& old(tip_jar)@.is_owner(caller)
                &&& metadata_error(utf8_len(new_description@), utf8_len(new_category@), new_goal) is None
                &&& final(tip_jar)@ == (JarModel {
                    description: new_description@,
                    category: new_category@,
                    goal: new_goal,
                    ..old(tip_jar)@
                })
            },
            Err(e) => {
                &&& final(tip_jar)@ == old(tip_jar)@
                &&& if old(tip_jar)@.is_owner(caller) {
                    metadata_error(utf8_len(new_description@), utf8_len(new_category@), new_goal)
                        == Some(e)
                } else {
                    e == TipJarError::Unauthorized
                }
            },
        },
{
    if !caller.key_eq(&tip_jar.owner) {
        return Err(TipJarError::Unauthorized);
    }
    match check_metadata(&new_description, &new_category, new_goal) {
        Err(e) => Err(e),
        Ok(()) => {
            tip_jar.description = new_description;
            tip_jar.category = new_category;
            tip_jar.goal = new_goal;
            Ok(())
        },
    }
}

/// Stops the jar taking tips. Owner only; pausing a paused jar is no error.
pub fn pause_tipjar(tip_jar: &mut TipJar, caller: Pubkey) -> (r: Result<(), TipJarError>)
    requires
        old(tip_jar)@.wf(),
    ensures
        final(tip_jar)@.wf(),
        match r {
            Ok(()) => {
                &&& old(tip_jar)@.is_owner(caller)
                &&& final(tip_jar)@ == old(tip_jar)@.with_active(false)
            },
            Err(e) => {
                &&& !old(tip_jar)@.is_owner(caller)
                &&& e == TipJarError::Unauthorized
                &&& final(tip_jar)@ == old(tip_jar)@
            },
        },
{
    if !caller.key_eq(&tip_jar.owner) {
        return Err(TipJarError::Unauthorized);
    }
    tip_jar.is_active = false;
    Ok(())
}

/// Lets the jar take tips again. Owner only; resuming an active jar is no error.
pub fn resume_tipjar(tip_jar: &mut TipJar, caller: Pubkey) -> (r: Result<(), TipJarError>)
    requires
        old(tip_jar)@.wf(),
    ensures
        final(tip_jar)@.wf(),
        match r {
            Ok(()) => {
                &&& old(tip_jar)@.is_owner(caller)
                &&& final(tip_jar)@ == old(tip_jar)@.with_active(true)
            },
            Err(e) => {
                &&& !old(tip_jar)@.is_owner(caller)
                &&& e == TipJarError::Unauthorized
                &&& final(tip_jar)@ == old(tip_jar)@
            },
        },
{
    if !caller.key_eq(&tip_jar.owner) {
        return Err(TipJarError::Unauthorized);
    }
    tip_jar.is_active = true;
    Ok(())
}


/// What a withdrawal request comes to, checked in this order: only the
/// owner may withdraw, never more than the balance, never more than the
/// per-call limit; otherwise `amount` is to move from the jar to the owner.
pub open spec fn withdraw_decision(
    jar: JarModel,
    caller: Pubkey,
    jar_key: Pubkey,
    amount: u64,
) -> Result<Transfer, TipJarError> {
    if !jar.is_owner(caller) {
        Err(TipJarError::Unauthorized)
    } else if jar.total_received < amount {
        Err(TipJarError::InsufficientFunds)
    } else if amount > WITHDRAW_LIMIT {
        Err(TipJarError::WithdrawalLimitExceeded)
    } else {
        Ok(Transfer { from: jar_key, to: jar.owner, lamports: amount })
    }
}

/// Decides a withdrawal of `amount` from the jar stored at `jar_key`.
/// Nothing changes here: the host carries out the transfer and, once it
/// went through, debits the jar with `settle_withdrawal`.
pub fn withdraw_tip(tip_jar: &TipJar, caller: Pubkey, jar_key: Pubkey, amount: u64) -> (r: Result<
    Transfer,
    TipJarError,
>)
    ensures
        r == withdraw_decision(tip_jar@, caller, jar_key, amount),
{
    if !caller.key_eq(&tip_jar.owner) {
        return Err(TipJarError::Unauthorized);
    }
    if tip_jar.total_received < amount {
        return Err(TipJarError::InsufficientFunds);
    }
    if amount > WITHDRAW_LIMIT {
        return Err(TipJarError::WithdrawalLimitExceeded);
    }
    Ok(Transfer { from: jar_key, to: tip_jar.owner, lamports: amount })
}

/// Takes a paid-out `amount` off the balance; nothing else changes.
pub fn settle_withdrawal(tip_jar: &mut TipJar, amount: u64)
    requires
        old(tip_jar)@.wf(),
        amount <= old(tip_jar)@.total_received,
    ensures
        final(tip_jar)@.wf(),
        final(tip_jar)@ == (JarModel {
            total_received: (old(tip_jar)@.total_received - amount) as u64,
            ..old(tip_jar)@
        }),
{
    tip_jar.total_received = tip_jar.total_received - amount;
}

/// What closing comes to: only the owner may close; the whole balance goes
/// to the owner, with no transfer at all for an empty jar; the storage is
/// then released to the owner.
pub open spec fn close_decision(jar: JarModel, caller: Pubkey, jar_key: Pubkey) -> Result<
    CloseOrder,
    TipJarError,
> {
    if !jar.is_owner(caller) {
        Err(TipJarError::Unauthorized)
    } else if jar.total_received == 0 {
        Ok(CloseOrder { transfer: None, release_to: jar.owner })
    } else {
        Ok(
            CloseOrder {
                transfer: Some(
                    Transfer { from: jar_key, to: jar.owner, lamports: jar.total_received },
                ),
                release_to: jar.owner,
            },
        )
    }
}

/// Decides the closing of the jar stored at `jar_key`. The host carries out
/// the order: the payout first, then the release of the record, which ends
/// the jar.
pub fn close_tipjar(tip_jar: &TipJar, caller: Pubkey, jar_key: Pubkey) -> (r: Result<
    CloseOrder,
    TipJarError,
>)
    ensures
        r == close_decision(tip_jar@, caller, jar_key),
{
    if !caller.key_eq(&tip_jar.owner) {
        return Err(TipJarError::Unauthorized);
    }
    let amount_to_transfer = tip_jar.total_received;
    let transfer = if amount_to_transfer > 0 {
        Some(Transfer { from: jar_key, to: tip_jar.owner, lamports: amount_to_transfer })
    } else {
        None
    };
    Ok(CloseOrder { transfer, release_to: tip_jar.owner })
}

} // verus!
