use tipjar::error::TipJarError;
use tipjar::events::{CloseOrder, GoalReached, TipPlan, TipRefunded, Transfer};
use tipjar::state::{Pubkey, Tip, TipJar, Visibility, MAX_HISTORY_LEN};
use tipjar::tipjar::{
    accept_tip, clear_tip_history, close_tipjar, get_tip_history, get_tip_stats,
    initialize_tipjar, pause_tipjar, resume_tipjar, send_tip, settle_withdrawal,
    toggle_tipjar_status, update_tipjar, withdraw_tip,
};

fn key(b: u8) -> Pubkey {
    Pubkey::new([b; 32])
}

fn owner() -> Pubkey {
    key(1)
}

fn jar_key() -> Pubkey {
    key(9)
}

fn new_jar(goal: u64) -> TipJar {
    initialize_tipjar(owner(), 254, "coffee fund".to_string(), "community".to_string(), goal)
        .unwrap()
}

fn tip(sender: Pubkey, amount: u64, timestamp: u64) -> Tip {
    Tip {
        sender,
        amount,
        visibility: Visibility::Public,
        memo: "thanks".to_string(),
        timestamp,
    }
}

/// Runs both steps of a tip as a host would, the transfer always going through.
fn tip_through(jar: &mut TipJar, sender: Pubkey, amount: u64, timestamp: u64) -> Option<GoalReached> {
    let memo = "thanks".to_string();
    match send_tip(jar, jar_key(), sender, amount, &memo, timestamp).unwrap() {
        TipPlan::Transfer(t) => {
            assert_eq!(t, Transfer { from: sender, to: jar_key(), lamports: amount });
            accept_tip(jar, jar_key(), tip(sender, amount, timestamp)).goal_reached
        }
        TipPlan::Refund(_) => panic!("jar is active"),
    }
}

#[test]
fn initialize_sets_fresh_state() {
    let jar = new_jar(1000);
    assert!(jar.is_active);
    assert!(!jar.is_private);
    assert_eq!(jar.owner, owner());
    assert_eq!(jar.goal, 1000);
    assert_eq!(jar.total_received, 0);
    assert_eq!(jar.total_tips_count, 0);
    assert_eq!(jar.tips_history.len(), 0);
    assert_eq!(jar.last_tip_index, 0);
    assert_eq!(jar.bump, 254);
    assert_eq!(jar.description, "coffee fund");
}

#[test]
fn initialize_rejects_zero_goal() {
    let r = initialize_tipjar(owner(), 0, "d".to_string(), "c".to_string(), 0);
    assert_eq!(r.unwrap_err(), TipJarError::InvalidGoal);
}

#[test]
fn initialize_rejects_long_description() {
    let r = initialize_tipjar(owner(), 0, "a".repeat(201), "c".to_string(), 5);
    assert_eq!(r.unwrap_err(), TipJarError::DescriptionTooLong);
    assert!(initialize_tipjar(owner(), 0, "a".repeat(200), "c".to_string(), 5).is_ok());
}

#[test]
fn initialize_counts_description_in_bytes() {
    // 101 two-byte characters: 202 bytes.
    let r = initialize_tipjar(owner(), 0, "é".repeat(101), "c".to_string(), 5);
    assert_eq!(r.unwrap_err(), TipJarError::DescriptionTooLong);
    assert!(initialize_tipjar(owner(), 0, "é".repeat(100), "c".to_string(), 5).is_ok());
}

#[test]
fn initialize_rejects_long_category() {
    let r = initialize_tipjar(owner(), 0, "d".to_string(), "b".repeat(101), 5);
    assert_eq!(r.unwrap_err(), TipJarError::CategoryTooLong);
    let r = initialize_tipjar(owner(), 0, "d".to_string(), "€".repeat(34), 5);
    assert_eq!(r.unwrap_err(), TipJarError::CategoryTooLong);
}

#[test]
fn initialize_checks_goal_first() {
    let r = initialize_tipjar(owner(), 0, "a".repeat(300), "b".repeat(300), 0);
    assert_eq!(r.unwrap_err(), TipJarError::InvalidGoal);
}

#[test]
fn space_covers_full_record() {
    assert_eq!(TipJar::space(), 15677);
}

#[test]
fn send_tip_rejects_zero_amount() {
    let jar = new_jar(10);
    let r = send_tip(&jar, jar_key(), key(2), 0, &"hi".to_string(), 1);
    assert_eq!(r.unwrap_err(), TipJarError::InvalidAmount);
}

#[test]
fn send_tip_rejects_long_memo() {
    let jar = new_jar(10);
    let r = send_tip(&jar, jar_key(), key(2), 5, &"m".repeat(101), 1);
    assert_eq!(r.unwrap_err(), TipJarError::MemoTooLong);
    let r = send_tip(&jar, jar_key(), key(2), 5, &"ü".repeat(51), 1);
    assert_eq!(r.unwrap_err(), TipJarError::MemoTooLong);
    let r = send_tip(&jar, jar_key(), key(2), 5, &"m".repeat(100), 1);
    assert!(r.is_ok());
}

#[test]
fn tips_accumulate_count_and_total() {
    let mut jar = new_jar(1_000_000);
    let amounts = [5u64, 17, 1, 300, 42];
    for (i, a) in amounts.iter().enumerate() {
        tip_through(&mut jar, key(2 + i as u8), *a, i as u64);
    }
    assert_eq!(jar.total_tips_count, 5);
    assert_eq!(jar.total_received, 365);
    assert_eq!(jar.tips_history.len(), 5);
    assert_eq!(jar.tips_history[3].amount, 300);
}

#[test]
fn accept_tip_reports_tip_sent() {
    let mut jar = new_jar(10);
    let mut t = tip(key(3), 4, 77);
    t.visibility = Visibility::Anonymous;
    t.memo = "for the coffee".to_string();
    let receipt = accept_tip(&mut jar, jar_key(), t);
    assert_eq!(receipt.sent.sender, key(3));
    assert_eq!(receipt.sent.receiver, jar_key());
    assert_eq!(receipt.sent.amount, 4);
    assert_eq!(receipt.sent.memo, "for the coffee");
    assert_eq!(receipt.sent.visibility, Visibility::Anonymous);
    assert_eq!(receipt.goal_reached, None);
}

#[test]
fn ring_buffer_overwrites_oldest() {
    let mut jar = new_jar(u64::MAX);
    for i in 0..(MAX_HISTORY_LEN as u64 + 3) {
        tip_through(&mut jar, key(2), 1, i);
    }
    assert_eq!(jar.tips_history.len(), MAX_HISTORY_LEN);
    assert_eq!(jar.total_tips_count, 103);
    assert_eq!(jar.tips_history[0].timestamp, 100);
    assert_eq!(jar.tips_history[1].timestamp, 101);
    assert_eq!(jar.tips_history[2].timestamp, 102);
    assert_eq!(jar.tips_history[3].timestamp, 3);
    assert_eq!(jar.tips_history[99].timestamp, 99);
    assert_eq!(jar.last_tip_index, 3);
}

#[test]
fn ring_buffer_full_without_wrap_keeps_cursor() {
    let mut jar = new_jar(u64::MAX);
    for i in 0..(MAX_HISTORY_LEN as u64) {
        tip_through(&mut jar, key(2), 1, i);
    }
    assert_eq!(jar.tips_history.len(), MAX_HISTORY_LEN);
    assert_eq!(jar.last_tip_index, 0);
    tip_through(&mut jar, key(2), 1, 500);
    assert_eq!(jar.tips_history[0].timestamp, 500);
    assert_eq!(jar.last_tip_index, 1);
}

#[test]
fn paused_jar_refunds_without_change() {
    let mut jar = new_jar(100);
    tip_through(&mut jar, key(2), 10, 1);
    pause_tipjar(&mut jar, owner()).unwrap();
    let r = send_tip(&jar, jar_key(), key(3), 25, &"hi".to_string(), 8).unwrap();
    assert_eq!(
        r,
        TipPlan::Refund(TipRefunded { tipjar: jar_key(), sender: key(3), lamports: 25, timestamp: 8 })
    );
    assert_eq!(jar.total_received, 10);
    assert_eq!(jar.total_tips_count, 1);
    assert_eq!(jar.tips_history.len(), 1);
}

#[test]
fn paused_jar_still_validates_amount() {
    let mut jar = new_jar(100);
    pause_tipjar(&mut jar, owner()).unwrap();
    let r = send_tip(&jar, jar_key(), key(3), 0, &"hi".to_string(), 8);
    assert_eq!(r.unwrap_err(), TipJarError::InvalidAmount);
}

#[test]
fn private_jar_accepts_only_owner() {
    let mut jar = new_jar(100);
    jar.is_private = true;
    let r = send_tip(&jar, jar_key(), key(5), 10, &"hi".to_string(), 1);
    assert_eq!(r.unwrap_err(), TipJarError::Unauthorized);
    let r = send_tip(&jar, jar_key(), owner(), 10, &"hi".to_string(), 1).unwrap();
    assert_eq!(r, TipPlan::Transfer(Transfer { from: owner(), to: jar_key(), lamports: 10 }));
}

#[test]
fn tip_that_overflows_balance_is_refused() {
    let mut jar = new_jar(100);
    jar.total_received = u64::MAX - 5;
    let r = send_tip(&jar, jar_key(), key(2), 6, &"hi".to_string(), 1);
    assert_eq!(r.unwrap_err(), TipJarError::UnexpectedTransactionFailure);
    assert!(send_tip(&jar, jar_key(), key(2), 5, &"hi".to_string(), 1).is_ok());
}

#[test]
fn goal_reached_on_crossing_tip() {
    let mut jar = new_jar(1000);
    assert_eq!(tip_through(&mut jar, key(2), 500, 1), None);
    let g = tip_through(&mut jar, key(3), 600, 2);
    assert_eq!(g, Some(GoalReached { tipjar: jar_key(), goal: 1000, total_received: 1100 }));
    assert_eq!(jar.total_received, 1100);
    assert_eq!(jar.total_tips_count, 2);
}

#[test]
fn goal_reached_fires_again_after_goal() {
    let mut jar = new_jar(1000);
    tip_through(&mut jar, key(2), 1000, 1);
    let g = tip_through(&mut jar, key(3), 1, 2);
    assert_eq!(g, Some(GoalReached { tipjar: jar_key(), goal: 1000, total_received: 1001 }));
}

#[test]
fn history_pages() {
    let mut jar = new_jar(u64::MAX);
    for i in 0..7u64 {
        tip_through(&mut jar, key(2), 1, i);
    }
    let p0: Vec<u64> = get_tip_history(&jar, 0, 3).iter().map(|t| t.timestamp).collect();
    assert_eq!(p0, vec![0, 1, 2]);
    let p2: Vec<u64> = get_tip_history(&jar, 2, 3).iter().map(|t| t.timestamp).collect();
    assert_eq!(p2, vec![6]);
    assert!(get_tip_history(&jar, 3, 3).is_empty());
    assert!(get_tip_history(&jar, 0, 0).is_empty());
    assert!(get_tip_history(&jar, u32::MAX, u32::MAX).is_empty());
}

#[test]
fn stats_report_percentage() {
    let mut jar = new_jar(1000);
    tip_through(&mut jar, key(2), 500, 1);
    tip_through(&mut jar, key(2), 600, 2);
    let s = get_tip_stats(&jar, jar_key());
    assert_eq!(s.tipjar, jar_key());
    assert_eq!(s.total_tips, 2);
    assert_eq!(s.total_received, 1100);
    assert!(s.is_active);
    assert_eq!(s.goal_percentage, 110);
}

#[test]
fn stats_percentage_edges() {
    let mut jar = new_jar(3);
    jar.total_received = 2;
    assert_eq!(get_tip_stats(&jar, jar_key()).goal_percentage, 66);
    jar.goal = 0;
    assert_eq!(get_tip_stats(&jar, jar_key()).goal_percentage, 0);
    jar.goal = 1;
    jar.total_received = u64::MAX;
    assert_eq!(get_tip_stats(&jar, jar_key()).goal_percentage, u64::MAX);
}

#[test]
fn clear_history_keeps_count() {
    let mut jar = new_jar(u64::MAX);
    for i in 0..105u64 {
        tip_through(&mut jar, key(2), 1, i);
    }
    assert_eq!(clear_tip_history(&mut jar, key(4)).unwrap_err(), TipJarError::Unauthorized);
    assert_eq!(jar.tips_history.len(), 100);
    clear_tip_history(&mut jar, owner()).unwrap();
    assert_eq!(jar.tips_history.len(), 0);
    assert_eq!(jar.last_tip_index, 0);
    assert_eq!(jar.total_tips_count, 105);
    assert_eq!(jar.total_received, 105);
}

#[test]
fn toggle_twice_restores_status() {
    let mut jar = new_jar(10);
    let e1 = toggle_tipjar_status(&mut jar, owner(), jar_key()).unwrap();
    assert!(!e1.is_active);
    assert!(!jar.is_active);
    let e2 = toggle_tipjar_status(&mut jar, owner(), jar_key()).unwrap();
    assert!(e2.is_active);
    assert_eq!(e2.tipjar, jar_key());
    assert!(jar.is_active);
}

#[test]
fn toggle_requires_owner() {
    let mut jar = new_jar(10);
    let r = toggle_tipjar_status(&mut jar, key(8), jar_key());
    assert_eq!(r.unwrap_err(), TipJarError::Unauthorized);
    assert!(jar.is_active);
}

#[test]
fn pause_and_resume_are_idempotent() {
    let mut jar = new_jar(10);
    pause_tipjar(&mut jar, owner()).unwrap();
    pause_tipjar(&mut jar, owner()).unwrap();
    assert!(!jar.is_active);
    resume_tipjar(&mut jar, owner()).unwrap();
    resume_tipjar(&mut jar, owner()).unwrap();
    assert!(jar.is_active);
    assert_eq!(pause_tipjar(&mut jar, key(8)).unwrap_err(), TipJarError::Unauthorized);
    assert_eq!(resume_tipjar(&mut jar, key(8)).unwrap_err(), TipJarError::Unauthorized);
    assert!(jar.is_active);
}

#[test]
fn update_replaces_metadata() {
    let mut jar = new_jar(10);
    update_tipjar(&mut jar, owner(), "new".to_string(), "art".to_string(), 77).unwrap();
    assert_eq!(jar.description, "new");
    assert_eq!(jar.category, "art");
    assert_eq!(jar.goal, 77);
}

#[test]
fn update_checks_owner_then_rules() {
    let mut jar = new_jar(10);
    let r = update_tipjar(&mut jar, key(8), "x".to_string(), "y".to_string(), 0);
    assert_eq!(r.unwrap_err(), TipJarError::Unauthorized);
    let r = update_tipjar(&mut jar, owner(), "x".to_string(), "y".to_string(), 0);
    assert_eq!(r.unwrap_err(), TipJarError::InvalidGoal);
    let r = update_tipjar(&mut jar, owner(), "x".repeat(201), "y".to_string(), 3);
    assert_eq!(r.unwrap_err(), TipJarError::DescriptionTooLong);
    let r = update_tipjar(&mut jar, owner(), "x".to_string(), "y".repeat(101), 3);
    assert_eq!(r.unwrap_err(), TipJarError::CategoryTooLong);
    assert_eq!(jar.goal, 10);
    assert_eq!(jar.description, "coffee fund");
}

#[test]
fn withdraw_checks_funds_then_limit() {
    let mut jar = new_jar(10);
    tip_through(&mut jar, key(2), 5000, 1);
    let r = withdraw_tip(&jar, owner(), jar_key(), 5001);
    assert_eq!(r.unwrap_err(), TipJarError::InsufficientFunds);
    let r = withdraw_tip(&jar, owner(), jar_key(), 1001);
    assert_eq!(r.unwrap_err(), TipJarError::WithdrawalLimitExceeded);
    let r = withdraw_tip(&jar, key(2), jar_key(), 10);
    assert_eq!(r.unwrap_err(), TipJarError::Unauthorized);
    let t = withdraw_tip(&jar, owner(), jar_key(), 1000).unwrap();
    assert_eq!(t, Transfer { from: jar_key(), to: owner(), lamports: 1000 });
    settle_withdrawal(&mut jar, t.lamports);
    assert_eq!(jar.total_received, 4000);
    assert_eq!(jar.total_tips_count, 1);
}

#[test]
fn withdraw_beyond_balance_small_jar() {
    let mut jar = new_jar(10);
    tip_through(&mut jar, key(2), 50, 1);
    let r = withdraw_tip(&jar, owner(), jar_key(), 51);
    assert_eq!(r.unwrap_err(), TipJarError::InsufficientFunds);
}

#[test]
fn close_empty_jar_transfers_nothing() {
    let jar = new_jar(10);
    let order = close_tipjar(&jar, owner(), jar_key()).unwrap();
    assert_eq!(order, CloseOrder { transfer: None, release_to: owner() });
}

#[test]
fn close_pays_out_balance() {
    let mut jar = new_jar(10);
    tip_through(&mut jar, key(2), 1234, 1);
    let order = close_tipjar(&jar, owner(), jar_key()).unwrap();
    assert_eq!(
        order,
        CloseOrder {
            transfer: Some(Transfer { from: jar_key(), to: owner(), lamports: 1234 }),
            release_to: owner(),
        }
    );
    assert_eq!(close_tipjar(&jar, key(2), jar_key()).unwrap_err(), TipJarError::Unauthorized);
}

#[test]
fn pubkey_equality_compares_all_bytes() {
    let mut b = [7u8; 32];
    let a = Pubkey::new(b);
    b[31] = 8;
    let c = Pubkey::new(b);
    assert!(a.key_eq(&a));
    assert!(!a.key_eq(&c));
    assert!(a != c);
    assert!(a == Pubkey::new([7u8; 32]));
}

#[test]
fn well_formedness_of_loaded_records() {
    let mut jar = new_jar(10);
    assert!(jar.is_well_formed());
    tip_through(&mut jar, key(2), 3, 1);
    assert!(jar.is_well_formed());
    jar.last_tip_index = 5;
    assert!(!jar.is_well_formed());
    jar.last_tip_index = 0;
    jar.tips_history[0].memo = "x".repeat(101);
    assert!(!jar.is_well_formed());
    jar.tips_history[0].memo = String::new();
    jar.goal = 0;
    assert!(!jar.is_well_formed());
}
