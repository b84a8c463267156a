use tiny_future::flag::Flag;
use tiny_future::state::{accepted, claim, fill, must_wait, settle, still_blocked, Phase};
use tiny_future::text::{glimpse, render_cell, render_handle, slot_label, Glimpse};

#[test]
fn must_wait_truth_table() {
    assert!(must_wait(&None::<u8>, false));
    assert!(!must_wait(&None::<u8>, true));
    assert!(!must_wait(&Some(7u8), false));
    assert!(!must_wait(&Some(7u8), true));
}

#[test]
fn still_blocked_reads_the_flag() {
    let down = Flag::new();
    let up = Flag::new();
    up.raise();
    assert!(still_blocked(&None::<u8>, &down));
    assert!(!still_blocked(&None::<u8>, &up));
    assert!(!still_blocked(&Some(7u8), &down));
    assert!(!still_blocked(&Some(7u8), &up));
}

#[test]
fn fill_then_claim_delivers_once() {
    let mut slot: Option<u8> = None;
    fill(&mut slot, 7);
    assert_eq!(slot, Some(7));
    assert_eq!(claim(&mut slot), Some(7));
    assert_eq!(slot, None);
    assert_eq!(claim(&mut slot), None);
}

#[test]
fn settle_after_timeout_leaves_slot() {
    let mut empty: Option<u8> = None;
    assert_eq!(settle(&mut empty, true), None);
    assert_eq!(empty, None);
}

#[test]
fn settle_in_time_claims() {
    let mut slot: Option<u8> = Some(7);
    assert_eq!(settle(&mut slot, false), Some(Some(7)));
    assert_eq!(slot, None);
    assert_eq!(settle(&mut slot, false), Some(None));
}

#[test]
fn phases_are_distinct() {
    assert_ne!(Phase::Waiting, Phase::Filled);
    assert_ne!(Phase::Filled, Phase::Cancelled);
    assert_ne!(Phase::Waiting, Phase::Cancelled);
}

#[test]
fn glimpse_of_slot() {
    assert_eq!(glimpse(&Some(1u8)), Glimpse::Full);
    assert_eq!(glimpse(&None::<u8>), Glimpse::Empty);
}

#[test]
fn slot_labels() {
    assert_eq!(slot_label(Glimpse::Full), "Some(\"<opaque>\")");
    assert_eq!(slot_label(Glimpse::Empty), "None");
    assert_eq!(slot_label(Glimpse::Poisoned), "\"<poisoned>\"");
}

#[test]
fn render_cell_texts() {
    assert_eq!(render_cell(Glimpse::Full), "Future { signal: \"<opaque>\", result: Some(\"<opaque>\") }");
    assert_eq!(render_cell(Glimpse::Empty), "Future { signal: \"<opaque>\", result: None }");
    assert_eq!(render_cell(Glimpse::Poisoned), "Future { signal: \"<opaque>\", result: \"<poisoned>\" }");
}

#[test]
fn render_handle_texts() {
    assert_eq!(
        render_handle("Setter", Glimpse::Empty, true),
        "Setter { future: Future { signal: \"<opaque>\", result: None }, cancelled: true }"
    );
    assert_eq!(
        render_handle("Getter", Glimpse::Full, false),
        "Getter { future: Future { signal: \"<opaque>\", result: Some(\"<opaque>\") }, cancelled: false }"
    );
}

#[test]
fn flag_starts_down_and_stays_up() {
    let flag = Flag::new();
    assert!(!flag.is_raised());
    flag.raise();
    assert!(flag.is_raised());
    flag.raise();
    assert!(flag.is_raised());
}

#[test]
fn flag_shares_see_each_other() {
    let flag = Flag::new();
    let other = flag.share();
    assert!(!other.is_raised());
    flag.raise();
    assert!(other.is_raised());
}

#[test]
fn dropped_share_raises_the_flag() {
    let flag = Flag::new();
    let other = flag.share();
    drop(other);
    assert!(flag.is_raised());
}

#[test]
fn settle_hands_out_a_value_whatever_the_wait_reports() {
    let mut slot: Option<u8> = Some(7);
    assert_eq!(settle(&mut slot, true), Some(Some(7)));
    assert_eq!(slot, None);
    assert_eq!(settle(&mut slot, true), None);
}

#[test]
fn accepted_drops_a_value_once_cancelled() {
    assert_eq!(accepted(false, 7u8), Some(7));
    assert_eq!(accepted(true, 7u8), None);
}

#[test]
fn disarmed_share_leaves_the_flag() {
    let flag = Flag::new();
    let mut other = flag.share();
    other.disarm();
    drop(other);
    assert!(!flag.is_raised());
}

#[test]
fn disarmed_share_does_not_lower_the_flag() {
    let flag = Flag::new();
    let mut other = flag.share();
    flag.raise();
    other.disarm();
    drop(other);
    assert!(flag.is_raised());
}
