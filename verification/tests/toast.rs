use snora::toast::{
    horizontal_align, needs_sweep_ticks, render_order_for, stack_order, sweep_expired,
    vertical_align, Horizontal, Toast, ToastIntent, ToastLifetime, ToastPosition,
    ToastRenderOrder, Vertical, DEFAULT_LIFETIME_MS, SWEEP_INTERVAL_MS,
};
use snora::LayoutDirection;

#[test]
fn sweep_drops_only_expired_transient() {
    let base: u64 = 5_000;

    let live_transient = Toast::new(1, ToastIntent::Info, "a", "b", ())
        .with_lifetime(ToastLifetime::seconds(10))
        .with_created_at(base);
    let dead_transient = Toast::new(2, ToastIntent::Info, "a", "b", ())
        .with_lifetime(ToastLifetime::millis(100))
        .with_created_at(base);
    let persistent = Toast::new(3, ToastIntent::Error, "a", "b", ()).persistent().with_created_at(base);

    let mut v = vec![live_transient, dead_transient, persistent];
    sweep_expired(&mut v, base + 1_000);

    let remaining_ids: Vec<u64> = v.iter().map(|t| t.id).collect();
    assert_eq!(remaining_ids, vec![1, 3]);
}

#[test]
fn top_end_ltr_resolves_right() {
    assert_eq!(horizontal_align(ToastPosition::TopEnd, LayoutDirection::Ltr), Horizontal::Right);
}

#[test]
fn top_end_rtl_mirrors_to_left() {
    assert_eq!(horizontal_align(ToastPosition::TopEnd, LayoutDirection::Rtl), Horizontal::Left);
}

#[test]
fn top_start_ltr_resolves_left() {
    assert_eq!(horizontal_align(ToastPosition::TopStart, LayoutDirection::Ltr), Horizontal::Left);
}

#[test]
fn top_start_rtl_mirrors_to_right() {
    assert_eq!(horizontal_align(ToastPosition::TopStart, LayoutDirection::Rtl), Horizontal::Right);
}

#[test]
fn center_positions_unaffected_by_direction() {
    for dir in [LayoutDirection::Ltr, LayoutDirection::Rtl] {
        assert_eq!(
            horizontal_align(ToastPosition::TopCenter, dir),
            Horizontal::Center,
            "TopCenter must be unaffected by direction ({dir:?})",
        );
        assert_eq!(
            horizontal_align(ToastPosition::BottomCenter, dir),
            Horizontal::Center,
            "BottomCenter must be unaffected by direction ({dir:?})",
        );
    }
}

#[test]
fn top_positions_render_reverse_chronological() {
    for pos in [ToastPosition::TopEnd, ToastPosition::TopStart, ToastPosition::TopCenter] {
        assert_eq!(
            render_order_for(pos),
            ToastRenderOrder::ReverseChronological,
            "{pos:?} should use reverse-chronological order",
        );
    }
}

#[test]
fn bottom_positions_render_chronological() {
    for pos in [ToastPosition::BottomEnd, ToastPosition::BottomStart, ToastPosition::BottomCenter] {
        assert_eq!(
            render_order_for(pos),
            ToastRenderOrder::Chronological,
            "{pos:?} should use chronological order",
        );
    }
}

#[test]
fn bottom_positions_mirror_too() {
    assert_eq!(horizontal_align(ToastPosition::BottomEnd, LayoutDirection::Ltr), Horizontal::Right);
    assert_eq!(horizontal_align(ToastPosition::BottomEnd, LayoutDirection::Rtl), Horizontal::Left);
    assert_eq!(horizontal_align(ToastPosition::BottomStart, LayoutDirection::Ltr), Horizontal::Left);
    assert_eq!(horizontal_align(ToastPosition::BottomStart, LayoutDirection::Rtl), Horizontal::Right);
}

#[test]
fn vertical_anchor_follows_the_position() {
    for pos in [ToastPosition::TopStart, ToastPosition::TopCenter, ToastPosition::TopEnd] {
        assert_eq!(vertical_align(pos), Vertical::Top);
        assert!(pos.is_top());
    }
    for pos in [ToastPosition::BottomStart, ToastPosition::BottomCenter, ToastPosition::BottomEnd] {
        assert_eq!(vertical_align(pos), Vertical::Bottom);
        assert!(!pos.is_top());
    }
}

#[test]
fn newest_toast_lands_next_to_the_anchor() {
    let queue = vec![1, 2, 3];
    assert_eq!(stack_order(queue.clone(), ToastPosition::TopEnd), vec![3, 2, 1]);
    assert_eq!(stack_order(queue.clone(), ToastPosition::BottomEnd), vec![1, 2, 3]);
    assert_eq!(stack_order(Vec::<u8>::new(), ToastPosition::TopCenter), Vec::<u8>::new());
}

#[test]
fn new_toast_defaults() {
    let t = Toast::new(11, ToastIntent::Warning, "title", "body", 5u8);
    assert_eq!(t.id, 11);
    assert_eq!(t.intent, ToastIntent::Warning);
    assert_eq!(t.title, "title");
    assert_eq!(t.message, "body");
    assert_eq!(t.on_dismiss, 5);
    assert_eq!(t.lifetime, ToastLifetime::Transient(DEFAULT_LIFETIME_MS));
    assert_eq!(t.created_at, None);
}

#[test]
fn lifetimes_count_milliseconds() {
    assert_eq!(ToastLifetime::seconds(10), ToastLifetime::Transient(10_000));
    assert_eq!(ToastLifetime::seconds(0), ToastLifetime::Transient(0));
    assert_eq!(ToastLifetime::millis(100), ToastLifetime::Transient(100));
    assert_eq!(ToastLifetime::seconds(u64::MAX), ToastLifetime::Transient(u64::MAX));
    assert_eq!(ToastLifetime::seconds(u64::MAX / 1000), ToastLifetime::Transient(u64::MAX / 1000 * 1000));
}

#[test]
fn expiry_starts_exactly_when_the_lifetime_has_elapsed() {
    let t = Toast::new(1, ToastIntent::Info, "a", "b", ())
        .with_lifetime(ToastLifetime::millis(100))
        .with_created_at(1_000);
    assert!(!t.is_expired(1_099));
    assert!(t.is_expired(1_100));
    assert!(t.is_expired(u64::MAX));
    // A clock reading before creation counts as no time elapsed.
    assert!(!t.is_expired(0));
    let p = t.persistent();
    assert!(!p.is_expired(u64::MAX));
}

#[test]
fn zero_lifetime_expires_at_once() {
    let t = Toast::new(1, ToastIntent::Debug, "a", "b", ()).with_lifetime(ToastLifetime::millis(0));
    assert!(t.is_expired(0));
}

#[test]
fn sweep_keeps_queue_order_and_is_idempotent() {
    let mk = |id: u64, ms: u64| {
        Toast::new(id, ToastIntent::Success, "a", "b", ()).with_lifetime(ToastLifetime::millis(ms)).with_created_at(0)
    };
    let mut v = vec![mk(1, 50), mk(2, 500), mk(3, 10), mk(4, 900), mk(5, 100)];
    sweep_expired(&mut v, 100);
    let ids: Vec<u64> = v.iter().map(|t| t.id).collect();
    assert_eq!(ids, vec![2, 4]);
    sweep_expired(&mut v, 100);
    let again: Vec<u64> = v.iter().map(|t| t.id).collect();
    assert_eq!(again, ids);
    sweep_expired(&mut v, 10_000);
    assert!(v.is_empty());
}

#[test]
fn an_unstamped_toast_counts_its_lifetime_from_the_first_sweep() {
    let fresh = Toast::new(1, ToastIntent::Info, "a", "b", ()).with_lifetime(ToastLifetime::millis(100));
    let old = Toast::new(2, ToastIntent::Info, "a", "b", ())
        .with_lifetime(ToastLifetime::millis(10_000))
        .with_created_at(3_000);
    let mut v = vec![fresh, old];
    sweep_expired(&mut v, 5_000);
    let stamps: Vec<(u64, Option<u64>)> = v.iter().map(|t| (t.id, t.created_at)).collect();
    assert_eq!(stamps, vec![(1, Some(5_000)), (2, Some(3_000))]);
    sweep_expired(&mut v, 5_099);
    assert_eq!(v.len(), 2);
    sweep_expired(&mut v, 5_100);
    let ids: Vec<u64> = v.iter().map(|t| t.id).collect();
    assert_eq!(ids, vec![2]);
    // A zero lifetime ends at the sweep that stamps it.
    let mut v = vec![Toast::new(3, ToastIntent::Info, "a", "b", ()).with_lifetime(ToastLifetime::millis(0))];
    sweep_expired(&mut v, 7);
    assert!(v.is_empty());
}

#[test]
fn sweep_of_an_empty_queue_is_empty() {
    let mut v: Vec<Toast<()>> = Vec::new();
    sweep_expired(&mut v, 12);
    assert!(v.is_empty());
}

#[test]
fn ticks_only_while_a_transient_toast_is_queued() {
    let empty: Vec<Toast<()>> = Vec::new();
    assert!(!needs_sweep_ticks(&empty));
    let persistent = vec![Toast::new(1, ToastIntent::Info, "a", "b", ()).persistent()];
    assert!(!needs_sweep_ticks(&persistent));
    let mixed = vec![
        Toast::new(1, ToastIntent::Info, "a", "b", ()).persistent(),
        Toast::new(2, ToastIntent::Info, "a", "b", ()),
    ];
    assert!(needs_sweep_ticks(&mixed));
    assert_eq!(SWEEP_INTERVAL_MS, 500);
}
