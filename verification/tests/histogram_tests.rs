use eclair_tortoise::audit::RelayedInfo;
use eclair_tortoise::common::Timestamp;
use eclair_tortoise::histogram::{
    bin_relay_counts, bin_relay_volumes, get_relays_amounts_line, get_relays_volumes_line,
    normalize_line,
};

const DAY: u64 = 24 * 3600;

fn relay(amount_in: u64, amount_out: u64, ts: u64) -> RelayedInfo {
    RelayedInfo {
        _type: "payment-relayed".to_string(),
        amount_in,
        amount_out,
        payment_hash: "hash".to_string(),
        from_channel_id: "chan-in".to_string(),
        to_channel_id: "chan-out".to_string(),
        timestamp: Timestamp { iso: String::new(), unix: ts },
    }
}

#[test]
fn count_bins_sum_to_event_count() {
    // width 5 -> 3 buckets, last bucket index 2; window one day ending at
    // 2 * DAY, so the cutoff is DAY (events at exactly DAY are discarded).
    let now = 2 * DAY;
    let events = vec![
        relay(10, 5, DAY + 1),      // bucket 0
        relay(30, 10, DAY + 2),     // bucket 0
        relay(0, 0, DAY + 43201),   // bucket 1; zero amounts still count
        relay(60, 20, 2 * DAY),     // bucket 2 (event at `now`)
        relay(99, 9, DAY),          // at the cutoff: discarded
        relay(99, 9, 7),            // far in the past: discarded
    ];
    let buckets = bin_relay_counts(&events, now, DAY, 5);
    assert_eq!(buckets, vec![2, 1, 1]);
    let in_window = 4u64;
    assert_eq!(buckets.iter().sum::<u64>(), in_window);
}

#[test]
fn volume_bins_hold_amount_sums() {
    let now = 2 * DAY;
    let events = vec![
        relay(10, 5, DAY + 1),
        relay(30, 10, DAY + 2),
        relay(0, 0, DAY + 43201),
        relay(60, 20, 2 * DAY),
        relay(99, 9, DAY),
    ];
    let buckets = bin_relay_volumes(&events, now, DAY, 5);
    assert_eq!(buckets, vec![40, 0, 60]);
    assert_eq!(buckets.iter().sum::<u64>(), 100);
}

#[test]
fn normalization_puts_maximum_at_100() {
    let raw = vec![1u64, 2, 3];
    let (line, max) = normalize_line(&raw);
    assert_eq!(max, 3);
    assert_eq!(line, vec![33, 67, 100]);
    assert!(line.iter().all(|v| *v <= 100));
    assert!(line.iter().any(|v| *v == 100));
}

#[test]
fn normalization_rounds_half_up() {
    // 1 of 8 is 12.5%, rounded up to 13.
    let raw = vec![1u64, 8];
    let (line, max) = normalize_line(&raw);
    assert_eq!(max, 8);
    assert_eq!(line, vec![13, 100]);
}

#[test]
fn normalization_of_all_zero_buckets_is_empty() {
    let raw = vec![0u64, 0, 0];
    let (line, max) = normalize_line(&raw);
    assert_eq!(max, 0);
    assert!(line.is_empty());
}

#[test]
fn no_events_in_trailing_day_gives_empty_line() {
    // The only event is older than one day: empty series, maximum 0.
    let now = 3 * DAY;
    let events = vec![relay(500, 100, now - 2 * DAY)];
    let (line, max) = get_relays_amounts_line(&events, now, 80);
    assert!(line.is_empty());
    assert_eq!(max, 0);
    let (vline, vmax) = get_relays_volumes_line(&events, now, 80);
    assert!(vline.is_empty());
    assert_eq!(vmax, 0);
}

#[test]
fn empty_event_set_gives_empty_line() {
    let events: Vec<RelayedInfo> = vec![];
    let (line, max) = get_relays_amounts_line(&events, 2 * DAY, 80);
    assert!(line.is_empty());
    assert_eq!(max, 0);
}

#[test]
fn amounts_line_normalizes_counts() {
    let now = 2 * DAY;
    let events = vec![
        relay(10, 5, DAY + 1),
        relay(30, 10, DAY + 2),
        relay(0, 0, DAY + 43201),
        relay(60, 20, 2 * DAY),
    ];
    let (line, max) = get_relays_amounts_line(&events, now, 5);
    assert_eq!(max, 2);
    assert_eq!(line, vec![100, 50, 50]);
}

#[test]
fn volumes_line_normalizes_amounts() {
    let now = 2 * DAY;
    let events = vec![
        relay(10, 5, DAY + 1),
        relay(30, 10, DAY + 2),
        relay(0, 0, DAY + 43201),
        relay(60, 20, 2 * DAY),
    ];
    let (line, max) = get_relays_volumes_line(&events, now, 5);
    assert_eq!(max, 60);
    assert_eq!(line, vec![67, 0, 100]);
}

#[test]
fn extreme_amounts_do_not_overflow() {
    let now = 2 * DAY;
    let events = vec![relay(u64::MAX, 0, DAY + 1)];
    let (line, max) = get_relays_volumes_line(&events, now, 3);
    assert_eq!(max, u64::MAX);
    assert_eq!(line, vec![100]);
}

#[test]
fn future_events_land_in_last_bucket() {
    let now = 2 * DAY;
    let events = vec![relay(5, 1, now + 999)];
    let buckets = bin_relay_counts(&events, now, DAY, 5);
    assert_eq!(buckets, vec![0, 0, 1]);
}

#[test]
fn window_reaching_past_epoch_keeps_all_events() {
    // A clock value smaller than the window: the cutoff lies before the
    // epoch, so every event is retained.
    let now = 100;
    let events = vec![relay(5, 1, 1), relay(7, 2, 100)];
    let buckets = bin_relay_counts(&events, now, DAY, 5);
    assert_eq!(buckets.iter().sum::<u64>(), 2);
}

#[test]
fn minimum_width_gives_single_bucket() {
    let now = 2 * DAY;
    let events = vec![relay(10, 5, DAY + 1), relay(30, 10, 2 * DAY)];
    let buckets = bin_relay_counts(&events, now, DAY, 3);
    assert_eq!(buckets, vec![2]);
}
