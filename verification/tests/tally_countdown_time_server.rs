use subathon_timer::countdown::format_seconds;
use subathon_timer::json::JsonValue;
use subathon_timer::time_server::{
    kofi_amount_text, kofi_data_text, kofi_transaction_id, read_twitch_event, subscription_tier,
    TimedTwitchEvent,
};
use subathon_timer::tally::{sub_weight, EventTally, TallyEvent};

fn s(x: &str) -> String {
    x.to_string()
}

fn obj(members: Vec<(&str, JsonValue)>) -> JsonValue {
    JsonValue::Object(members.into_iter().map(|(k, v)| (k.to_string(), v)).collect())
}

#[test]
fn sub_weights_by_tier() {
    assert_eq!(sub_weight(1000), 1);
    assert_eq!(sub_weight(2000), 2);
    assert_eq!(sub_weight(3000), 5);
    assert_eq!(sub_weight(0), 1);
}

#[test]
fn tally_counts_events() {
    let mut t = EventTally::new();
    t.record(TallyEvent::AddSub(3000));
    t.record(TallyEvent::AddSub(1000));
    t.record(TallyEvent::AddBits(250));
    t.record(TallyEvent::AddChannelPointReward);
    assert_eq!((t.subs, t.bits, t.channel_point_rewards), (6, 250, 1));
}

#[test]
fn tally_order_does_not_matter() {
    let mut a = EventTally::new();
    a.record(TallyEvent::AddBits(5));
    a.record(TallyEvent::AddSub(2000));
    let mut b = EventTally::new();
    b.record(TallyEvent::AddSub(2000));
    b.record(TallyEvent::AddBits(5));
    assert_eq!((a.subs, a.bits, a.channel_point_rewards), (b.subs, b.bits, b.channel_point_rewards));
}

#[test]
fn tally_refuses_overflow() {
    let t = EventTally { subs: u64::MAX - 1, bits: u64::MAX, channel_point_rewards: u64::MAX };
    assert!(t.can_record(TallyEvent::AddSub(1000)));
    assert!(!t.can_record(TallyEvent::AddSub(2000)));
    assert!(t.can_record(TallyEvent::AddBits(0)));
    assert!(!t.can_record(TallyEvent::AddBits(1)));
    assert!(!t.can_record(TallyEvent::AddChannelPointReward));
}

/// The text built with std formatting, from the whole seconds.
fn countdown_oracle(total: i64) -> String {
    let days = total / 86400;
    let hours = (total / 3600) % 24;
    let minutes = (total / 60) % 60;
    let seconds = total % 60;
    let mut result = String::new();
    if days > 0 {
        result.push_str(&days.to_string());
        result.push(':');
    }
    result.push_str(&hours.to_string());
    result.push(':');
    if minutes < 10 {
        result.push('0');
    }
    result.push_str(&minutes.to_string());
    result.push(':');
    if seconds < 10 {
        result.push('0');
    }
    result.push_str(&seconds.to_string());
    result
}

#[test]
fn countdown_texts() {
    assert_eq!(format_seconds(0), "0:00:00");
    assert_eq!(format_seconds(3725), "1:02:05");
    assert_eq!(format_seconds(6 * 3600 + 1), "6:00:01");
    assert_eq!(format_seconds(86400 + 3600 * 2 + 60 * 10 + 59), "1:2:10:59");
    assert_eq!(format_seconds(-65), "0:0-1:0-5");
    for secs in [i64::MIN, i64::MIN + 1, -86401, -3600, -1, 59, 60, 599, 600, 3599, 86399, 86400, 90061, i64::MAX] {
        assert_eq!(format_seconds(secs), countdown_oracle(secs));
    }
    assert_eq!(subathon_timer::countdown::format(chrono::TimeDelta::seconds(3725)), "1:02:05");
    assert_eq!(subathon_timer::countdown::format(chrono::TimeDelta::milliseconds(-1500)), "0:00:0-1");
}

/// The fields of a countdown text read back as whole seconds.
fn read_back(text: &str) -> i64 {
    text.split(':').fold(0i64, |acc, f| {
        let v: i64 = f.parse().unwrap();
        acc * 60 + v
    })
}

#[test]
fn countdown_reads_back() {
    for secs in [0i64, 1, 59, 60, 3599, 3600, 86399] {
        assert_eq!(read_back(&format_seconds(secs)), secs);
    }
    for secs in [86400i64, 90061, 1_000_000, 987_654_321] {
        let text = format_seconds(secs);
        let f: Vec<i64> = text.split(':').map(|x| x.parse().unwrap()).collect();
        assert_eq!(f.len(), 4);
        assert_eq!(((f[0] * 24 + f[1]) * 60 + f[2]) * 60 + f[3], secs);
    }
}

#[test]
fn time_server_twitch_reading() {
    let sub = obj(vec![("type", JsonValue::Str(s("channel.cheer"))), ("id", JsonValue::Str(s("x1")))]);
    let body = obj(vec![("subscription", sub), ("event", obj(vec![("bits", JsonValue::Number(100.0f64.to_bits()))]))]);
    assert!(matches!(read_twitch_event(&body).unwrap(), TimedTwitchEvent::Cheer { id, bits } if id == "x1" && f64::from_bits(bits) == 100.0));
    assert_eq!(read_twitch_event(&JsonValue::Null).unwrap_err(), "");
    assert_eq!(read_twitch_event(&obj(vec![])).unwrap_err(), "no subscription found");
    let no_bits = obj(vec![
        ("subscription", obj(vec![("type", JsonValue::Str(s("channel.cheer"))), ("id", JsonValue::Str(s("x2")))])),
        ("event", obj(vec![])),
    ]);
    assert_eq!(read_twitch_event(&no_bits).unwrap_err(), "bits not found");
    let event = obj(vec![("tier", JsonValue::Str(s("1000")))]);
    let subscribe = obj(vec![
        ("subscription", obj(vec![("type", JsonValue::Str(s("channel.subscribe"))), ("id", JsonValue::Str(s("x3")))])),
        ("event", event),
    ]);
    match read_twitch_event(&subscribe).unwrap() {
        TimedTwitchEvent::Subscribe { id, event } => {
            assert_eq!(id, "x3");
            assert_eq!(subscription_tier(event).unwrap(), "1000");
        }
        other => panic!("unexpected {:?}", other),
    }
    let bad_event = obj(vec![
        ("subscription", obj(vec![("type", JsonValue::Str(s("x"))), ("id", JsonValue::Str(s("x4")))])),
        ("event", JsonValue::Null),
    ]);
    assert_eq!(read_twitch_event(&bad_event).unwrap_err(), "subscription not an Object");
}

#[test]
fn time_server_kofi_reading() {
    assert_eq!(kofi_data_text(&vec![]).unwrap_err(), "nani=");
    assert_eq!(kofi_data_text(&vec![(s("data"), s("{}"))]).unwrap(), "{}");
    assert_eq!(kofi_amount_text(&JsonValue::Null).unwrap_err(), "NANI????");
    assert_eq!(kofi_amount_text(&obj(vec![])).unwrap_err(), "No amount");
    let data = obj(vec![("amount", JsonValue::Str(s("4.50"))), ("kofi_transaction_id", JsonValue::Str(s("t")))]);
    assert_eq!(kofi_amount_text(&data).unwrap(), "4.50");
    assert_eq!(kofi_transaction_id(&data).unwrap(), "t");
    assert_eq!(kofi_transaction_id(&obj(vec![])).unwrap_err(), "No transaction id");
}
