use subathon_timer::error::Error;
use subathon_timer::json::JsonValue;
use subathon_timer::kofi::{kofi_amount, kofi_data, kofi_record, KofiAction};
use subathon_timer::saved_ids::{check_transaction_id, SavedIds};
use subathon_timer::twitch::{extraction_error_for, handle_twitch_event, TwitchAction};

fn s(x: &str) -> String {
    x.to_string()
}

fn obj(members: Vec<(&str, JsonValue)>) -> JsonValue {
    JsonValue::Object(members.into_iter().map(|(k, v)| (k.to_string(), v)).collect())
}

fn notification(kind: &str, id: &str, event: JsonValue) -> JsonValue {
    obj(vec![
        ("subscription", obj(vec![("type", JsonValue::Str(s(kind))), ("id", JsonValue::Str(s(id)))])),
        ("event", event),
    ])
}

fn message(e: Error) -> String {
    e.to_string()
}

#[test]
fn saved_ids_report_repeats() {
    let mut ids = SavedIds::new();
    assert_eq!(ids.len(), 0);
    assert!(!check_transaction_id(&mut ids, "a"));
    assert!(check_transaction_id(&mut ids, "a"));
    assert!(!check_transaction_id(&mut ids, "b"));
    assert_eq!(ids.len(), 2);
    assert!(ids.contains("a") && ids.contains("b") && !ids.contains("c"));
    assert!(ids.insert("c"));
    assert!(!ids.insert("c"));
    assert_eq!(ids.len(), 3);
}

#[test]
fn extraction_errors_name_the_problem() {
    assert_eq!(message(extraction_error_for(s("Value not found"), "bits", "f64")), "Key not found: \"bits\"");
    assert_eq!(message(extraction_error_for(s("Not an object"), "bits", "f64")), "Could not extract as type \"obj\"");
    assert_eq!(message(extraction_error_for(s("Not a string"), "bits", "f64")), "Could not extract as type \"f64\"");
}

#[test]
fn twitch_body_must_be_an_object() {
    let mut ids = SavedIds::new();
    let r = handle_twitch_event(&JsonValue::Null, &mut ids);
    assert_eq!(message(r.unwrap_err()), "Could not extract as type \"obj\"");
}

#[test]
fn twitch_challenge_is_echoed() {
    let mut ids = SavedIds::new();
    let body = obj(vec![("challenge", JsonValue::Str(s("abc123")))]);
    let action = handle_twitch_event(&body, &mut ids).unwrap();
    assert!(matches!(&action, TwitchAction::Challenge(c) if c == "abc123"));
    assert_eq!(action.reply(), "abc123");
    assert_eq!(ids.len(), 0);
    let bad = obj(vec![("challenge", JsonValue::Null)]);
    assert_eq!(message(handle_twitch_event(&bad, &mut ids).unwrap_err()), "Could not extract as type \"str\"");
}

#[test]
fn twitch_cheer_is_counted_once() {
    let mut ids = SavedIds::new();
    let body = notification("channel.cheer", "t1", obj(vec![("bits", JsonValue::Number(500.0f64.to_bits()))]));
    let first = handle_twitch_event(&body, &mut ids).unwrap();
    match &first {
        TwitchAction::Cheer { id, bits } => {
            assert_eq!(id, "t1");
            assert_eq!(f64::from_bits(*bits), 500.0);
        }
        other => panic!("unexpected {:?}", other),
    }
    assert_eq!(first.reply(), "");
    let second = handle_twitch_event(&body, &mut ids).unwrap();
    assert!(matches!(second, TwitchAction::Duplicate));
    assert_eq!(ids.len(), 1);
}

#[test]
fn twitch_subscription_and_rewards() {
    let mut ids = SavedIds::new();
    let sub = notification("channel.subscribe", "s1", obj(vec![("tier", JsonValue::Str(s("2000")))]));
    assert!(matches!(handle_twitch_event(&sub, &mut ids).unwrap(),
        TwitchAction::Subscribe { id, tier } if id == "s1" && tier == "2000"));
    let kind = "channel.channel_points_custom_reward_redemption.add";
    let bonus = notification(kind, "r1", obj(vec![("reward", obj(vec![("title", JsonValue::Str(s("Subathon Bonus Minute")))]))]));
    assert!(matches!(handle_twitch_event(&bonus, &mut ids).unwrap(), TwitchAction::BonusMinute { id } if id == "r1"));
    let other = notification(kind, "r2", obj(vec![("reward", obj(vec![("title", JsonValue::Str(s("Hydrate")))]))]));
    assert!(matches!(handle_twitch_event(&other, &mut ids).unwrap(),
        TwitchAction::OtherReward { id, title } if id == "r2" && title == "Hydrate"));
    let follow = notification("channel.follow", "f1", JsonValue::Null);
    assert!(matches!(handle_twitch_event(&follow, &mut ids).unwrap(), TwitchAction::Ignored { id } if id == "f1"));
    assert_eq!(ids.len(), 4);
}

#[test]
fn twitch_field_errors() {
    let mut ids = SavedIds::new();
    let no_sub = obj(vec![("event", JsonValue::Null)]);
    assert_eq!(message(handle_twitch_event(&no_sub, &mut ids).unwrap_err()), "Key not found: \"subscription\"");
    let sub_not_obj = obj(vec![("subscription", JsonValue::Null), ("event", JsonValue::Null)]);
    assert_eq!(message(handle_twitch_event(&sub_not_obj, &mut ids).unwrap_err()), "Could not extract as type \"obj\"");
    let no_event = obj(vec![("subscription", obj(vec![("type", JsonValue::Str(s("x"))), ("id", JsonValue::Str(s("i")))]))]);
    assert_eq!(message(handle_twitch_event(&no_event, &mut ids).unwrap_err()), "Key not found: \"event\"");
    let bad_id = obj(vec![("subscription", obj(vec![("type", JsonValue::Str(s("x"))), ("id", JsonValue::Bool(true))])), ("event", JsonValue::Null)]);
    assert_eq!(message(handle_twitch_event(&bad_id, &mut ids).unwrap_err()), "Could not extract as type \"str\"");
    assert_eq!(ids.len(), 0);
    // The id is saved before the event is read, so a failing event is not read twice.
    let no_bits = notification("channel.cheer", "c9", obj(vec![]));
    assert_eq!(message(handle_twitch_event(&no_bits, &mut ids).unwrap_err()), "Key not found: \"bits\"");
    assert!(ids.contains("c9"));
    assert!(matches!(handle_twitch_event(&no_bits, &mut ids).unwrap(), TwitchAction::Duplicate));
    let text_bits = notification("channel.cheer", "c10", obj(vec![("bits", JsonValue::Str(s("5")))]));
    assert_eq!(message(handle_twitch_event(&text_bits, &mut ids).unwrap_err()), "Could not extract as type \"f64\"");
}

#[test]
fn kofi_steps() {
    let form = vec![(s("data"), s("{...}"))];
    assert_eq!(kofi_data(&form).unwrap(), "{...}");
    assert_eq!(message(kofi_data(&vec![(s("other"), s("x"))]).unwrap_err()), "Key not found: \"data\"");
    assert_eq!(message(kofi_amount(None).unwrap_err()), "Failed to parse \"str\" to \"value\"");
    let data = obj(vec![("amount", JsonValue::Str(s("3.00"))), ("kofi_transaction_id", JsonValue::Str(s("k1")))]);
    assert_eq!(kofi_amount(Some(&data)).unwrap(), "3.00");
    assert_eq!(message(kofi_amount(Some(&obj(vec![]))).unwrap_err()), "Key not found: \"amount\"");
    let mut ids = SavedIds::new();
    assert_eq!(message(kofi_record(&data, false, &mut ids).unwrap_err()), "Failed to parse \"str\" to \"f64\"");
    assert_eq!(ids.len(), 0);
    assert!(matches!(kofi_record(&data, true, &mut ids).unwrap(), KofiAction::Donation { transaction_id } if transaction_id == "k1"));
    assert!(matches!(kofi_record(&data, true, &mut ids).unwrap(), KofiAction::Duplicate));
    let no_id = obj(vec![("amount", JsonValue::Str(s("1")))]);
    assert_eq!(message(kofi_record(&no_id, true, &mut ids).unwrap_err()), "Key not found: \"kofi_transaction_id\"");
}

#[test]
fn repeated_checks_find_an_id_new_once() {
    let mut ids = SavedIds::new();
    let answers: Vec<bool> = (0..5).map(|_| check_transaction_id(&mut ids, "same")).collect();
    assert_eq!(answers, vec![false, true, true, true, true]);
    assert_eq!(ids.len(), 1);
}
