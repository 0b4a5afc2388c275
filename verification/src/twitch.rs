//! The decisions taken on a Twitch EventSub notification: answer a
//! verification challenge, drop a notification that was already handled,
//! or say which event it reports.

use vstd::prelude::*;
use crate::error::{Error, ErrorView};
use crate::json::{
    JsonValue, not_an_object, value_not_found, spec_extract_object_key, spec_extract_str,
    spec_extract_object_str, spec_extract_object_f64, has_member, lacks_member, lemma_member_reading,
    lemma_value_reading,
};
use crate::saved_ids::{SavedIds, check_transaction_id};

verus! {

/// What a Twitch notification asks for, once it has been read.
#[derive(Debug)]
pub enum TwitchAction {
    /// A verification request: the reply is the challenge text.
    Challenge(String),
    /// A notification whose id was already handled: nothing is done.
    Duplicate,
    /// Bits were cheered; `bits` is the (IEEE-754 bit pattern of the) amount.
    Cheer { id: String, bits: u64 },
    /// A subscription; `tier` is the tier as sent ("1000", "2000", "3000").
    Subscribe { id: String, tier: String },
    /// The channel point reward that buys a bonus minute was redeemed.
    BonusMinute { id: String },
    /// Another channel point reward was redeemed.
    OtherReward { id: String, title: String },
    /// A notification of a kind that is not counted; its id is saved all the same.
    Ignored { id: String },
}

/// The content of a [`TwitchAction`], over character sequences.
pub enum TwitchActionView {
    Challenge(Seq<char>),
    Duplicate,
    Cheer { id: Seq<char>, bits: u64 },
    Subscribe { id: Seq<char>, tier: Seq<char> },
    BonusMinute { id: Seq<char> },
    OtherReward { id: Seq<char>, title: Seq<char> },
    Ignored { id: Seq<char> },
}

impl View for TwitchAction {
    type V = TwitchActionView;

    open spec fn view(&self) -> TwitchActionView {
        match self {
            TwitchAction::Challenge(c) => TwitchActionView::Challenge(c@),
            TwitchAction::Duplicate => TwitchActionView::Duplicate,
            TwitchAction::Cheer { id, bits } => TwitchActionView::Cheer { id: id@, bits: *bits },
            TwitchAction::Subscribe { id, tier } => TwitchActionView::Subscribe { id: id@, tier: tier@ },
            TwitchAction::BonusMinute { id } => TwitchActionView::BonusMinute { id: id@ },
            TwitchAction::OtherReward { id, title } => TwitchActionView::OtherReward {
                id: id@,
                title: title@,
            },
            TwitchAction::Ignored { id } => TwitchActionView::Ignored { id: id@ },
        }
    }
}

/// The error that a failed extraction of the field `key` (expected to be
/// of type `expected`) is answered with: a missing key is named, a value
/// that is not an object is reported as such, any other mismatch names the
/// expected type.
pub open spec fn extraction_error(msg: Seq<char>, key: Seq<char>, expected: Seq<char>) -> ErrorView {
    if msg == value_not_found() {
        ErrorView::KeyNotFound(key)
    } else if msg == not_an_object() {
        ErrorView::CouldNotExtract("obj"@)
    } else {
        ErrorView::CouldNotExtract(expected)
    }
}

/// The title of the channel point reward that adds a bonus minute.
pub open spec fn bonus_minute_title() -> Seq<char> {
    "Subathon Bonus Minute"@
}

/// The action for a new notification of type `event_type` with id `id`
/// and event payload `event`.
pub open spec fn twitch_event_action(event_type: Seq<char>, id: Seq<char>, event: JsonValue) -> Result<
    TwitchActionView,
    ErrorView,
> {
    if event_type == "channel.cheer"@ {
        match spec_extract_object_f64(event, "bits"@) {
            Ok(bits) => Ok(TwitchActionView::Cheer { id, bits }),
            Err(m) => Err(extraction_error(m, "bits"@, "f64"@)),
        }
    } else if event_type == "channel.subscribe"@ {
        match spec_extract_object_str(event, "tier"@) {
            Ok(tier) => Ok(TwitchActionView::Subscribe { id, tier }),
            Err(m) => Err(extraction_error(m, "tier"@, "str"@)),
        }
    } else if event_type == "channel.channel_points_custom_reward_redemption.add"@ {
        match spec_extract_object_key(event, "reward"@) {
            Err(m) => Err(extraction_error(m, "reward"@, "obj"@)),
            Ok(reward) => match spec_extract_object_str(reward, "title"@) {
                Err(m) => Err(extraction_error(m, "title"@, "str"@)),
                Ok(title) => if title == bonus_minute_title() {
                    Ok(TwitchActionView::BonusMinute { id })
                } else {
                    Ok(TwitchActionView::OtherReward { id, title })
                },
            },
        }
    } else {
        Ok(TwitchActionView::Ignored { id })
    }
}

/// The outcome of a notification that is not a challenge, and the saved ids after it.
pub open spec fn twitch_notification_outcome(body: JsonValue, seen: Set<Seq<char>>) -> (
    Result<TwitchActionView, ErrorView>,
    Set<Seq<char>>,
) {
    match spec_extract_object_key(body, "subscription"@) {
        Err(m) => (Err(extraction_error(m, "subscription"@, "obj"@)), seen),
        Ok(subscription) => match spec_extract_object_str(subscription, "type"@) {
            Err(m) => (Err(extraction_error(m, "type"@, "str"@)), seen),
            Ok(event_type) => match spec_extract_object_str(subscription, "id"@) {
                Err(m) => (Err(extraction_error(m, "id"@, "str"@)), seen),
                Ok(id) => match spec_extract_object_key(body, "event"@) {
                    Err(m) => (Err(extraction_error(m, "event"@, "obj"@)), seen),
                    Ok(event) => if seen.contains(id) {
                        (Ok(TwitchActionView::Duplicate), seen)
                    } else {
                        (twitch_event_action(event_type, id, event), seen.insert(id))
                    },
                },
            },
        },
    }
}

/// The outcome of the notification `body` when the ids in `seen` were
/// already handled, and the saved ids after it.
pub open spec fn twitch_outcome(body: JsonValue, seen: Set<Seq<char>>) -> (
    Result<TwitchActionView, ErrorView>,
    Set<Seq<char>>,
) {
    match body {
        JsonValue::Object(_) => match spec_extract_object_key(body, "challenge"@) {
            Ok(c) => (
                match spec_extract_str(c) {
                    Ok(s) => Ok(TwitchActionView::Challenge(s)),
                    Err(m) => Err(extraction_error(m, "challenge"@, "str"@)),
                },
                seen,
            ),
            Err(_) => twitch_notification_outcome(body, seen),
        },
        _ => (Err(ErrorView::CouldNotExtract("obj"@)), seen),
    }
}

/// A notification is counted at most once: once a notification that is not
/// a challenge has been handled, handling it again, with any saved ids that
/// include those saved by the first handling, finds it a duplicate and saves
/// nothing more.  Handling never forgets a saved id.
pub proof fn lemma_replay_is_duplicate(body: JsonValue, seen: Set<Seq<char>>, later: Set<Seq<char>>)
    requires
        twitch_outcome(body, seen).0 is Ok,
        !(twitch_outcome(body, seen).0->Ok_0 is Challenge),
        twitch_outcome(body, seen).1.subset_of(later),
    ensures
        seen.subset_of(twitch_outcome(body, seen).1),
        twitch_outcome(body, later) == (
            Ok::<TwitchActionView, ErrorView>(TwitchActionView::Duplicate),
            later,
        ),
{
}

/// The event types and extraction messages are distinct texts.
proof fn lemma_texts_differ()
    ensures
        "Not a string"@ != "Value not found"@,
        "Not a string"@ != "Not an object"@,
        "channel.subscribe"@ != "channel.cheer"@,
        "channel.channel_points_custom_reward_redemption.add"@ != "channel.cheer"@,
        "channel.channel_points_custom_reward_redemption.add"@ != "channel.subscribe"@,
{
    reveal_strlit("Not a string");
    reveal_strlit("Value not found");
    reveal_strlit("Not an object");
    reveal_strlit("channel.subscribe");
    reveal_strlit("channel.cheer");
    reveal_strlit("channel.channel_points_custom_reward_redemption.add");
    assert("Not a string"@.len() != "Value not found"@.len());
    assert("Not a string"@.len() != "Not an object"@.len());
    assert("channel.subscribe"@.len() != "channel.cheer"@.len());
    assert("channel.channel_points_custom_reward_redemption.add"@.len() != "channel.cheer"@.len());
    assert("channel.channel_points_custom_reward_redemption.add"@.len() != "channel.subscribe"@.len());
}

/// A verification challenge is echoed: for every object body whose
/// `challenge` member holds a string, whatever else the body holds (a
/// subscription, an event), the answer is that string and the saved ids
/// stay as they were; a challenge that is not a string is refused.
pub proof fn lemma_challenge_is_echoed(body: JsonValue, seen: Set<Seq<char>>, challenge: JsonValue)
    requires
        has_member(body, "challenge"@, challenge),
    ensures
        challenge matches JsonValue::Str(c) ==> twitch_outcome(body, seen) == (
            Ok::<TwitchActionView, ErrorView>(TwitchActionView::Challenge(c@)),
            seen,
        ),
        !(challenge is Str) ==> twitch_outcome(body, seen) == (
            Err::<TwitchActionView, ErrorView>(ErrorView::CouldNotExtract("str"@)),
            seen,
        ),
{
    lemma_member_reading(body, "challenge"@, challenge);
    lemma_value_reading(challenge);
    lemma_texts_differ();
}

/// The envelope of a notification that is not a challenge: when the body
/// has a `subscription` object with a string `type` and a string `id`, and
/// an `event`, a notification whose id was saved is a duplicate and changes
/// nothing, and any other has its id saved and its event read by type.
pub proof fn lemma_notification_envelope(
    body: JsonValue,
    seen: Set<Seq<char>>,
    subscription: JsonValue,
    kind: JsonValue,
    id: JsonValue,
    event: JsonValue,
)
    requires
        lacks_member(body, "challenge"@),
        has_member(body, "subscription"@, subscription),
        has_member(subscription, "type"@, kind),
        kind is Str,
        has_member(subscription, "id"@, id),
        id is Str,
        has_member(body, "event"@, event),
    ensures
        seen.contains(id->Str_0@) ==> twitch_outcome(body, seen) == (
            Ok::<TwitchActionView, ErrorView>(TwitchActionView::Duplicate),
            seen,
        ),
        !seen.contains(id->Str_0@) ==> twitch_outcome(body, seen) == (
            twitch_event_action(kind->Str_0@, id->Str_0@, event),
            seen.insert(id->Str_0@),
        ),
{
    lemma_member_reading(body, "challenge"@, event);
    lemma_member_reading(body, "subscription"@, subscription);
    lemma_member_reading(subscription, "type"@, kind);
    lemma_member_reading(subscription, "id"@, id);
    lemma_member_reading(body, "event"@, event);
}

/// A cheer reports its bits: an event whose `bits` member is a number gives
/// a cheer of that many bits under the notification's id; any other `bits`
/// is refused as not a number.
pub proof fn lemma_cheer_reports_bits(id: Seq<char>, event: JsonValue, bits: JsonValue)
    requires
        has_member(event, "bits"@, bits),
    ensures
        bits matches JsonValue::Number(b) ==> twitch_event_action("channel.cheer"@, id, event) == Ok::<
            TwitchActionView,
            ErrorView,
        >(TwitchActionView::Cheer { id, bits: b }),
        !(bits is Number) ==> twitch_event_action("channel.cheer"@, id, event) == Err::<
            TwitchActionView,
            ErrorView,
        >(ErrorView::CouldNotExtract("f64"@)),
{
    lemma_member_reading(event, "bits"@, bits);
    lemma_value_reading(bits);
    lemma_texts_differ();
}

/// A subscription reports its tier: an event whose `tier` member is a
/// string gives a subscription of that tier under the notification's id.
pub proof fn lemma_subscription_reports_tier(id: Seq<char>, event: JsonValue, tier: JsonValue)
    requires
        has_member(event, "tier"@, tier),
        tier is Str,
    ensures
        twitch_event_action("channel.subscribe"@, id, event) == Ok::<TwitchActionView, ErrorView>(
            TwitchActionView::Subscribe { id, tier: tier->Str_0@ },
        ),
{
    lemma_member_reading(event, "tier"@, tier);
    lemma_texts_differ();
}

/// A reward redemption reports its reward: the title "Subathon Bonus
/// Minute" gives a bonus minute, any other title is reported as it is.
pub proof fn lemma_reward_reports_title(id: Seq<char>, event: JsonValue, reward: JsonValue, title: JsonValue)
    requires
        has_member(event, "reward"@, reward),
        has_member(reward, "title"@, title),
        title is Str,
    ensures
        title->Str_0@ == "Subathon Bonus Minute"@ ==> twitch_event_action(
            "channel.channel_points_custom_reward_redemption.add"@,
            id,
            event,
        ) == Ok::<TwitchActionView, ErrorView>(TwitchActionView::BonusMinute { id }),
        title->Str_0@ != "Subathon Bonus Minute"@ ==> twitch_event_action(
            "channel.channel_points_custom_reward_redemption.add"@,
            id,
            event,
        ) == Ok::<TwitchActionView, ErrorView>(
            TwitchActionView::OtherReward { id, title: title->Str_0@ },
        ),
{
    lemma_member_reading(event, "reward"@, reward);
    lemma_member_reading(reward, "title"@, title);
    lemma_texts_differ();
}

/// A notification of any other type is ignored (its id is saved all the same).
pub proof fn lemma_other_types_are_ignored(kind: Seq<char>, id: Seq<char>, event: JsonValue)
    requires
        kind != "channel.cheer"@,
        kind != "channel.subscribe"@,
        kind != "channel.channel_points_custom_reward_redemption.add"@,
    ensures
        twitch_event_action(kind, id, event) == Ok::<TwitchActionView, ErrorView>(
            TwitchActionView::Ignored { id },
        ),
{
}

/// The view of a handler's result.
pub open spec fn twitch_result_view(r: Result<TwitchAction, Error>) -> Result<TwitchActionView, ErrorView> {
    match r {
        Ok(a) => Ok(a@),
        Err(e) => Err(e@),
    }
}

/// The body of the reply to a handled notification.
pub open spec fn twitch_reply(a: TwitchActionView) -> Seq<char> {
    match a {
        TwitchActionView::Challenge(c) => c,
        _ => Seq::empty(),
    }
}

/// The error for a failed extraction of `key`, expected to be of type `expected`.
pub fn extraction_error_for(msg: String, key: &str, expected: &str) -> (e: Error)
    ensures
        e@ == extraction_error(msg@, key@, expected@),
{
    if msg == String::from_str("Value not found") {
        Error::knf(key)
    } else if msg == String::from_str("Not an object") {
        Error::cne("obj")
    } else {
        Error::cne(expected)
    }
}

/// Whether `s` is the text `lit`.
fn text_is(s: &String, lit: &str) -> (b: bool)
    ensures
        b == (s@ == lit@),
{
    *s == String::from_str(lit)
}

/// The action for a new notification of type `event_type`.
fn event_action(event_type: &String, id: String, event: &JsonValue) -> (r: Result<TwitchAction, Error>)
    ensures
        twitch_result_view(r) == twitch_event_action(event_type@, id@, *event),
{
    if text_is(event_type, "channel.cheer") {
        match event.extract_object_f64("bits") {
            Ok(bits) => Ok(TwitchAction::Cheer { id, bits }),
            Err(m) => Err(extraction_error_for(m, "bits", "f64")),
        }
    } else if text_is(event_type, "channel.subscribe") {
        match event.extract_object_str("tier") {
            Ok(tier) => Ok(TwitchAction::Subscribe { id, tier }),
            Err(m) => Err(extraction_error_for(m, "tier", "str")),
        }
    } else if text_is(event_type, "channel.channel_points_custom_reward_redemption.add") {
        match event.extract_object_key("reward") {
            Err(m) => Err(extraction_error_for(m, "reward", "obj")),
            Ok(reward) => match reward.extract_object_str("title") {
                Err(m) => Err(extraction_error_for(m, "title", "str")),
                Ok(title) => if text_is(&title, "Subathon Bonus Minute") {
                    Ok(TwitchAction::BonusMinute { id })
                } else {
                    Ok(TwitchAction::OtherReward { id, title })
                },
            },
        }
    } else {
        Ok(TwitchAction::Ignored { id })
    }
}

/// Reads a Twitch notification and decides what it asks for.
///
/// A challenge is answered without touching the saved ids.  Otherwise the
/// subscription's type and id and the event are read; a notification whose
/// id was saved before is a duplicate, any other has its id saved (before
/// its event is read further, so that an event that fails to read is not
/// read again either).
pub fn handle_twitch_event(body: &JsonValue, saved_ids: &mut SavedIds) -> (r: Result<TwitchAction, Error>)
    ensures
        twitch_result_view(r) == twitch_outcome(*body, old(saved_ids)@).0,
        final(saved_ids)@ == twitch_outcome(*body, old(saved_ids)@).1,
{
    match body {
        JsonValue::Object(_) => {},
        _ => {
            return Err(Error::cne("obj"));
        },
    }
    if let Ok(c) = body.extract_object_key("challenge") {
        return match c.extract_str() {
            Ok(s) => Ok(TwitchAction::Challenge(s)),
            Err(m) => Err(extraction_error_for(m, "challenge", "str")),
        };
    }
    let subscription = match body.extract_object_key("subscription") {
        Ok(v) => v,
        Err(m) => {
            return Err(extraction_error_for(m, "subscription", "obj"));
        },
    };
    let event_type = match subscription.extract_object_str("type") {
        Ok(v) => v,
        Err(m) => {
            return Err(extraction_error_for(m, "type", "str"));
        },
    };
    let id = match subscription.extract_object_str("id") {
        Ok(v) => v,
        Err(m) => {
            return Err(extraction_error_for(m, "id", "str"));
        },
    };
    let event = match body.extract_object_key("event") {
        Ok(v) => v,
        Err(m) => {
            return Err(extraction_error_for(m, "event", "obj"));
        },
    };
    if check_transaction_id(saved_ids, id.as_str()) {
        return Ok(TwitchAction::Duplicate);
    }
    event_action(&event_type, id, event)
}

impl TwitchAction {
    /// The body of the reply: the challenge text for a challenge, empty otherwise.
    pub fn reply(&self) -> (s: String)
        ensures
            s@ == twitch_reply(self@),
    {
        match self {
            TwitchAction::Challenge(c) => c.clone(),
            _ => String::new(),
        }
    }
}

} // verus!
