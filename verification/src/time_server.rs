//! The decisions of the time server: the webhook server that answers errors with
//! plain messages and turns every event into an amount of time.
//!
//! It reads the notification in steps that alternate with work done by the
//! caller (printing, parsing numbers, sending): a step ends where the
//! caller has to act.

use vstd::prelude::*;
use crate::json::{JsonValue, spec_get, has_member, lacks_member, lemma_member_reading};

verus! {

/// What `member_object` gives: the member `key` of `v` when it is an
/// object; `missing` when there is no such member, `wrong` when it is not
/// an object.
pub open spec fn spec_member_object(v: JsonValue, key: Seq<char>, missing: Seq<char>, wrong: Seq<char>) -> Result<
    JsonValue,
    Seq<char>,
> {
    match spec_get(v, key) {
        None => Err(missing),
        Some(x) => match x {
            JsonValue::Object(_) => Ok(x),
            _ => Err(wrong),
        },
    }
}

/// What `member_str` gives: the member `key` of `v` as a string; `missing`
/// when there is no such member, `wrong` when it is not a string.
pub open spec fn spec_member_str(v: JsonValue, key: Seq<char>, missing: Seq<char>, wrong: Seq<char>) -> Result<
    Seq<char>,
    Seq<char>,
> {
    match spec_get(v, key) {
        None => Err(missing),
        Some(x) => match x {
            JsonValue::Str(s) => Ok(s@),
            _ => Err(wrong),
        },
    }
}

/// Whether the member `key` of `v`, if there is one, is a string.
pub open spec fn member_is_str_if_present(v: JsonValue, key: Seq<char>) -> bool {
    match spec_get(v, key) {
        Some(x) => x is Str,
        None => true,
    }
}

fn member_object<'a>(v: &'a JsonValue, key: &str, missing: &str, wrong: &str) -> (r: Result<
    &'a JsonValue,
    String,
>)
    ensures
        match spec_member_object(*v, key@, missing@, wrong@) {
            Ok(x) => r matches Ok(y) && *y == x,
            Err(m) => r matches Err(e) && e@ == m,
        },
{
    match v.get(key) {
        None => Err(String::from_str(missing)),
        Some(x) => match x {
            JsonValue::Object(_) => Ok(x),
            _ => Err(String::from_str(wrong)),
        },
    }
}

fn member_str(v: &JsonValue, key: &str, missing: &str, wrong: &str) -> (r: Result<String, String>)
    ensures
        match spec_member_str(*v, key@, missing@, wrong@) {
            Ok(x) => r matches Ok(y) && y@ == x,
            Err(m) => r matches Err(e) && e@ == m,
        },
{
    match v.get(key) {
        None => Err(String::from_str(missing)),
        Some(x) => match x {
            JsonValue::Str(s) => Ok(s.clone()),
            _ => Err(String::from_str(wrong)),
        },
    }
}

/// The event a Twitch notification reports, once its envelope has been read.
#[derive(Debug)]
pub enum TimedTwitchEvent<'a> {
    /// Bits were cheered (`bits`: the IEEE-754 bit pattern of the amount).
    Cheer { id: String, bits: u64 },
    /// A subscription; its tier is read from `event` once it has been printed.
    Subscribe { id: String, event: &'a JsonValue },
    /// Any other notification: nothing is done.
    Ignored,
}

/// The content of a [`TimedTwitchEvent`].
pub enum TimedTwitchEventView {
    Cheer { id: Seq<char>, bits: u64 },
    Subscribe { id: Seq<char>, event: JsonValue },
    Ignored,
}

impl<'a> View for TimedTwitchEvent<'a> {
    type V = TimedTwitchEventView;

    open spec fn view(&self) -> TimedTwitchEventView {
        match self {
            TimedTwitchEvent::Cheer { id, bits } => TimedTwitchEventView::Cheer { id: id@, bits: *bits },
            TimedTwitchEvent::Subscribe { id, event } => TimedTwitchEventView::Subscribe {
                id: id@,
                event: **event,
            },
            TimedTwitchEvent::Ignored => TimedTwitchEventView::Ignored,
        }
    }
}

/// What `read_twitch_event` gives.
pub open spec fn spec_read_twitch_event(body: JsonValue) -> Result<TimedTwitchEventView, Seq<char>> {
    match body {
        JsonValue::Object(_) => match spec_member_object(
            body,
            "subscription"@,
            "no subscription found"@,
            "subscription not an Object"@,
        ) {
            Err(m) => Err(m),
            Ok(subscription) => match spec_member_str(
                subscription,
                "type"@,
                "no type found"@,
                "not a string"@,
            ) {
                Err(m) => Err(m),
                Ok(event_type) => match spec_member_str(
                    subscription,
                    "id"@,
                    "no id found"@,
                    "not a string"@,
                ) {
                    Err(m) => Err(m),
                    Ok(id) => match spec_member_object(
                        body,
                        "event"@,
                        "no subscription found"@,
                        "subscription not an Object"@,
                    ) {
                        Err(m) => Err(m),
                        Ok(event) => if event_type == "channel.cheer"@ {
                            match spec_get(event, "bits"@) {
                                None => Err("bits not found"@),
                                Some(JsonValue::Number(bits)) => Ok(
                                    TimedTwitchEventView::Cheer { id, bits },
                                ),
                                Some(_) => Err("not a number"@),
                            }
                        } else if event_type == "channel.subscribe"@ {
                            Ok(TimedTwitchEventView::Subscribe { id, event })
                        } else {
                            Ok(TimedTwitchEventView::Ignored)
                        },
                    },
                },
            },
        },
        _ => Err(Seq::empty()),
    }
}

/// The event types are distinct texts.
proof fn lemma_types_differ()
    ensures
        "channel.subscribe"@ != "channel.cheer"@,
{
    reveal_strlit("channel.subscribe");
    reveal_strlit("channel.cheer");
    assert("channel.subscribe"@.len() != "channel.cheer"@.len());
}

/// What a well-formed notification reports: when the body has a
/// `subscription` object with a string `type` and a string `id`, and an
/// `event` object, a cheer reports the number in the event's `bits` (a
/// missing `bits` is "bits not found", any other kind "not a number"), a
/// subscription reports its id and event, and every other type is ignored.
pub proof fn lemma_notification_kinds(
    body: JsonValue,
    subscription: JsonValue,
    kind: JsonValue,
    id: JsonValue,
    event: JsonValue,
    bits: JsonValue,
)
    requires
        body is Object,
        has_member(body, "subscription"@, subscription),
        subscription is Object,
        has_member(subscription, "type"@, kind),
        kind is Str,
        has_member(subscription, "id"@, id),
        id is Str,
        has_member(body, "event"@, event),
        event is Object,
    ensures
        kind->Str_0@ == "channel.subscribe"@ ==> spec_read_twitch_event(body) == Ok::<
            TimedTwitchEventView,
            Seq<char>,
        >(TimedTwitchEventView::Subscribe { id: id->Str_0@, event }),
        kind->Str_0@ != "channel.subscribe"@ && kind->Str_0@ != "channel.cheer"@
            ==> spec_read_twitch_event(body) == Ok::<TimedTwitchEventView, Seq<char>>(
            TimedTwitchEventView::Ignored,
        ),
        kind->Str_0@ == "channel.cheer"@ && has_member(event, "bits"@, bits) && bits is Number
            ==> spec_read_twitch_event(body) == Ok::<TimedTwitchEventView, Seq<char>>(
            TimedTwitchEventView::Cheer { id: id->Str_0@, bits: bits->Number_0 },
        ),
        kind->Str_0@ == "channel.cheer"@ && has_member(event, "bits"@, bits) && !(bits is Number)
            ==> spec_read_twitch_event(body) == Err::<TimedTwitchEventView, Seq<char>>(
            "not a number"@,
        ),
        kind->Str_0@ == "channel.cheer"@ && lacks_member(event, "bits"@)
            ==> spec_read_twitch_event(body) == Err::<TimedTwitchEventView, Seq<char>>(
            "bits not found"@,
        ),
{
    lemma_member_reading(body, "subscription"@, subscription);
    lemma_member_reading(subscription, "type"@, kind);
    lemma_member_reading(subscription, "id"@, id);
    lemma_member_reading(body, "event"@, event);
    lemma_member_reading(event, "bits"@, bits);
    lemma_types_differ();
}

/// The view of a `read_twitch_event` result.
pub open spec fn read_result_view(r: Result<TimedTwitchEvent, String>) -> Result<
    TimedTwitchEventView,
    Seq<char>,
> {
    match r {
        Ok(e) => Ok(e@),
        Err(m) => Err(m@),
    }
}

/// Reads the envelope of a Twitch notification: the subscription's type and
/// id and the event.  A cheer also has its amount read.  The messages name
/// the first field that is missing or of the wrong kind (a body that is not
/// an object gets an empty message).
pub fn read_twitch_event(body: &JsonValue) -> (r: Result<TimedTwitchEvent<'_>, String>)
    ensures
        read_result_view(r) == spec_read_twitch_event(*body),
{
    match body {
        JsonValue::Object(_) => {},
        _ => {
            return Err(String::new());
        },
    }
    let subscription = member_object(
        body,
        "subscription",
        "no subscription found",
        "subscription not an Object",
    )?;
    let event_type = member_str(subscription, "type", "no type found", "not a string")?;
    let id = member_str(subscription, "id", "no id found", "not a string")?;
    let event = member_object(body, "event", "no subscription found", "subscription not an Object")?;
    if event_type == String::from_str("channel.cheer") {
        match event.get("bits") {
            None => Err(String::from_str("bits not found")),
            Some(JsonValue::Number(bits)) => Ok(TimedTwitchEvent::Cheer { id, bits: *bits }),
            Some(_) => Err(String::from_str("not a number")),
        }
    } else if event_type == String::from_str("channel.subscribe") {
        Ok(TimedTwitchEvent::Subscribe { id, event })
    } else {
        Ok(TimedTwitchEvent::Ignored)
    }
}

/// The tier of a subscription event, as text.  The event has a tier: it was
/// printed (and the printing stops on an event without one) before it is read.
pub fn subscription_tier(event: &JsonValue) -> (r: Result<String, String>)
    requires
        spec_get(*event, "tier"@) is Some,
    ensures
        match spec_member_str(*event, "tier"@, "bits not found"@, "not a string"@) {
            Ok(x) => r matches Ok(y) && y@ == x,
            Err(m) => r matches Err(e) && e@ == m,
        },
{
    member_str(event, "tier", "bits not found", "not a string")
}

/// The `data` field of a Ko-fi form; "nani=" when it is missing.
pub fn kofi_data_text(fields: &Vec<(String, String)>) -> (r: Result<String, String>)
    ensures
        match crate::kofi::form_lookup(fields@, "data"@) {
            Some(d) => r matches Ok(y) && y@ == d,
            None => r matches Err(e) && e@ == "nani="@,
        },
{
    match crate::kofi::kofi_data(fields) {
        Ok(d) => Ok(d),
        Err(_) => Err(String::from_str("nani=")),
    }
}

/// The amount, as text, of a parsed Ko-fi payload: "NANI????" when the
/// payload is not an object, "No amount" when it has no amount.  The
/// amount, when present, is a string (the server stops on any other).
pub fn kofi_amount_text(data: &JsonValue) -> (r: Result<String, String>)
    requires
        member_is_str_if_present(*data, "amount"@),
    ensures
        match *data {
            JsonValue::Object(_) => match spec_member_str(*data, "amount"@, "No amount"@, ""@) {
                Ok(x) => r matches Ok(y) && y@ == x,
                Err(m) => r matches Err(e) && e@ == m,
            },
            _ => r matches Err(e) && e@ == "NANI????"@,
        },
{
    match data {
        JsonValue::Object(_) => member_str(data, "amount", "No amount", ""),
        _ => Err(String::from_str("NANI????")),
    }
}

/// The transaction id of a Ko-fi payload (an object); "No transaction id"
/// when it has none.  The id, when present, is a string (the server stops
/// on any other).
pub fn kofi_transaction_id(data: &JsonValue) -> (r: Result<String, String>)
    requires
        data is Object,
        member_is_str_if_present(*data, "kofi_transaction_id"@),
    ensures
        match spec_member_str(*data, "kofi_transaction_id"@, "No transaction id"@, ""@) {
            Ok(x) => r matches Ok(y) && y@ == x,
            Err(m) => r matches Err(e) && e@ == m,
        },
{
    member_str(data, "kofi_transaction_id", "No transaction id", "")
}

} // verus!
