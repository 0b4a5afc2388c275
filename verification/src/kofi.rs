//! The decisions taken on a Ko-fi donation notification.
//!
//! Ko-fi posts a form whose `data` field is a JSON document.  Reading it
//! alternates with two conversions done by the caller: parsing that field
//! as JSON, and parsing the donation amount as a decimal number.  Each step
//! below takes what the previous conversion gave.

use vstd::prelude::*;
use crate::error::{Error, ErrorView};
use crate::json::{JsonValue, spec_extract_object_str, has_member, lacks_member, lemma_member_reading};
use crate::saved_ids::{SavedIds, check_transaction_id};
use crate::twitch::{extraction_error, extraction_error_for};

verus! {

/// The value of the first field of `fields` named `key`.
pub open spec fn form_lookup(fields: Seq<(String, String)>, key: Seq<char>) -> Option<Seq<char>>
    decreases fields.len(),
{
    if fields.len() == 0 {
        None
    } else if fields[0].0@ == key {
        Some(fields[0].1@)
    } else {
        form_lookup(fields.drop_first(), key)
    }
}

/// What a donation notification asks for.
#[derive(Debug)]
pub enum KofiAction {
    /// The transaction was already handled: nothing is done.
    Duplicate,
    /// A new donation, to be counted.
    Donation { transaction_id: String },
}

/// The content of a [`KofiAction`].
pub enum KofiActionView {
    Duplicate,
    Donation { transaction_id: Seq<char> },
}

impl View for KofiAction {
    type V = KofiActionView;

    open spec fn view(&self) -> KofiActionView {
        match self {
            KofiAction::Duplicate => KofiActionView::Duplicate,
            KofiAction::Donation { transaction_id } => KofiActionView::Donation {
                transaction_id: transaction_id@,
            },
        }
    }
}

/// What `kofi_data` gives: the `data` field of the form.
pub open spec fn spec_kofi_data(fields: Seq<(String, String)>) -> Result<Seq<char>, ErrorView> {
    match form_lookup(fields, "data"@) {
        Some(d) => Ok(d),
        None => Err(ErrorView::KeyNotFound("data"@)),
    }
}

/// What `kofi_amount` gives: the amount, as text, of the parsed `data` field
/// (`None` when it did not parse as JSON).
pub open spec fn spec_kofi_amount(data: Option<JsonValue>) -> Result<Seq<char>, ErrorView> {
    match data {
        None => Err(ErrorView::FailedToParse("str"@, "value"@)),
        Some(v) => match spec_extract_object_str(v, "amount"@) {
            Ok(a) => Ok(a),
            Err(m) => Err(extraction_error(m, "amount"@, "str"@)),
        },
    }
}

/// What `kofi_record` gives, and the saved ids after it: `amount_parsed`
/// says whether the amount parsed as a number.
pub open spec fn kofi_outcome(data: JsonValue, amount_parsed: bool, seen: Set<Seq<char>>) -> (
    Result<KofiActionView, ErrorView>,
    Set<Seq<char>>,
) {
    if !amount_parsed {
        (Err(ErrorView::FailedToParse("str"@, "f64"@)), seen)
    } else {
        match spec_extract_object_str(data, "kofi_transaction_id"@) {
            Err(m) => (Err(extraction_error(m, "kofi_transaction_id"@, "str"@)), seen),
            Ok(id) => if seen.contains(id) {
                (Ok(KofiActionView::Duplicate), seen)
            } else {
                (Ok(KofiActionView::Donation { transaction_id: id }), seen.insert(id))
            },
        }
    }
}

/// The view of a text result.
pub open spec fn text_result_view(r: Result<String, Error>) -> Result<Seq<char>, ErrorView> {
    match r {
        Ok(s) => Ok(s@),
        Err(e) => Err(e@),
    }
}

/// The view of a `kofi_record` result.
pub open spec fn kofi_result_view(r: Result<KofiAction, Error>) -> Result<KofiActionView, ErrorView> {
    match r {
        Ok(a) => Ok(a@),
        Err(e) => Err(e@),
    }
}

/// The `data` field of a Ko-fi form; a missing field is a missing key.
pub fn kofi_data(fields: &Vec<(String, String)>) -> (r: Result<String, Error>)
    ensures
        text_result_view(r) == spec_kofi_data(fields@),
{
    let wanted = String::from_str("data");
    let mut i: usize = 0;
    assert(fields@.skip(0) =~= fields@);
    while i < fields.len()
        invariant
            i <= fields@.len(),
            wanted@ == "data"@,
            form_lookup(fields@, "data"@) == form_lookup(fields@.skip(i as int), "data"@),
        decreases fields@.len() - i,
    {
        assert(fields@.skip(i as int).drop_first() =~= fields@.skip(i + 1));
        assert(fields@.skip(i as int)[0] == fields@[i as int]);
        if fields[i].0 == wanted {
            return Ok(fields[i].1.clone());
        }
        i = i + 1;
    }
    Err(Error::knf("data"))
}

/// The donation amount, as text, from the parsed `data` field; `None`
/// (the field was not JSON) is a parse failure.
pub fn kofi_amount(data: Option<&JsonValue>) -> (r: Result<String, Error>)
    ensures
        text_result_view(r) == spec_kofi_amount(match data {
            Some(v) => Some(*v),
            None => None,
        }),
{
    match data {
        None => Err(Error::ftp("str", "value")),
        Some(v) => match v.extract_object_str("amount") {
            Ok(a) => Ok(a),
            Err(m) => Err(extraction_error_for(m, "amount", "str")),
        },
    }
}

/// Decides on a donation once its amount has been parsed (`amount_parsed`
/// says whether it parsed as a number): an unparsable amount is refused,
/// then the transaction id is read, and a transaction seen before is a
/// duplicate while a new one is saved and counted.
pub fn kofi_record(data: &JsonValue, amount_parsed: bool, saved_ids: &mut SavedIds) -> (r: Result<
    KofiAction,
    Error,
>)
    ensures
        kofi_result_view(r) == kofi_outcome(*data, amount_parsed, old(saved_ids)@).0,
        final(saved_ids)@ == kofi_outcome(*data, amount_parsed, old(saved_ids)@).1,
{
    if !amount_parsed {
        return Err(Error::ftp("str", "f64"));
    }
    let id = match data.extract_object_str("kofi_transaction_id") {
        Ok(v) => v,
        Err(m) => {
            return Err(extraction_error_for(m, "kofi_transaction_id", "str"));
        },
    };
    if check_transaction_id(saved_ids, id.as_str()) {
        Ok(KofiAction::Duplicate)
    } else {
        Ok(KofiAction::Donation { transaction_id: id })
    }
}

/// Whether a donation counts depends only on its own transaction id: for
/// any saved ids and a payload whose `kofi_transaction_id` is a string, with
/// a parsed amount, a new id is a donation under that id and is saved (and
/// nothing else is), an id saved before is a duplicate and changes nothing.
/// An amount that did not parse is refused whatever the rest.
pub proof fn lemma_donation_depends_on_own_id(data: JsonValue, seen: Set<Seq<char>>, id: JsonValue)
    requires
        has_member(data, "kofi_transaction_id"@, id),
        id is Str,
    ensures
        !seen.contains(id->Str_0@) ==> kofi_outcome(data, true, seen) == (
            Ok::<KofiActionView, ErrorView>(
                KofiActionView::Donation { transaction_id: id->Str_0@ },
            ),
            seen.insert(id->Str_0@),
        ),
        seen.contains(id->Str_0@) ==> kofi_outcome(data, true, seen) == (
            Ok::<KofiActionView, ErrorView>(KofiActionView::Duplicate),
            seen,
        ),
        kofi_outcome(data, false, seen) == (
            Err::<KofiActionView, ErrorView>(ErrorView::FailedToParse("str"@, "f64"@)),
            seen,
        ),
{
    lemma_member_reading(data, "kofi_transaction_id"@, id);
}

/// A payload without a transaction id is refused as a missing key, and
/// nothing is saved.
pub proof fn lemma_donation_needs_id(data: JsonValue, seen: Set<Seq<char>>)
    requires
        lacks_member(data, "kofi_transaction_id"@),
    ensures
        kofi_outcome(data, true, seen) == (
            Err::<KofiActionView, ErrorView>(ErrorView::KeyNotFound("kofi_transaction_id"@)),
            seen,
        ),
{
    lemma_member_reading(data, "kofi_transaction_id"@, data);
}

/// The amount is the text of the payload's `amount` string; a payload that
/// did not parse is refused as such.
pub proof fn lemma_amount_is_read(data: JsonValue, amount: JsonValue)
    requires
        has_member(data, "amount"@, amount),
        amount is Str,
    ensures
        spec_kofi_amount(Some(data)) == Ok::<Seq<char>, ErrorView>(amount->Str_0@),
        spec_kofi_amount(None) == Err::<Seq<char>, ErrorView>(ErrorView::FailedToParse("str"@, "value"@)),
{
    lemma_member_reading(data, "amount"@, amount);
}

/// The `data` field of the form is the value of its first field named
/// `data`; a form without one is refused as a missing key.
pub proof fn lemma_data_field(fields: Seq<(String, String)>, i: int)
    ensures
        0 <= i < fields.len() && fields[i].0@ == "data"@ && (forall|j: int|
            0 <= j < i ==> #[trigger] fields[j].0@ != "data"@) ==> spec_kofi_data(fields) == Ok::<
            Seq<char>,
            ErrorView,
        >(fields[i].1@),
        (forall|j: int| 0 <= j < fields.len() ==> #[trigger] fields[j].0@ != "data"@)
            ==> spec_kofi_data(fields) == Err::<Seq<char>, ErrorView>(ErrorView::KeyNotFound("data"@)),
    decreases fields.len(),
{
    if fields.len() > 0 {
        let rest = fields.drop_first();
        if i > 0 && 0 <= i < fields.len() && fields[i].0@ == "data"@ && (forall|j: int|
            0 <= j < i ==> #[trigger] fields[j].0@ != "data"@) {
            assert(fields[0].0@ != "data"@);
            assert forall|j: int| 0 <= j < i - 1 implies #[trigger] rest[j].0@ != "data"@ by {
                assert(rest[j] == fields[j + 1]);
            }
            assert(rest[i - 1] == fields[i]);
            lemma_data_field(rest, i - 1);
        }
        if forall|j: int| 0 <= j < fields.len() ==> #[trigger] fields[j].0@ != "data"@ {
            assert(fields[0].0@ != "data"@);
            assert forall|j: int| 0 <= j < rest.len() implies #[trigger] rest[j].0@ != "data"@ by {
                assert(rest[j] == fields[j + 1]);
            }
            lemma_data_field(rest, 0);
        }
    }
}

/// A donation is counted at most once: once a donation has been counted,
/// the same notification, handled again with any saved ids that include
/// those saved the first time, is a duplicate and saves nothing more.
pub proof fn lemma_donation_counted_once(
    data: JsonValue,
    seen: Set<Seq<char>>,
    later: Set<Seq<char>>,
)
    requires
        kofi_outcome(data, true, seen).0 matches Ok(KofiActionView::Donation { .. }),
        kofi_outcome(data, true, seen).1.subset_of(later),
    ensures
        seen.subset_of(kofi_outcome(data, true, seen).1),
        kofi_outcome(data, true, later) == (
            Ok::<KofiActionView, ErrorView>(KofiActionView::Duplicate),
            later,
        ),
{
}

} // verus!
