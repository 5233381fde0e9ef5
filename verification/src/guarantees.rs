//! What holds of the loader and the page taken together.

use crate::decode::{envelope_of, is_envelope, is_record, listed, record_of, text_member};
use crate::json::Json;
use crate::loader::{answer_records, outcome, settled, status_is_success, Reply, ReplyView};
use crate::present::shown;
use vstd::prelude::*;

verus! {

/// A document decodes to records exactly when it is a well-formed envelope,
/// and then record `i` holds the six texts of element `i` of its list.
pub proof fn lemma_envelope_decodes_element_by_element(document: Json)
    ensures
        envelope_of(document) is Some <==> is_envelope(document),
        is_envelope(document) ==> {
            &&& envelope_of(document)->0.len() == listed(document)->0.len()
            &&& forall|i: int|
                0 <= i < listed(document)->0.len() ==> {
                    let element = listed(document)->0[i];
                    let record = #[trigger] envelope_of(document)->0[i];
                    &&& text_member(element, "amiiboSeries"@) == Some(record.amiibo_series)
                    &&& text_member(element, "character"@) == Some(record.character)
                    &&& text_member(element, "gameSeries"@) == Some(record.game_series)
                    &&& text_member(element, "head"@) == Some(record.head)
                    &&& text_member(element, "image"@) == Some(record.image)
                    &&& text_member(element, "name"@) == Some(record.name)
                }
        },
{
    if listed(document) is Some {
        let items = listed(document)->0;
        assert forall|i: int| 0 <= i < items.len() implies (is_record(#[trigger] items[i])
            <==> record_of(items[i]) is Some) by {}
        if is_envelope(document) {
            assert forall|i: int| 0 <= i < items.len() implies (#[trigger] record_of(
                items[i],
            )) is Some by {
                assert(is_record(items[i]));
            }
        }
        if envelope_of(document) is Some {
            assert forall|i: int| 0 <= i < items.len() implies is_record(#[trigger] items[i]) by {
                assert(record_of(items[i]) is Some);
            }
        }
    }
}

/// A successful answer whose body parses to a well-formed envelope of N
/// elements leaves the slot ready, and the page then shows N lines, in the
/// order of the list: line `i` carries the text of member `gameSeries` of
/// element `i`.
pub proof fn lemma_well_formed_answer_is_shown(status: u16, document: Json)
    requires
        status_is_success(status),
        is_envelope(document),
    ensures
        settled(answer_records(status, Some(document))) is Ready,
        shown(settled(answer_records(status, Some(document)))).len() == listed(document)->0.len(),
        forall|i: int|
            0 <= i < listed(document)->0.len() ==> Some(
                #[trigger] shown(settled(answer_records(status, Some(document))))[i],
            ) == text_member(listed(document)->0[i], "gameSeries"@),
{
    lemma_envelope_decodes_element_by_element(document);
    let records = envelope_of(document)->0;
    assert forall|i: int| 0 <= i < listed(document)->0.len() implies Some(
        #[trigger] shown(settled(answer_records(status, Some(document))))[i],
    ) == text_member(listed(document)->0[i], "gameSeries"@) by {
        assert(records[i].game_series == shown(
            settled(answer_records(status, Some(document))),
        )[i]);
    }
}

/// An answer whose status is not a success leaves the slot failed,
/// whatever its body holds, and the page shows nothing.
pub proof fn lemma_unsuccessful_status_fails(status: u16, body: Seq<char>)
    requires
        !status_is_success(status),
    ensures
        outcome(ReplyView::Answer { status, body }) is Failed,
        shown(outcome(ReplyView::Answer { status, body })).len() == 0,
{
}

/// A request that never got an answer leaves the slot failed.
pub proof fn lemma_unreachable_fails(reason: Seq<char>)
    ensures
        outcome(ReplyView::Unreachable { reason }) is Failed,
{
}

/// An answer whose body is not JSON leaves the slot failed.
pub proof fn lemma_unparsed_body_fails(status: u16)
    ensures
        settled(answer_records(status, None)) is Failed,
{
}

/// An answer whose document has no member `amiibo` leaves the slot failed.
pub proof fn lemma_missing_list_fails(status: u16, document: Json)
    requires
        !(document matches Json::Object(members) && members.contains_key("amiibo"@)),
    ensures
        settled(answer_records(status, Some(document))) is Failed,
{
}

/// An answer whose member `amiibo` is not an array leaves the slot failed.
pub proof fn lemma_list_of_wrong_type_fails(status: u16, document: Json)
    requires
        document matches Json::Object(members) && members.contains_key("amiibo"@) && !(
        members["amiibo"@] is Array),
    ensures
        settled(answer_records(status, Some(document))) is Failed,
{
}

/// One element that lacks a required member, or holds something other than
/// text under it, fails the whole list: the slot is failed, however many of
/// the other elements are well formed.
pub proof fn lemma_one_bad_element_fails_all(status: u16, document: Json, at: int)
    requires
        listed(document) matches Some(items) && 0 <= at < items.len() && !is_record(items[at]),
    ensures
        envelope_of(document) is None,
        settled(answer_records(status, Some(document))) is Failed,
{
    let items = listed(document)->0;
    assert(record_of(items[at]) is None);
}

/// An element without one of the six members is no record; neither is one
/// that holds something other than text under one of them.
pub proof fn lemma_member_is_required(element: Json, key: Seq<char>)
    requires
        key == "amiiboSeries"@ || key == "character"@ || key == "gameSeries"@ || key == "head"@
            || key == "image"@ || key == "name"@,
        text_member(element, key) is None,
    ensures
        !is_record(element),
        record_of(element) is None,
{
}

/// The outcome depends on the reply alone: two replies that hold the same
/// values leave the slot in the same state, and the page shows the same
/// lines for both.
pub proof fn lemma_same_reply_same_outcome(first: Reply, second: Reply)
    requires
        first@ == second@,
    ensures
        outcome(first@) == outcome(second@),
        shown(outcome(first@)) == shown(outcome(second@)),
{
}

} // verus!
