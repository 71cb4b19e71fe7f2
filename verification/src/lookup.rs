//! The two lookups, from what the transport brought to what the caller gets.
//!
//! A lookup is one request and one reply. The caller gets the address from
//! `request`, sends the request, and hands what came back to
//! `conclude_player_lookup` or `conclude_item_search`.

use vstd::prelude::*;
use crate::document::{describe, document_model, parse, parse_outcome, JsonValue};
use crate::entity::{Item, ItemView, Skill, SkillView};
use crate::error::{Lookup, LookupError, LookupErrorView};
use crate::normalize::{item_entities, items_from_response, skill_entities, skills_from_stats};
use crate::shape::{items_at, text_at, u32_at, u64_at, Field, ShapeError};
use crate::wire::{
    decode_items, decode_stats, item_decoder, item_of, items_response_of,
    lemma_decode_each_all_or_nothing, lemma_decode_each_keeps_order, lemma_decode_each_succeeds,
    skill_decoder, skill_of, stats_of,
};

verus! {

/// What the transport brought for one request.
#[derive(Clone, Debug, PartialEq, Eq)]
pub enum Reply {
    /// The response's body, as text.
    Body(String),
    /// No response: the cause, in words.
    SendFailed(String),
    /// A response whose body could not be read: the cause, in words.
    ReadFailed(String),
}

/// A `Reply` as a mathematical value.
pub enum ReplyView {
    Body(Seq<char>),
    SendFailed(Seq<char>),
    ReadFailed(Seq<char>),
}

impl View for Reply {
    type V = ReplyView;

    open spec fn view(&self) -> ReplyView {
        match self {
            Reply::Body(body) => ReplyView::Body(body@),
            Reply::SendFailed(cause) => ReplyView::SendFailed(cause@),
            Reply::ReadFailed(cause) => ReplyView::ReadFailed(cause@),
        }
    }
}

/// The view of how a lookup ended.
pub open spec fn ended<T: DeepView>(r: Result<T, LookupError>) -> Result<T::V, LookupErrorView> {
    match r {
        Ok(found) => Ok(found.deep_view()),
        Err(e) => Err(e@),
    }
}

/// The skills that a parsed document lists; where it is no hiscore response,
/// a parse error that says which field is at fault.
pub open spec fn skills_in_document(doc: JsonValue) -> Result<Seq<SkillView>, LookupErrorView> {
    match stats_of(doc) {
        Err(e) => Err(LookupErrorView::parse_failed(Lookup::Player, e.description())),
        Ok(stats) => Ok(skill_entities(stats)),
    }
}

/// The skills that a response body lists; where it is no JSON document, a
/// parse error with the parser's message.
pub open spec fn skills_in_body(body: Seq<char>) -> Result<Seq<SkillView>, LookupErrorView> {
    match parse_outcome(body) {
        Err(cause) => Err(LookupErrorView::parse_failed(Lookup::Player, cause)),
        Ok(doc) => skills_in_document(doc),
    }
}

/// How a player lookup ends on a reply.
pub open spec fn player_lookup_outcome(reply: ReplyView) -> Result<Seq<SkillView>, LookupErrorView> {
    match reply {
        ReplyView::Body(body) => skills_in_body(body),
        ReplyView::SendFailed(cause) => Err(LookupErrorView::send_failed(Lookup::Player, cause)),
        ReplyView::ReadFailed(cause) => Err(LookupErrorView::read_failed(Lookup::Player, cause)),
    }
}

/// The items that a parsed document lists; where it is no catalogue
/// response, a parse error that says which field is at fault.
pub open spec fn items_in_document(doc: JsonValue) -> Result<Seq<ItemView>, LookupErrorView> {
    match items_response_of(doc) {
        Err(e) => Err(LookupErrorView::parse_failed(Lookup::Items, e.description())),
        Ok(response) => Ok(item_entities(response)),
    }
}

/// The items that a response body lists; where it is no JSON document, a
/// parse error with the parser's message.
pub open spec fn items_in_body(body: Seq<char>) -> Result<Seq<ItemView>, LookupErrorView> {
    match parse_outcome(body) {
        Err(cause) => Err(LookupErrorView::parse_failed(Lookup::Items, cause)),
        Ok(doc) => items_in_document(doc),
    }
}

/// How an item search ends on a reply.
pub open spec fn item_search_outcome(reply: ReplyView) -> Result<Seq<ItemView>, LookupErrorView> {
    match reply {
        ReplyView::Body(body) => items_in_body(body),
        ReplyView::SendFailed(cause) => Err(LookupErrorView::send_failed(Lookup::Items, cause)),
        ReplyView::ReadFailed(cause) => Err(LookupErrorView::read_failed(Lookup::Items, cause)),
    }
}

/// Whether `skill` has the `name`, `level` and `xp` of the object `value`.
pub open spec fn skill_matches(skill: SkillView, value: JsonValue) -> bool {
    &&& text_at(value, Field::Name) == Ok::<Seq<char>, ShapeError>(skill.name)
    &&& u32_at(value, Field::Level) == Ok::<u32, ShapeError>(skill.level)
    &&& u64_at(value, Field::Xp) == Ok::<u64, ShapeError>(skill.xp)
}

/// Whether `skills` has one skill for each of `values`, in the same order,
/// with what that value holds.
pub open spec fn skills_match(skills: Seq<SkillView>, values: Seq<JsonValue>) -> bool {
    &&& skills.len() == values.len()
    &&& forall|i: int| 0 <= i < values.len() ==> skill_matches(skills[i], #[trigger] values[i])
}

/// Whether `item` has the fields of the object `value`: `type_icon` is what
/// the object holds under `typeIcon`, `item_type` what it holds under `type`,
/// and each other field what the object holds under the field's own name.
pub open spec fn item_matches(item: ItemView, value: JsonValue) -> bool {
    &&& text_at(value, Field::TypeIcon) == Ok::<Seq<char>, ShapeError>(item.type_icon)
    &&& text_at(value, Field::Type) == Ok::<Seq<char>, ShapeError>(item.item_type)
    &&& u32_at(value, Field::Id) == Ok::<u32, ShapeError>(item.id)
    &&& text_at(value, Field::Name) == Ok::<Seq<char>, ShapeError>(item.name)
    &&& text_at(value, Field::Description) == Ok::<Seq<char>, ShapeError>(item.description)
    &&& text_at(value, Field::Icon) == Ok::<Seq<char>, ShapeError>(item.icon)
    &&& text_at(value, Field::IconLarge) == Ok::<Seq<char>, ShapeError>(item.icon_large)
    &&& text_at(value, Field::Members) == Ok::<Seq<char>, ShapeError>(item.members)
}

/// Whether `items` has one item for each of `values`, in the same order,
/// with what that value holds.
pub open spec fn items_match(items: Seq<ItemView>, values: Seq<JsonValue>) -> bool {
    &&& items.len() == values.len()
    &&& forall|i: int| 0 <= i < values.len() ==> item_matches(items[i], #[trigger] values[i])
}

/// Whether `body` is a JSON document with a `skills` array of which `skills`
/// has each element, in order.
pub open spec fn body_lists_skills(body: Seq<char>, skills: Seq<SkillView>) -> bool {
    &&& parse_outcome(body) is Ok
    &&& items_at(parse_outcome(body)->Ok_0, Field::Skills) is Ok
    &&& skills_match(skills, items_at(parse_outcome(body)->Ok_0, Field::Skills)->Ok_0)
}

/// Whether `body` is a JSON document with an `items` array of which `items`
/// has each element, in order.
pub open spec fn body_lists_items(body: Seq<char>, items: Seq<ItemView>) -> bool {
    &&& parse_outcome(body) is Ok
    &&& items_at(parse_outcome(body)->Ok_0, Field::Items) is Ok
    &&& items_match(items, items_at(parse_outcome(body)->Ok_0, Field::Items)->Ok_0)
}

/// A player lookup that succeeds on a document gives one skill for each
/// element of the document's `skills` array, in the array's order, with the
/// element's `name`, `level` and `xp`.
pub proof fn lemma_skills_follow_document(doc: JsonValue)
    requires
        skills_in_document(doc) is Ok,
    ensures
        items_at(doc, Field::Skills) is Ok,
        skills_match(skills_in_document(doc)->Ok_0, items_at(doc, Field::Skills)->Ok_0),
{
    lemma_decode_each_keeps_order(items_at(doc, Field::Skills)->Ok_0, skill_decoder());
}

/// An item search that succeeds on a document gives one item for each
/// element of the document's `items` array, in the array's order: the
/// item's `type_icon` is the element's `typeIcon`, and every other field is
/// the element's field of that name.
pub proof fn lemma_items_follow_document(doc: JsonValue)
    requires
        items_in_document(doc) is Ok,
    ensures
        items_at(doc, Field::Items) is Ok,
        items_match(items_in_document(doc)->Ok_0, items_at(doc, Field::Items)->Ok_0),
{
    lemma_decode_each_keeps_order(items_at(doc, Field::Items)->Ok_0, item_decoder());
}

/// A document whose `skills` array is empty lists no skills, and that is no
/// error.
pub proof fn lemma_no_skills_is_no_error(doc: JsonValue)
    requires
        items_at(doc, Field::Skills) == Ok::<Seq<JsonValue>, ShapeError>(Seq::empty()),
    ensures
        skills_in_document(doc) == Ok::<Seq<SkillView>, LookupErrorView>(Seq::empty()),
{
    lemma_decode_each_succeeds(Seq::<JsonValue>::empty(), skill_decoder(), Seq::empty());
    assert(skills_in_document(doc)->Ok_0 =~= Seq::<SkillView>::empty());
}

/// A document whose `items` array is empty lists no items, and that is no
/// error.
pub proof fn lemma_no_items_is_no_error(doc: JsonValue)
    requires
        items_at(doc, Field::Items) == Ok::<Seq<JsonValue>, ShapeError>(Seq::empty()),
    ensures
        items_in_document(doc) == Ok::<Seq<ItemView>, LookupErrorView>(Seq::empty()),
{
    lemma_decode_each_succeeds(Seq::<JsonValue>::empty(), item_decoder(), Seq::empty());
    assert(items_in_document(doc)->Ok_0 =~= Seq::<ItemView>::empty());
}

/// A body gives skills only where it is a JSON document whose `skills`
/// array holds nothing but skills: one element at fault, and the lookup
/// fails with no skill at all. Whatever is wrong with a body, the error is a
/// parse error.
pub proof fn lemma_bad_player_body_is_parse_error(body: Seq<char>)
    ensures
        skills_in_body(body) is Ok <==> {
            &&& parse_outcome(body) is Ok
            &&& items_at(parse_outcome(body)->Ok_0, Field::Skills) is Ok
            &&& forall|i: int|
                0 <= i < items_at(parse_outcome(body)->Ok_0, Field::Skills)->Ok_0.len()
                    ==> skill_of(
                    #[trigger] items_at(parse_outcome(body)->Ok_0, Field::Skills)->Ok_0[i],
                ) is Ok
        },
        skills_in_body(body) is Err ==> skills_in_body(body)->Err_0 is Parse,
{
    if parse_outcome(body) is Ok {
        let doc = parse_outcome(body)->Ok_0;
        if items_at(doc, Field::Skills) is Ok {
            lemma_decode_each_all_or_nothing(items_at(doc, Field::Skills)->Ok_0, skill_decoder());
        }
    }
}

/// A body gives items only where it is a JSON document whose `items` array
/// holds nothing but catalogue items: one element at fault, and the search
/// fails with no item at all. Whatever is wrong with a body, the error is a
/// parse error.
pub proof fn lemma_bad_items_body_is_parse_error(body: Seq<char>)
    ensures
        items_in_body(body) is Ok <==> {
            &&& parse_outcome(body) is Ok
            &&& items_at(parse_outcome(body)->Ok_0, Field::Items) is Ok
            &&& forall|i: int|
                0 <= i < items_at(parse_outcome(body)->Ok_0, Field::Items)->Ok_0.len()
                    ==> item_of(
                    #[trigger] items_at(parse_outcome(body)->Ok_0, Field::Items)->Ok_0[i],
                ) is Ok
        },
        items_in_body(body) is Err ==> items_in_body(body)->Err_0 is Parse,
{
    if parse_outcome(body) is Ok {
        let doc = parse_outcome(body)->Ok_0;
        if items_at(doc, Field::Items) is Ok {
            lemma_decode_each_all_or_nothing(items_at(doc, Field::Items)->Ok_0, item_decoder());
        }
    }
}

/// A reply without a body ends either lookup with a fetch error.
pub proof fn lemma_transport_failure_is_fetch_error(reply: ReplyView)
    requires
        !(reply is Body),
    ensures
        player_lookup_outcome(reply) is Err,
        player_lookup_outcome(reply)->Err_0 is Fetch,
        item_search_outcome(reply) is Err,
        item_search_outcome(reply)->Err_0 is Fetch,
{
}

/// A player lookup ends the same way whenever it gets the same reply.
pub proof fn lemma_player_lookup_repeats(
    first_reply: Reply,
    second_reply: Reply,
    first: Result<Vec<Skill>, LookupError>,
    second: Result<Vec<Skill>, LookupError>,
)
    requires
        first_reply@ == second_reply@,
        ended(first) == player_lookup_outcome(first_reply@),
        ended(second) == player_lookup_outcome(second_reply@),
    ensures
        ended(first) == ended(second),
{
}

/// An item search ends the same way whenever it gets the same reply.
pub proof fn lemma_item_search_repeats(
    first_reply: Reply,
    second_reply: Reply,
    first: Result<Vec<Item>, LookupError>,
    second: Result<Vec<Item>, LookupError>,
)
    requires
        first_reply@ == second_reply@,
        ended(first) == item_search_outcome(first_reply@),
        ended(second) == item_search_outcome(second_reply@),
    ensures
        ended(first) == ended(second),
{
}

/// The skills that a parsed hiscore response lists, in its order; a parse
/// error where the document is no hiscore response.
pub fn skills_from_document(doc: &serde_json::Value) -> (r: Result<Vec<Skill>, LookupError>)
    ensures
        ended(r) == skills_in_document(document_model(*doc)),
        r is Ok ==> items_at(document_model(*doc), Field::Skills) is Ok && skills_match(
            r->Ok_0.deep_view(),
            items_at(document_model(*doc), Field::Skills)->Ok_0,
        ),
        items_at(document_model(*doc), Field::Skills) == Ok::<Seq<JsonValue>, ShapeError>(
            Seq::empty(),
        ) ==> r is Ok && r->Ok_0.len() == 0,
{
    proof {
        let model = document_model(*doc);
        if skills_in_document(model) is Ok {
            lemma_skills_follow_document(model);
        }
        if items_at(model, Field::Skills) == Ok::<Seq<JsonValue>, ShapeError>(Seq::empty()) {
            lemma_no_skills_is_no_error(model);
        }
    }
    match decode_stats(doc) {
        Err(e) => {
            let cause = e.describe();
            Err(LookupError::parse_failed(Lookup::Player, cause.as_str()))
        },
        Ok(stats) => Ok(skills_from_stats(&stats)),
    }
}

/// The skills that a hiscore response body lists, in its order; a parse
/// error where the body is no JSON document or no hiscore response.
pub fn skills_from_body(body: &str) -> (r: Result<Vec<Skill>, LookupError>)
    ensures
        ended(r) == skills_in_body(body@),
        r is Ok ==> body_lists_skills(body@, r->Ok_0.deep_view()),
        r is Err ==> r->Err_0@ is Parse,
{
    match parse(body) {
        Err(e) => {
            let cause = describe(&e);
            Err(LookupError::parse_failed(Lookup::Player, cause.as_str()))
        },
        Ok(doc) => skills_from_document(&doc),
    }
}

/// Ends a player lookup: the skills that the reply's body lists, a fetch
/// error where the reply has no body, a parse error where the body is not
/// a hiscore response.
pub fn conclude_player_lookup(reply: &Reply) -> (r: Result<Vec<Skill>, LookupError>)
    ensures
        ended(r) == player_lookup_outcome(reply@),
        !(reply@ is Body) ==> r is Err && r->Err_0@ is Fetch,
        reply@ is Body && r is Err ==> r->Err_0@ is Parse,
        r is Ok ==> reply@ is Body && body_lists_skills(reply@->Body_0, r->Ok_0.deep_view()),
{
    match reply {
        Reply::Body(body) => skills_from_body(body.as_str()),
        Reply::SendFailed(cause) => Err(LookupError::send_failed(Lookup::Player, cause.as_str())),
        Reply::ReadFailed(cause) => Err(LookupError::read_failed(Lookup::Player, cause.as_str())),
    }
}

/// The items that a parsed catalogue response lists, in its order; a parse
/// error where the document is no catalogue response.
pub fn items_from_document(doc: &serde_json::Value) -> (r: Result<Vec<Item>, LookupError>)
    ensures
        ended(r) == items_in_document(document_model(*doc)),
        r is Ok ==> items_at(document_model(*doc), Field::Items) is Ok && items_match(
            r->Ok_0.deep_view(),
            items_at(document_model(*doc), Field::Items)->Ok_0,
        ),
        items_at(document_model(*doc), Field::Items) == Ok::<Seq<JsonValue>, ShapeError>(
            Seq::empty(),
        ) ==> r is Ok && r->Ok_0.len() == 0,
{
    proof {
        let model = document_model(*doc);
        if items_in_document(model) is Ok {
            lemma_items_follow_document(model);
        }
        if items_at(model, Field::Items) == Ok::<Seq<JsonValue>, ShapeError>(Seq::empty()) {
            lemma_no_items_is_no_error(model);
        }
    }
    match decode_items(doc) {
        Err(e) => {
            let cause = e.describe();
            Err(LookupError::parse_failed(Lookup::Items, cause.as_str()))
        },
        Ok(response) => Ok(items_from_response(&response)),
    }
}

/// The items that a catalogue response body lists, in its order; a parse
/// error where the body is no JSON document or no catalogue response.
pub fn items_from_body(body: &str) -> (r: Result<Vec<Item>, LookupError>)
    ensures
        ended(r) == items_in_body(body@),
        r is Ok ==> body_lists_items(body@, r->Ok_0.deep_view()),
        r is Err ==> r->Err_0@ is Parse,
{
    match parse(body) {
        Err(e) => {
            let cause = describe(&e);
            Err(LookupError::parse_failed(Lookup::Items, cause.as_str()))
        },
        Ok(doc) => items_from_document(&doc),
    }
}

/// Ends an item search: the items that the reply's body lists, a fetch
/// error where the reply has no body, a parse error where the body is not
/// a catalogue response.
pub fn conclude_item_search(reply: &Reply) -> (r: Result<Vec<Item>, LookupError>)
    ensures
        ended(r) == item_search_outcome(reply@),
        !(reply@ is Body) ==> r is Err && r->Err_0@ is Fetch,
        reply@ is Body && r is Err ==> r->Err_0@ is Parse,
        r is Ok ==> reply@ is Body && body_lists_items(reply@->Body_0, r->Ok_0.deep_view()),
{
    match reply {
        Reply::Body(body) => items_from_body(body.as_str()),
        Reply::SendFailed(cause) => Err(LookupError::send_failed(Lookup::Items, cause.as_str())),
        Reply::ReadFailed(cause) => Err(LookupError::read_failed(Lookup::Items, cause.as_str())),
    }
}

} // verus!
