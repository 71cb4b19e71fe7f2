//! The responses as the services send them, and their decoding from a parsed
//! document.

use vstd::prelude::*;
use crate::document::{document_model, document_models, JsonValue};
use crate::shape::{
    decoded, items_at, lemma_other_keys_are_passed_over, read_items, read_text, read_u32,
    read_u64, text_at, u32_at, u64_at, Field, ShapeError,
};

verus! {

/// One element of the hiscore service's `skills` array.
#[derive(Debug, PartialEq, Eq)]
pub struct ResponseSkill {
    pub name: String,
    pub level: u32,
    pub xp: u64,
}

/// A `ResponseSkill` as a mathematical value.
pub struct ResponseSkillView {
    pub name: Seq<char>,
    pub level: u32,
    pub xp: u64,
}

impl View for ResponseSkill {
    type V = ResponseSkillView;

    open spec fn view(&self) -> ResponseSkillView {
        ResponseSkillView { name: self.name@, level: self.level, xp: self.xp }
    }
}

impl DeepView for ResponseSkill {
    type V = ResponseSkillView;

    open spec fn deep_view(&self) -> ResponseSkillView {
        self@
    }
}

/// The hiscore service's response.
#[derive(Debug, PartialEq, Eq)]
pub struct ResponseStats {
    pub skills: Vec<ResponseSkill>,
}

/// A `ResponseStats` as a mathematical value.
pub struct ResponseStatsView {
    pub skills: Seq<ResponseSkillView>,
}

impl View for ResponseStats {
    type V = ResponseStatsView;

    open spec fn view(&self) -> ResponseStatsView {
        ResponseStatsView { skills: self.skills.deep_view() }
    }
}

/// One element of the catalogue service's `items` array. The fields carry the
/// catalogue's own names but for `item_type`, sent as `type`.
#[derive(Debug, PartialEq, Eq)]
#[allow(non_snake_case)]
pub struct ResponseItem {
    pub icon: String,
    pub icon_large: String,
    pub id: u32,
    pub item_type: String,
    pub typeIcon: String,
    pub name: String,
    pub description: String,
    pub members: String,
}

/// A `ResponseItem` as a mathematical value.
#[allow(non_snake_case)]
pub struct ResponseItemView {
    pub icon: Seq<char>,
    pub icon_large: Seq<char>,
    pub id: u32,
    pub item_type: Seq<char>,
    pub typeIcon: Seq<char>,
    pub name: Seq<char>,
    pub description: Seq<char>,
    pub members: Seq<char>,
}

impl View for ResponseItem {
    type V = ResponseItemView;

    open spec fn view(&self) -> ResponseItemView {
        ResponseItemView {
            icon: self.icon@,
            icon_large: self.icon_large@,
            id: self.id,
            item_type: self.item_type@,
            typeIcon: self.typeIcon@,
            name: self.name@,
            description: self.description@,
            members: self.members@,
        }
    }
}

impl DeepView for ResponseItem {
    type V = ResponseItemView;

    open spec fn deep_view(&self) -> ResponseItemView {
        self@
    }
}

/// The catalogue service's response.
#[derive(Debug, PartialEq, Eq)]
pub struct ItemsResponse {
    pub items: Vec<ResponseItem>,
}

/// An `ItemsResponse` as a mathematical value.
pub struct ItemsResponseView {
    pub items: Seq<ResponseItemView>,
}

impl View for ItemsResponse {
    type V = ItemsResponseView;

    open spec fn view(&self) -> ItemsResponseView {
        ItemsResponseView { items: self.items.deep_view() }
    }
}

/// The skill that `value` is: an object with a string `name` and the
/// numbers `level` and `xp`. Other fields are passed over. Where several
/// fields are at fault, the first of the three in this order is reported.
pub open spec fn skill_of(value: JsonValue) -> Result<ResponseSkillView, ShapeError> {
    let name = text_at(value, Field::Name);
    let level = u32_at(value, Field::Level);
    let xp = u64_at(value, Field::Xp);
    if name is Err {
        Err(name->Err_0)
    } else if level is Err {
        Err(level->Err_0)
    } else if xp is Err {
        Err(xp->Err_0)
    } else {
        Ok(ResponseSkillView { name: name->Ok_0, level: level->Ok_0, xp: xp->Ok_0 })
    }
}

/// `skill_of` as a value.
pub open spec fn skill_decoder() -> spec_fn(JsonValue) -> Result<ResponseSkillView, ShapeError> {
    |value: JsonValue| skill_of(value)
}

/// The catalogue item that `value` is: an object with the number `id` and
/// the strings `icon`, `icon_large`, `type`, `typeIcon`, `name`,
/// `description` and `members`. Other fields are passed over. Where several
/// fields are at fault, the first in the order `icon`, `icon_large`, `id`,
/// `type`, `typeIcon`, `name`, `description`, `members` is reported.
pub open spec fn item_of(value: JsonValue) -> Result<ResponseItemView, ShapeError> {
    let icon = text_at(value, Field::Icon);
    let icon_large = text_at(value, Field::IconLarge);
    let id = u32_at(value, Field::Id);
    let item_type = text_at(value, Field::Type);
    let type_icon = text_at(value, Field::TypeIcon);
    let name = text_at(value, Field::Name);
    let description = text_at(value, Field::Description);
    let members = text_at(value, Field::Members);
    if icon is Err {
        Err(icon->Err_0)
    } else if icon_large is Err {
        Err(icon_large->Err_0)
    } else if id is Err {
        Err(id->Err_0)
    } else if item_type is Err {
        Err(item_type->Err_0)
    } else if type_icon is Err {
        Err(type_icon->Err_0)
    } else if name is Err {
        Err(name->Err_0)
    } else if description is Err {
        Err(description->Err_0)
    } else if members is Err {
        Err(members->Err_0)
    } else {
        Ok(
            ResponseItemView {
                icon: icon->Ok_0,
                icon_large: icon_large->Ok_0,
                id: id->Ok_0,
                item_type: item_type->Ok_0,
                typeIcon: type_icon->Ok_0,
                name: name->Ok_0,
                description: description->Ok_0,
                members: members->Ok_0,
            },
        )
    }
}

/// `item_of` as a value.
pub open spec fn item_decoder() -> spec_fn(JsonValue) -> Result<ResponseItemView, ShapeError> {
    |value: JsonValue| item_of(value)
}

/// Whether `k` is the first of `items` that `decode` fails on.
pub open spec fn is_first_failure<T>(
    items: Seq<JsonValue>,
    decode: spec_fn(JsonValue) -> Result<T, ShapeError>,
    k: int,
) -> bool {
    &&& 0 <= k < items.len()
    &&& decode(items[k]) is Err
    &&& forall|j: int| 0 <= j < k ==> decode(#[trigger] items[j]) is Ok
}

/// Each of `items` decoded, in order, where all of them decode; else what
/// `decode` reports of the first one that does not.
pub open spec fn decode_each<T>(
    items: Seq<JsonValue>,
    decode: spec_fn(JsonValue) -> Result<T, ShapeError>,
) -> Result<Seq<T>, ShapeError> {
    if forall|i: int| 0 <= i < items.len() ==> decode(#[trigger] items[i]) is Ok {
        Ok(Seq::new(items.len(), |i: int| decode(items[i])->Ok_0))
    } else {
        let k = choose|k: int| is_first_failure(items, decode, k);
        Err(decode(items[k])->Err_0)
    }
}

/// The hiscore response that `doc` is: an object whose `skills` is an array
/// of skills.
pub open spec fn stats_of(doc: JsonValue) -> Result<ResponseStatsView, ShapeError> {
    match items_at(doc, Field::Skills) {
        Err(e) => Err(e),
        Ok(items) => match decode_each(items, skill_decoder()) {
            Err(e) => Err(e),
            Ok(skills) => Ok(ResponseStatsView { skills }),
        },
    }
}

/// The catalogue response that `doc` is: an object whose `items` is an array
/// of catalogue items.
pub open spec fn items_response_of(doc: JsonValue) -> Result<ItemsResponseView, ShapeError> {
    match items_at(doc, Field::Items) {
        Err(e) => Err(e),
        Ok(values) => match decode_each(values, item_decoder()) {
            Err(e) => Err(e),
            Ok(items) => Ok(ItemsResponseView { items }),
        },
    }
}

/// What `decode_each` returns where the first `n` items decode and the one
/// after them fails with `e`: that error.
pub proof fn lemma_decode_each_fails<T>(
    items: Seq<JsonValue>,
    decode: spec_fn(JsonValue) -> Result<T, ShapeError>,
    n: int,
    e: ShapeError,
)
    requires
        0 <= n < items.len(),
        forall|j: int| 0 <= j < n ==> decode(#[trigger] items[j]) is Ok,
        decode(items[n]) == Err::<T, ShapeError>(e),
    ensures
        decode_each(items, decode) == Err::<Seq<T>, ShapeError>(e),
{
    assert(is_first_failure(items, decode, n));
}

/// What `decode_each` returns where every item decodes, the `i`-th to
/// `done[i]`: `done`.
pub proof fn lemma_decode_each_succeeds<T>(
    items: Seq<JsonValue>,
    decode: spec_fn(JsonValue) -> Result<T, ShapeError>,
    done: Seq<T>,
)
    requires
        done.len() == items.len(),
        forall|j: int| 0 <= j < items.len() ==> decode(#[trigger] items[j]) == Ok::<T, ShapeError>(
            done[j],
        ),
    ensures
        decode_each(items, decode) == Ok::<Seq<T>, ShapeError>(done),
{
    assert(Seq::new(items.len(), |i: int| decode(items[i])->Ok_0) =~= done);
}

/// A skill is read from `name`, `level` and `xp` alone: what the object
/// holds under another key changes nothing.
pub proof fn lemma_skill_passes_over_other_keys(
    fields: Map<Seq<char>, JsonValue>,
    key: Seq<char>,
    value: JsonValue,
)
    requires
        key != Field::Name.key(),
        key != Field::Level.key(),
        key != Field::Xp.key(),
    ensures
        skill_of(JsonValue::Object(fields.insert(key, value))) == skill_of(
            JsonValue::Object(fields),
        ),
{
    lemma_other_keys_are_passed_over(fields, key, value, Field::Name);
    lemma_other_keys_are_passed_over(fields, key, value, Field::Level);
    lemma_other_keys_are_passed_over(fields, key, value, Field::Xp);
}

/// A catalogue item is read from its eight fields alone: what the object
/// holds under another key changes nothing.
pub proof fn lemma_item_passes_over_other_keys(
    fields: Map<Seq<char>, JsonValue>,
    key: Seq<char>,
    value: JsonValue,
)
    requires
        key != Field::Icon.key(),
        key != Field::IconLarge.key(),
        key != Field::Id.key(),
        key != Field::Type.key(),
        key != Field::TypeIcon.key(),
        key != Field::Name.key(),
        key != Field::Description.key(),
        key != Field::Members.key(),
    ensures
        item_of(JsonValue::Object(fields.insert(key, value))) == item_of(
            JsonValue::Object(fields),
        ),
{
    lemma_other_keys_are_passed_over(fields, key, value, Field::Icon);
    lemma_other_keys_are_passed_over(fields, key, value, Field::IconLarge);
    lemma_other_keys_are_passed_over(fields, key, value, Field::Id);
    lemma_other_keys_are_passed_over(fields, key, value, Field::Type);
    lemma_other_keys_are_passed_over(fields, key, value, Field::TypeIcon);
    lemma_other_keys_are_passed_over(fields, key, value, Field::Name);
    lemma_other_keys_are_passed_over(fields, key, value, Field::Description);
    lemma_other_keys_are_passed_over(fields, key, value, Field::Members);
}

/// Where `decode_each` succeeds, it gives one result for each item, in the
/// items' order: the `i`-th result is what `decode` makes of the `i`-th item.
pub proof fn lemma_decode_each_keeps_order<T>(
    items: Seq<JsonValue>,
    decode: spec_fn(JsonValue) -> Result<T, ShapeError>,
)
    requires
        decode_each(items, decode) is Ok,
    ensures
        decode_each(items, decode)->Ok_0.len() == items.len(),
        forall|i: int|
            0 <= i < items.len() ==> decode(#[trigger] items[i]) == Ok::<T, ShapeError>(
                decode_each(items, decode)->Ok_0[i],
            ),
{
}

/// `decode_each` succeeds on all items or on none: it gives a result only
/// where `decode` succeeds on every item.
pub proof fn lemma_decode_each_all_or_nothing<T>(
    items: Seq<JsonValue>,
    decode: spec_fn(JsonValue) -> Result<T, ShapeError>,
)
    ensures
        decode_each(items, decode) is Ok <==> forall|i: int|
            0 <= i < items.len() ==> decode(#[trigger] items[i]) is Ok,
{
}

/// Decodes one element of the `skills` array.
pub fn decode_skill(value: &serde_json::Value) -> (r: Result<ResponseSkill, ShapeError>)
    ensures
        decoded(r) == skill_of(document_model(*value)),
{
    let name = read_text(value, Field::Name)?;
    let level: u32 = read_u32(value, Field::Level)?;
    let xp: u64 = read_u64(value, Field::Xp)?;
    Ok(ResponseSkill { name, level, xp })
}

/// Decodes the hiscore service's response.
pub fn decode_stats(doc: &serde_json::Value) -> (r: Result<ResponseStats, ShapeError>)
    ensures
        decoded(r) == stats_of(document_model(*doc)),
{
    let items = read_items(doc, Field::Skills)?;
    let ghost models = document_models(items@);
    let mut skills: Vec<ResponseSkill> = Vec::new();
    let mut i: usize = 0;
    while i < items.len()
        invariant
            i <= items.len(),
            skills.len() == i,
            models == document_models(items@),
            items_at(document_model(*doc), Field::Skills) == Ok::<Seq<JsonValue>, ShapeError>(
                models,
            ),
            forall|j: int|
                0 <= j < i ==> skill_of(#[trigger] models[j]) == Ok::<
                    ResponseSkillView,
                    ShapeError,
                >(skills@[j]@),
        decreases items.len() - i,
    {
        match decode_skill(&items[i]) {
            Ok(skill) => {
                skills.push(skill);
            },
            Err(e) => {
                proof {
                    lemma_decode_each_fails(models, skill_decoder(), i as int, e);
                }
                return Err(e);
            },
        }
        i += 1;
    }
    proof {
        lemma_decode_each_succeeds(models, skill_decoder(), skills.deep_view());
    }
    Ok(ResponseStats { skills })
}

/// Decodes one element of the `items` array.
pub fn decode_item(value: &serde_json::Value) -> (r: Result<ResponseItem, ShapeError>)
    ensures
        decoded(r) == item_of(document_model(*value)),
{
    let icon = read_text(value, Field::Icon)?;
    let icon_large = read_text(value, Field::IconLarge)?;
    let id: u32 = read_u32(value, Field::Id)?;
    let item_type = read_text(value, Field::Type)?;
    let type_icon = read_text(value, Field::TypeIcon)?;
    let name = read_text(value, Field::Name)?;
    let description = read_text(value, Field::Description)?;
    let members = read_text(value, Field::Members)?;
    Ok(
        ResponseItem {
            icon,
            icon_large,
            id,
            item_type,
            typeIcon: type_icon,
            name,
            description,
            members,
        },
    )
}

/// Decodes the catalogue service's response.
pub fn decode_items(doc: &serde_json::Value) -> (r: Result<ItemsResponse, ShapeError>)
    ensures
        decoded(r) == items_response_of(document_model(*doc)),
{
    let values = read_items(doc, Field::Items)?;
    let ghost models = document_models(values@);
    let mut items: Vec<ResponseItem> = Vec::new();
    let mut i: usize = 0;
    while i < values.len()
        invariant
            i <= values.len(),
            items.len() == i,
            models == document_models(values@),
            items_at(document_model(*doc), Field::Items) == Ok::<Seq<JsonValue>, ShapeError>(
                models,
            ),
            forall|j: int|
                0 <= j < i ==> item_of(#[trigger] models[j]) == Ok::<ResponseItemView, ShapeError>(
                    items@[j]@,
                ),
        decreases values.len() - i,
    {
        match decode_item(&values[i]) {
            Ok(item) => {
                items.push(item);
            },
            Err(e) => {
                proof {
                    lemma_decode_each_fails(models, item_decoder(), i as int, e);
                }
                return Err(e);
            },
        }
        i += 1;
    }
    proof {
        lemma_decode_each_succeeds(models, item_decoder(), items.deep_view());
    }
    Ok(ItemsResponse { items })
}

} // verus!
