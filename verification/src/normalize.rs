//! From the responses as the services send them to what a lookup hands to
//! its caller: each element once, in the order received, field by field.

use vstd::prelude::*;
use crate::entity::{Item, ItemView, Skill, SkillView};
use crate::wire::{
    ItemsResponse, ItemsResponseView, ResponseItem, ResponseItemView, ResponseSkill,
    ResponseSkillView, ResponseStats, ResponseStatsView,
};

verus! {

/// The skill that an element of the hiscore response stands for.
pub open spec fn skill_entity(wire: ResponseSkillView) -> SkillView {
    SkillView { name: wire.name, level: wire.level, xp: wire.xp }
}

/// The skills that a hiscore response stands for.
pub open spec fn skill_entities(stats: ResponseStatsView) -> Seq<SkillView> {
    stats.skills.map_values(|wire: ResponseSkillView| skill_entity(wire))
}

/// The item that an element of the catalogue response stands for: `typeIcon`
/// becomes `type_icon`, and nothing else changes.
pub open spec fn item_entity(wire: ResponseItemView) -> ItemView {
    ItemView {
        id: wire.id,
        name: wire.name,
        description: wire.description,
        item_type: wire.item_type,
        type_icon: wire.typeIcon,
        icon: wire.icon,
        icon_large: wire.icon_large,
        members: wire.members,
    }
}

/// The items that a catalogue response stands for.
pub open spec fn item_entities(response: ItemsResponseView) -> Seq<ItemView> {
    response.items.map_values(|wire: ResponseItemView| item_entity(wire))
}

/// Copies one element of the hiscore response into a `Skill`.
pub fn skill_from_wire(wire: &ResponseSkill) -> (skill: Skill)
    ensures
        skill@ == skill_entity(wire@),
{
    Skill { name: wire.name.clone(), level: wire.level, xp: wire.xp }
}

/// Copies the hiscore response into the skills that it lists.
pub fn skills_from_stats(stats: &ResponseStats) -> (skills: Vec<Skill>)
    ensures
        skills.deep_view() == skill_entities(stats@),
        skills.len() == stats.skills.len(),
{
    let mut skills: Vec<Skill> = Vec::new();
    let mut i: usize = 0;
    while i < stats.skills.len()
        invariant
            i <= stats.skills.len(),
            skills.len() == i,
            forall|j: int| 0 <= j < i ==> (#[trigger] skills@[j])@ == skill_entity(stats.skills@[j]@),
        decreases stats.skills.len() - i,
    {
        skills.push(skill_from_wire(&stats.skills[i]));
        i += 1;
    }
    assert(skills.deep_view() =~= skill_entities(stats@));
    skills
}

/// Copies one element of the catalogue response into an `Item`.
pub fn item_from_wire(wire: &ResponseItem) -> (item: Item)
    ensures
        item@ == item_entity(wire@),
{
    Item {
        id: wire.id,
        name: wire.name.clone(),
        description: wire.description.clone(),
        item_type: wire.item_type.clone(),
        type_icon: wire.typeIcon.clone(),
        icon: wire.icon.clone(),
        icon_large: wire.icon_large.clone(),
        members: wire.members.clone(),
    }
}

/// Copies the catalogue response into the items that it lists.
pub fn items_from_response(response: &ItemsResponse) -> (items: Vec<Item>)
    ensures
        items.deep_view() == item_entities(response@),
        items.len() == response.items.len(),
{
    let mut items: Vec<Item> = Vec::new();
    let mut i: usize = 0;
    while i < response.items.len()
        invariant
            i <= response.items.len(),
            items.len() == i,
            forall|j: int| 0 <= j < i ==> (#[trigger] items@[j])@ == item_entity(response.items@[j]@),
        decreases response.items.len() - i,
    {
        items.push(item_from_wire(&response.items[i]));
        i += 1;
    }
    assert(items.deep_view() =~= item_entities(response@));
    items
}

} // verus!
