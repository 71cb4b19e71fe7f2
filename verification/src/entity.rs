//! What a lookup hands to its caller.

use vstd::prelude::*;

verus! {

/// One skill of a player.
#[derive(Clone, Debug, PartialEq, Eq)]
pub struct Skill {
    pub name: String,
    pub level: u32,
    pub xp: u64,
}

/// A `Skill` as a mathematical value.
pub struct SkillView {
    pub name: Seq<char>,
    pub level: u32,
    pub xp: u64,
}

impl View for Skill {
    type V = SkillView;

    open spec fn view(&self) -> SkillView {
        SkillView { name: self.name@, level: self.level, xp: self.xp }
    }
}

impl DeepView for Skill {
    type V = SkillView;

    open spec fn deep_view(&self) -> SkillView {
        self@
    }
}

/// One entry of the item catalogue.
#[derive(Clone, Debug, PartialEq, Eq)]
pub struct Item {
    /// The catalogue's identifier of the item.
    pub id: u32,
    pub name: String,
    pub description: String,
    /// The category label, which the catalogue sends as `type`.
    pub item_type: String,
    /// The icon of the category, not of the item.
    pub type_icon: String,
    pub icon: String,
    pub icon_large: String,
    /// `"true"` or `"false"`, as the catalogue sends it.
    pub members: String,
}

/// An `Item` as a mathematical value.
pub struct ItemView {
    pub id: u32,
    pub name: Seq<char>,
    pub description: Seq<char>,
    pub item_type: Seq<char>,
    pub type_icon: Seq<char>,
    pub icon: Seq<char>,
    pub icon_large: Seq<char>,
    pub members: Seq<char>,
}

impl View for Item {
    type V = ItemView;

    open spec fn view(&self) -> ItemView {
        ItemView {
            id: self.id,
            name: self.name@,
            description: self.description@,
            item_type: self.item_type@,
            type_icon: self.type_icon@,
            icon: self.icon@,
            icon_large: self.icon_large@,
            members: self.members@,
        }
    }
}

impl DeepView for Item {
    type V = ItemView;

    open spec fn deep_view(&self) -> ItemView {
        self@
    }
}

} // verus!
