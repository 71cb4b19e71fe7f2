use osrs_lookup::shape::{read_items, read_text, read_u32, read_u64, Field, ShapeError};
use osrs_lookup::wire::{
    decode_item, decode_items, decode_skill, decode_stats, ItemsResponse, ResponseItem,
    ResponseSkill, ResponseStats,
};
use serde_json::Value;

fn json(text: &str) -> Value {
    serde_json::from_str(text).unwrap()
}

fn wire_skill(name: &str, level: u32, xp: u64) -> ResponseSkill {
    ResponseSkill { name: name.to_string(), level, xp }
}

fn bronze_axe_json() -> &'static str {
    r#"{
        "icon": "https://secure.runescape.com/m=itemdb_oldschool/obj_sprite.gif?id=1351",
        "icon_large": "https://secure.runescape.com/m=itemdb_oldschool/obj_big.gif?id=1351",
        "id": 1351,
        "type": "Default",
        "typeIcon": "https://www.runescape.com/img/categories/Default",
        "name": "Bronze axe",
        "description": "A woodcutter's axe.",
        "current": {"trend": "neutral", "price": 28},
        "today": {"trend": "neutral", "price": 0},
        "members": "false"
    }"#
}

fn bronze_axe() -> ResponseItem {
    ResponseItem {
        icon: "https://secure.runescape.com/m=itemdb_oldschool/obj_sprite.gif?id=1351".to_string(),
        icon_large: "https://secure.runescape.com/m=itemdb_oldschool/obj_big.gif?id=1351"
            .to_string(),
        id: 1351,
        item_type: "Default".to_string(),
        typeIcon: "https://www.runescape.com/img/categories/Default".to_string(),
        name: "Bronze axe".to_string(),
        description: "A woodcutter's axe.".to_string(),
        members: "false".to_string(),
    }
}

#[test]
fn field_keys_are_the_services_names() {
    assert_eq!(Field::Skills.wire_key(), "skills");
    assert_eq!(Field::Name.wire_key(), "name");
    assert_eq!(Field::Level.wire_key(), "level");
    assert_eq!(Field::Xp.wire_key(), "xp");
    assert_eq!(Field::Items.wire_key(), "items");
    assert_eq!(Field::Icon.wire_key(), "icon");
    assert_eq!(Field::IconLarge.wire_key(), "icon_large");
    assert_eq!(Field::Id.wire_key(), "id");
    assert_eq!(Field::Type.wire_key(), "type");
    assert_eq!(Field::TypeIcon.wire_key(), "typeIcon");
    assert_eq!(Field::Description.wire_key(), "description");
    assert_eq!(Field::Members.wire_key(), "members");
}

#[test]
fn shape_errors_in_words() {
    assert_eq!(ShapeError::MissingField(Field::Skills).describe(), "missing field `skills`");
    assert_eq!(ShapeError::WrongType(Field::Level).describe(), "invalid type for field `level`");
    assert_eq!(
        ShapeError::MissingField(Field::TypeIcon).describe(),
        "missing field `typeIcon`"
    );
    assert_eq!(
        ShapeError::WrongType(Field::IconLarge).describe(),
        "invalid type for field `icon_large`"
    );
}

#[test]
fn read_text_gives_the_string_under_the_key() {
    let doc = json(r#"{"name": "Attack", "level": 99}"#);
    assert_eq!(read_text(&doc, Field::Name), Ok("Attack".to_string()));
}

#[test]
fn read_text_keeps_escapes_and_unicode() {
    let doc = json(r#"{"description": "A \"fine\" blade\né中"}"#);
    assert_eq!(
        read_text(&doc, Field::Description),
        Ok("A \"fine\" blade\né中".to_string())
    );
}

#[test]
fn read_text_on_a_missing_key() {
    let doc = json(r#"{"level": 99}"#);
    assert_eq!(read_text(&doc, Field::Name), Err(ShapeError::MissingField(Field::Name)));
}

#[test]
fn read_text_on_what_is_no_object() {
    for text in ["null", "true", "7", "\"name\"", "[\"name\"]"] {
        assert_eq!(
            read_text(&json(text), Field::Name),
            Err(ShapeError::MissingField(Field::Name)),
            "{text}"
        );
    }
}

#[test]
fn read_text_on_another_type() {
    for text in [
        r#"{"name": null}"#,
        r#"{"name": 5}"#,
        r#"{"name": true}"#,
        r#"{"name": ["Attack"]}"#,
        r#"{"name": {"name": "Attack"}}"#,
    ] {
        assert_eq!(
            read_text(&json(text), Field::Name),
            Err(ShapeError::WrongType(Field::Name)),
            "{text}"
        );
    }
}

#[test]
fn keys_are_matched_exactly() {
    let doc = json(r#"{"Name": "Attack", "name ": "Attack", "typeicon": "x", "type_icon": "y"}"#);
    assert_eq!(read_text(&doc, Field::Name), Err(ShapeError::MissingField(Field::Name)));
    assert_eq!(
        read_text(&doc, Field::TypeIcon),
        Err(ShapeError::MissingField(Field::TypeIcon))
    );
}

#[test]
fn read_u64_takes_the_whole_range() {
    assert_eq!(read_u64(&json(r#"{"xp": 0}"#), Field::Xp), Ok(0));
    assert_eq!(read_u64(&json(r#"{"xp": 200000000}"#), Field::Xp), Ok(200_000_000));
    assert_eq!(
        read_u64(&json(r#"{"xp": 18446744073709551615}"#), Field::Xp),
        Ok(u64::MAX)
    );
}

#[test]
fn read_u64_refuses_what_is_no_unsigned_integer() {
    for text in [
        r#"{"xp": -1}"#,
        r#"{"xp": 1.0}"#,
        r#"{"xp": 1e3}"#,
        r#"{"xp": 1.5}"#,
        r#"{"xp": -0}"#,
        r#"{"xp": 18446744073709551616}"#,
        r#"{"xp": "12"}"#,
        r#"{"xp": null}"#,
        r#"{"xp": [12]}"#,
    ] {
        assert_eq!(
            read_u64(&json(text), Field::Xp),
            Err(ShapeError::WrongType(Field::Xp)),
            "{text}"
        );
    }
    assert_eq!(read_u64(&json("{}"), Field::Xp), Err(ShapeError::MissingField(Field::Xp)));
    assert_eq!(read_u64(&json("12"), Field::Xp), Err(ShapeError::MissingField(Field::Xp)));
}

#[test]
fn read_u32_stops_at_its_limit() {
    assert_eq!(read_u32(&json(r#"{"level": 0}"#), Field::Level), Ok(0));
    assert_eq!(read_u32(&json(r#"{"level": 99}"#), Field::Level), Ok(99));
    assert_eq!(read_u32(&json(r#"{"level": 4294967295}"#), Field::Level), Ok(u32::MAX));
    assert_eq!(
        read_u32(&json(r#"{"level": 4294967296}"#), Field::Level),
        Err(ShapeError::WrongType(Field::Level))
    );
    assert_eq!(
        read_u32(&json(r#"{"level": 18446744073709551615}"#), Field::Level),
        Err(ShapeError::WrongType(Field::Level))
    );
    assert_eq!(
        read_u32(&json(r#"{"level": -1}"#), Field::Level),
        Err(ShapeError::WrongType(Field::Level))
    );
    assert_eq!(
        read_u32(&json(r#"{"lvl": 1}"#), Field::Level),
        Err(ShapeError::MissingField(Field::Level))
    );
}

#[test]
fn read_items_gives_the_array_in_order() {
    let doc = json(r#"{"skills": [3, "x", null, [], {}]}"#);
    let items = read_items(&doc, Field::Skills).unwrap();
    assert_eq!(items, &vec![json("3"), json("\"x\""), json("null"), json("[]"), json("{}")]);
}

#[test]
fn read_items_on_a_missing_key_and_on_another_type() {
    assert_eq!(
        read_items(&json(r#"{"items": []}"#), Field::Skills),
        Err(ShapeError::MissingField(Field::Skills))
    );
    assert_eq!(
        read_items(&json(r#"[]"#), Field::Skills),
        Err(ShapeError::MissingField(Field::Skills))
    );
    for text in [r#"{"skills": {}}"#, r#"{"skills": null}"#, r#"{"skills": "[]"}"#, r#"{"skills": 0}"#]
    {
        assert_eq!(
            read_items(&json(text), Field::Skills),
            Err(ShapeError::WrongType(Field::Skills)),
            "{text}"
        );
    }
}

#[test]
fn decode_skill_copies_three_fields() {
    let value = json(r#"{"id": 1, "name": "Attack", "rank": 120, "level": 99, "xp": 13034431}"#);
    assert_eq!(decode_skill(&value), Ok(wire_skill("Attack", 99, 13_034_431)));
}

#[test]
fn decode_skill_does_not_judge_the_numbers() {
    let value = json(r#"{"name": "", "level": 4294967295, "xp": 18446744073709551615}"#);
    assert_eq!(decode_skill(&value), Ok(wire_skill("", u32::MAX, u64::MAX)));
}

#[test]
fn decode_skill_names_the_first_field_at_fault() {
    assert_eq!(decode_skill(&json("{}")), Err(ShapeError::MissingField(Field::Name)));
    assert_eq!(
        decode_skill(&json(r#"{"name": "Attack"}"#)),
        Err(ShapeError::MissingField(Field::Level))
    );
    assert_eq!(
        decode_skill(&json(r#"{"name": "Attack", "level": 1}"#)),
        Err(ShapeError::MissingField(Field::Xp))
    );
    assert_eq!(
        decode_skill(&json(r#"{"name": 1, "level": "1", "xp": "1"}"#)),
        Err(ShapeError::WrongType(Field::Name))
    );
    assert_eq!(
        decode_skill(&json(r#"{"name": "Attack", "level": "1", "xp": "1"}"#)),
        Err(ShapeError::WrongType(Field::Level))
    );
    assert_eq!(
        decode_skill(&json(r#"{"name": "Attack", "level": 1, "xp": -5}"#)),
        Err(ShapeError::WrongType(Field::Xp))
    );
    assert_eq!(
        decode_skill(&json(r#"{"xp": "1", "level": 99}"#)),
        Err(ShapeError::MissingField(Field::Name))
    );
}

#[test]
fn decode_skill_takes_no_array_for_an_object() {
    assert_eq!(
        decode_skill(&json(r#"["Attack", 99, 13034431]"#)),
        Err(ShapeError::MissingField(Field::Name))
    );
}

#[test]
fn decode_stats_keeps_every_element_in_order() {
    let doc = json(
        r#"{"skills": [
            {"name": "Overall", "level": 2277, "xp": 4600000000},
            {"name": "Attack", "level": 99, "xp": 200000000},
            {"name": "Attack", "level": 99, "xp": 200000000},
            {"name": "Agility", "level": 1, "xp": 0}
        ]}"#,
    );
    assert_eq!(
        decode_stats(&doc),
        Ok(ResponseStats {
            skills: vec![
                wire_skill("Overall", 2277, 4_600_000_000),
                wire_skill("Attack", 99, 200_000_000),
                wire_skill("Attack", 99, 200_000_000),
                wire_skill("Agility", 1, 0),
            ]
        })
    );
}

#[test]
fn decode_stats_of_an_empty_array() {
    assert_eq!(decode_stats(&json(r#"{"skills": []}"#)), Ok(ResponseStats { skills: vec![] }));
}

#[test]
fn decode_stats_reports_the_first_element_at_fault() {
    let doc = json(
        r#"{"skills": [
            {"name": "Overall", "level": 2277, "xp": 4600000000},
            {"name": "Attack", "level": 99},
            {"name": 7, "level": 99, "xp": 1}
        ]}"#,
    );
    assert_eq!(decode_stats(&doc), Err(ShapeError::MissingField(Field::Xp)));
}

#[test]
fn decode_stats_of_other_top_level_shapes() {
    for text in ["null", "[]", "\"skills\"", "0", "{}", r#"{"items": []}"#, r#"{"Skills": []}"#] {
        assert_eq!(
            decode_stats(&json(text)),
            Err(ShapeError::MissingField(Field::Skills)),
            "{text}"
        );
    }
    assert_eq!(
        decode_stats(&json(r#"{"skills": {"name": "Attack", "level": 1, "xp": 1}}"#)),
        Err(ShapeError::WrongType(Field::Skills))
    );
    assert_eq!(
        decode_stats(&json(r#"{"skills": [null]}"#)),
        Err(ShapeError::MissingField(Field::Name))
    );
    assert_eq!(
        decode_stats(&json(r#"[[{"name": "Attack", "level": 1, "xp": 1}]]"#)),
        Err(ShapeError::MissingField(Field::Skills))
    );
}

#[test]
fn decode_item_copies_eight_fields() {
    assert_eq!(decode_item(&json(bronze_axe_json())), Ok(bronze_axe()));
}

#[test]
fn decode_item_keeps_members_as_sent() {
    let mut value = json(bronze_axe_json());
    value["members"] = Value::String("true".to_string());
    assert_eq!(decode_item(&value).unwrap().members, "true");
    value["members"] = Value::String("maybe".to_string());
    assert_eq!(decode_item(&value).unwrap().members, "maybe");
    value["members"] = Value::Bool(true);
    assert_eq!(decode_item(&value), Err(ShapeError::WrongType(Field::Members)));
}

#[test]
fn decode_item_names_the_first_field_at_fault() {
    let order = [
        Field::Icon,
        Field::IconLarge,
        Field::Id,
        Field::Type,
        Field::TypeIcon,
        Field::Name,
        Field::Description,
        Field::Members,
    ];
    for (n, field) in order.iter().enumerate() {
        let mut value = json(bronze_axe_json());
        for later in &order[n..] {
            value.as_object_mut().unwrap().remove(later.wire_key());
        }
        assert_eq!(decode_item(&value), Err(ShapeError::MissingField(*field)));
        let mut value = json(bronze_axe_json());
        for later in &order[n..] {
            value[later.wire_key()] = Value::Null;
        }
        assert_eq!(decode_item(&value), Err(ShapeError::WrongType(*field)));
    }
}

#[test]
fn decode_item_wants_the_services_key_for_the_type_icon() {
    let mut value = json(bronze_axe_json());
    let icon = value.as_object_mut().unwrap().remove("typeIcon").unwrap();
    value["type_icon"] = icon;
    assert_eq!(decode_item(&value), Err(ShapeError::MissingField(Field::TypeIcon)));
}

#[test]
fn decode_item_refuses_an_id_beyond_32_bits() {
    let mut value = json(bronze_axe_json());
    value["id"] = json("4294967296");
    assert_eq!(decode_item(&value), Err(ShapeError::WrongType(Field::Id)));
    value["id"] = json("4294967295");
    assert_eq!(decode_item(&value).unwrap().id, u32::MAX);
    value["id"] = json("\"1351\"");
    assert_eq!(decode_item(&value), Err(ShapeError::WrongType(Field::Id)));
}

#[test]
fn decode_items_keeps_every_element_in_order() {
    let doc = json(&format!(
        r#"{{"total": 3, "items": [{0}, {0}, {1}]}}"#,
        bronze_axe_json(),
        bronze_axe_json().replace("1351", "1349").replace("Bronze", "Iron")
    ));
    let mut iron_axe = bronze_axe();
    iron_axe.id = 1349;
    iron_axe.name = "Iron axe".to_string();
    iron_axe.icon = iron_axe.icon.replace("1351", "1349");
    iron_axe.icon_large = iron_axe.icon_large.replace("1351", "1349");
    assert_eq!(
        decode_items(&doc),
        Ok(ItemsResponse { items: vec![bronze_axe(), bronze_axe(), iron_axe] })
    );
}

#[test]
fn decode_items_of_an_empty_array() {
    assert_eq!(
        decode_items(&json(r#"{"total": 0, "items": []}"#)),
        Ok(ItemsResponse { items: vec![] })
    );
}

#[test]
fn decode_items_reports_the_first_element_at_fault() {
    let doc = json(&format!(
        r#"{{"items": [{0}, {1}, {2}]}}"#,
        bronze_axe_json(),
        bronze_axe_json().replace("\"typeIcon\"", "\"type_icon\""),
        bronze_axe_json().replace("\"icon\"", "\"ikon\"")
    ));
    assert_eq!(decode_items(&doc), Err(ShapeError::MissingField(Field::TypeIcon)));
}

#[test]
fn decode_items_of_other_top_level_shapes() {
    for text in ["null", "[]", "{}", r#"{"skills": []}"#] {
        assert_eq!(
            decode_items(&json(text)),
            Err(ShapeError::MissingField(Field::Items)),
            "{text}"
        );
    }
    assert_eq!(
        decode_items(&json(r#"{"items": "none"}"#)),
        Err(ShapeError::WrongType(Field::Items))
    );
    assert_eq!(
        decode_items(&json(r#"{"items": [[]]}"#)),
        Err(ShapeError::MissingField(Field::Icon))
    );
}
