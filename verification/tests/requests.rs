use osrs_lookup::request::{items_url, player_url, ITEMS_URL_HEAD, ITEMS_URL_TAIL, PLAYER_URL};

#[test]
fn player_url_ends_in_the_name() {
    assert_eq!(
        player_url("Zezima"),
        "https://secure.runescape.com/m=hiscore_oldschool/index_lite.json?player=Zezima"
    );
}

#[test]
fn player_name_goes_in_unescaped() {
    assert_eq!(
        player_url("Lynx Titan&x=1 %20#"),
        "https://secure.runescape.com/m=hiscore_oldschool/index_lite.json?player=Lynx Titan&x=1 %20#"
    );
}

#[test]
fn player_name_keeps_its_case() {
    assert_eq!(player_url("ZeZiMa"), format!("{}ZeZiMa", PLAYER_URL));
}

#[test]
fn empty_player_name_gives_the_bare_address() {
    assert_eq!(player_url(""), PLAYER_URL);
}

#[test]
fn items_url_holds_category_letter_and_page() {
    assert_eq!(
        items_url("a"),
        "https://secure.runescape.com/m=itemdb_oldschool/api/catalogue/items.json?category=1&alpha=a&page=1"
    );
}

#[test]
fn upper_and_lower_case_letter_give_one_url() {
    assert_eq!(items_url("A"), items_url("a"));
    assert_eq!(items_url("A"), format!("{}a{}", ITEMS_URL_HEAD, ITEMS_URL_TAIL));
}

#[test]
fn every_upper_case_letter_is_lowered() {
    for (upper, lower) in ('A'..='Z').zip('a'..='z') {
        assert_eq!(
            items_url(&upper.to_string()),
            format!("{}{}{}", ITEMS_URL_HEAD, lower, ITEMS_URL_TAIL)
        );
    }
}

#[test]
fn letter_is_not_checked_for_length_or_alphabet() {
    assert_eq!(items_url("Rune 2H"), format!("{}rune 2h{}", ITEMS_URL_HEAD, ITEMS_URL_TAIL));
    assert_eq!(items_url(""), format!("{}{}", ITEMS_URL_HEAD, ITEMS_URL_TAIL));
    assert_eq!(items_url("#"), format!("{}#{}", ITEMS_URL_HEAD, ITEMS_URL_TAIL));
}

#[test]
fn letters_beyond_ascii_are_lowered_too() {
    assert_eq!(items_url("É"), format!("{}é{}", ITEMS_URL_HEAD, ITEMS_URL_TAIL));
}
