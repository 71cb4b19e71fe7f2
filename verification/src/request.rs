//! The requests: one URL for each lookup.

use vstd::prelude::*;

verus! {

/// The hiscore service's address, up to the player's name.
pub const PLAYER_URL: &'static str =
    "https://secure.runescape.com/m=hiscore_oldschool/index_lite.json?player=";

/// The catalogue service's address, up to the letter. The category is fixed.
pub const ITEMS_URL_HEAD: &'static str =
    "https://secure.runescape.com/m=itemdb_oldschool/api/catalogue/items.json?category=1&alpha=";

/// The rest of the catalogue service's address: the first page, and no other.
pub const ITEMS_URL_TAIL: &'static str = "&page=1";

/// What `str::to_lowercase` makes of a text.
pub uninterp spec fn lowercase_of(text: Seq<char>) -> Seq<char>;

/// `str::to_lowercase`: the lowercase equivalent of the text, by Unicode's
/// rules. The result depends on the text alone.
pub assume_specification[ str::to_lowercase ](text: &str) -> (r: String)
    ensures
        r@ == lowercase_of(text@),
;

/// The address that holds a player's skills: the name goes in as it is.
pub open spec fn player_url_of(player_name: Seq<char>) -> Seq<char> {
    PLAYER_URL@ + player_name
}

/// The address that holds the catalogue's items under a letter: the letter
/// goes in in lower case.
pub open spec fn items_url_of(letter: Seq<char>) -> Seq<char> {
    ITEMS_URL_HEAD@ + lowercase_of(letter) + ITEMS_URL_TAIL@
}

/// The address to get for a player's skills.
pub fn player_url(player_name: &str) -> (url: String)
    ensures
        url@ == player_url_of(player_name@),
{
    String::from_str(PLAYER_URL).concat(player_name)
}

/// The address to get for the catalogue's items under a letter.
pub fn items_url(letter: &str) -> (url: String)
    ensures
        url@ == items_url_of(letter@),
{
    let lowered = letter.to_lowercase();
    String::from_str(ITEMS_URL_HEAD).concat(lowered.as_str()).concat(ITEMS_URL_TAIL)
}

/// Letters that are one in lower case are looked up under one address.
pub proof fn lemma_items_url_ignores_case(first: Seq<char>, second: Seq<char>)
    requires
        lowercase_of(first) == lowercase_of(second),
    ensures
        items_url_of(first) == items_url_of(second),
{
}

} // verus!
