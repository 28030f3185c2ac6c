//! The sentence grammars, and the reading of a feed event by the first grammar that applies.

use vstd::prelude::*;
use crate::feed_event::{
    changes_view, equals_view, render, AttributeChange, AttributeEqual, EmojiTeam, EmojilessItem, FeedDelivery, FeedEvent,
    FeedEventParseError, FeedEventTextModel, Item, NotRecognized, ParsedFeedEventText,
};
use crate::text::{
    chars_of, find, find_lit, i16_at, lit_end, scan_i16, scan_lit, scan_u8, scan_until, substring, u8_at, until_at,
};
use crate::vocab::{scan_word, word_at, Attribute, FeedEventSource, FeedEventType, ItemPrefix, ItemSuffix, ItemType};

verus! {

/// An optional ` of <suffix>` after an item's type that ends at `e`.
pub open spec fn suffix_at(t: Seq<char>, e: int) -> (Option<ItemSuffix>, int) {
    match lit_end(t, e, " of "@) {
        Some(s) => match word_at::<ItemSuffix>(t, s) {
            Some((x, e2)) => (Some(x), e2),
            None => (None, e),
        },
        None => (None, e),
    }
}

/// An item type at `i` followed by an optional suffix.
pub open spec fn typed_item_at(t: Seq<char>, i: int, prefix: Option<ItemPrefix>) -> Option<(EmojilessItem, int)> {
    match word_at::<ItemType>(t, i) {
        Some((ty, e)) => {
            let (suffix, e2) = suffix_at(t, e);
            Some((EmojilessItem { prefix, item: ty, suffix }, e2))
        },
        None => None,
    }
}

/// An item at `i` written as `[prefix ]type[ of suffix]`.
pub open spec fn item_at(t: Seq<char>, i: int) -> Option<(EmojilessItem, int)> {
    match word_at::<ItemPrefix>(t, i) {
        Some((p, e)) => match lit_end(t, e, " "@) {
            Some(s) => typed_item_at(t, s, Some(p)),
            None => typed_item_at(t, i, None),
        },
        None => typed_item_at(t, i, None),
    }
}

/// An item at `i` with its emoji in front: the characters up to the first space, then the item.
pub open spec fn emoji_item_at(t: Seq<char>, i: int) -> Option<(Item<Seq<char>>, int)> {
    match find(t, i, " "@) {
        Some(j) => if i < j {
            match item_at(t, j + 1) {
                Some((it, e)) => Some(
                    (Item { emoji: t.subrange(i, j), prefix: it.prefix, item: it.item, suffix: it.suffix }, e),
                ),
                None => None,
            }
        } else {
            None
        },
        None => None,
    }
}

/// The whole of `t[a..b]` read as an emoji, a space and a team's name.
pub open spec fn team_in(t: Seq<char>, a: int, b: int) -> Option<EmojiTeam<Seq<char>>> {
    match find(t, a, " "@) {
        Some(j) => if a < j && j < b {
            Some(EmojiTeam { emoji: t.subrange(a, j), name: t.subrange(j + 1, b) })
        } else {
            None
        },
        None => None,
    }
}

fn scan_suffix(t: &Vec<char>, e: usize) -> (r: (Option<ItemSuffix>, usize))
    requires
        e <= t.len(),
    ensures
        r.0 == suffix_at(t@, e as int).0,
        r.1 == suffix_at(t@, e as int).1,
        e <= r.1 <= t.len(),
{
    match scan_lit(t, e, " of ") {
        Some(s) => match scan_word::<ItemSuffix>(t, s) {
            Some((x, e2)) => (Some(x), e2),
            None => (None, e),
        },
        None => (None, e),
    }
}

fn scan_typed_item(t: &Vec<char>, i: usize, prefix: Option<ItemPrefix>) -> (r: Option<(EmojilessItem, usize)>)
    requires
        i <= t.len(),
    ensures
        match typed_item_at(t@, i as int, prefix) {
            Some((it, e)) => r matches Some((ri, re)) && ri == it && re == e,
            None => r is None,
        },
        r matches Some((it, e)) ==> i <= e <= t.len(),
{
    match scan_word::<ItemType>(t, i) {
        Some((ty, e)) => {
            let (suffix, e2) = scan_suffix(t, e);
            Some((EmojilessItem { prefix, item: ty, suffix }, e2))
        },
        None => None,
    }
}

/// Reads an item written as `[prefix ]type[ of suffix]` at `i`.
pub fn scan_item(t: &Vec<char>, i: usize) -> (r: Option<(EmojilessItem, usize)>)
    requires
        i <= t.len(),
    ensures
        match item_at(t@, i as int) {
            Some((it, e)) => r matches Some((ri, re)) && ri == it && re == e,
            None => r is None,
        },
        r matches Some((it, e)) ==> i <= e <= t.len(),
{
    match scan_word::<ItemPrefix>(t, i) {
        Some((p, e)) => match scan_lit(t, e, " ") {
            Some(s) => scan_typed_item(t, s, Some(p)),
            None => scan_typed_item(t, i, None),
        },
        None => scan_typed_item(t, i, None),
    }
}

/// Reads an item with its emoji in front at `i`.
pub fn scan_emoji_item(t: &Vec<char>, i: usize) -> (r: Option<(Item<String>, usize)>)
    requires
        i <= t.len(),
    ensures
        match emoji_item_at(t@, i as int) {
            Some((it, e)) => r matches Some((ri, re)) && ri@ == it && re == e,
            None => r is None,
        },
        r matches Some((ri, re)) ==> i <= re <= t.len(),
{
    match find_lit(t, i, " ") {
        Some(j) => {
            if i < j {
                assert(j + 1 <= t.len()) by {
                    reveal_strlit(" ");
                }
                match scan_item(t, j + 1) {
                    Some((it, e)) => {
                        let emoji = substring(t, i, j);
                        Some((Item { emoji, prefix: it.prefix, item: it.item, suffix: it.suffix }, e))
                    },
                    None => None,
                }
            } else {
                None
            }
        },
        None => None,
    }
}

/// Reads the whole of `t[a..b]` as an emoji, a space and a team's name.
pub fn scan_team(t: &Vec<char>, a: usize, b: usize) -> (r: Option<EmojiTeam<String>>)
    requires
        a <= b <= t.len(),
    ensures
        match team_in(t@, a as int, b as int) {
            Some(tm) => r matches Some(rt) && rt@ == tm,
            None => r is None,
        },
{
    match find_lit(t, a, " ") {
        Some(j) => {
            if a < j && j < b {
                let emoji = substring(t, a, j);
                let name = substring(t, j + 1, b);
                Some(EmojiTeam { emoji, name })
            } else {
                None
            }
        },
        None => None,
    }
}

/// `r` is what the grammar's description `s` says: the same reading, ending at the same place.
pub open spec fn reads_as(r: Option<(ParsedFeedEventText<String>, usize)>, s: Option<(FeedEventTextModel, int)>) -> bool {
    match s {
        Some((m, e)) => r matches Some((rv, re)) && rv@ == m && re == e,
        None => r is None,
    }
}

/// `<player> was hit by a Falling Star!`
pub open spec fn hit_by_falling_star_at(t: Seq<char>) -> Option<(FeedEventTextModel, int)> {
    match until_at(t, 0, " was hit by a Falling Star!"@) {
        Some((player, e)) => Some((FeedEventTextModel::HitByFallingStar { player }, e)),
        None => None,
    }
}

/// `<player> gained the ROBO Modification.`
pub open spec fn robo_at(t: Seq<char>) -> Option<(FeedEventTextModel, int)> {
    match until_at(t, 0, " gained the ROBO Modification."@) {
        Some((player_name, e)) => Some((FeedEventTextModel::ROBO { player_name }, e)),
        None => None,
    }
}

/// `<player> was moved to the mound. <player> was sent to the lineup.`
pub open spec fn take_the_mound_at(t: Seq<char>) -> Option<(FeedEventTextModel, int)> {
    match until_at(t, 0, " was moved to the mound. "@) {
        Some((to_mound_player, p)) => match until_at(t, p, " was sent to the lineup."@) {
            Some((to_lineup_player, e)) => Some(
                (FeedEventTextModel::TakeTheMound { to_mound_player, to_lineup_player }, e),
            ),
            None => None,
        },
        None => None,
    }
}

/// `<player> was sent to the plate. <player> was pulled from the lineup.`
pub open spec fn take_the_plate_at(t: Seq<char>) -> Option<(FeedEventTextModel, int)> {
    match until_at(t, 0, " was sent to the plate. "@) {
        Some((to_plate_player, p)) => match until_at(t, p, " was pulled from the lineup."@) {
            Some((from_lineup_player, e)) => Some(
                (FeedEventTextModel::TakeThePlate { to_plate_player, from_lineup_player }, e),
            ),
            None => None,
        },
        None => None,
    }
}

/// `<player> swapped places with <player>.`, where the second name runs to the final full stop.
pub open spec fn swap_places_at(t: Seq<char>) -> Option<(FeedEventTextModel, int)> {
    if t.len() > 0 && t.last() == '.' {
        match until_at(t, 0, " swapped places with "@) {
            Some((player_one, p)) => if p < t.len() {
                Some(
                    (
                        FeedEventTextModel::SwapPlaces { player_one, player_two: t.subrange(p, t.len() - 1) },
                        t.len() as int,
                    ),
                )
            } else {
                None
            },
            None => None,
        }
    } else {
        None
    }
}

/// `<emoji> <away> vs. <emoji> <home> - FINAL <away score>-<home score>`
pub open spec fn game_result_at(t: Seq<char>) -> Option<(FeedEventTextModel, int)> {
    match find(t, 0, " vs. "@) {
        Some(a) => match team_in(t, 0, a) {
            Some(away_team) => match find(t, a + " vs. "@.len(), " - "@) {
                Some(b) => match team_in(t, a + " vs. "@.len(), b) {
                    Some(home_team) => match lit_end(t, b + " - "@.len(), "FINAL "@) {
                        Some(c) => match u8_at(t, c) {
                            Some((away_score, d)) => match lit_end(t, d, "-"@) {
                                Some(f) => match u8_at(t, f) {
                                    Some((home_score, e)) => Some(
                                        (
                                            FeedEventTextModel::GameResult {
                                                home_team,
                                                away_team,
                                                home_score,
                                                away_score,
                                            },
                                            e,
                                        ),
                                    ),
                                    None => None,
                                },
                                None => None,
                            },
                            None => None,
                        },
                        None => None,
                    },
                    None => None,
                },
                None => None,
            },
            None => None,
        },
        None => None,
    }
}

/// ` They discarded their <item>.` at `i`.
pub open spec fn discarded_at(t: Seq<char>, i: int) -> Option<(Item<Seq<char>>, int)> {
    match lit_end(t, i, " They discarded their "@) {
        Some(p) => match emoji_item_at(t, p) {
            Some((item, q)) => match lit_end(t, q, "."@) {
                Some(e) => Some((item, e)),
                None => None,
            },
            None => None,
        },
        None => None,
    }
}

/// `<player> received a <item> <label>.[ They discarded their <item>.]`
pub open spec fn delivery_at(t: Seq<char>, label: Seq<char>) -> Option<(FeedDelivery<Seq<char>>, int)> {
    match until_at(t, 0, " received a "@) {
        Some((player, p)) => match emoji_item_at(t, p) {
            Some((item, q)) => match lit_end(t, q, " "@) {
                Some(q1) => match lit_end(t, q1, label) {
                    Some(q2) => match lit_end(t, q2, "."@) {
                        Some(r) => match discarded_at(t, r) {
                            Some((d, e)) => Some((FeedDelivery { player, item, discarded: Some(d) }, e)),
                            None => Some((FeedDelivery { player, item, discarded: None }, r)),
                        },
                        None => None,
                    },
                    None => None,
                },
                None => None,
            },
            None => None,
        },
        None => None,
    }
}

/// Reads `t` from its start with this grammar: the reading and where it stopped.
pub fn hit_by_falling_star(t: &Vec<char>) -> (r: Option<(ParsedFeedEventText<String>, usize)>)
    ensures
        reads_as(r, hit_by_falling_star_at(t@)),
        r matches Some((v, e)) ==> e <= t.len(),
{
    match scan_until(t, 0, " was hit by a Falling Star!") {
        Some((player, e)) => Some((ParsedFeedEventText::HitByFallingStar { player }, e)),
        None => None,
    }
}

/// Reads `t` from its start with this grammar: the reading and where it stopped.
pub fn robo(t: &Vec<char>) -> (r: Option<(ParsedFeedEventText<String>, usize)>)
    ensures
        reads_as(r, robo_at(t@)),
        r matches Some((v, e)) ==> e <= t.len(),
{
    match scan_until(t, 0, " gained the ROBO Modification.") {
        Some((player_name, e)) => Some((ParsedFeedEventText::ROBO { player_name }, e)),
        None => None,
    }
}

/// Reads `t` from its start with this grammar: the reading and where it stopped.
pub fn take_the_mound(t: &Vec<char>) -> (r: Option<(ParsedFeedEventText<String>, usize)>)
    ensures
        reads_as(r, take_the_mound_at(t@)),
        r matches Some((v, e)) ==> e <= t.len(),
{
    match scan_until(t, 0, " was moved to the mound. ") {
        Some((to_mound_player, p)) => match scan_until(t, p, " was sent to the lineup.") {
            Some((to_lineup_player, e)) => Some(
                (ParsedFeedEventText::TakeTheMound { to_mound_player, to_lineup_player }, e),
            ),
            None => None,
        },
        None => None,
    }
}

/// Reads `t` from its start with this grammar: the reading and where it stopped.
pub fn take_the_plate(t: &Vec<char>) -> (r: Option<(ParsedFeedEventText<String>, usize)>)
    ensures
        reads_as(r, take_the_plate_at(t@)),
        r matches Some((v, e)) ==> e <= t.len(),
{
    match scan_until(t, 0, " was sent to the plate. ") {
        Some((to_plate_player, p)) => match scan_until(t, p, " was pulled from the lineup.") {
            Some((from_lineup_player, e)) => Some(
                (ParsedFeedEventText::TakeThePlate { to_plate_player, from_lineup_player }, e),
            ),
            None => None,
        },
        None => None,
    }
}

/// Reads `t` from its start with this grammar: the reading and where it stopped.
pub fn swap_places(t: &Vec<char>) -> (r: Option<(ParsedFeedEventText<String>, usize)>)
    ensures
        reads_as(r, swap_places_at(t@)),
        r matches Some((v, e)) ==> e <= t.len(),
{
    let n = t.len();
    if n > 0 && t[n - 1] == '.' {
        match scan_until(t, 0, " swapped places with ") {
            Some((player_one, p)) => {
                if p < n {
                    let player_two = substring(t, p, n - 1);
                    Some((ParsedFeedEventText::SwapPlaces { player_one, player_two }, n))
                } else {
                    None
                }
            },
            None => None,
        }
    } else {
        None
    }
}

/// Reads `t` from its start with this grammar: the reading and where it stopped.
pub fn game_result(t: &Vec<char>) -> (r: Option<(ParsedFeedEventText<String>, usize)>)
    ensures
        reads_as(r, game_result_at(t@)),
        r matches Some((v, e)) ==> e <= t.len(),
{
    let vs = chars_of(" vs. ");
    let dash = chars_of(" - ");
    let a = match find_lit(t, 0, " vs. ") {
        Some(a) => a,
        None => return None,
    };
    let away_team = match scan_team(t, 0, a) {
        Some(x) => x,
        None => return None,
    };
    let a2 = a + vs.len();
    let b = match find_lit(t, a2, " - ") {
        Some(b) => b,
        None => return None,
    };
    let home_team = match scan_team(t, a2, b) {
        Some(x) => x,
        None => return None,
    };
    let c = match scan_lit(t, b + dash.len(), "FINAL ") {
        Some(c) => c,
        None => return None,
    };
    let (away_score, d) = match scan_u8(t, c) {
        Some(x) => x,
        None => return None,
    };
    let f = match scan_lit(t, d, "-") {
        Some(f) => f,
        None => return None,
    };
    let (home_score, e) = match scan_u8(t, f) {
        Some(x) => x,
        None => return None,
    };
    Some((ParsedFeedEventText::GameResult { home_team, away_team, home_score, away_score }, e))
}

fn scan_discarded(t: &Vec<char>, i: usize) -> (r: Option<(Item<String>, usize)>)
    requires
        i <= t.len(),
    ensures
        match discarded_at(t@, i as int) {
            Some((it, e)) => r matches Some((ri, re)) && ri@ == it && re == e,
            None => r is None,
        },
        r matches Some((ri, re)) ==> i <= re <= t.len(),
{
    let p = match scan_lit(t, i, " They discarded their ") {
        Some(p) => p,
        None => return None,
    };
    let (item, q) = match scan_emoji_item(t, p) {
        Some(x) => x,
        None => return None,
    };
    match scan_lit(t, q, ".") {
        Some(e) => Some((item, e)),
        None => None,
    }
}

/// Reads a delivery sentence under `label`.
fn scan_delivery(t: &Vec<char>, label: &str) -> (r: Option<(FeedDelivery<String>, usize)>)
    ensures
        match delivery_at(t@, label@) {
            Some((d, e)) => r matches Some((rd, re)) && rd@ == d && re == e,
            None => r is None,
        },
        r matches Some((rd, re)) ==> re <= t.len(),
{
    let (player, p) = match scan_until(t, 0, " received a ") {
        Some(x) => x,
        None => return None,
    };
    let (item, q) = match scan_emoji_item(t, p) {
        Some(x) => x,
        None => return None,
    };
    let q1 = match scan_lit(t, q, " ") {
        Some(x) => x,
        None => return None,
    };
    let q2 = match scan_lit(t, q1, label) {
        Some(x) => x,
        None => return None,
    };
    let r = match scan_lit(t, q2, ".") {
        Some(x) => x,
        None => return None,
    };
    match scan_discarded(t, r) {
        Some((d, e)) => Some((FeedDelivery { player, item, discarded: Some(d) }, e)),
        None => Some((FeedDelivery { player, item, discarded: None }, r)),
    }
}

/// `<amount> <attribute>` at `i`.
pub open spec fn bonus_pair_at(t: Seq<char>, i: int) -> Option<((u8, Attribute), int)> {
    match u8_at(t, i) {
        Some((amount, p)) => match lit_end(t, p, " "@) {
            Some(q) => match word_at::<Attribute>(t, q) {
                Some((attribute, e)) => Some(((amount, attribute), e)),
                None => None,
            },
            None => None,
        },
        None => None,
    }
}

/// ` gained a +<amount> <attribute> bonus.` at `i`.
pub open spec fn one_bonus_at(t: Seq<char>, i: int) -> Option<((u8, Attribute), int)> {
    match lit_end(t, i, " gained a +"@) {
        Some(p) => match bonus_pair_at(t, p) {
            Some((b, q)) => match lit_end(t, q, " bonus."@) {
                Some(e) => Some((b, e)),
                None => None,
            },
            None => None,
        },
        None => None,
    }
}

/// ` was enchanted with [a ]+<amount> <attribute> and +<amount> <attribute>.` at `i`.
pub open spec fn two_bonus_at(t: Seq<char>, i: int) -> Option<((u8, Attribute), (u8, Attribute), int)> {
    match lit_end(t, i, " was enchanted with "@) {
        Some(p0) => {
            let p1 = match lit_end(t, p0, "a "@) {
                Some(x) => x,
                None => p0,
            };
            match lit_end(t, p1, "+"@) {
                Some(p2) => match bonus_pair_at(t, p2) {
                    Some((one, q)) => match lit_end(t, q, " and +"@) {
                        Some(q1) => match bonus_pair_at(t, q1) {
                            Some((two, q2)) => match lit_end(t, q2, "."@) {
                                Some(e) => Some((one, two, e)),
                                None => None,
                            },
                            None => None,
                        },
                        None => None,
                    },
                    None => None,
                },
                None => None,
            }
        },
        None => None,
    }
}

/// `<lead><player>'s <item>`: the opening of an enchantment sentence.
pub open spec fn enchant_head_at(t: Seq<char>, lead: Seq<char>) -> Option<(Seq<char>, EmojilessItem, int)> {
    match lit_end(t, 0, lead) {
        Some(p) => match until_at(t, p, "'s "@) {
            Some((player, q)) => match item_at(t, q) {
                Some((item, e)) => Some((player, item, e)),
                None => None,
            },
            None => None,
        },
        None => None,
    }
}

/// `<player>'s <item> was enchanted with +<amount> to <attribute>.`
pub open spec fn enchantment_s1a_at(t: Seq<char>) -> Option<(FeedEventTextModel, int)> {
    match enchant_head_at(t, ""@) {
        Some((player_name, item, p)) => match lit_end(t, p, " was enchanted with +"@) {
            Some(q) => match u8_at(t, q) {
                Some((amount, r)) => match lit_end(t, r, " to "@) {
                    Some(r1) => match word_at::<Attribute>(t, r1) {
                        Some((attribute, r2)) => match lit_end(t, r2, "."@) {
                            Some(e) => Some(
                                (FeedEventTextModel::S1Enchantment { player_name, item, amount, attribute }, e),
                            ),
                            None => None,
                        },
                        None => None,
                    },
                    None => None,
                },
                None => None,
            },
            None => None,
        },
        None => None,
    }
}

/// `The Item Enchantment was a success! <player>'s <item> gained a +<amount> <attribute> bonus.`
pub open spec fn enchantment_s1b_at(t: Seq<char>) -> Option<(FeedEventTextModel, int)> {
    match enchant_head_at(t, "The Item Enchantment was a success! "@) {
        Some((player_name, item, p)) => match one_bonus_at(t, p) {
            Some(((amount, attribute), e)) => Some(
                (FeedEventTextModel::S1Enchantment { player_name, item, amount, attribute }, e),
            ),
            None => None,
        },
        None => None,
    }
}

/// `The Item Enchantment was a success! <player>'s <item>` followed by two bonuses.
pub open spec fn enchantment_s2_at(t: Seq<char>) -> Option<(FeedEventTextModel, int)> {
    match enchant_head_at(t, "The Item Enchantment was a success! "@) {
        Some((player_name, item, p)) => match two_bonus_at(t, p) {
            Some(((amount, attribute), two, e)) => Some(
                (
                    FeedEventTextModel::S2Enchantment {
                        player_name,
                        item,
                        amount,
                        attribute,
                        enchant_two: Some(two),
                        compensatory: false,
                    },
                    e,
                ),
            ),
            None => None,
        },
        None => None,
    }
}

/// `The Compensatory Enchantment was a success! <player>'s <item>` followed by two bonuses or one.
pub open spec fn enchantment_compensatory_at(t: Seq<char>) -> Option<(FeedEventTextModel, int)> {
    match enchant_head_at(t, "The Compensatory Enchantment was a success! "@) {
        Some((player_name, item, p)) => match two_bonus_at(t, p) {
            Some(((amount, attribute), two, e)) => Some(
                (
                    FeedEventTextModel::S2Enchantment {
                        player_name,
                        item,
                        amount,
                        attribute,
                        enchant_two: Some(two),
                        compensatory: true,
                    },
                    e,
                ),
            ),
            None => match one_bonus_at(t, p) {
                Some(((amount, attribute), e)) => Some(
                    (
                        FeedEventTextModel::S2Enchantment {
                            player_name,
                            item,
                            amount,
                            attribute,
                            enchant_two: None,
                            compensatory: true,
                        },
                        e,
                    ),
                ),
                None => None,
            },
        },
        None => None,
    }
}

fn scan_bonus_pair(t: &Vec<char>, i: usize) -> (r: Option<((u8, Attribute), usize)>)
    requires
        i <= t.len(),
    ensures
        match bonus_pair_at(t@, i as int) {
            Some((b, e)) => r matches Some((rb, re)) && rb == b && re == e,
            None => r is None,
        },
        r matches Some((rb, re)) ==> i <= re <= t.len(),
{
    let (amount, p) = match scan_u8(t, i) {
        Some(x) => x,
        None => return None,
    };
    let q = match scan_lit(t, p, " ") {
        Some(x) => x,
        None => return None,
    };
    match scan_word::<Attribute>(t, q) {
        Some((attribute, e)) => Some(((amount, attribute), e)),
        None => None,
    }
}

fn scan_one_bonus(t: &Vec<char>, i: usize) -> (r: Option<((u8, Attribute), usize)>)
    requires
        i <= t.len(),
    ensures
        match one_bonus_at(t@, i as int) {
            Some((b, e)) => r matches Some((rb, re)) && rb == b && re == e,
            None => r is None,
        },
        r matches Some((rb, re)) ==> i <= re <= t.len(),
{
    let p = match scan_lit(t, i, " gained a +") {
        Some(x) => x,
        None => return None,
    };
    let (b, q) = match scan_bonus_pair(t, p) {
        Some(x) => x,
        None => return None,
    };
    match scan_lit(t, q, " bonus.") {
        Some(e) => Some((b, e)),
        None => None,
    }
}

fn scan_two_bonus(t: &Vec<char>, i: usize) -> (r: Option<((u8, Attribute), (u8, Attribute), usize)>)
    requires
        i <= t.len(),
    ensures
        match two_bonus_at(t@, i as int) {
            Some((b1, b2, e)) => r matches Some((r1, r2, re)) && r1 == b1 && r2 == b2 && re == e,
            None => r is None,
        },
        r matches Some((r1, r2, re)) ==> i <= re <= t.len(),
{
    let p0 = match scan_lit(t, i, " was enchanted with ") {
        Some(x) => x,
        None => return None,
    };
    let p1 = match scan_lit(t, p0, "a ") {
        Some(x) => x,
        None => p0,
    };
    let p2 = match scan_lit(t, p1, "+") {
        Some(x) => x,
        None => return None,
    };
    let (one, q) = match scan_bonus_pair(t, p2) {
        Some(x) => x,
        None => return None,
    };
    let q1 = match scan_lit(t, q, " and +") {
        Some(x) => x,
        None => return None,
    };
    let (two, q2) = match scan_bonus_pair(t, q1) {
        Some(x) => x,
        None => return None,
    };
    match scan_lit(t, q2, ".") {
        Some(e) => Some((one, two, e)),
        None => None,
    }
}

fn scan_enchant_head(t: &Vec<char>, lead: &str) -> (r: Option<(String, EmojilessItem, usize)>)
    ensures
        match enchant_head_at(t@, lead@) {
            Some((player, item, e)) => r matches Some((rp, ri, re)) && rp@ == player && ri == item && re == e,
            None => r is None,
        },
        r matches Some((rp, ri, re)) ==> re <= t.len(),
{
    let p = match scan_lit(t, 0, lead) {
        Some(x) => x,
        None => return None,
    };
    let (player, q) = match scan_until(t, p, "'s ") {
        Some(x) => x,
        None => return None,
    };
    match scan_item(t, q) {
        Some((item, e)) => Some((player, item, e)),
        None => None,
    }
}

/// Reads `t` from its start with this grammar: the reading and where it stopped.
pub fn enchantment_s1a(t: &Vec<char>) -> (r: Option<(ParsedFeedEventText<String>, usize)>)
    ensures
        reads_as(r, enchantment_s1a_at(t@)),
        r matches Some((v, e)) ==> e <= t.len(),
{
    let (player_name, item, p) = match scan_enchant_head(t, "") {
        Some(x) => x,
        None => return None,
    };
    let q = match scan_lit(t, p, " was enchanted with +") {
        Some(x) => x,
        None => return None,
    };
    let (amount, r) = match scan_u8(t, q) {
        Some(x) => x,
        None => return None,
    };
    let r1 = match scan_lit(t, r, " to ") {
        Some(x) => x,
        None => return None,
    };
    let (attribute, r2) = match scan_word::<Attribute>(t, r1) {
        Some(x) => x,
        None => return None,
    };
    match scan_lit(t, r2, ".") {
        Some(e) => Some((ParsedFeedEventText::S1Enchantment { player_name, item, amount, attribute }, e)),
        None => None,
    }
}

/// Reads `t` from its start with this grammar: the reading and where it stopped.
pub fn enchantment_s1b(t: &Vec<char>) -> (r: Option<(ParsedFeedEventText<String>, usize)>)
    ensures
        reads_as(r, enchantment_s1b_at(t@)),
        r matches Some((v, e)) ==> e <= t.len(),
{
    let (player_name, item, p) = match scan_enchant_head(t, "The Item Enchantment was a success! ") {
        Some(x) => x,
        None => return None,
    };
    match scan_one_bonus(t, p) {
        Some(((amount, attribute), e)) => Some(
            (ParsedFeedEventText::S1Enchantment { player_name, item, amount, attribute }, e),
        ),
        None => None,
    }
}

/// Reads `t` from its start with this grammar: the reading and where it stopped.
pub fn enchantment_s2(t: &Vec<char>) -> (r: Option<(ParsedFeedEventText<String>, usize)>)
    ensures
        reads_as(r, enchantment_s2_at(t@)),
        r matches Some((v, e)) ==> e <= t.len(),
{
    let (player_name, item, p) = match scan_enchant_head(t, "The Item Enchantment was a success! ") {
        Some(x) => x,
        None => return None,
    };
    match scan_two_bonus(t, p) {
        Some(((amount, attribute), two, e)) => Some(
            (
                ParsedFeedEventText::S2Enchantment {
                    player_name,
                    item,
                    amount,
                    attribute,
                    enchant_two: Some(two),
                    compensatory: false,
                },
                e,
            ),
        ),
        None => None,
    }
}

/// Reads `t` from its start with this grammar: the reading and where it stopped.
pub fn enchantment_compensatory(t: &Vec<char>) -> (r: Option<(ParsedFeedEventText<String>, usize)>)
    ensures
        reads_as(r, enchantment_compensatory_at(t@)),
        r matches Some((v, e)) ==> e <= t.len(),
{
    let (player_name, item, p) = match scan_enchant_head(t, "The Compensatory Enchantment was a success! ") {
        Some(x) => x,
        None => return None,
    };
    match scan_two_bonus(t, p) {
        Some(((amount, attribute), two, e)) => Some(
            (
                ParsedFeedEventText::S2Enchantment {
                    player_name,
                    item,
                    amount,
                    attribute,
                    enchant_two: Some(two),
                    compensatory: true,
                },
                e,
            ),
        ),
        None => match scan_one_bonus(t, p) {
            Some(((amount, attribute), e)) => Some(
                (
                    ParsedFeedEventText::S2Enchantment {
                        player_name,
                        item,
                        amount,
                        attribute,
                        enchant_two: None,
                        compensatory: true,
                    },
                    e,
                ),
            ),
            None => None,
        },
    }
}

/// Where a repeated sentence's text starts: after one optional separating space.
pub open spec fn skip_space(t: Seq<char>, i: int) -> int {
    match lit_end(t, i, " "@) {
        Some(s) => s,
        None => i,
    }
}

/// `[ ]<player> gained +<amount> <attribute>.` at `i`.
pub open spec fn change_at(t: Seq<char>, i: int) -> Option<(AttributeChange<Seq<char>>, int)> {
    match until_at(t, skip_space(t, i), " gained +"@) {
        Some((player_name, p)) => match i16_at(t, p) {
            Some((amount, q)) => match lit_end(t, q, " "@) {
                Some(q1) => match word_at::<Attribute>(t, q1) {
                    Some((attribute, q2)) => match lit_end(t, q2, "."@) {
                        Some(e) => Some((AttributeChange { player_name, amount, attribute }, e)),
                        None => None,
                    },
                    None => None,
                },
                None => None,
            },
            None => None,
        },
        None => None,
    }
}

/// All the change sentences that follow one another from `i`, and where the last one ends.
pub open spec fn changes_from(t: Seq<char>, i: int) -> (Seq<AttributeChange<Seq<char>>>, int)
    decreases t.len() - i,
{
    match change_at(t, i) {
        Some((c, e)) => if i < e <= t.len() {
            let (rest, end) = changes_from(t, e);
            (seq![c] + rest, end)
        } else {
            (seq![c], e)
        },
        None => (Seq::empty(), i),
    }
}

/// One or more change sentences, in the order written.
pub open spec fn attribute_gain_at(t: Seq<char>) -> Option<(FeedEventTextModel, int)> {
    match change_at(t, 0) {
        Some(_) => {
            let (changes, e) = changes_from(t, 0);
            Some((FeedEventTextModel::AttributeChanges { changes }, e))
        },
        None => None,
    }
}

/// `[ ]<player>'s <attribute><phrase><attribute>.` at `i`.
pub open spec fn equal_at(t: Seq<char>, i: int, phrase: Seq<char>) -> Option<(AttributeEqual<Seq<char>>, int)> {
    match until_at(t, skip_space(t, i), "'s "@) {
        Some((player_name, p)) => match word_at::<Attribute>(t, p) {
            Some((changing_attribute, q)) => match lit_end(t, q, phrase) {
                Some(q1) => match word_at::<Attribute>(t, q1) {
                    Some((value_attribute, q2)) => match lit_end(t, q2, "."@) {
                        Some(e) => Some((AttributeEqual { player_name, changing_attribute, value_attribute }, e)),
                        None => None,
                    },
                    None => None,
                },
                None => None,
            },
            None => None,
        },
        None => None,
    }
}

/// All the equality sentences with `phrase` that follow one another from `i`, and where the last ends.
pub open spec fn equals_from(t: Seq<char>, i: int, phrase: Seq<char>) -> (Seq<AttributeEqual<Seq<char>>>, int)
    decreases t.len() - i,
{
    match equal_at(t, i, phrase) {
        Some((c, e)) => if i < e <= t.len() {
            let (rest, end) = equals_from(t, e, phrase);
            (seq![c] + rest, end)
        } else {
            (seq![c], e)
        },
        None => (Seq::empty(), i),
    }
}

/// One or more equality sentences worded with `phrase`, in the order written.
pub open spec fn attribute_equal_at(t: Seq<char>, phrase: Seq<char>) -> Option<(FeedEventTextModel, int)> {
    match equal_at(t, 0, phrase) {
        Some(_) => {
            let (equals, e) = equals_from(t, 0, phrase);
            Some((FeedEventTextModel::AttributeEquals { equals }, e))
        },
        None => None,
    }
}

fn scan_change(t: &Vec<char>, i: usize) -> (r: Option<(AttributeChange<String>, usize)>)
    requires
        i <= t.len(),
    ensures
        match change_at(t@, i as int) {
            Some((c, e)) => r matches Some((rc, re)) && rc@ == c && re == e,
            None => r is None,
        },
        r matches Some((rc, re)) ==> i < re <= t.len(),
{
    let s = match scan_lit(t, i, " ") {
        Some(x) => x,
        None => i,
    };
    let (player_name, p) = match scan_until(t, s, " gained +") {
        Some(x) => x,
        None => return None,
    };
    let (amount, q) = match scan_i16(t, p) {
        Some(x) => x,
        None => return None,
    };
    let q1 = match scan_lit(t, q, " ") {
        Some(x) => x,
        None => return None,
    };
    let (attribute, q2) = match scan_word::<Attribute>(t, q1) {
        Some(x) => x,
        None => return None,
    };
    match scan_lit(t, q2, ".") {
        Some(e) => {
            proof {
                reveal_strlit(".");
            }
            Some((AttributeChange { player_name, amount, attribute }, e))
        },
        None => None,
    }
}

fn scan_equal(t: &Vec<char>, i: usize, phrase: &str) -> (r: Option<(AttributeEqual<String>, usize)>)
    requires
        i <= t.len(),
    ensures
        match equal_at(t@, i as int, phrase@) {
            Some((c, e)) => r matches Some((rc, re)) && rc@ == c && re == e,
            None => r is None,
        },
        r matches Some((rc, re)) ==> i < re <= t.len(),
{
    let s = match scan_lit(t, i, " ") {
        Some(x) => x,
        None => i,
    };
    let (player_name, p) = match scan_until(t, s, "'s ") {
        Some(x) => x,
        None => return None,
    };
    let (changing_attribute, q) = match scan_word::<Attribute>(t, p) {
        Some(x) => x,
        None => return None,
    };
    let q1 = match scan_lit(t, q, phrase) {
        Some(x) => x,
        None => return None,
    };
    let (value_attribute, q2) = match scan_word::<Attribute>(t, q1) {
        Some(x) => x,
        None => return None,
    };
    match scan_lit(t, q2, ".") {
        Some(e) => {
            proof {
                reveal_strlit(".");
            }
            Some((AttributeEqual { player_name, changing_attribute, value_attribute }, e))
        },
        None => None,
    }
}

/// Reads `t` from its start with this grammar: the reading and where it stopped.
pub fn attribute_gain(t: &Vec<char>) -> (r: Option<(ParsedFeedEventText<String>, usize)>)
    ensures
        reads_as(r, attribute_gain_at(t@)),
        r matches Some((v, e)) ==> e <= t.len(),
{
    let mut changes: Vec<AttributeChange<String>> = Vec::new();
    let mut k: usize = 0;
    loop
        invariant
            k <= t.len(),
            changes_view(changes@) + changes_from(t@, k as int).0 == changes_from(t@, 0).0,
            changes_from(t@, k as int).1 == changes_from(t@, 0).1,
            k == 0 ==> changes@.len() == 0,
            k > 0 ==> change_at(t@, 0) is Some,
        ensures
            k <= t.len(),
            changes_view(changes@) == changes_from(t@, 0).0,
            k == changes_from(t@, 0).1,
            k == 0 ==> change_at(t@, 0) is None,
            k > 0 ==> change_at(t@, 0) is Some,
        decreases t.len() - k,
    {
        match scan_change(t, k) {
            Some((c, e)) => {
                let ghost old_view = changes_view(changes@);
                changes.push(c);
                assert(changes_view(changes@) =~= old_view.push(c@));
                assert(changes_from(t@, k as int).0 =~= seq![c@] + changes_from(t@, e as int).0);
                assert(changes_view(changes@) + changes_from(t@, e as int).0 =~= old_view + changes_from(
                    t@,
                    k as int,
                ).0);
                k = e;
            },
            None => {
                assert(changes_view(changes@) + changes_from(t@, k as int).0 =~= changes_view(changes@));
                break ;
            },
        }
    }
    if k == 0 {
        return None;
    }
    Some((ParsedFeedEventText::AttributeChanges { changes }, k))
}

/// Reads `t` from its start as equality sentences worded with `phrase`.
pub fn attribute_equal(t: &Vec<char>, phrase: &str) -> (r: Option<(ParsedFeedEventText<String>, usize)>)
    ensures
        reads_as(r, attribute_equal_at(t@, phrase@)),
        r matches Some((v, e)) ==> e <= t.len(),
{
    let mut equals: Vec<AttributeEqual<String>> = Vec::new();
    let mut k: usize = 0;
    loop
        invariant
            k <= t.len(),
            equals_view(equals@) + equals_from(t@, k as int, phrase@).0 == equals_from(t@, 0, phrase@).0,
            equals_from(t@, k as int, phrase@).1 == equals_from(t@, 0, phrase@).1,
            k == 0 ==> equals@.len() == 0,
            k > 0 ==> equal_at(t@, 0, phrase@) is Some,
        ensures
            k <= t.len(),
            equals_view(equals@) == equals_from(t@, 0, phrase@).0,
            k == equals_from(t@, 0, phrase@).1,
            k == 0 ==> equal_at(t@, 0, phrase@) is None,
            k > 0 ==> equal_at(t@, 0, phrase@) is Some,
        decreases t.len() - k,
    {
        match scan_equal(t, k, phrase) {
            Some((c, e)) => {
                let ghost old_view = equals_view(equals@);
                equals.push(c);
                assert(equals_view(equals@) =~= old_view.push(c@));
                assert(equals_from(t@, k as int, phrase@).0 =~= seq![c@] + equals_from(t@, e as int, phrase@).0);
                assert(equals_view(equals@) + equals_from(t@, e as int, phrase@).0 =~= old_view + equals_from(
                    t@,
                    k as int,
                    phrase@,
                ).0);
                k = e;
            },
            None => {
                assert(equals_view(equals@) + equals_from(t@, k as int, phrase@).0 =~= equals_view(equals@));
                break ;
            },
        }
    }
    if k == 0 {
        return None;
    }
    Some((ParsedFeedEventText::AttributeEquals { equals }, k))
}

/// Equality sentences worded `<player>'s <attribute> was set to their <attribute>.`
pub fn attribute_equal_1(t: &Vec<char>) -> (r: Option<(ParsedFeedEventText<String>, usize)>)
    ensures
        reads_as(r, attribute_equal_at(t@, " was set to their "@)),
        r matches Some((v, e)) ==> e <= t.len(),
{
    attribute_equal(t, " was set to their ")
}

/// Equality sentences worded `<player>'s <attribute> became equal to their base <attribute>.`
pub fn attribute_equal_2(t: &Vec<char>) -> (r: Option<(ParsedFeedEventText<String>, usize)>)
    ensures
        reads_as(r, attribute_equal_at(t@, " became equal to their base "@)),
        r matches Some((v, e)) ==> e <= t.len(),
{
    attribute_equal(t, " became equal to their base ")
}

/// Equality sentences worded `<player>'s <attribute> became equal to their current base <attribute>.`
pub fn attribute_equal_3(t: &Vec<char>) -> (r: Option<(ParsedFeedEventText<String>, usize)>)
    ensures
        reads_as(r, attribute_equal_at(t@, " became equal to their current base "@)),
        r matches Some((v, e)) ==> e <= t.len(),
{
    attribute_equal(t, " became equal to their current base ")
}

/// `a` when that grammar applies, else `b`.
pub open spec fn first_of(
    a: Option<(FeedEventTextModel, int)>,
    b: Option<(FeedEventTextModel, int)>,
) -> Option<(FeedEventTextModel, int)> {
    if a is Some {
        a
    } else {
        b
    }
}

/// The three labels that a delivery sentence can carry, each its own reading.
#[derive(Clone, Copy, Debug, PartialEq, Eq, Structural)]
pub enum DeliveryLabel {
    Delivery,
    Shipment,
    SpecialDelivery,
}

impl DeliveryLabel {
    pub open spec fn spec_text(self) -> Seq<char> {
        match self {
            DeliveryLabel::Delivery => "Delivery"@,
            DeliveryLabel::Shipment => "Shipment"@,
            DeliveryLabel::SpecialDelivery => "Special Delivery"@,
        }
    }

    /// The word or words that close the sentence before its full stop.
    pub fn text(self) -> (r: &'static str)
        ensures
            r@ == self.spec_text(),
    {
        match self {
            DeliveryLabel::Delivery => "Delivery",
            DeliveryLabel::Shipment => "Shipment",
            DeliveryLabel::SpecialDelivery => "Special Delivery",
        }
    }
}

/// A delivery sentence carrying `label`, read as the variant of that label.
pub open spec fn labelled_delivery_at(t: Seq<char>, label: DeliveryLabel) -> Option<(FeedEventTextModel, int)> {
    match delivery_at(t, label.spec_text()) {
        Some((delivery, e)) => Some(
            (
                match label {
                    DeliveryLabel::Delivery => FeedEventTextModel::Delivery { delivery },
                    DeliveryLabel::Shipment => FeedEventTextModel::Shipment { delivery },
                    DeliveryLabel::SpecialDelivery => FeedEventTextModel::SpecialDelivery { delivery },
                },
                e,
            ),
        ),
        None => None,
    }
}

/// The grammars of game events, tried in this order.
pub open spec fn game_at(t: Seq<char>) -> Option<(FeedEventTextModel, int)> {
    first_of(
        game_result_at(t),
        first_of(
            labelled_delivery_at(t, DeliveryLabel::Delivery),
            first_of(
                labelled_delivery_at(t, DeliveryLabel::Shipment),
                first_of(labelled_delivery_at(t, DeliveryLabel::SpecialDelivery), hit_by_falling_star_at(t)),
            ),
        ),
    )
}

/// The grammars of augment events, tried in this order.
pub open spec fn augment_at(t: Seq<char>) -> Option<(FeedEventTextModel, int)> {
    first_of(
        attribute_gain_at(t),
        first_of(
            enchantment_s1a_at(t),
            first_of(
                enchantment_s1b_at(t),
                first_of(
                    enchantment_s2_at(t),
                    first_of(
                        enchantment_compensatory_at(t),
                        first_of(
                            robo_at(t),
                            first_of(
                                take_the_mound_at(t),
                                first_of(
                                    take_the_plate_at(t),
                                    first_of(
                                        attribute_equal_at(t, " was set to their "@),
                                        first_of(
                                            attribute_equal_at(t, " became equal to their base "@),
                                            first_of(
                                                attribute_equal_at(t, " became equal to their current base "@),
                                                swap_places_at(t),
                                            ),
                                        ),
                                    ),
                                ),
                            ),
                        ),
                    ),
                ),
            ),
        ),
    )
}

/// The first grammar of the bucket that applies to a prefix of `t`, with where it stopped.
pub open spec fn grammars_at(event_type: FeedEventType, t: Seq<char>) -> Option<(FeedEventTextModel, int)> {
    match event_type {
        FeedEventType::Game => game_at(t),
        FeedEventType::Augment => augment_at(t),
    }
}

pub open spec fn failed_text(event_type: FeedEventType, text: Seq<char>) -> FeedEventTextModel {
    FeedEventTextModel::ParseError { error: FeedEventParseError::FailedParsingText { event_type, text }, text }
}

/// What a feed event's text reads as: the first grammar of its bucket that applies, provided it
/// covers the whole text; otherwise an error that keeps the text.
pub open spec fn parse_text(
    text: Seq<char>,
    event_type: Result<FeedEventType, NotRecognized<Seq<char>>>,
) -> FeedEventTextModel {
    match event_type {
        Err(e) => FeedEventTextModel::ParseError { error: FeedEventParseError::EventTypeNotRecognized(e), text },
        Ok(ty) => match grammars_at(ty, text) {
            Some((m, e)) => if e == text.len() {
                m
            } else {
                failed_text(ty, text)
            },
            None => failed_text(ty, text),
        },
    }
}

pub open spec fn event_type_view(e: Result<FeedEventType, NotRecognized<String>>) -> Result<
    FeedEventType,
    NotRecognized<Seq<char>>,
> {
    match e {
        Ok(ty) => Ok(ty),
        Err(n) => Err(n@),
    }
}

/// Reads `t` from its start as a delivery sentence carrying `label`.
pub fn labelled_delivery(t: &Vec<char>, label: DeliveryLabel) -> (r: Option<(ParsedFeedEventText<String>, usize)>)
    ensures
        reads_as(r, labelled_delivery_at(t@, label)),
        r matches Some((v, e)) ==> e <= t.len(),
{
    match scan_delivery(t, label.text()) {
        Some((delivery, e)) => Some(
            (
                match label {
                    DeliveryLabel::Delivery => ParsedFeedEventText::Delivery { delivery },
                    DeliveryLabel::Shipment => ParsedFeedEventText::Shipment { delivery },
                    DeliveryLabel::SpecialDelivery => ParsedFeedEventText::SpecialDelivery { delivery },
                },
                e,
            ),
        ),
        None => None,
    }
}

/// Tries the game grammars in order.
pub fn game(t: &Vec<char>) -> (r: Option<(ParsedFeedEventText<String>, usize)>)
    ensures
        reads_as(r, game_at(t@)),
        r matches Some((v, e)) ==> e <= t.len(),
{
    let r = game_result(t);
    if r.is_some() {
        return r;
    }
    let r = labelled_delivery(t, DeliveryLabel::Delivery);
    if r.is_some() {
        return r;
    }
    let r = labelled_delivery(t, DeliveryLabel::Shipment);
    if r.is_some() {
        return r;
    }
    let r = labelled_delivery(t, DeliveryLabel::SpecialDelivery);
    if r.is_some() {
        return r;
    }
    hit_by_falling_star(t)
}

/// Tries the augment grammars in order.
pub fn augment(t: &Vec<char>) -> (r: Option<(ParsedFeedEventText<String>, usize)>)
    ensures
        reads_as(r, augment_at(t@)),
        r matches Some((v, e)) ==> e <= t.len(),
{
    let r = attribute_gain(t);
    if r.is_some() {
        return r;
    }
    let r = enchantment_s1a(t);
    if r.is_some() {
        return r;
    }
    let r = enchantment_s1b(t);
    if r.is_some() {
        return r;
    }
    let r = enchantment_s2(t);
    if r.is_some() {
        return r;
    }
    let r = enchantment_compensatory(t);
    if r.is_some() {
        return r;
    }
    let r = robo(t);
    if r.is_some() {
        return r;
    }
    let r = take_the_mound(t);
    if r.is_some() {
        return r;
    }
    let r = take_the_plate(t);
    if r.is_some() {
        return r;
    }
    let r = attribute_equal_1(t);
    if r.is_some() {
        return r;
    }
    let r = attribute_equal_2(t);
    if r.is_some() {
        return r;
    }
    let r = attribute_equal_3(t);
    if r.is_some() {
        return r;
    }
    swap_places(t)
}

/// Reads a feed event's text with the grammars of its bucket. Only a grammar that covers the
/// whole text gives a reading; an unknown bucket, no grammar, or a grammar that stops short
/// gives an error that keeps the original text.
pub fn parse_feed_event(event: &FeedEvent) -> (r: ParsedFeedEventText<String>)
    ensures
        r@ == parse_text(event.text@, event_type_view(event.event_type)),
{
    let event_type = match &event.event_type {
        Ok(ty) => *ty,
        Err(e) => {
            let error = FeedEventParseError::EventTypeNotRecognized(NotRecognized(e.0.clone()));
            return ParsedFeedEventText::ParseError { error, text: event.text.clone() };
        },
    };
    let t = chars_of(event.text.as_str());
    let result = match event_type {
        FeedEventType::Game => game(&t),
        FeedEventType::Augment => augment(&t),
    };
    match result {
        Some((output, e)) => {
            if e == t.len() {
                return output;
            }
        },
        None => {},
    }
    let error = FeedEventParseError::FailedParsingText { event_type, text: event.text.clone() };
    ParsedFeedEventText::ParseError { error, text: event.text.clone() }
}

/// Whether the grammars of `event_type` read the whole of `text`.
pub open spec fn fully_read(event_type: FeedEventType, text: Seq<char>) -> bool {
    grammars_at(event_type, text) matches Some((m, e)) && e == text.len()
}

/// A text that no grammar of its bucket reads in full, or whose bucket is unknown, renders back
/// to itself exactly, whatever the era and the narrator.
pub proof fn lemma_failure_round_trip(
    text: Seq<char>,
    event_type: Result<FeedEventType, NotRecognized<Seq<char>>>,
    season: u32,
    day: Option<u16>,
    source: FeedEventSource,
)
    requires
        event_type matches Ok(ty) ==> !fully_read(ty, text),
    ensures
        parse_text(text, event_type) is ParseError,
        render(parse_text(text, event_type), season, day, source) == text,
{
}

/// A grammar that reads only a prefix of the text gives a failure keeping the whole text, never a
/// shortened reading, and no later grammar is tried.
pub proof fn lemma_leftover_rejected(text: Seq<char>, event_type: FeedEventType)
    requires
        grammars_at(event_type, text) matches Some((m, e)) && e != text.len(),
    ensures
        parse_text(text, Ok(event_type)) == failed_text(event_type, text),
{
}

/// The first reading in `s` that is there: the grammars tried in the order of `s`.
pub open spec fn first_applicable(s: Seq<Option<(FeedEventTextModel, int)>>) -> Option<(FeedEventTextModel, int)>
    decreases s.len(),
{
    if s.len() == 0 {
        None
    } else if s[0] is Some {
        s[0]
    } else {
        first_applicable(s.drop_first())
    }
}

/// What each grammar of a bucket reads from `t`, in the order in which the bucket declares them.
pub open spec fn bucket_grammars(event_type: FeedEventType, t: Seq<char>) -> Seq<Option<(FeedEventTextModel, int)>> {
    match event_type {
        FeedEventType::Game => seq![
            game_result_at(t),
            labelled_delivery_at(t, DeliveryLabel::Delivery),
            labelled_delivery_at(t, DeliveryLabel::Shipment),
            labelled_delivery_at(t, DeliveryLabel::SpecialDelivery),
            hit_by_falling_star_at(t),
        ],
        FeedEventType::Augment => seq![
            attribute_gain_at(t),
            enchantment_s1a_at(t),
            enchantment_s1b_at(t),
            enchantment_s2_at(t),
            enchantment_compensatory_at(t),
            robo_at(t),
            take_the_mound_at(t),
            take_the_plate_at(t),
            attribute_equal_at(t, " was set to their "@),
            attribute_equal_at(t, " became equal to their base "@),
            attribute_equal_at(t, " became equal to their current base "@),
            swap_places_at(t),
        ],
    }
}

proof fn lemma_first_applicable_at(s: Seq<Option<(FeedEventTextModel, int)>>, k: int)
    requires
        0 <= k < s.len(),
        s[k] is Some,
        forall|j: int| 0 <= j < k ==> s[j] is None,
    ensures
        first_applicable(s) == s[k],
    decreases k,
{
    if k > 0 {
        assert(s[0] is None);
        lemma_first_applicable_at(s.drop_first(), k - 1);
    }
}

/// Grammars of a bucket that could each read a text never compete: the one declared first
/// among those that apply decides the outcome, which is its reading when it covers the whole
/// text and a failure keeping the text otherwise.
pub proof fn lemma_declared_order(text: Seq<char>, event_type: FeedEventType, k: int)
    requires
        0 <= k < bucket_grammars(event_type, text).len(),
        bucket_grammars(event_type, text)[k] is Some,
        forall|j: int| 0 <= j < k ==> bucket_grammars(event_type, text)[j] is None,
    ensures
        grammars_at(event_type, text) == bucket_grammars(event_type, text)[k],
        bucket_grammars(event_type, text)[k] matches Some((m, e)) ==> parse_text(text, Ok(event_type)) == (
        if e == text.len() {
            m
        } else {
            failed_text(event_type, text)
        }),
{
    let s = bucket_grammars(event_type, text);
    lemma_first_applicable_at(s, k);
    reveal_with_fuel(first_applicable, 13);
    assert(grammars_at(event_type, text) == first_applicable(s));
}

} // verus!
