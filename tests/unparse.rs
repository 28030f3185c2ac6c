use mmolb_parsing::feed_event::{
    AttributeChange, AttributeEqual, EmojiTeam, EmojilessItem, FeedDelivery, FeedEvent, Item, ParsedFeedEventText,
};
use mmolb_parsing::parse::parse_feed_event;
use mmolb_parsing::time::Breakpoints;
use mmolb_parsing::vocab::{Attribute, FeedEventSource, FeedEventType, ItemPrefix, ItemSuffix, ItemType};

fn at(text: &str, event_type: FeedEventType, season: u32, day: Option<u16>) -> FeedEvent {
    FeedEvent { text: text.to_string(), event_type: Ok(event_type), season, day }
}

fn equality() -> ParsedFeedEventText<String> {
    ParsedFeedEventText::AttributeEquals {
        equals: vec![AttributeEqual {
            player_name: "Ann Lee".to_string(),
            changing_attribute: Attribute::Speed,
            value_attribute: Attribute::Stealth,
        }],
    }
}

fn render_equality(season: u32, day: Option<u16>, source: FeedEventSource) -> String {
    equality().unparse(&at("", FeedEventType::Augment, season, day), source)
}

const EARLY: &str = "Ann Lee's Speed became equal to their current base Stealth.";
const UMPIRE: &str = "Ann Lee's Speed became equal to their base Stealth.";
const PLAYER: &str = "Ann Lee's Speed was set to their Stealth.";

#[test]
fn equality_before_threshold() {
    assert_eq!(Breakpoints::S1AttributeEqualChange.threshold(), (1, Some(215)));
    for source in [FeedEventSource::Umpire, FeedEventSource::Player] {
        assert_eq!(render_equality(1, Some(214), source), EARLY);
        assert_eq!(render_equality(1, Some(0), source), EARLY);
        assert_eq!(render_equality(0, Some(300), source), EARLY);
        assert_eq!(render_equality(1, None, source), EARLY);
    }
}

#[test]
fn equality_after_threshold_by_umpire() {
    assert_eq!(render_equality(1, Some(215), FeedEventSource::Umpire), UMPIRE);
    assert_eq!(render_equality(1, Some(216), FeedEventSource::Umpire), UMPIRE);
    assert_eq!(render_equality(2, None, FeedEventSource::Umpire), UMPIRE);
}

#[test]
fn equality_after_threshold_by_player() {
    assert_eq!(render_equality(1, Some(215), FeedEventSource::Player), PLAYER);
    assert_eq!(render_equality(1, Some(216), FeedEventSource::Player), PLAYER);
    assert_eq!(render_equality(2, Some(1), FeedEventSource::Player), PLAYER);
}

#[test]
fn breakpoint_comparisons() {
    let b = Breakpoints::Season1EnchantmentChange;
    assert_eq!(b.threshold(), (1, Some(200)));
    assert!(b.before(1, Some(199)));
    assert!(!b.before(1, Some(200)));
    assert!(b.after(1, Some(200)));
    assert!(b.after(1, Some(201)));
    assert!(b.before(1, None));
    assert!(b.before(0, Some(500)));
    assert!(b.after(2, None));
}

#[test]
fn game_result_renders_away_first() {
    let s = "🦖 Peoria Monster Monster Monster vs. 📮 Akron Anteaters Pace Stick - FINAL 2-4";
    let e = at(s, FeedEventType::Game, 1, Some(3));
    let parsed = parse_feed_event(&e);
    assert_eq!(parsed.unparse(&e, FeedEventSource::Umpire), s);
    let value = ParsedFeedEventText::GameResult {
        away_team: EmojiTeam { emoji: "🦖".to_string(), name: "Peoria".to_string() },
        home_team: EmojiTeam { emoji: "📮".to_string(), name: "Akron".to_string() },
        away_score: 10,
        home_score: 255,
    };
    assert_eq!(value.unparse(&e, FeedEventSource::Umpire), "🦖 Peoria vs. 📮 Akron - FINAL 10-255");
}

#[test]
fn changes_render_joined_by_spaces() {
    let value = ParsedFeedEventText::AttributeChanges {
        changes: vec![
            AttributeChange { player_name: "Wyatt Mason".to_string(), amount: 2, attribute: Attribute::Unthwackability },
            AttributeChange { player_name: "Wyatt Mason".to_string(), amount: -30, attribute: Attribute::Ruthlessness },
        ],
    };
    let e = at("", FeedEventType::Augment, 1, Some(3));
    assert_eq!(
        value.unparse(&e, FeedEventSource::Umpire),
        "Wyatt Mason gained +2 Unthwackability. Wyatt Mason gained +-30 Ruthlessness."
    );
}

#[test]
fn first_season_enchantment_by_era() {
    let value = ParsedFeedEventText::S1Enchantment {
        player_name: "Ann Lee".to_string(),
        item: EmojilessItem { prefix: Some(ItemPrefix::Sharp), item: ItemType::Cap, suffix: Some(ItemSuffix::Glory) },
        amount: 7,
        attribute: Attribute::Contact,
    };
    let early = at("", FeedEventType::Augment, 1, Some(199));
    let late = at("", FeedEventType::Augment, 1, Some(200));
    assert_eq!(
        value.unparse(&early, FeedEventSource::Umpire),
        "Ann Lee's Sharp Cap of Glory was enchanted with +7 to Contact."
    );
    assert_eq!(
        value.unparse(&late, FeedEventSource::Umpire),
        "The Item Enchantment was a success! Ann Lee's Sharp Cap of Glory gained a +7 Contact bonus."
    );
}

#[test]
fn second_season_enchantment_text() {
    let e = at("", FeedEventType::Augment, 2, Some(3));
    let two = ParsedFeedEventText::S2Enchantment {
        player_name: "Ann Lee".to_string(),
        item: EmojilessItem { prefix: None, item: ItemType::Gloves, suffix: None },
        amount: 3,
        attribute: Attribute::Arm,
        enchant_two: Some((4, Attribute::Guts)),
        compensatory: false,
    };
    assert_eq!(
        two.unparse(&e, FeedEventSource::Umpire),
        "The Item Enchantment was a success! Ann Lee's Gloves was enchanted with +3 Arm and +4 Guts."
    );
    let one = ParsedFeedEventText::S2Enchantment {
        player_name: "Ann Lee".to_string(),
        item: EmojilessItem { prefix: None, item: ItemType::Gloves, suffix: None },
        amount: 3,
        attribute: Attribute::Arm,
        enchant_two: None,
        compensatory: true,
    };
    assert_eq!(
        one.unparse(&e, FeedEventSource::Umpire),
        "The Compensatory Enchantment was a success! Ann Lee's Gloves gained a +3 Arm bonus."
    );
}

#[test]
fn delivery_text_with_label() {
    let d = FeedDelivery {
        player: "Ann Lee".to_string(),
        item: Item { emoji: "👟".to_string(), prefix: None, item: ItemType::Sneakers, suffix: None },
        discarded: Some(Item {
            emoji: "👟".to_string(),
            prefix: Some(ItemPrefix::Swift),
            item: ItemType::Sneakers,
            suffix: Some(ItemSuffix::Wonder),
        }),
    };
    assert_eq!(
        d.unparse("Shipment"),
        "Ann Lee received a 👟 Sneakers Shipment. They discarded their 👟 Swift Sneakers of Wonder."
    );
    let e = at("", FeedEventType::Game, 2, None);
    let v = ParsedFeedEventText::SpecialDelivery { delivery: d };
    assert_eq!(
        v.unparse(&e, FeedEventSource::Umpire),
        "Ann Lee received a 👟 Sneakers Special Delivery. They discarded their 👟 Swift Sneakers of Wonder."
    );
}

#[test]
fn item_text() {
    let item = EmojilessItem { prefix: Some(ItemPrefix::Mighty), item: ItemType::Necklace, suffix: None };
    assert_eq!(item.to_text(), "Mighty Necklace");
    let bare = EmojilessItem { prefix: None, item: ItemType::Ring, suffix: Some(ItemSuffix::Vitality) };
    assert_eq!(bare.to_text(), "Ring of Vitality");
}

#[test]
fn canonical_texts_read_back_and_render_again() {
    for (s, ty) in [
        ("Ann Lee gained the ROBO Modification.", FeedEventType::Augment),
        ("Ann Lee was moved to the mound. Bo Diaz was sent to the lineup.", FeedEventType::Augment),
        ("Ann Lee was sent to the plate. Bo Diaz was pulled from the lineup.", FeedEventType::Augment),
        ("Ann Lee swapped places with Bo Diaz.", FeedEventType::Augment),
        ("Ann Lee was hit by a Falling Star!", FeedEventType::Game),
        ("Ann Lee received a 💍 Lucky Ring of Fortune Delivery.", FeedEventType::Game),
        ("The Item Enchantment was a success! Ann Lee's Cap was enchanted with +1 Luck and +2 Vision.", FeedEventType::Augment),
        ("Ann Lee gained +9 Muscle. Bo Diaz gained +1 Lift.", FeedEventType::Augment),
    ] {
        let e = at(s, ty, 2, Some(5));
        let parsed = parse_feed_event(&e);
        assert!(!matches!(parsed, ParsedFeedEventText::ParseError { .. }), "{}", s);
        assert_eq!(parsed.unparse(&e, FeedEventSource::Umpire), s);
    }
}
