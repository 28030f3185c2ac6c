use mmolb_parsing::feed_event::{
    AttributeChange, AttributeEqual, EmojiTeam, EmojilessItem, FeedDelivery, FeedEvent, FeedEventParseError, Item,
    NotRecognized, ParsedFeedEventText,
};
use mmolb_parsing::parse::{
    attribute_equal_1, attribute_equal_2, attribute_equal_3, attribute_gain, game_result, parse_feed_event,
};
use mmolb_parsing::vocab::{Attribute, FeedEventSource, FeedEventType, ItemPrefix, ItemSuffix, ItemType};

fn chars(s: &str) -> Vec<char> {
    s.chars().collect()
}

fn event(text: &str, event_type: FeedEventType) -> FeedEvent {
    FeedEvent { text: text.to_string(), event_type: Ok(event_type), season: 2, day: Some(10) }
}

fn parse(text: &str, event_type: FeedEventType) -> ParsedFeedEventText<String> {
    parse_feed_event(&event(text, event_type))
}

fn failed(text: &str, event_type: FeedEventType) -> ParsedFeedEventText<String> {
    ParsedFeedEventText::ParseError {
        error: FeedEventParseError::FailedParsingText { event_type, text: text.to_string() },
        text: text.to_string(),
    }
}

#[test]
fn test_attribute_gain() {
    assert_eq!(
        Some(ParsedFeedEventText::AttributeChanges {
            changes: vec![AttributeChange {
                player_name: "Nancy Bright".to_string(),
                amount: 50,
                attribute: Attribute::Awareness
            }]
        }),
        attribute_gain(&chars("Nancy Bright gained +50 Awareness.")).map(|(o, _)| o)
    );
}

#[test]
fn test_game_result() {
    let s = "🦖 Peoria Monster Monster Monster vs. 📮 Akron Anteaters Pace Stick - FINAL 2-4";
    assert_eq!(
        Some(ParsedFeedEventText::GameResult {
            away_team: EmojiTeam { emoji: "🦖".to_string(), name: "Peoria Monster Monster Monster".to_string() },
            home_team: EmojiTeam { emoji: "📮".to_string(), name: "Akron Anteaters Pace Stick".to_string() },
            away_score: 2,
            home_score: 4
        }),
        game_result(&chars(s)).map(|(o, _)| o)
    );
}

#[test]
fn single_change_through_dispatcher() {
    let parsed = parse("Nancy Bright gained +50 Awareness.", FeedEventType::Augment);
    assert_eq!(
        parsed,
        ParsedFeedEventText::AttributeChanges {
            changes: vec![AttributeChange {
                player_name: "Nancy Bright".to_string(),
                amount: 50,
                attribute: Attribute::Awareness
            }]
        }
    );
}

#[test]
fn changes_keep_input_order() {
    let text = "Wyatt Mason gained +2 Unthwackability. Wyatt Mason gained +1 Ruthlessness.";
    assert_eq!(
        parse(text, FeedEventType::Augment),
        ParsedFeedEventText::AttributeChanges {
            changes: vec![
                AttributeChange {
                    player_name: "Wyatt Mason".to_string(),
                    amount: 2,
                    attribute: Attribute::Unthwackability
                },
                AttributeChange {
                    player_name: "Wyatt Mason".to_string(),
                    amount: 1,
                    attribute: Attribute::Ruthlessness
                },
            ]
        }
    );
}

#[test]
fn equal_changes_are_not_merged() {
    let text = "Ann Lee gained +3 Speed. Ann Lee gained +3 Speed.";
    match parse(text, FeedEventType::Augment) {
        ParsedFeedEventText::AttributeChanges { changes } => assert_eq!(changes.len(), 2),
        other => panic!("unexpected {:?}", other),
    }
}

#[test]
fn negative_change_amount() {
    let parsed = parse("Ann Lee gained +-7 Speed.", FeedEventType::Augment);
    assert_eq!(
        parsed,
        ParsedFeedEventText::AttributeChanges {
            changes: vec![AttributeChange { player_name: "Ann Lee".to_string(), amount: -7, attribute: Attribute::Speed }]
        }
    );
}

#[test]
fn game_result_through_dispatcher() {
    let s = "🦖 Peoria Monster Monster Monster vs. 📮 Akron Anteaters Pace Stick - FINAL 2-4";
    match parse(s, FeedEventType::Game) {
        ParsedFeedEventText::GameResult { away_team, home_team, away_score, home_score } => {
            assert_eq!(away_team.name, "Peoria Monster Monster Monster");
            assert_eq!(home_team.emoji, "📮");
            assert_eq!((away_score, home_score), (2, 4));
        }
        other => panic!("unexpected {:?}", other),
    }
}

#[test]
fn game_result_score_over_a_byte_fails() {
    let s = "🦖 Peoria vs. 📮 Akron - FINAL 256-4";
    assert_eq!(parse(s, FeedEventType::Game), failed(s, FeedEventType::Game));
}

#[test]
fn unknown_event_type_keeps_text() {
    let e = FeedEvent {
        text: "Something odd happened.".to_string(),
        event_type: Err(NotRecognized("Weather".to_string())),
        season: 1,
        day: None,
    };
    assert_eq!(
        parse_feed_event(&e),
        ParsedFeedEventText::ParseError {
            error: FeedEventParseError::EventTypeNotRecognized(NotRecognized("Weather".to_string())),
            text: "Something odd happened.".to_string(),
        }
    );
}

#[test]
fn no_grammar_gives_failed_parsing_text() {
    let s = "The crowd went wild.";
    assert_eq!(parse(s, FeedEventType::Augment), failed(s, FeedEventType::Augment));
    assert_eq!(parse(s, FeedEventType::Game), failed(s, FeedEventType::Game));
}

#[test]
fn leftover_text_is_rejected() {
    let s = "Nancy Bright gained +50 Awareness. And then some";
    assert_eq!(parse(s, FeedEventType::Augment), failed(s, FeedEventType::Augment));
    let g = "🦖 Peoria vs. 📮 Akron - FINAL 2-4 (extra innings)";
    assert_eq!(parse(g, FeedEventType::Game), failed(g, FeedEventType::Game));
}

#[test]
fn earlier_grammar_with_leftover_blocks_later_ones() {
    // The change grammar reads the first sentence and stops; the ROBO grammar would read all of it.
    let s = "Ann Lee gained +5 Awareness. Bo Diaz gained the ROBO Modification.";
    assert_eq!(parse(s, FeedEventType::Augment), failed(s, FeedEventType::Augment));
}

#[test]
fn earlier_grammar_wins_an_ambiguous_text() {
    let s = "Bo Diaz gained the ROBO Modification. Ann Lee gained +1 Awareness.";
    assert_eq!(
        parse(s, FeedEventType::Augment),
        ParsedFeedEventText::AttributeChanges {
            changes: vec![AttributeChange {
                player_name: "Bo Diaz gained the ROBO Modification. Ann Lee".to_string(),
                amount: 1,
                attribute: Attribute::Awareness
            }]
        }
    );
}

#[test]
fn deliveries_by_label() {
    let item = Item {
        emoji: "🧢".to_string(),
        prefix: Some(ItemPrefix::Sharp),
        item: ItemType::Cap,
        suffix: Some(ItemSuffix::Fortune),
    };
    let plain = "Ann Lee received a 🧢 Sharp Cap of Fortune Delivery.";
    assert_eq!(
        parse(plain, FeedEventType::Game),
        ParsedFeedEventText::Delivery {
            delivery: FeedDelivery { player: "Ann Lee".to_string(), item: item.clone(), discarded: None }
        }
    );
    let shipment = "Ann Lee received a 🧢 Sharp Cap of Fortune Shipment.";
    assert!(matches!(parse(shipment, FeedEventType::Game), ParsedFeedEventText::Shipment { .. }));
    let special = "Ann Lee received a 🧢 Sharp Cap of Fortune Special Delivery.";
    assert!(matches!(parse(special, FeedEventType::Game), ParsedFeedEventText::SpecialDelivery { .. }));
}

#[test]
fn delivery_with_discard() {
    let s = "Ann Lee received a 💍 Ring Delivery. They discarded their 💍 Lucky Ring.";
    assert_eq!(
        parse(s, FeedEventType::Game),
        ParsedFeedEventText::Delivery {
            delivery: FeedDelivery {
                player: "Ann Lee".to_string(),
                item: Item { emoji: "💍".to_string(), prefix: None, item: ItemType::Ring, suffix: None },
                discarded: Some(Item {
                    emoji: "💍".to_string(),
                    prefix: Some(ItemPrefix::Lucky),
                    item: ItemType::Ring,
                    suffix: None
                }),
            }
        }
    );
}

#[test]
fn unknown_item_word_fails() {
    let s = "Ann Lee received a 🧢 Hat Delivery.";
    assert_eq!(parse(s, FeedEventType::Game), failed(s, FeedEventType::Game));
}

#[test]
fn hit_by_falling_star_sentence() {
    assert_eq!(
        parse("Ann Lee was hit by a Falling Star!", FeedEventType::Game),
        ParsedFeedEventText::HitByFallingStar { player: "Ann Lee".to_string() }
    );
}

#[test]
fn first_season_enchantments() {
    let a = "Ann Lee's Sharp Cap was enchanted with +12 to Contact.";
    let expected = ParsedFeedEventText::S1Enchantment {
        player_name: "Ann Lee".to_string(),
        item: EmojilessItem { prefix: Some(ItemPrefix::Sharp), item: ItemType::Cap, suffix: None },
        amount: 12,
        attribute: Attribute::Contact,
    };
    assert_eq!(parse(a, FeedEventType::Augment), expected);
    let b = "The Item Enchantment was a success! Ann Lee's Sharp Cap gained a +12 Contact bonus.";
    assert_eq!(parse(b, FeedEventType::Augment), expected);
}

#[test]
fn second_season_enchantment() {
    for s in [
        "The Item Enchantment was a success! Ann Lee's Boots of Haste was enchanted with +3 Speed and +4 Stealth.",
        "The Item Enchantment was a success! Ann Lee's Boots of Haste was enchanted with a +3 Speed and +4 Stealth.",
    ] {
        assert_eq!(
            parse(s, FeedEventType::Augment),
            ParsedFeedEventText::S2Enchantment {
                player_name: "Ann Lee".to_string(),
                item: EmojilessItem { prefix: None, item: ItemType::Boots, suffix: Some(ItemSuffix::Haste) },
                amount: 3,
                attribute: Attribute::Speed,
                enchant_two: Some((4, Attribute::Stealth)),
                compensatory: false,
            }
        );
    }
}

#[test]
fn compensatory_enchantments() {
    let two = "The Compensatory Enchantment was a success! Ann Lee's Jersey was enchanted with +1 Arm and +2 Guts.";
    assert!(matches!(
        parse(two, FeedEventType::Augment),
        ParsedFeedEventText::S2Enchantment { enchant_two: Some((2, Attribute::Guts)), compensatory: true, .. }
    ));
    let one = "The Compensatory Enchantment was a success! Ann Lee's Jersey gained a +5 Arm bonus.";
    assert_eq!(
        parse(one, FeedEventType::Augment),
        ParsedFeedEventText::S2Enchantment {
            player_name: "Ann Lee".to_string(),
            item: EmojilessItem { prefix: None, item: ItemType::Jersey, suffix: None },
            amount: 5,
            attribute: Attribute::Arm,
            enchant_two: None,
            compensatory: true,
        }
    );
}

#[test]
fn roster_moves() {
    assert_eq!(
        parse("Ann Lee gained the ROBO Modification.", FeedEventType::Augment),
        ParsedFeedEventText::ROBO { player_name: "Ann Lee".to_string() }
    );
    assert_eq!(
        parse("Ann Lee was moved to the mound. Bo Diaz was sent to the lineup.", FeedEventType::Augment),
        ParsedFeedEventText::TakeTheMound {
            to_mound_player: "Ann Lee".to_string(),
            to_lineup_player: "Bo Diaz".to_string()
        }
    );
    assert_eq!(
        parse("Ann Lee was sent to the plate. Bo Diaz was pulled from the lineup.", FeedEventType::Augment),
        ParsedFeedEventText::TakeThePlate {
            to_plate_player: "Ann Lee".to_string(),
            from_lineup_player: "Bo Diaz".to_string()
        }
    );
    assert_eq!(
        parse("Ann Lee swapped places with Bo Diaz.", FeedEventType::Augment),
        ParsedFeedEventText::SwapPlaces { player_one: "Ann Lee".to_string(), player_two: "Bo Diaz".to_string() }
    );
}

#[test]
fn equality_wordings() {
    let expected = |n: usize| ParsedFeedEventText::AttributeEquals {
        equals: vec![
            AttributeEqual {
                player_name: "Ann Lee".to_string(),
                changing_attribute: Attribute::Speed,
                value_attribute: Attribute::Stealth
            };
            n
        ],
    };
    for phrase in ["was set to their", "became equal to their base", "became equal to their current base"] {
        let one = format!("Ann Lee's Speed {} Stealth.", phrase);
        assert_eq!(parse(&one, FeedEventType::Augment), expected(1));
        let two = format!("{} {}", one, one);
        assert_eq!(parse(&two, FeedEventType::Augment), expected(2));
    }
}

#[test]
fn mixed_equality_wordings_fail() {
    let s = "Ann Lee's Speed was set to their Stealth. Ann Lee's Speed became equal to their base Stealth.";
    assert_eq!(parse(s, FeedEventType::Augment), failed(s, FeedEventType::Augment));
}

#[test]
fn unparse_of_failure_is_the_original_text() {
    for (s, ty) in [
        ("The crowd went wild.", FeedEventType::Augment),
        ("Nancy Bright gained +50 Awareness. And then some", FeedEventType::Augment),
        ("🦖 Peoria vs. 📮 Akron - FINAL 999-4", FeedEventType::Game),
        ("", FeedEventType::Game),
    ] {
        let e = event(s, ty);
        let parsed = parse_feed_event(&e);
        assert!(matches!(parsed, ParsedFeedEventText::ParseError { .. }));
        assert_eq!(parsed.unparse(&e, FeedEventSource::Umpire), s);
        assert_eq!(parsed.unparse(&e, FeedEventSource::Player), s);
    }
}

#[test]
fn equality_grammars_one_wording_each() {
    let set = chars("Ann Lee's Speed was set to their Stealth.");
    let base = chars("Ann Lee's Speed became equal to their base Stealth.");
    let current = chars("Ann Lee's Speed became equal to their current base Stealth.");
    assert_eq!(attribute_equal_1(&set).map(|(_, e)| e), Some(set.len()));
    assert!(attribute_equal_1(&base).is_none());
    assert_eq!(attribute_equal_2(&base).map(|(_, e)| e), Some(base.len()));
    assert!(attribute_equal_2(&current).is_none());
    assert_eq!(attribute_equal_3(&current).map(|(_, e)| e), Some(current.len()));
    assert!(attribute_equal_3(&set).is_none());
}

#[test]
fn grammar_reports_where_it_stopped() {
    let t = chars("Ann Lee gained +5 Awareness. Bo Diaz gained the ROBO Modification.");
    assert_eq!(attribute_gain(&t).map(|(_, e)| e), Some(28));
}
