//! Feed events, what a sentence is read into, and the canonical text of each reading.

use vstd::prelude::*;
use crate::text::{decimal, push_decimal, push_signed, push_str, signed_decimal, string_from};
use crate::time::Breakpoints;
use crate::vocab::{Attribute, FeedEventSource, FeedEventType, ItemPrefix, ItemSuffix, ItemType, Vocabulary};

verus! {

/// A token that the upstream classifier could not map to a coarse event type.
#[derive(Clone, Debug, PartialEq)]
pub struct NotRecognized<S>(pub S);

/// One event of the feed as it reaches this library.
#[derive(Debug, PartialEq)]
pub struct FeedEvent {
    pub text: String,
    pub event_type: Result<FeedEventType, NotRecognized<String>>,
    pub season: u32,
    /// `None` when the day is unknown.
    pub day: Option<u16>,
}

/// Why a sentence could not be read.
#[derive(Clone, Debug, PartialEq)]
pub enum FeedEventParseError<S> {
    EventTypeNotRecognized(NotRecognized<S>),
    FailedParsingText { event_type: FeedEventType, text: S },
}

/// An emoji followed by a team's name.
#[derive(Clone, Debug, PartialEq)]
pub struct EmojiTeam<S> {
    pub emoji: S,
    pub name: S,
}

/// An item as its prefix, type and suffix words.
#[derive(Clone, Copy, Debug, PartialEq, Eq, Structural)]
pub struct EmojilessItem {
    pub prefix: Option<ItemPrefix>,
    pub item: ItemType,
    pub suffix: Option<ItemSuffix>,
}

/// An item with the emoji that stands in front of it.
#[derive(Clone, Debug, PartialEq)]
pub struct Item<S> {
    pub emoji: S,
    pub prefix: Option<ItemPrefix>,
    pub item: ItemType,
    pub suffix: Option<ItemSuffix>,
}

/// A player receiving an item, and what they discarded for it.
#[derive(Clone, Debug, PartialEq)]
pub struct FeedDelivery<S> {
    pub player: S,
    pub item: Item<S>,
    pub discarded: Option<Item<S>>,
}

/// A player gaining (or, with a negative amount, losing) points of an attribute.
#[derive(Clone, Debug, PartialEq)]
pub struct AttributeChange<S> {
    pub player_name: S,
    pub amount: i16,
    pub attribute: Attribute,
}

/// A player's attribute being set to the value of another of their attributes.
#[derive(Clone, Debug, PartialEq)]
pub struct AttributeEqual<S> {
    pub player_name: S,
    pub changing_attribute: Attribute,
    pub value_attribute: Attribute,
}

/// What one feed sentence says, or why it could not be read.
#[derive(Clone, Debug, PartialEq)]
pub enum ParsedFeedEventText<S> {
    /// The text could not be read; it is kept as it was.
    ParseError { error: FeedEventParseError<S>, text: S },
    /// Written with the away team first: `<away> vs. <home> - FINAL <away score>-<home score>`.
    GameResult { home_team: EmojiTeam<S>, away_team: EmojiTeam<S>, home_score: u8, away_score: u8 },
    Delivery { delivery: FeedDelivery<S> },
    Shipment { delivery: FeedDelivery<S> },
    SpecialDelivery { delivery: FeedDelivery<S> },
    AttributeChanges { changes: Vec<AttributeChange<S>> },
    AttributeEquals { equals: Vec<AttributeEqual<S>> },
    S1Enchantment { player_name: S, item: EmojilessItem, amount: u8, attribute: Attribute },
    S2Enchantment {
        player_name: S,
        item: EmojilessItem,
        amount: u8,
        attribute: Attribute,
        enchant_two: Option<(u8, Attribute)>,
        compensatory: bool,
    },
    ROBO { player_name: S },
    TakeTheMound { to_mound_player: S, to_lineup_player: S },
    TakeThePlate { to_plate_player: S, from_lineup_player: S },
    SwapPlaces { player_one: S, player_two: S },
    HitByFallingStar { player: S },
}

/// The mathematical value of a `ParsedFeedEventText<String>`: text as character sequences.
pub enum FeedEventTextModel {
    ParseError { error: FeedEventParseError<Seq<char>>, text: Seq<char> },
    GameResult {
        home_team: EmojiTeam<Seq<char>>,
        away_team: EmojiTeam<Seq<char>>,
        home_score: u8,
        away_score: u8,
    },
    Delivery { delivery: FeedDelivery<Seq<char>> },
    Shipment { delivery: FeedDelivery<Seq<char>> },
    SpecialDelivery { delivery: FeedDelivery<Seq<char>> },
    AttributeChanges { changes: Seq<AttributeChange<Seq<char>>> },
    AttributeEquals { equals: Seq<AttributeEqual<Seq<char>>> },
    S1Enchantment { player_name: Seq<char>, item: EmojilessItem, amount: u8, attribute: Attribute },
    S2Enchantment {
        player_name: Seq<char>,
        item: EmojilessItem,
        amount: u8,
        attribute: Attribute,
        enchant_two: Option<(u8, Attribute)>,
        compensatory: bool,
    },
    ROBO { player_name: Seq<char> },
    TakeTheMound { to_mound_player: Seq<char>, to_lineup_player: Seq<char> },
    TakeThePlate { to_plate_player: Seq<char>, from_lineup_player: Seq<char> },
    SwapPlaces { player_one: Seq<char>, player_two: Seq<char> },
    HitByFallingStar { player: Seq<char> },
}

impl View for NotRecognized<String> {
    type V = NotRecognized<Seq<char>>;

    open spec fn view(&self) -> NotRecognized<Seq<char>> {
        NotRecognized(self.0@)
    }
}

impl View for FeedEventParseError<String> {
    type V = FeedEventParseError<Seq<char>>;

    open spec fn view(&self) -> FeedEventParseError<Seq<char>> {
        match self {
            FeedEventParseError::EventTypeNotRecognized(e) => FeedEventParseError::EventTypeNotRecognized(e@),
            FeedEventParseError::FailedParsingText { event_type, text } => {
                FeedEventParseError::FailedParsingText { event_type: *event_type, text: text@ }
            },
        }
    }
}

impl View for EmojiTeam<String> {
    type V = EmojiTeam<Seq<char>>;

    open spec fn view(&self) -> EmojiTeam<Seq<char>> {
        EmojiTeam { emoji: self.emoji@, name: self.name@ }
    }
}

impl View for Item<String> {
    type V = Item<Seq<char>>;

    open spec fn view(&self) -> Item<Seq<char>> {
        Item { emoji: self.emoji@, prefix: self.prefix, item: self.item, suffix: self.suffix }
    }
}

pub open spec fn opt_item_view(i: Option<Item<String>>) -> Option<Item<Seq<char>>> {
    match i {
        Some(i) => Some(i@),
        None => None,
    }
}

impl View for FeedDelivery<String> {
    type V = FeedDelivery<Seq<char>>;

    open spec fn view(&self) -> FeedDelivery<Seq<char>> {
        FeedDelivery { player: self.player@, item: self.item@, discarded: opt_item_view(self.discarded) }
    }
}

impl View for AttributeChange<String> {
    type V = AttributeChange<Seq<char>>;

    open spec fn view(&self) -> AttributeChange<Seq<char>> {
        AttributeChange { player_name: self.player_name@, amount: self.amount, attribute: self.attribute }
    }
}

impl View for AttributeEqual<String> {
    type V = AttributeEqual<Seq<char>>;

    open spec fn view(&self) -> AttributeEqual<Seq<char>> {
        AttributeEqual {
            player_name: self.player_name@,
            changing_attribute: self.changing_attribute,
            value_attribute: self.value_attribute,
        }
    }
}

pub open spec fn changes_view(v: Seq<AttributeChange<String>>) -> Seq<AttributeChange<Seq<char>>> {
    v.map_values(|c: AttributeChange<String>| c@)
}

pub open spec fn equals_view(v: Seq<AttributeEqual<String>>) -> Seq<AttributeEqual<Seq<char>>> {
    v.map_values(|c: AttributeEqual<String>| c@)
}

impl View for ParsedFeedEventText<String> {
    type V = FeedEventTextModel;

    open spec fn view(&self) -> FeedEventTextModel {
        match self {
            ParsedFeedEventText::ParseError { error, text } => FeedEventTextModel::ParseError {
                error: error@,
                text: text@,
            },
            ParsedFeedEventText::GameResult { home_team, away_team, home_score, away_score } => {
                FeedEventTextModel::GameResult {
                    home_team: home_team@,
                    away_team: away_team@,
                    home_score: *home_score,
                    away_score: *away_score,
                }
            },
            ParsedFeedEventText::Delivery { delivery } => FeedEventTextModel::Delivery { delivery: delivery@ },
            ParsedFeedEventText::Shipment { delivery } => FeedEventTextModel::Shipment { delivery: delivery@ },
            ParsedFeedEventText::SpecialDelivery { delivery } => FeedEventTextModel::SpecialDelivery {
                delivery: delivery@,
            },
            ParsedFeedEventText::AttributeChanges { changes } => FeedEventTextModel::AttributeChanges {
                changes: changes_view(changes@),
            },
            ParsedFeedEventText::AttributeEquals { equals } => FeedEventTextModel::AttributeEquals {
                equals: equals_view(equals@),
            },
            ParsedFeedEventText::S1Enchantment { player_name, item, amount, attribute } => {
                FeedEventTextModel::S1Enchantment {
                    player_name: player_name@,
                    item: *item,
                    amount: *amount,
                    attribute: *attribute,
                }
            },
            ParsedFeedEventText::S2Enchantment {
                player_name,
                item,
                amount,
                attribute,
                enchant_two,
                compensatory,
            } => FeedEventTextModel::S2Enchantment {
                player_name: player_name@,
                item: *item,
                amount: *amount,
                attribute: *attribute,
                enchant_two: *enchant_two,
                compensatory: *compensatory,
            },
            ParsedFeedEventText::ROBO { player_name } => FeedEventTextModel::ROBO { player_name: player_name@ },
            ParsedFeedEventText::TakeTheMound { to_mound_player, to_lineup_player } => {
                FeedEventTextModel::TakeTheMound {
                    to_mound_player: to_mound_player@,
                    to_lineup_player: to_lineup_player@,
                }
            },
            ParsedFeedEventText::TakeThePlate { to_plate_player, from_lineup_player } => {
                FeedEventTextModel::TakeThePlate {
                    to_plate_player: to_plate_player@,
                    from_lineup_player: from_lineup_player@,
                }
            },
            ParsedFeedEventText::SwapPlaces { player_one, player_two } => FeedEventTextModel::SwapPlaces {
                player_one: player_one@,
                player_two: player_two@,
            },
            ParsedFeedEventText::HitByFallingStar { player } => FeedEventTextModel::HitByFallingStar {
                player: player@,
            },
        }
    }
}

pub open spec fn prefix_text(p: Option<ItemPrefix>) -> Seq<char> {
    match p {
        Some(p) => p.spec_name() + " "@,
        None => Seq::empty(),
    }
}

pub open spec fn suffix_text(s: Option<ItemSuffix>) -> Seq<char> {
    match s {
        Some(s) => " of "@ + s.spec_name(),
        None => Seq::empty(),
    }
}

/// An item written as `[prefix ]type[ of suffix]`.
pub open spec fn item_text(i: EmojilessItem) -> Seq<char> {
    prefix_text(i.prefix) + i.item.spec_name() + suffix_text(i.suffix)
}

pub open spec fn emojiless(i: Item<Seq<char>>) -> EmojilessItem {
    EmojilessItem { prefix: i.prefix, item: i.item, suffix: i.suffix }
}

/// An item written with its emoji in front.
pub open spec fn emoji_item_text(i: Item<Seq<char>>) -> Seq<char> {
    i.emoji + " "@ + item_text(emojiless(i))
}

pub open spec fn discarded_text(d: Option<Item<Seq<char>>>) -> Seq<char> {
    match d {
        Some(i) => " They discarded their "@ + emoji_item_text(i) + "."@,
        None => Seq::empty(),
    }
}

/// `<player> received a <item> <label>.`, with the discard clause when there is one.
pub open spec fn delivery_text(d: FeedDelivery<Seq<char>>, label: Seq<char>) -> Seq<char> {
    d.player + " received a "@ + emoji_item_text(d.item) + " "@ + label + "."@ + discarded_text(d.discarded)
}

pub open spec fn team_text(t: EmojiTeam<Seq<char>>) -> Seq<char> {
    t.emoji + " "@ + t.name
}

/// `<away> vs. <home> - FINAL <away score>-<home score>`.
pub open spec fn game_result_text(
    away: EmojiTeam<Seq<char>>,
    home: EmojiTeam<Seq<char>>,
    away_score: u8,
    home_score: u8,
) -> Seq<char> {
    team_text(away) + " vs. "@ + team_text(home) + " - FINAL "@ + decimal(away_score as nat) + "-"@
        + decimal(home_score as nat)
}

pub open spec fn change_text(c: AttributeChange<Seq<char>>) -> Seq<char> {
    c.player_name + " gained +"@ + signed_decimal(c.amount as int) + " "@ + c.attribute.spec_name() + "."@
}

/// The sentences of `s`, in order, joined by single spaces.
pub open spec fn changes_text(s: Seq<AttributeChange<Seq<char>>>) -> Seq<char>
    decreases s.len(),
{
    if s.len() == 0 {
        Seq::empty()
    } else if s.len() == 1 {
        change_text(s[0])
    } else {
        changes_text(s.drop_last()) + " "@ + change_text(s.last())
    }
}

/// The words between the two attributes of an equality sentence, by era and narrator.
pub open spec fn equal_phrase(season: u32, day: Option<u16>, source: FeedEventSource) -> Seq<char> {
    if Breakpoints::S1AttributeEqualChange.spec_before(season, day) {
        " became equal to their current base "@
    } else if source == FeedEventSource::Player {
        " was set to their "@
    } else {
        " became equal to their base "@
    }
}

pub open spec fn equal_text(e: AttributeEqual<Seq<char>>, phrase: Seq<char>) -> Seq<char> {
    e.player_name + "'s "@ + e.changing_attribute.spec_name() + phrase + e.value_attribute.spec_name() + "."@
}

/// The sentences of `s`, in order, joined by single spaces.
pub open spec fn equals_text(s: Seq<AttributeEqual<Seq<char>>>, phrase: Seq<char>) -> Seq<char>
    decreases s.len(),
{
    if s.len() == 0 {
        Seq::empty()
    } else if s.len() == 1 {
        equal_text(s[0], phrase)
    } else {
        equals_text(s.drop_last(), phrase) + " "@ + equal_text(s.last(), phrase)
    }
}

/// A first-season enchantment, worded by era.
pub open spec fn s1_text(
    season: u32,
    day: Option<u16>,
    player: Seq<char>,
    item: EmojilessItem,
    amount: u8,
    attribute: Attribute,
) -> Seq<char> {
    if Breakpoints::Season1EnchantmentChange.spec_before(season, day) {
        player + "'s "@ + item_text(item) + " was enchanted with +"@ + decimal(amount as nat) + " to "@
            + attribute.spec_name() + "."@
    } else {
        "The Item Enchantment was a success! "@ + player + "'s "@ + item_text(item) + " gained a +"@
            + decimal(amount as nat) + " "@ + attribute.spec_name() + " bonus."@
    }
}

pub open spec fn enchant_kind(compensatory: bool) -> Seq<char> {
    if compensatory {
        "Compensatory"@
    } else {
        "Item"@
    }
}

pub open spec fn s2_tail(amount: u8, attribute: Attribute, two: Option<(u8, Attribute)>) -> Seq<char> {
    match two {
        Some((amount_two, attribute_two)) => " was enchanted with +"@ + decimal(amount as nat) + " "@
            + attribute.spec_name() + " and +"@ + decimal(amount_two as nat) + " "@ + attribute_two.spec_name()
            + "."@,
        None => " gained a +"@ + decimal(amount as nat) + " "@ + attribute.spec_name() + " bonus."@,
    }
}

/// A second-season enchantment, plain or compensatory, with one or two bonuses.
pub open spec fn s2_text(
    player: Seq<char>,
    item: EmojilessItem,
    amount: u8,
    attribute: Attribute,
    two: Option<(u8, Attribute)>,
    compensatory: bool,
) -> Seq<char> {
    "The "@ + enchant_kind(compensatory) + " Enchantment was a success! "@ + player + "'s "@ + item_text(item)
        + s2_tail(amount, attribute, two)
}

/// The canonical text of `m` for an event of `season` and `day` told by `source`.
pub open spec fn render(m: FeedEventTextModel, season: u32, day: Option<u16>, source: FeedEventSource) -> Seq<
    char,
> {
    match m {
        FeedEventTextModel::ParseError { text, .. } => text,
        FeedEventTextModel::GameResult { home_team, away_team, home_score, away_score } => {
            game_result_text(away_team, home_team, away_score, home_score)
        },
        FeedEventTextModel::Delivery { delivery } => delivery_text(delivery, "Delivery"@),
        FeedEventTextModel::Shipment { delivery } => delivery_text(delivery, "Shipment"@),
        FeedEventTextModel::SpecialDelivery { delivery } => delivery_text(delivery, "Special Delivery"@),
        FeedEventTextModel::AttributeChanges { changes } => changes_text(changes),
        FeedEventTextModel::AttributeEquals { equals } => equals_text(equals, equal_phrase(season, day, source)),
        FeedEventTextModel::S1Enchantment { player_name, item, amount, attribute } => {
            s1_text(season, day, player_name, item, amount, attribute)
        },
        FeedEventTextModel::S2Enchantment {
            player_name,
            item,
            amount,
            attribute,
            enchant_two,
            compensatory,
        } => s2_text(player_name, item, amount, attribute, enchant_two, compensatory),
        FeedEventTextModel::ROBO { player_name } => player_name + " gained the ROBO Modification."@,
        FeedEventTextModel::TakeTheMound { to_mound_player, to_lineup_player } => {
            to_mound_player + " was moved to the mound. "@ + to_lineup_player + " was sent to the lineup."@
        },
        FeedEventTextModel::TakeThePlate { to_plate_player, from_lineup_player } => {
            to_plate_player + " was sent to the plate. "@ + from_lineup_player + " was pulled from the lineup."@
        },
        FeedEventTextModel::SwapPlaces { player_one, player_two } => {
            player_one + " swapped places with "@ + player_two + "."@
        },
        FeedEventTextModel::HitByFallingStar { player } => player + " was hit by a Falling Star!"@,
    }
}

fn push_string(out: &mut Vec<char>, s: &String)
    ensures
        final(out)@ == old(out)@ + s@,
{
    push_str(out, s.as_str());
}

impl EmojilessItem {
    fn push_text(&self, out: &mut Vec<char>)
        ensures
            final(out)@ == old(out)@ + item_text(*self),
    {
        match self.prefix {
            Some(p) => {
                push_str(out, p.name());
                push_str(out, " ");
            },
            None => {},
        }
        push_str(out, self.item.name());
        match self.suffix {
            Some(s) => {
                push_str(out, " of ");
                push_str(out, s.name());
            },
            None => {},
        }
        assert(out@ =~= old(out)@ + item_text(*self));
    }

    /// The item written as `[prefix ]type[ of suffix]`.
    pub fn to_text(&self) -> (r: String)
        ensures
            r@ == item_text(*self),
    {
        let mut out: Vec<char> = Vec::new();
        self.push_text(&mut out);
        assert(out@ =~= item_text(*self));
        string_from(out.as_slice())
    }
}

impl Item<String> {
    fn push_text(&self, out: &mut Vec<char>)
        ensures
            final(out)@ == old(out)@ + emoji_item_text(self@),
    {
        push_string(out, &self.emoji);
        push_str(out, " ");
        let bare = EmojilessItem { prefix: self.prefix, item: self.item, suffix: self.suffix };
        bare.push_text(out);
        assert(out@ =~= old(out)@ + emoji_item_text(self@));
    }
}

impl EmojiTeam<String> {
    fn push_text(&self, out: &mut Vec<char>)
        ensures
            final(out)@ == old(out)@ + team_text(self@),
    {
        push_string(out, &self.emoji);
        push_str(out, " ");
        push_string(out, &self.name);
        assert(out@ =~= old(out)@ + team_text(self@));
    }
}

impl FeedDelivery<String> {
    fn push_text(&self, out: &mut Vec<char>, delivery_label: &str)
        ensures
            final(out)@ == old(out)@ + delivery_text(self@, delivery_label@),
    {
        push_string(out, &self.player);
        push_str(out, " received a ");
        self.item.push_text(out);
        push_str(out, " ");
        push_str(out, delivery_label);
        push_str(out, ".");
        let ghost mid = out@;
        match &self.discarded {
            Some(d) => {
                push_str(out, " They discarded their ");
                d.push_text(out);
                push_str(out, ".");
                assert(out@ =~= mid + discarded_text(self@.discarded));
            },
            None => {
                assert(out@ =~= mid + discarded_text(self@.discarded));
            },
        }
        assert(out@ =~= old(out)@ + delivery_text(self@, delivery_label@));
    }

    /// The canonical delivery sentence, under the given label (`Delivery`, `Shipment`, ...).
    pub fn unparse(&self, delivery_label: &str) -> (r: String)
        ensures
            r@ == delivery_text(self@, delivery_label@),
    {
        let mut out: Vec<char> = Vec::new();
        self.push_text(&mut out, delivery_label);
        assert(out@ =~= delivery_text(self@, delivery_label@));
        string_from(out.as_slice())
    }
}

impl AttributeChange<String> {
    fn push_text(&self, out: &mut Vec<char>)
        ensures
            final(out)@ == old(out)@ + change_text(self@),
    {
        push_string(out, &self.player_name);
        push_str(out, " gained +");
        push_signed(out, self.amount);
        push_str(out, " ");
        push_str(out, self.attribute.name());
        push_str(out, ".");
        assert(out@ =~= old(out)@ + change_text(self@));
    }
}

impl AttributeEqual<String> {
    fn push_text(&self, out: &mut Vec<char>, phrase: &str)
        ensures
            final(out)@ == old(out)@ + equal_text(self@, phrase@),
    {
        push_string(out, &self.player_name);
        push_str(out, "'s ");
        push_str(out, self.changing_attribute.name());
        push_str(out, phrase);
        push_str(out, self.value_attribute.name());
        push_str(out, ".");
        assert(out@ =~= old(out)@ + equal_text(self@, phrase@));
    }
}

fn changes_to_text(changes: &Vec<AttributeChange<String>>) -> (r: Vec<char>)
    ensures
        r@ == changes_text(changes_view(changes@)),
{
    let ghost s = changes_view(changes@);
    let mut out: Vec<char> = Vec::new();
    let mut k: usize = 0;
    while k < changes.len()
        invariant
            k <= changes.len(),
            s == changes_view(changes@),
            out@ == changes_text(s.subrange(0, k as int)),
        decreases changes.len() - k,
    {
        let ghost pre = out@;
        if k > 0 {
            push_str(&mut out, " ");
        }
        changes[k].push_text(&mut out);
        assert(s.subrange(0, k + 1).drop_last() =~= s.subrange(0, k as int));
        assert(out@ =~= changes_text(s.subrange(0, k + 1)));
        k = k + 1;
    }
    assert(s.subrange(0, changes.len() as int) =~= s);
    out
}

fn equals_to_text(equals: &Vec<AttributeEqual<String>>, phrase: &str) -> (r: Vec<char>)
    ensures
        r@ == equals_text(equals_view(equals@), phrase@),
{
    let ghost s = equals_view(equals@);
    let mut out: Vec<char> = Vec::new();
    let mut k: usize = 0;
    while k < equals.len()
        invariant
            k <= equals.len(),
            s == equals_view(equals@),
            out@ == equals_text(s.subrange(0, k as int), phrase@),
        decreases equals.len() - k,
    {
        if k > 0 {
            push_str(&mut out, " ");
        }
        equals[k].push_text(&mut out, phrase);
        assert(s.subrange(0, k + 1).drop_last() =~= s.subrange(0, k as int));
        assert(out@ =~= equals_text(s.subrange(0, k + 1), phrase@));
        k = k + 1;
    }
    assert(s.subrange(0, equals.len() as int) =~= s);
    out
}

/// The words between the two attributes of an equality sentence, by era and narrator.
fn equal_phrase_of(season: u32, day: Option<u16>, source: FeedEventSource) -> (r: &'static str)
    ensures
        r@ == equal_phrase(season, day, source),
{
    if Breakpoints::S1AttributeEqualChange.before(season, day) {
        " became equal to their current base "
    } else if source == FeedEventSource::Player {
        " was set to their "
    } else {
        " became equal to their base "
    }
}

fn push_bonus(out: &mut Vec<char>, amount: u8, attribute: Attribute)
    ensures
        final(out)@ == old(out)@ + " gained a +"@ + decimal(amount as nat) + " "@ + attribute.spec_name()
            + " bonus."@,
{
    push_str(out, " gained a +");
    push_decimal(out, amount as u32);
    push_str(out, " ");
    push_str(out, attribute.name());
    push_str(out, " bonus.");
}

fn game_result_to_text(away: &EmojiTeam<String>, home: &EmojiTeam<String>, away_score: u8, home_score: u8) -> (r:
    Vec<char>)
    ensures
        r@ == game_result_text(away@, home@, away_score, home_score),
{
    let mut out: Vec<char> = Vec::new();
    away.push_text(&mut out);
    push_str(&mut out, " vs. ");
    home.push_text(&mut out);
    push_str(&mut out, " - FINAL ");
    push_decimal(&mut out, away_score as u32);
    push_str(&mut out, "-");
    push_decimal(&mut out, home_score as u32);
    assert(out@ =~= game_result_text(away@, home@, away_score, home_score));
    out
}

fn s1_to_text(
    season: u32,
    day: Option<u16>,
    player_name: &String,
    item: EmojilessItem,
    amount: u8,
    attribute: Attribute,
) -> (r: Vec<char>)
    ensures
        r@ == s1_text(season, day, player_name@, item, amount, attribute),
{
    let mut out: Vec<char> = Vec::new();
    if Breakpoints::Season1EnchantmentChange.before(season, day) {
        push_string(&mut out, player_name);
        push_str(&mut out, "'s ");
        item.push_text(&mut out);
        push_str(&mut out, " was enchanted with +");
        push_decimal(&mut out, amount as u32);
        push_str(&mut out, " to ");
        push_str(&mut out, attribute.name());
        push_str(&mut out, ".");
    } else {
        push_str(&mut out, "The Item Enchantment was a success! ");
        push_string(&mut out, player_name);
        push_str(&mut out, "'s ");
        item.push_text(&mut out);
        push_bonus(&mut out, amount, attribute);
    }
    assert(out@ =~= s1_text(season, day, player_name@, item, amount, attribute));
    out
}

fn s2_to_text(
    player_name: &String,
    item: EmojilessItem,
    amount: u8,
    attribute: Attribute,
    enchant_two: Option<(u8, Attribute)>,
    compensatory: bool,
) -> (r: Vec<char>)
    ensures
        r@ == s2_text(player_name@, item, amount, attribute, enchant_two, compensatory),
{
    let mut out: Vec<char> = Vec::new();
    push_str(&mut out, "The ");
    push_str(&mut out, if compensatory { "Compensatory" } else { "Item" });
    push_str(&mut out, " Enchantment was a success! ");
    push_string(&mut out, player_name);
    push_str(&mut out, "'s ");
    item.push_text(&mut out);
    let ghost mid = out@;
    match enchant_two {
        Some((amount_two, attribute_two)) => {
            push_str(&mut out, " was enchanted with +");
            push_decimal(&mut out, amount as u32);
            push_str(&mut out, " ");
            push_str(&mut out, attribute.name());
            push_str(&mut out, " and +");
            push_decimal(&mut out, amount_two as u32);
            push_str(&mut out, " ");
            push_str(&mut out, attribute_two.name());
            push_str(&mut out, ".");
        },
        None => {
            push_bonus(&mut out, amount, attribute);
        },
    }
    assert(out@ =~= mid + s2_tail(amount, attribute, enchant_two));
    assert(out@ =~= s2_text(player_name@, item, amount, attribute, enchant_two, compensatory));
    out
}

/// `a`, then the literal `m`, then `b`, then the literal `end`.
fn two_names_to_text(a: &String, m: &str, b: &String, end: &str) -> (r: Vec<char>)
    ensures
        r@ == a@ + m@ + b@ + end@,
{
    let mut out: Vec<char> = Vec::new();
    push_string(&mut out, a);
    push_str(&mut out, m);
    push_string(&mut out, b);
    push_str(&mut out, end);
    assert(out@ =~= a@ + m@ + b@ + end@);
    out
}

impl ParsedFeedEventText<String> {
    /// The canonical text of this reading for `event`, worded for its era and for `source`;
    /// a reading that failed gives back its original text.
    pub fn unparse(&self, event: &FeedEvent, source: FeedEventSource) -> (r: String)
        ensures
            r@ == render(self@, event.season, event.day, source),
    {
        let out: Vec<char> = match self {
            ParsedFeedEventText::ParseError { text, .. } => {
                return text.clone();
            },
            ParsedFeedEventText::GameResult { home_team, away_team, home_score, away_score } => {
                game_result_to_text(away_team, home_team, *away_score, *home_score)
            },
            ParsedFeedEventText::Delivery { delivery } => {
                return delivery.unparse("Delivery");
            },
            ParsedFeedEventText::SpecialDelivery { delivery } => {
                return delivery.unparse("Special Delivery");
            },
            ParsedFeedEventText::Shipment { delivery } => {
                return delivery.unparse("Shipment");
            },
            ParsedFeedEventText::AttributeChanges { changes } => changes_to_text(changes),
            ParsedFeedEventText::AttributeEquals { equals } => {
                let phrase = equal_phrase_of(event.season, event.day, source);
                equals_to_text(equals, phrase)
            },
            ParsedFeedEventText::S1Enchantment { player_name, item, amount, attribute } => {
                s1_to_text(event.season, event.day, player_name, *item, *amount, *attribute)
            },
            ParsedFeedEventText::S2Enchantment {
                player_name,
                item,
                amount,
                attribute,
                enchant_two,
                compensatory,
            } => s2_to_text(player_name, *item, *amount, *attribute, *enchant_two, *compensatory),
            ParsedFeedEventText::ROBO { player_name } => {
                let mut out: Vec<char> = Vec::new();
                push_string(&mut out, player_name);
                push_str(&mut out, " gained the ROBO Modification.");
                assert(out@ =~= player_name@ + " gained the ROBO Modification."@);
                out
            },
            ParsedFeedEventText::TakeTheMound { to_mound_player, to_lineup_player } => {
                two_names_to_text(
                    to_mound_player,
                    " was moved to the mound. ",
                    to_lineup_player,
                    " was sent to the lineup.",
                )
            },
            ParsedFeedEventText::TakeThePlate { to_plate_player, from_lineup_player } => {
                two_names_to_text(
                    to_plate_player,
                    " was sent to the plate. ",
                    from_lineup_player,
                    " was pulled from the lineup.",
                )
            },
            ParsedFeedEventText::SwapPlaces { player_one, player_two } => {
                two_names_to_text(player_one, " swapped places with ", player_two, ".")
            },
            ParsedFeedEventText::HitByFallingStar { player } => {
                let mut out: Vec<char> = Vec::new();
                push_string(&mut out, player);
                push_str(&mut out, " was hit by a Falling Star!");
                assert(out@ =~= player@ + " was hit by a Falling Star!"@);
                out
            },
        };
        string_from(out.as_slice())
    }
}

} // verus!
