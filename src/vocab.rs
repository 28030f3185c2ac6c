//! The closed vocabularies that sentences draw words from, and their lookup.

use vstd::prelude::*;
use crate::text::{chars_of, letters_end, lit_at, match_at, scan_letters};

verus! {

/// A closed set of words, each variant written as one word of ASCII letters.
pub trait Vocabulary: Sized + Copy {
    spec fn spec_name(&self) -> Seq<char>;

    /// Every variant, in the order in which lookup tries them.
    spec fn spec_all() -> Seq<Self>;

    fn name(&self) -> (r: &'static str)
        ensures
            r@ == self.spec_name(),
    ;

    fn all() -> (r: Vec<Self>)
        ensures
            r@ == Self::spec_all(),
    ;
}

/// The first of `all[k..]` whose name is `w`.
pub open spec fn first_named<V: Vocabulary>(all: Seq<V>, w: Seq<char>, k: int) -> Option<V>
    decreases all.len() - k,
{
    if k < 0 || k >= all.len() {
        None
    } else if all[k].spec_name() == w {
        Some(all[k])
    } else {
        first_named(all, w, k + 1)
    }
}

/// The variant named `w`, if any.
pub open spec fn named<V: Vocabulary>(w: Seq<char>) -> Option<V> {
    first_named(V::spec_all(), w, 0)
}

/// The word of letters at `i` read as a variant of `V`, and where it ends.
pub open spec fn word_at<V: Vocabulary>(t: Seq<char>, i: int) -> Option<(V, int)> {
    let e = letters_end(t, i);
    match named::<V>(t.subrange(i, e)) {
        Some(v) => Some((v, e)),
        None => None,
    }
}

/// Reads the word of letters at `i` as a variant of `V`.
pub fn scan_word<V: Vocabulary>(t: &Vec<char>, i: usize) -> (r: Option<(V, usize)>)
    requires
        i <= t.len(),
    ensures
        match word_at::<V>(t@, i as int) {
            Some((v, e)) => r matches Some((rv, re)) && rv == v && re == e,
            None => r is None,
        },
        r matches Some((v, e)) ==> i <= e <= t.len(),
{
    let e = scan_letters(t, i);
    let all = V::all();
    let ghost w = t@.subrange(i as int, e as int);
    let mut k: usize = 0;
    while k < all.len()
        invariant
            i <= e <= t.len(),
            e == letters_end(t@, i as int),
            w == t@.subrange(i as int, e as int),
            all@ == V::spec_all(),
            k <= all.len(),
            first_named(all@, w, 0) == first_named(all@, w, k as int),
        decreases all.len() - k,
    {
        let v = all[k];
        let nc = chars_of(v.name());
        if nc.len() == e - i && match_at(t, i, &nc) {
            assert(t@.subrange(i as int, i + nc@.len()) == nc@);
            assert(w == all@[k as int].spec_name());
            assert(first_named(all@, w, k as int) == Some(v));
            return Some((v, e));
        }
        proof {
            if v.spec_name() == w {
                assert(lit_at(t@, i as int, nc@));
            }
        }
        k = k + 1;
    }
    None
}

/// A player statistic that change and equality sentences name.
#[derive(Clone, Copy, Debug, PartialEq, Eq, Structural, Hash)]
pub enum Attribute {
    Aiming,
    Contact,
    Cunning,
    Determination,
    Discipline,
    Insight,
    Intimidation,
    Lift,
    Muscle,
    Selflessness,
    Vision,
    Wisdom,
    Accuracy,
    Control,
    Defiance,
    Guts,
    Persuasion,
    Presence,
    Rotation,
    Stamina,
    Stuff,
    Velocity,
    Acrobatics,
    Agility,
    Arm,
    Awareness,
    Composure,
    Dexterity,
    Patience,
    Reaction,
    Greed,
    Performance,
    Speed,
    Stealth,
    Luck,
    Priority,
    Ruthlessness,
    Unthwackability,
}

impl Vocabulary for Attribute {
    open spec fn spec_name(&self) -> Seq<char> {
        match self {
            Attribute::Aiming => "Aiming"@,
            Attribute::Contact => "Contact"@,
            Attribute::Cunning => "Cunning"@,
            Attribute::Determination => "Determination"@,
            Attribute::Discipline => "Discipline"@,
            Attribute::Insight => "Insight"@,
            Attribute::Intimidation => "Intimidation"@,
            Attribute::Lift => "Lift"@,
            Attribute::Muscle => "Muscle"@,
            Attribute::Selflessness => "Selflessness"@,
            Attribute::Vision => "Vision"@,
            Attribute::Wisdom => "Wisdom"@,
            Attribute::Accuracy => "Accuracy"@,
            Attribute::Control => "Control"@,
            Attribute::Defiance => "Defiance"@,
            Attribute::Guts => "Guts"@,
            Attribute::Persuasion => "Persuasion"@,
            Attribute::Presence => "Presence"@,
            Attribute::Rotation => "Rotation"@,
            Attribute::Stamina => "Stamina"@,
            Attribute::Stuff => "Stuff"@,
            Attribute::Velocity => "Velocity"@,
            Attribute::Acrobatics => "Acrobatics"@,
            Attribute::Agility => "Agility"@,
            Attribute::Arm => "Arm"@,
            Attribute::Awareness => "Awareness"@,
            Attribute::Composure => "Composure"@,
            Attribute::Dexterity => "Dexterity"@,
            Attribute::Patience => "Patience"@,
            Attribute::Reaction => "Reaction"@,
            Attribute::Greed => "Greed"@,
            Attribute::Performance => "Performance"@,
            Attribute::Speed => "Speed"@,
            Attribute::Stealth => "Stealth"@,
            Attribute::Luck => "Luck"@,
            Attribute::Priority => "Priority"@,
            Attribute::Ruthlessness => "Ruthlessness"@,
            Attribute::Unthwackability => "Unthwackability"@,
        }
    }

    open spec fn spec_all() -> Seq<Self> {
        seq![
            Attribute::Aiming,
            Attribute::Contact,
            Attribute::Cunning,
            Attribute::Determination,
            Attribute::Discipline,
            Attribute::Insight,
            Attribute::Intimidation,
            Attribute::Lift,
            Attribute::Muscle,
            Attribute::Selflessness,
            Attribute::Vision,
            Attribute::Wisdom,
            Attribute::Accuracy,
            Attribute::Control,
            Attribute::Defiance,
            Attribute::Guts,
            Attribute::Persuasion,
            Attribute::Presence,
            Attribute::Rotation,
            Attribute::Stamina,
            Attribute::Stuff,
            Attribute::Velocity,
            Attribute::Acrobatics,
            Attribute::Agility,
            Attribute::Arm,
            Attribute::Awareness,
            Attribute::Composure,
            Attribute::Dexterity,
            Attribute::Patience,
            Attribute::Reaction,
            Attribute::Greed,
            Attribute::Performance,
            Attribute::Speed,
            Attribute::Stealth,
            Attribute::Luck,
            Attribute::Priority,
            Attribute::Ruthlessness,
            Attribute::Unthwackability,
        ]
    }

    fn name(&self) -> (r: &'static str) {
        match self {
            Attribute::Aiming => "Aiming",
            Attribute::Contact => "Contact",
            Attribute::Cunning => "Cunning",
            Attribute::Determination => "Determination",
            Attribute::Discipline => "Discipline",
            Attribute::Insight => "Insight",
            Attribute::Intimidation => "Intimidation",
            Attribute::Lift => "Lift",
            Attribute::Muscle => "Muscle",
            Attribute::Selflessness => "Selflessness",
            Attribute::Vision => "Vision",
            Attribute::Wisdom => "Wisdom",
            Attribute::Accuracy => "Accuracy",
            Attribute::Control => "Control",
            Attribute::Defiance => "Defiance",
            Attribute::Guts => "Guts",
            Attribute::Persuasion => "Persuasion",
            Attribute::Presence => "Presence",
            Attribute::Rotation => "Rotation",
            Attribute::Stamina => "Stamina",
            Attribute::Stuff => "Stuff",
            Attribute::Velocity => "Velocity",
            Attribute::Acrobatics => "Acrobatics",
            Attribute::Agility => "Agility",
            Attribute::Arm => "Arm",
            Attribute::Awareness => "Awareness",
            Attribute::Composure => "Composure",
            Attribute::Dexterity => "Dexterity",
            Attribute::Patience => "Patience",
            Attribute::Reaction => "Reaction",
            Attribute::Greed => "Greed",
            Attribute::Performance => "Performance",
            Attribute::Speed => "Speed",
            Attribute::Stealth => "Stealth",
            Attribute::Luck => "Luck",
            Attribute::Priority => "Priority",
            Attribute::Ruthlessness => "Ruthlessness",
            Attribute::Unthwackability => "Unthwackability",
        }
    }

    fn all() -> (r: Vec<Self>) {
        vec![
            Attribute::Aiming,
            Attribute::Contact,
            Attribute::Cunning,
            Attribute::Determination,
            Attribute::Discipline,
            Attribute::Insight,
            Attribute::Intimidation,
            Attribute::Lift,
            Attribute::Muscle,
            Attribute::Selflessness,
            Attribute::Vision,
            Attribute::Wisdom,
            Attribute::Accuracy,
            Attribute::Control,
            Attribute::Defiance,
            Attribute::Guts,
            Attribute::Persuasion,
            Attribute::Presence,
            Attribute::Rotation,
            Attribute::Stamina,
            Attribute::Stuff,
            Attribute::Velocity,
            Attribute::Acrobatics,
            Attribute::Agility,
            Attribute::Arm,
            Attribute::Awareness,
            Attribute::Composure,
            Attribute::Dexterity,
            Attribute::Patience,
            Attribute::Reaction,
            Attribute::Greed,
            Attribute::Performance,
            Attribute::Speed,
            Attribute::Stealth,
            Attribute::Luck,
            Attribute::Priority,
            Attribute::Ruthlessness,
            Attribute::Unthwackability,
        ]
    }
}

/// The optional word in front of an item's type.
#[derive(Clone, Copy, Debug, PartialEq, Eq, Structural, Hash)]
pub enum ItemPrefix {
    Sharp,
    Consistent,
    Mighty,
    Lucky,
    Swift,
    Fortified,
    Stalwart,
}

impl Vocabulary for ItemPrefix {
    open spec fn spec_name(&self) -> Seq<char> {
        match self {
            ItemPrefix::Sharp => "Sharp"@,
            ItemPrefix::Consistent => "Consistent"@,
            ItemPrefix::Mighty => "Mighty"@,
            ItemPrefix::Lucky => "Lucky"@,
            ItemPrefix::Swift => "Swift"@,
            ItemPrefix::Fortified => "Fortified"@,
            ItemPrefix::Stalwart => "Stalwart"@,
        }
    }

    open spec fn spec_all() -> Seq<Self> {
        seq![
            ItemPrefix::Sharp,
            ItemPrefix::Consistent,
            ItemPrefix::Mighty,
            ItemPrefix::Lucky,
            ItemPrefix::Swift,
            ItemPrefix::Fortified,
            ItemPrefix::Stalwart,
        ]
    }

    fn name(&self) -> (r: &'static str) {
        match self {
            ItemPrefix::Sharp => "Sharp",
            ItemPrefix::Consistent => "Consistent",
            ItemPrefix::Mighty => "Mighty",
            ItemPrefix::Lucky => "Lucky",
            ItemPrefix::Swift => "Swift",
            ItemPrefix::Fortified => "Fortified",
            ItemPrefix::Stalwart => "Stalwart",
        }
    }

    fn all() -> (r: Vec<Self>) {
        vec![
            ItemPrefix::Sharp,
            ItemPrefix::Consistent,
            ItemPrefix::Mighty,
            ItemPrefix::Lucky,
            ItemPrefix::Swift,
            ItemPrefix::Fortified,
            ItemPrefix::Stalwart,
        ]
    }
}

/// The kind of an item.
#[derive(Clone, Copy, Debug, PartialEq, Eq, Structural, Hash)]
pub enum ItemType {
    Cap,
    Gloves,
    Jersey,
    Necklace,
    Ring,
    Sneakers,
    Boots,
}

impl Vocabulary for ItemType {
    open spec fn spec_name(&self) -> Seq<char> {
        match self {
            ItemType::Cap => "Cap"@,
            ItemType::Gloves => "Gloves"@,
            ItemType::Jersey => "Jersey"@,
            ItemType::Necklace => "Necklace"@,
            ItemType::Ring => "Ring"@,
            ItemType::Sneakers => "Sneakers"@,
            ItemType::Boots => "Boots"@,
        }
    }

    open spec fn spec_all() -> Seq<Self> {
        seq![
            ItemType::Cap,
            ItemType::Gloves,
            ItemType::Jersey,
            ItemType::Necklace,
            ItemType::Ring,
            ItemType::Sneakers,
            ItemType::Boots,
        ]
    }

    fn name(&self) -> (r: &'static str) {
        match self {
            ItemType::Cap => "Cap",
            ItemType::Gloves => "Gloves",
            ItemType::Jersey => "Jersey",
            ItemType::Necklace => "Necklace",
            ItemType::Ring => "Ring",
            ItemType::Sneakers => "Sneakers",
            ItemType::Boots => "Boots",
        }
    }

    fn all() -> (r: Vec<Self>) {
        vec![
            ItemType::Cap,
            ItemType::Gloves,
            ItemType::Jersey,
            ItemType::Necklace,
            ItemType::Ring,
            ItemType::Sneakers,
            ItemType::Boots,
        ]
    }
}

/// The optional `of ...` phrase after an item's type; its name is the word after `of`.
#[derive(Clone, Copy, Debug, PartialEq, Eq, Structural, Hash)]
pub enum ItemSuffix {
    Fortune,
    Vitality,
    Glory,
    Haste,
    Wonder,
    Insight,
    Precision,
}

impl Vocabulary for ItemSuffix {
    open spec fn spec_name(&self) -> Seq<char> {
        match self {
            ItemSuffix::Fortune => "Fortune"@,
            ItemSuffix::Vitality => "Vitality"@,
            ItemSuffix::Glory => "Glory"@,
            ItemSuffix::Haste => "Haste"@,
            ItemSuffix::Wonder => "Wonder"@,
            ItemSuffix::Insight => "Insight"@,
            ItemSuffix::Precision => "Precision"@,
        }
    }

    open spec fn spec_all() -> Seq<Self> {
        seq![
            ItemSuffix::Fortune,
            ItemSuffix::Vitality,
            ItemSuffix::Glory,
            ItemSuffix::Haste,
            ItemSuffix::Wonder,
            ItemSuffix::Insight,
            ItemSuffix::Precision,
        ]
    }

    fn name(&self) -> (r: &'static str) {
        match self {
            ItemSuffix::Fortune => "Fortune",
            ItemSuffix::Vitality => "Vitality",
            ItemSuffix::Glory => "Glory",
            ItemSuffix::Haste => "Haste",
            ItemSuffix::Wonder => "Wonder",
            ItemSuffix::Insight => "Insight",
            ItemSuffix::Precision => "Precision",
        }
    }

    fn all() -> (r: Vec<Self>) {
        vec![
            ItemSuffix::Fortune,
            ItemSuffix::Vitality,
            ItemSuffix::Glory,
            ItemSuffix::Haste,
            ItemSuffix::Wonder,
            ItemSuffix::Insight,
            ItemSuffix::Precision,
        ]
    }
}

/// The coarse kind that an upstream classifier gives an event.
#[derive(Clone, Copy, Debug, PartialEq, Eq, Structural, Hash)]
pub enum FeedEventType {
    Game,
    Augment,
}

/// Who narrates a sentence; it decides the wording of some sentences.
#[derive(Clone, Copy, Debug, PartialEq, Eq, Structural, Hash)]
pub enum FeedEventSource {
    Player,
    Umpire,
}

} // verus!
