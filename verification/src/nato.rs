//! The NATO unit symbol a division template gets, chosen from words in the
//! template's name (Chinese, English, German and Spanish words).
use vstd::prelude::*;
use crate::text::{chars_of, contains_chars, has_substring, str_to_lowercase, unicode_lowercase};

verus! {

/// The kind of NATO symbol drawn for a division.
#[derive(Clone, Copy, Debug, PartialEq, Eq, Structural)]
pub enum NatoArchetype {
    Infantry,
    Cavalry,
    Motorized,
    Mechanized,
    Armor,
    Mountain,
    Marine,
    Paratrooper,
    Artillery,
    AntiTank,
    AntiAir,
    Garrison,
    Unknown,
}

/// Some word of `words` occurs in `hay`.
pub open spec fn has_any(hay: Seq<char>, words: Seq<Seq<char>>) -> bool {
    exists|i: int| 0 <= i < words.len() && has_substring(hay, #[trigger] words[i])
}

/// The character views of a list of words.
pub open spec fn word_views(words: Seq<&str>) -> Seq<Seq<char>> {
    words.map_values(|w: &str| w@)
}

pub open spec fn armor_words() -> Seq<Seq<char>> {
    seq!["装甲师"@, "装甲"@, "armor"@, "armour"@, "tank"@, "panzer"@, "blindad"@]
}

pub open spec fn mechanized_words() -> Seq<Seq<char>> {
    seq!["机械化"@, "mechan"@]
}

pub open spec fn motorized_words() -> Seq<Seq<char>> {
    seq!["摩托化"@, "motor"@, "truck"@, "motoriz"@]
}

pub open spec fn mountain_words() -> Seq<Seq<char>> {
    seq!["山地"@, "mountain"@, "alpin"@, "montaña"@, "montana"@]
}

pub open spec fn paratrooper_words() -> Seq<Seq<char>> {
    seq!["伞兵"@, "para"@, "fallschirm"@]
}

pub open spec fn marine_words() -> Seq<Seq<char>> {
    seq!["海军陆战"@, "marine"@, "infantería de marina"@]
}

pub open spec fn cavalry_words() -> Seq<Seq<char>> {
    seq!["骑兵"@, "cavalry"@, "cavalería"@, "caballería"@]
}

pub open spec fn anti_tank_words() -> Seq<Seq<char>> {
    seq!["反坦克"@, "anti-tank"@, "antitank"@]
}

pub open spec fn anti_air_words() -> Seq<Seq<char>> {
    seq!["防空"@, "anti-air"@, "antiair"@, "anti-aircraft"@]
}

pub open spec fn artillery_words() -> Seq<Seq<char>> {
    seq!["火炮"@, "artiller"@, "artillería"@]
}

pub open spec fn garrison_words() -> Seq<Seq<char>> {
    seq!["驻防"@, "garrison"@, "comandancia"@]
}

pub open spec fn infantry_words() -> Seq<Seq<char>> {
    seq![
        "步兵"@,
        "infantry"@,
        "infanter"@,
        "división"@,
        "division"@,
        "división"@,
        "brigada"@,
        "brigade"@,
    ]
}

/// The archetype of an already lower-cased name: the first group, in this
/// order, that has a word occurring in the name; the more specific kinds come
/// before the broader ones, so the anti-tank words (which contain the armour
/// word `tank`) come first.
pub open spec fn archetype_of_lowered(n: Seq<char>) -> NatoArchetype {
    if has_any(n, anti_tank_words()) {
        NatoArchetype::AntiTank
    } else if has_any(n, armor_words()) {
        NatoArchetype::Armor
    } else if has_any(n, mechanized_words()) {
        NatoArchetype::Mechanized
    } else if has_any(n, motorized_words()) {
        NatoArchetype::Motorized
    } else if has_any(n, mountain_words()) {
        NatoArchetype::Mountain
    } else if has_any(n, paratrooper_words()) {
        NatoArchetype::Paratrooper
    } else if has_any(n, marine_words()) {
        NatoArchetype::Marine
    } else if has_any(n, cavalry_words()) {
        NatoArchetype::Cavalry
    } else if has_any(n, anti_air_words()) {
        NatoArchetype::AntiAir
    } else if has_any(n, artillery_words()) {
        NatoArchetype::Artillery
    } else if has_any(n, garrison_words()) {
        NatoArchetype::Garrison
    } else if has_any(n, infantry_words()) {
        NatoArchetype::Infantry
    } else {
        NatoArchetype::Unknown
    }
}

/// Whether some word of `needles` occurs in `haystack`.
pub fn contains_any(haystack: &str, needles: &[&str]) -> (r: bool)
    ensures
        r == has_any(haystack@, word_views(needles@)),
{
    let h = chars_of(haystack);
    let mut i: usize = 0;
    while i < needles.len()
        invariant
            i <= needles@.len(),
            h@ == haystack@,
            forall|j: int|
                0 <= j < i ==> !has_substring(haystack@, #[trigger] word_views(needles@)[j]),
        decreases needles@.len() - i,
    {
        let n = chars_of(needles[i]);
        if contains_chars(h.as_slice(), n.as_slice()) {
            assert(word_views(needles@)[i as int] == needles@[i as int]@);
            return true;
        }
        assert(word_views(needles@)[i as int] == needles@[i as int]@);
        i = i + 1;
    }
    false
}

/// The words that select `kind` (empty for `Unknown`).
pub open spec fn archetype_words(kind: NatoArchetype) -> Seq<Seq<char>> {
    match kind {
        NatoArchetype::Armor => armor_words(),
        NatoArchetype::Mechanized => mechanized_words(),
        NatoArchetype::Motorized => motorized_words(),
        NatoArchetype::Mountain => mountain_words(),
        NatoArchetype::Paratrooper => paratrooper_words(),
        NatoArchetype::Marine => marine_words(),
        NatoArchetype::Cavalry => cavalry_words(),
        NatoArchetype::AntiTank => anti_tank_words(),
        NatoArchetype::AntiAir => anti_air_words(),
        NatoArchetype::Artillery => artillery_words(),
        NatoArchetype::Garrison => garrison_words(),
        NatoArchetype::Infantry => infantry_words(),
        NatoArchetype::Unknown => Seq::empty(),
    }
}

/// The words that select `kind`, as a list.
fn archetype_word_list(kind: NatoArchetype) -> (r: Vec<&'static str>)
    ensures
        word_views(r@) == archetype_words(kind),
{
    let r = match kind {
        NatoArchetype::Armor => vec!["装甲师", "装甲", "armor", "armour", "tank", "panzer", "blindad"],
        NatoArchetype::Mechanized => vec!["机械化", "mechan"],
        NatoArchetype::Motorized => vec!["摩托化", "motor", "truck", "motoriz"],
        NatoArchetype::Mountain => vec!["山地", "mountain", "alpin", "montaña", "montana"],
        NatoArchetype::Paratrooper => vec!["伞兵", "para", "fallschirm"],
        NatoArchetype::Marine => vec!["海军陆战", "marine", "infantería de marina"],
        NatoArchetype::Cavalry => vec!["骑兵", "cavalry", "cavalería", "caballería"],
        NatoArchetype::AntiTank => vec!["反坦克", "anti-tank", "antitank"],
        NatoArchetype::AntiAir => vec!["防空", "anti-air", "antiair", "anti-aircraft"],
        NatoArchetype::Artillery => vec!["火炮", "artiller", "artillería"],
        NatoArchetype::Garrison => vec!["驻防", "garrison", "comandancia"],
        NatoArchetype::Infantry => vec![
            "步兵",
            "infantry",
            "infanter",
            "división",
            "division",
            "división",
            "brigada",
            "brigade",
        ],
        NatoArchetype::Unknown => Vec::new(),
    };
    assert(word_views(r@) =~= archetype_words(kind));
    r
}

/// Whether a word that selects `kind` occurs in `n`.
fn selects(n: &str, kind: NatoArchetype) -> (r: bool)
    ensures
        r == has_any(n@, archetype_words(kind)),
{
    let words = archetype_word_list(kind);
    contains_any(n, words.as_slice())
}

/// The archetype for a name that is already in lower case.
pub fn archetype_from_lowered_name(n: &str) -> (r: NatoArchetype)
    ensures
        r == archetype_of_lowered(n@),
{
    if selects(n, NatoArchetype::AntiTank) {
        NatoArchetype::AntiTank
    } else if selects(n, NatoArchetype::Armor) {
        NatoArchetype::Armor
    } else if selects(n, NatoArchetype::Mechanized) {
        NatoArchetype::Mechanized
    } else if selects(n, NatoArchetype::Motorized) {
        NatoArchetype::Motorized
    } else if selects(n, NatoArchetype::Mountain) {
        NatoArchetype::Mountain
    } else if selects(n, NatoArchetype::Paratrooper) {
        NatoArchetype::Paratrooper
    } else if selects(n, NatoArchetype::Marine) {
        NatoArchetype::Marine
    } else if selects(n, NatoArchetype::Cavalry) {
        NatoArchetype::Cavalry
    } else if selects(n, NatoArchetype::AntiAir) {
        NatoArchetype::AntiAir
    } else if selects(n, NatoArchetype::Artillery) {
        NatoArchetype::Artillery
    } else if selects(n, NatoArchetype::Garrison) {
        NatoArchetype::Garrison
    } else if selects(n, NatoArchetype::Infantry) {
        NatoArchetype::Infantry
    } else {
        NatoArchetype::Unknown
    }
}

/// The archetype for a division template name: the name is lower-cased
/// (Unicode) and then matched as `archetype_from_lowered_name` describes.
pub fn archetype_from_template_name(name: &str) -> (r: NatoArchetype)
    ensures
        r == archetype_of_lowered(unicode_lowercase(name@)),
{
    let lowered = str_to_lowercase(name);
    archetype_from_lowered_name(lowered.as_str())
}

/// A name with an anti-tank word gets the anti-tank symbol, though the
/// English anti-tank words contain the armour word `tank`: the more specific
/// kind wins.
pub proof fn lemma_anti_tank_words_win(n: Seq<char>)
    requires
        has_substring(n, "反坦克"@) || has_substring(n, "anti-tank"@) || has_substring(
            n,
            "antitank"@,
        ),
    ensures
        archetype_of_lowered(n) == NatoArchetype::AntiTank,
{
    if has_substring(n, "反坦克"@) {
        assert(has_substring(n, anti_tank_words()[0]));
    } else if has_substring(n, "anti-tank"@) {
        assert(has_substring(n, anti_tank_words()[1]));
    } else {
        assert(has_substring(n, anti_tank_words()[2]));
    }
}

/// The kinds in the order in which their words are tried: the more specific
/// before the broader.
pub open spec fn archetype_precedence() -> Seq<NatoArchetype> {
    seq![
        NatoArchetype::AntiTank,
        NatoArchetype::Armor,
        NatoArchetype::Mechanized,
        NatoArchetype::Motorized,
        NatoArchetype::Mountain,
        NatoArchetype::Paratrooper,
        NatoArchetype::Marine,
        NatoArchetype::Cavalry,
        NatoArchetype::AntiAir,
        NatoArchetype::Artillery,
        NatoArchetype::Garrison,
        NatoArchetype::Infantry,
    ]
}

/// The symbol of a name is backed by the name: a name gets a kind only when
/// one of that kind's words occurs in it, it gets the first kind in the
/// precedence order whose words occur, and it is `Unknown` exactly when no
/// kind's words occur.
pub proof fn lemma_archetype_follows_precedence(n: Seq<char>, i: int)
    requires
        0 <= i < 12,
    ensures
        archetype_of_lowered(n) != NatoArchetype::Unknown ==> has_any(
            n,
            archetype_words(archetype_of_lowered(n)),
        ),
        archetype_of_lowered(n) == NatoArchetype::Unknown <==> forall|j: int|
            0 <= j < 12 ==> !has_any(n, #[trigger] archetype_words(archetype_precedence()[j])),
        has_any(n, archetype_words(archetype_precedence()[i])) && (forall|j: int|
            0 <= j < i ==> !has_any(n, #[trigger] archetype_words(archetype_precedence()[j])))
            ==> archetype_of_lowered(n) == archetype_precedence()[i],
{
    let p = archetype_precedence();
    assert(p[0] == NatoArchetype::AntiTank && p[1] == NatoArchetype::Armor && p[2]
        == NatoArchetype::Mechanized && p[3] == NatoArchetype::Motorized && p[4]
        == NatoArchetype::Mountain && p[5] == NatoArchetype::Paratrooper && p[6]
        == NatoArchetype::Marine && p[7] == NatoArchetype::Cavalry && p[8] == NatoArchetype::AntiAir
        && p[9] == NatoArchetype::Artillery && p[10] == NatoArchetype::Garrison && p[11]
        == NatoArchetype::Infantry);
    if forall|j: int| 0 <= j < 12 ==> !has_any(n, #[trigger] archetype_words(p[j])) {
        assert(!has_any(n, archetype_words(p[0])));
        assert(!has_any(n, archetype_words(p[1])));
        assert(!has_any(n, archetype_words(p[2])));
        assert(!has_any(n, archetype_words(p[3])));
        assert(!has_any(n, archetype_words(p[4])));
        assert(!has_any(n, archetype_words(p[5])));
        assert(!has_any(n, archetype_words(p[6])));
        assert(!has_any(n, archetype_words(p[7])));
        assert(!has_any(n, archetype_words(p[8])));
        assert(!has_any(n, archetype_words(p[9])));
        assert(!has_any(n, archetype_words(p[10])));
        assert(!has_any(n, archetype_words(p[11])));
    }
    if archetype_of_lowered(n) == NatoArchetype::Unknown {
        assert forall|j: int| 0 <= j < 12 implies !has_any(n, #[trigger] archetype_words(p[j])) by {
        }
    }
}

/// A name with a marine word gets the marine symbol unless an anti-tank,
/// armour, mechanized, motorized, mountain or paratrooper word occurs in it,
/// even when an infantry or cavalry word occurs as well.
pub proof fn lemma_marine_names(n: Seq<char>)
    requires
        has_any(n, marine_words()),
        !has_any(n, anti_tank_words()),
        !has_any(n, armor_words()),
        !has_any(n, mechanized_words()),
        !has_any(n, motorized_words()),
        !has_any(n, mountain_words()),
        !has_any(n, paratrooper_words()),
    ensures
        archetype_of_lowered(n) == NatoArchetype::Marine,
{
}

} // verus!
