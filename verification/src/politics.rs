//! Politics panel: how nodes of the country-politics view are recognised from
//! their paths, how ideology keys are normalised and coloured, the idea
//! category rows, law slots, idea sprites and the commands a click produces.
use vstd::prelude::*;
use crate::color::{PaletteColor, Rgba8};
use crate::text::{
    ascii_lower_seq, chars_of, find_chars, has_prefix, has_substring, is_whitespace,
    is_first_occurrence, join_spec, join_strings, occurs_at, parse_usize, parse_usize_spec,
    replace_char, str_contains, str_eq, str_starts_with, string_views, trim, trim_chars,
    ascii_lower_chars, replace_char_chars, string_from_chars, slice_chars, decimal_string,
    decimal_text,
};

verus! {

// ───────────────────────── node paths ─────────────────────────

/// The root node of the country-politics view.
pub const COUNTRY_POLITICS_ROOT: &'static str = "countrypoliticsview";

/// The first position of `needle` in `hay` (meaningful when it occurs).
pub open spec fn first_position(hay: Seq<char>, needle: Seq<char>) -> int {
    choose|i: int| is_first_occurrence(hay, needle, i)
}

/// There is only one first occurrence.
pub proof fn lemma_first_occurrence_unique(hay: Seq<char>, needle: Seq<char>, i: int, j: int)
    requires
        is_first_occurrence(hay, needle, i),
        is_first_occurrence(hay, needle, j),
    ensures
        i == j,
{
}

/// A first occurrence is the one `first_position` names.
proof fn lemma_first_position(hay: Seq<char>, needle: Seq<char>, i: int)
    requires
        is_first_occurrence(hay, needle, i),
    ensures
        first_position(hay, needle) == i,
{
    let k = first_position(hay, needle);
    assert(is_first_occurrence(hay, needle, k));
    lemma_first_occurrence_unique(hay, needle, i, k);
}

/// The number written between the first `marker` of `path` and the first `]`
/// after it, read as `usize::from_str` reads it.
pub open spec fn bracket_number(path: Seq<char>, marker: Seq<char>) -> Option<usize> {
    if has_substring(path, marker) {
        let start = first_position(path, marker) + marker.len();
        let rest = path.subrange(start, path.len() as int);
        if has_substring(rest, seq![']']) {
            parse_usize_spec(rest.subrange(0, first_position(rest, seq![']'])))
        } else {
            None
        }
    } else {
        None
    }
}

/// The number after the first `marker` of `path`, up to the next `]`.
fn bracket_number_exec(path: &[char], marker: &str) -> (r: Option<usize>)
    ensures
        r == bracket_number(path@, marker@),
{
    let m = chars_of(marker);
    match find_chars(path, m.as_slice()) {
        None => None,
        Some(pos) => {
            proof {
                lemma_first_position(path@, marker@, pos as int);
            }
            assert(occurs_at(path@, m@, pos as int));
            assert(pos + m@.len() <= path.len());
            let start = pos + m.len();
            let rest = slice_chars(path, start, path.len());
            let close: Vec<char> = vec![']'];
            assert(close@ =~= seq![']']);
            match find_chars(rest.as_slice(), close.as_slice()) {
                None => None,
                Some(end) => {
                    proof {
                        lemma_first_position(rest@, seq![']'], end as int);
                    }
                    let digits = slice_chars(rest.as_slice(), 0, end);
                    parse_usize(digits.as_slice())
                },
            }
        },
    }
}

/// A row of the idea-category grid.
#[derive(Clone, Copy, Debug, PartialEq, Eq, Structural)]
pub enum IdeaCategoryRowKind {
    GovernmentLaws,
    ResearchProduction,
    MilitaryStaff,
}

/// The row kind with a given row number (0, 1 or 2).
pub open spec fn row_kind_at(n: usize) -> Option<IdeaCategoryRowKind> {
    if n == 0 {
        Some(IdeaCategoryRowKind::GovernmentLaws)
    } else if n == 1 {
        Some(IdeaCategoryRowKind::ResearchProduction)
    } else if n == 2 {
        Some(IdeaCategoryRowKind::MilitaryStaff)
    } else {
        None
    }
}

/// The idea-category row a node path lies in: the number in brackets after
/// `country_politics_idea_category_entry[`, when it is 0, 1 or 2.
pub open spec fn category_kind_of_path(path: Seq<char>) -> Option<IdeaCategoryRowKind> {
    match bracket_number(path, "country_politics_idea_category_entry["@) {
        Some(n) => row_kind_at(n),
        None => None,
    }
}

/// The idea-category row a node path lies in.
pub fn idea_category_kind_from_path(path: &str) -> (r: Option<IdeaCategoryRowKind>)
    ensures
        r == category_kind_of_path(path@),
{
    let p = chars_of(path);
    match bracket_number_exec(p.as_slice(), "country_politics_idea_category_entry[") {
        Some(0) => Some(IdeaCategoryRowKind::GovernmentLaws),
        Some(1) => Some(IdeaCategoryRowKind::ResearchProduction),
        Some(2) => Some(IdeaCategoryRowKind::MilitaryStaff),
        _ => None,
    }
}

/// The idea slot a node path lies in: its category row and the number after
/// `political_idea_entry[`.
pub open spec fn slot_context_of_path(path: Seq<char>) -> Option<(IdeaCategoryRowKind, usize)> {
    match category_kind_of_path(path) {
        Some(kind) => match bracket_number(path, "political_idea_entry["@) {
            Some(n) => Some((kind, n)),
            None => None,
        },
        None => None,
    }
}

/// The idea slot (row and position) a node path lies in.
pub fn idea_slot_context_from_path(path: &str) -> (r: Option<(IdeaCategoryRowKind, usize)>)
    ensures
        r == slot_context_of_path(path@),
{
    let kind = match idea_category_kind_from_path(path) {
        Some(k) => k,
        None => return None,
    };
    let p = chars_of(path);
    match bracket_number_exec(p.as_slice(), "political_idea_entry[") {
        Some(n) => Some((kind, n)),
        None => None,
    }
}

/// The national-spirit slot a node path lies in: only paths through
/// `spirit_grid` have one, numbered after `political_idea_entry[`.
pub open spec fn spirit_slot_of_path(path: Seq<char>) -> Option<usize> {
    if has_substring(path, "spirit_grid"@) {
        bracket_number(path, "political_idea_entry["@)
    } else {
        None
    }
}

/// The national-spirit slot a node path lies in.
pub fn spirit_slot_index_from_path(path: &str) -> (r: Option<usize>)
    ensures
        r == spirit_slot_of_path(path@),
{
    if !str_contains(path, "spirit_grid") {
        return None;
    }
    let p = chars_of(path);
    bracket_number_exec(p.as_slice(), "political_idea_entry[")
}

/// The party row a node path lies in: only paths through `parties_grid` have
/// one, numbered after `political_party_info_entry[`.
pub open spec fn party_row_of_path(path: Seq<char>) -> Option<usize> {
    if has_substring(path, "parties_grid"@) {
        bracket_number(path, "political_party_info_entry["@)
    } else {
        None
    }
}

/// The party row a node path lies in.
pub fn party_row_index_from_path(path: &str) -> (r: Option<usize>)
    ensures
        r == party_row_of_path(path@),
{
    if !str_contains(path, "parties_grid") {
        return None;
    }
    let p = chars_of(path);
    bracket_number_exec(p.as_slice(), "political_party_info_entry[")
}

/// Node names of subsystems the panel does not show.
pub open spec fn hidden_node_names() -> Seq<Seq<char>> {
    seq![
        "autonomy_progress_view"@,
        "subjects_button_container"@,
        "show_subjects_button"@,
        "show_exiles_collaborations_button"@,
        "manage_occupied_button"@,
        "power_balance_button"@,
        "faction"@,
        "no_faction"@,
        "in_faction"@,
        "original_in_faction"@,
        "rules"@,
    ]
}

/// Words whose presence in a path hides the node.
pub open spec fn hidden_path_words() -> Seq<Seq<char>> {
    seq!["power_balance"@, "exile"@, "occupied"@, "subjects"@]
}

/// A node is hidden when its name is one of `hidden_node_names` or its path
/// contains one of `hidden_path_words`.
pub open spec fn is_hidden_node(path: Seq<char>, name: Seq<char>) -> bool {
    hidden_node_names().contains(name) || exists|i: int|
        0 <= i < hidden_path_words().len() && has_substring(path, #[trigger] hidden_path_words()[i])
}

/// Whether the panel hides the node with this path and name.
pub fn country_politics_hidden_node(path: &str, name: &str) -> (r: bool)
    ensures
        r == is_hidden_node(path@, name@),
{
    let names: Vec<&'static str> = vec![
        "autonomy_progress_view",
        "subjects_button_container",
        "show_subjects_button",
        "show_exiles_collaborations_button",
        "manage_occupied_button",
        "power_balance_button",
        "faction",
        "no_faction",
        "in_faction",
        "original_in_faction",
        "rules",
    ];
    let ghost nv = names@.map_values(|w: &str| w@);
    assert(nv =~= hidden_node_names());
    let mut i: usize = 0;
    while i < names.len()
        invariant
            i <= names@.len(),
            nv == names@.map_values(|w: &str| w@),
            nv == hidden_node_names(),
            forall|j: int| 0 <= j < i ==> nv[j] != name@,
        decreases names@.len() - i,
    {
        if str_eq(names[i], name) {
            assert(nv[i as int] == name@);
            assert(hidden_node_names()[i as int] == name@);
            return true;
        }
        i = i + 1;
    }
    assert(!hidden_node_names().contains(name@));
    let words: Vec<&'static str> = vec!["power_balance", "exile", "occupied", "subjects"];
    let ghost wv = words@.map_values(|w: &str| w@);
    assert(wv =~= hidden_path_words());
    let mut k: usize = 0;
    while k < words.len()
        invariant
            k <= words@.len(),
            wv == words@.map_values(|w: &str| w@),
            wv == hidden_path_words(),
            forall|j: int| 0 <= j < k ==> !has_substring(path@, #[trigger] hidden_path_words()[j]),
        decreases words@.len() - k,
    {
        if str_contains(path, words[k]) {
            assert(wv[k as int] == words@[k as int]@);
            return true;
        }
        assert(wv[k as int] == words@[k as int]@);
        k = k + 1;
    }
    false
}

/// Idea categories that hold national spirits.
pub open spec fn is_spirit_category(category: Seq<char>) -> bool {
    category == "country"@ || category == "national_spirit"@
}

/// Whether ideas of this category are national spirits.
pub fn is_national_spirit_category(category: &str) -> (r: bool)
    ensures
        r == is_spirit_category(category@),
{
    str_eq(category, "country") || str_eq(category, "national_spirit")
}

/// The positions, in order, of the ideas whose category holds national
/// spirits, among ideas with the categories `categories`.
pub open spec fn spirit_indices(categories: Seq<String>) -> Seq<usize>
    decreases categories.len(),
{
    if categories.len() == 0 {
        Seq::empty()
    } else {
        let rest = spirit_indices(categories.drop_last());
        if is_spirit_category(categories.last()@) {
            rest.push((categories.len() - 1) as usize)
        } else {
            rest
        }
    }
}

/// Every position that `spirit_indices` gives is that of a national spirit,
/// and the positions rise strictly.
proof fn lemma_spirit_indices(categories: Seq<String>)
    requires
        categories.len() <= usize::MAX,
    ensures
        forall|k: int|
            0 <= k < spirit_indices(categories).len() ==> (#[trigger] spirit_indices(
                categories,
            )[k]) < categories.len() && is_spirit_category(
                categories[spirit_indices(categories)[k] as int]@,
            ),
        forall|j: int, k: int|
            0 <= j < k < spirit_indices(categories).len() ==> spirit_indices(categories)[j]
                < spirit_indices(categories)[k],
    decreases categories.len(),
{
    if categories.len() > 0 {
        let init = categories.drop_last();
        lemma_spirit_indices(init);
        let rest = spirit_indices(init);
        let all = spirit_indices(categories);
        assert forall|k: int| 0 <= k < rest.len() implies rest[k] < init.len()
            && categories[rest[k] as int] == init[rest[k] as int] by {}
        if is_spirit_category(categories.last()@) {
            assert(all == rest.push((categories.len() - 1) as usize));
            assert forall|k: int| 0 <= k < all.len() implies (#[trigger] all[k]) < categories.len()
                && is_spirit_category(categories[all[k] as int]@) by {
                if k < rest.len() {
                    assert(all[k] == rest[k]);
                }
            }
            assert forall|j: int, k: int| 0 <= j < k < all.len() implies all[j] < all[k] by {
                assert(all[j] == rest[j]);
                if k < rest.len() {
                    assert(all[k] == rest[k]);
                }
            }
        } else {
            assert(all == rest);
            assert forall|k: int| 0 <= k < all.len() implies (#[trigger] all[k]) < categories.len()
                && is_spirit_category(categories[all[k] as int]@) by {
                assert(rest[k] < init.len());
            }
        }
    }
}

/// How an idea modifier's value is written: as political power per day, or
/// as a signed percentage.
#[derive(Clone, Copy, Debug, PartialEq, Eq, Structural)]
pub enum ModifierStyle {
    PerDay,
    Percent,
}

/// The caption and style of a known idea modifier; an unknown modifier is
/// written under its own key.
pub open spec fn modifier_caption(key: Seq<char>) -> Option<(Seq<char>, ModifierStyle)> {
    if key == "political_power_gain"@ {
        Some(("政治力量"@, ModifierStyle::PerDay))
    } else if key == "political_power_factor"@ {
        Some(("政治力量"@, ModifierStyle::Percent))
    } else if key == "political_power_gain_factor"@ {
        Some(("政治力量"@, ModifierStyle::Percent))
    } else if key == "national_focus_progress"@ {
        Some(("国策速度"@, ModifierStyle::Percent))
    } else if key == "production_speed_buildings_factor"@ {
        Some(("建造速度"@, ModifierStyle::Percent))
    } else if key == "production_factory_max_efficiency_factor"@ {
        Some(("工厂效率上限"@, ModifierStyle::Percent))
    } else if key == "research_speed_factor"@ {
        Some(("科研速度"@, ModifierStyle::Percent))
    } else if key == "consumer_goods_factor"@ {
        Some(("消费品工厂"@, ModifierStyle::Percent))
    } else if key == "army_attack_factor"@ {
        Some(("陆军攻击"@, ModifierStyle::Percent))
    } else if key == "army_defence_factor"@ {
        Some(("陆军防御"@, ModifierStyle::Percent))
    } else if key == "army_organisation_factor"@ {
        Some(("陆军组织度"@, ModifierStyle::Percent))
    } else if key == "army_org_regain"@ {
        Some(("组织恢复"@, ModifierStyle::Percent))
    } else if key == "reinforce_rate"@ {
        Some(("增援率"@, ModifierStyle::Percent))
    } else if key == "front_demand_factor"@ {
        Some(("前线需求"@, ModifierStyle::Percent))
    } else if key == "war_support_factor"@ {
        Some(("战争支持度"@, ModifierStyle::Percent))
    } else if key == "attrition"@ {
        Some(("损耗"@, ModifierStyle::Percent))
    } else {
        None
    }
}

/// The caption and style under which the idea summary writes a modifier.
pub fn idea_modifier_label(key: &str) -> (r: Option<(&'static str, ModifierStyle)>)
    ensures
        match r {
            Some((label, style)) => modifier_caption(key@) == Some((label@, style)),
            None => modifier_caption(key@) is None,
        },
{
    if str_eq(key, "political_power_gain") {
        Some(("政治力量", ModifierStyle::PerDay))
    } else if str_eq(key, "political_power_factor") {
        Some(("政治力量", ModifierStyle::Percent))
    } else if str_eq(key, "political_power_gain_factor") {
        Some(("政治力量", ModifierStyle::Percent))
    } else if str_eq(key, "national_focus_progress") {
        Some(("国策速度", ModifierStyle::Percent))
    } else if str_eq(key, "production_speed_buildings_factor") {
        Some(("建造速度", ModifierStyle::Percent))
    } else if str_eq(key, "production_factory_max_efficiency_factor") {
        Some(("工厂效率上限", ModifierStyle::Percent))
    } else if str_eq(key, "research_speed_factor") {
        Some(("科研速度", ModifierStyle::Percent))
    } else if str_eq(key, "consumer_goods_factor") {
        Some(("消费品工厂", ModifierStyle::Percent))
    } else if str_eq(key, "army_attack_factor") {
        Some(("陆军攻击", ModifierStyle::Percent))
    } else if str_eq(key, "army_defence_factor") {
        Some(("陆军防御", ModifierStyle::Percent))
    } else if str_eq(key, "army_organisation_factor") {
        Some(("陆军组织度", ModifierStyle::Percent))
    } else if str_eq(key, "army_org_regain") {
        Some(("组织恢复", ModifierStyle::Percent))
    } else if str_eq(key, "reinforce_rate") {
        Some(("增援率", ModifierStyle::Percent))
    } else if str_eq(key, "front_demand_factor") {
        Some(("前线需求", ModifierStyle::Percent))
    } else if str_eq(key, "war_support_factor") {
        Some(("战争支持度", ModifierStyle::Percent))
    } else if str_eq(key, "attrition") {
        Some(("损耗", ModifierStyle::Percent))
    } else {
        None
    }
}

/// The national spirits among a country's ideas, given the categories of the
/// ideas in order: the positions of the ideas whose category is `country` or
/// `national_spirit`, in order.
pub fn national_spirit_ideas(categories: &[String]) -> (r: Vec<usize>)
    ensures
        r@ == spirit_indices(categories@),
        forall|k: int|
            0 <= k < r@.len() ==> (#[trigger] r@[k]) < categories@.len() && is_spirit_category(
                categories@[r@[k] as int]@,
            ),
        forall|j: int, k: int| 0 <= j < k < r@.len() ==> r@[j] < r@[k],
{
    let mut out: Vec<usize> = Vec::new();
    let mut i: usize = 0;
    while i < categories.len()
        invariant
            i <= categories@.len(),
            out@ == spirit_indices(categories@.take(i as int)),
        decreases categories@.len() - i,
    {
        assert(categories@.take(i as int + 1).drop_last() =~= categories@.take(i as int));
        if is_national_spirit_category(categories[i].as_str()) {
            out.push(i);
        }
        i = i + 1;
    }
    assert(categories@.take(categories@.len() as int) =~= categories@);
    proof {
        lemma_spirit_indices(categories@);
    }
    out
}

// ───────────────────────── idea category rows ─────────────────────────

impl IdeaCategoryRowKind {
    /// The English title of the row.
    pub fn title(self) -> (r: &'static str)
        ensures
            r@ == match self {
                IdeaCategoryRowKind::GovernmentLaws => "Government / Laws"@,
                IdeaCategoryRowKind::ResearchProduction => "Research & Production"@,
                IdeaCategoryRowKind::MilitaryStaff => "Military Staff"@,
            },
    {
        match self {
            IdeaCategoryRowKind::GovernmentLaws => "Government / Laws",
            IdeaCategoryRowKind::ResearchProduction => "Research & Production",
            IdeaCategoryRowKind::MilitaryStaff => "Military Staff",
        }
    }

    /// The message key under which the row's title is translated.
    pub fn localized_title_key(self) -> (r: &'static str)
        ensures
            r@ == match self {
                IdeaCategoryRowKind::GovernmentLaws => "government_laws"@,
                IdeaCategoryRowKind::ResearchProduction => "research_production"@,
                IdeaCategoryRowKind::MilitaryStaff => "military_staff"@,
            },
    {
        match self {
            IdeaCategoryRowKind::GovernmentLaws => "government_laws",
            IdeaCategoryRowKind::ResearchProduction => "research_production",
            IdeaCategoryRowKind::MilitaryStaff => "military_staff",
        }
    }

    /// The frame of the category icon sprite that the row shows.
    pub fn category_frame(self) -> (r: u32)
        ensures
            r == match self {
                IdeaCategoryRowKind::GovernmentLaws => 5u32,
                IdeaCategoryRowKind::ResearchProduction => 2u32,
                IdeaCategoryRowKind::MilitaryStaff => 3u32,
            },
    {
        match self {
            IdeaCategoryRowKind::GovernmentLaws => 5,
            IdeaCategoryRowKind::ResearchProduction => 2,
            IdeaCategoryRowKind::MilitaryStaff => 3,
        }
    }

    /// The one-letter glyph of the row.
    pub fn glyph(self) -> (r: &'static str)
        ensures
            r@ == match self {
                IdeaCategoryRowKind::GovernmentLaws => "G"@,
                IdeaCategoryRowKind::ResearchProduction => "R"@,
                IdeaCategoryRowKind::MilitaryStaff => "M"@,
            },
    {
        match self {
            IdeaCategoryRowKind::GovernmentLaws => "G",
            IdeaCategoryRowKind::ResearchProduction => "R",
            IdeaCategoryRowKind::MilitaryStaff => "M",
        }
    }
}

/// The number of slots a row shows: the law row shows one slot per law,
/// at least one and at most seven; the research row five; the staff row six.
pub open spec fn row_slot_count(kind: IdeaCategoryRowKind, law_slots: usize) -> usize {
    match kind {
        IdeaCategoryRowKind::GovernmentLaws => if law_slots < 1 {
            1
        } else if law_slots > 7 {
            7
        } else {
            law_slots
        },
        IdeaCategoryRowKind::ResearchProduction => 5,
        IdeaCategoryRowKind::MilitaryStaff => 6,
    }
}

/// The number of idea slots a category row shows, given how many law slots
/// the country has.
pub fn politics_idea_category_slot_count(kind: IdeaCategoryRowKind, law_slots: usize) -> (r: usize)
    ensures
        r == row_slot_count(kind, law_slots),
        1 <= r <= 7,
{
    match kind {
        IdeaCategoryRowKind::GovernmentLaws => if law_slots < 1 {
            1
        } else if law_slots > 7 {
            7
        } else {
            law_slots
        },
        IdeaCategoryRowKind::ResearchProduction => 5,
        IdeaCategoryRowKind::MilitaryStaff => 6,
    }
}

// ───────────────────────── ideologies ─────────────────────────

/// A key as it is compared: trimmed, ASCII lower-cased, `-` read as `_`.
pub open spec fn normalized_key(key: Seq<char>) -> Seq<char> {
    replace_char(ascii_lower_seq(trim(key)), '-', '_')
}

/// The canonical ideology that a key names, among the spellings the game data
/// uses for the four ideologies.
pub open spec fn canonical_ideology(key: Seq<char>) -> Option<Seq<char>> {
    let k = normalized_key(key);
    if k == "fascism"@ || k == "fascist"@ {
        Some("fascism"@)
    } else if k == "democratic"@ || k == "democracy"@ || k == "democrat"@ {
        Some("democratic"@)
    } else if k == "communism"@ || k == "communist"@ {
        Some("communism"@)
    } else if k == "neutrality"@ || k == "neutral"@ || k == "non_aligned"@ || k == "nonaligned"@ {
        Some("neutrality"@)
    } else {
        None
    }
}

/// Whether the normalised key `k` equals `word`.
fn key_is(k: &Vec<char>, word: &str) -> (r: bool)
    ensures
        r == (k@ == word@),
{
    let s = string_from_chars(k.as_slice());
    str_eq(s.as_str(), word)
}

/// The canonical ideology key for a spelling of it, if it names one.
pub fn canonical_ideology_key(key: &str) -> (r: Option<&'static str>)
    ensures
        match r {
            Some(c) => canonical_ideology(key@) == Some(c@),
            None => canonical_ideology(key@).is_none(),
        },
{
    let raw = chars_of(key);
    let trimmed = trim_chars(raw.as_slice());
    let lowered = ascii_lower_chars(trimmed.as_slice());
    let k = replace_char_chars(lowered.as_slice(), '-', '_');
    if key_is(&k, "fascism") || key_is(&k, "fascist") {
        Some("fascism")
    } else if key_is(&k, "democratic") || key_is(&k, "democracy") || key_is(&k, "democrat") {
        Some("democratic")
    } else if key_is(&k, "communism") || key_is(&k, "communist") {
        Some("communism")
    } else if key_is(&k, "neutrality") || key_is(&k, "neutral") || key_is(&k, "non_aligned")
        || key_is(&k, "nonaligned") {
        Some("neutrality")
    } else {
        None
    }
}

/// The key an ideology is looked up under: its canonical key, or the key as
/// given when it names none.
pub open spec fn ideology_lookup_key(key: Seq<char>) -> Seq<char> {
    match canonical_ideology(key) {
        Some(c) => c,
        None => key,
    }
}

/// The colour of an ideology in the game's ideology definitions: fascism
/// brown, democracy blue, communism red, non-alignment grey; dark grey for an
/// unknown key.
pub open spec fn ideology_rgb(key: Seq<char>) -> (u8, u8, u8) {
    let k = ideology_lookup_key(key);
    if k == "fascism"@ {
        (150, 75, 0)
    } else if k == "democratic"@ {
        (0, 0, 255)
    } else if k == "communism"@ {
        (255, 0, 0)
    } else if k == "neutrality"@ {
        (124, 124, 124)
    } else {
        (0x66, 0x66, 0x60)
    }
}

/// The key an ideology is looked up under.
fn lookup_key(key: &str) -> (r: &str)
    ensures
        r@ == ideology_lookup_key(key@),
{
    match canonical_ideology_key(key) {
        Some(c) => c,
        None => key,
    }
}

/// The colour of an ideology.
pub fn hoi4_ideology_color(key: &str) -> (c: Rgba8)
    ensures
        (c.r, c.g, c.b) == ideology_rgb(key@),
        c.a == 255,
{
    let k = lookup_key(key);
    if str_eq(k, "fascism") {
        Rgba8::from_rgb(150, 75, 0)
    } else if str_eq(k, "democratic") {
        Rgba8::from_rgb(0, 0, 255)
    } else if str_eq(k, "communism") {
        Rgba8::from_rgb(255, 0, 0)
    } else if str_eq(k, "neutrality") {
        Rgba8::from_rgb(124, 124, 124)
    } else {
        Rgba8::from_rgb(0x66, 0x66, 0x60)
    }
}

/// The colour of an ideology in the party rows and the pie chart.
pub fn ideology_color(key: &str) -> (c: Rgba8)
    ensures
        (c.r, c.g, c.b) == ideology_rgb(key@),
        c.a == 255,
{
    hoi4_ideology_color(key)
}

/// The message key of an ideology's caption: its canonical key, or `unknown`.
pub open spec fn ideology_label_key_of(key: Seq<char>) -> Seq<char> {
    let k = ideology_lookup_key(key);
    if k == "fascism"@ || k == "democratic"@ || k == "communism"@ || k == "neutrality"@ {
        k
    } else {
        "unknown"@
    }
}

/// The message key under which an ideology's caption is translated.
pub fn ideology_label_key(key: &str) -> (r: &'static str)
    ensures
        r@ == ideology_label_key_of(key@),
{
    let k = lookup_key(key);
    if str_eq(k, "fascism") {
        "fascism"
    } else if str_eq(k, "democratic") {
        "democratic"
    } else if str_eq(k, "communism") {
        "communism"
    } else if str_eq(k, "neutrality") {
        "neutrality"
    } else {
        "unknown"
    }
}

/// A text that has no surrounding white space, no upper-case ASCII letter and
/// no `-` is its own normalised key.
proof fn lemma_normalized_fixed(s: Seq<char>)
    requires
        s.len() > 0,
        !crate::text::is_whitespace(s[0]),
        !crate::text::is_whitespace(s.last()),
        forall|i: int| 0 <= i < s.len() ==> !('A' <= #[trigger] s[i] && s[i] <= 'Z') && s[i] != '-',
    ensures
        normalized_key(s) == s,
{
    assert(crate::text::trim_start(s) == s);
    assert(crate::text::trim_end(s) == s);
    assert(ascii_lower_seq(s) =~= s);
    assert(replace_char(s, '-', '_') =~= s);
}

/// The canonical ideology keys name themselves, so looking an ideology up by
/// its canonical key gives the same colour and caption as by any spelling.
pub proof fn lemma_canonical_ideology_stable(key: Seq<char>)
    ensures
        canonical_ideology(key) matches Some(c) ==> canonical_ideology(c) == Some(c)
            && ideology_rgb(c) == ideology_rgb(key) && ideology_label_key_of(c)
            == ideology_label_key_of(key),
{
    reveal_strlit("fascism");
    reveal_strlit("fascist");
    reveal_strlit("democratic");
    reveal_strlit("democracy");
    reveal_strlit("democrat");
    reveal_strlit("communism");
    reveal_strlit("communist");
    reveal_strlit("neutrality");
    reveal_strlit("neutral");
    reveal_strlit("non_aligned");
    reveal_strlit("nonaligned");
    lemma_normalized_fixed("fascism"@);
    lemma_normalized_fixed("democratic"@);
    lemma_normalized_fixed("communism"@);
    lemma_normalized_fixed("neutrality"@);
}

// ───────────────────────── laws ─────────────────────────

/// A law category of a country.
#[derive(Clone, Copy, Debug, PartialEq, Eq, Structural)]
pub enum LawCategory {
    Conscription,
    Economy,
    Trade,
    Taxation,
    CivilRights,
    InformationControl,
}

/// The current law of one category, with its change and cooldown state.
#[derive(Clone, Debug)]
pub struct PoliticsLawEntry {
    pub category: LawCategory,
    pub current_id: String,
    pub current_name: String,
    pub cooldown_days: u16,
    pub pending: Option<(String, u16)>,
    pub is_locked: bool,
}

/// The one-character glyph of a law category.
pub fn politics_law_category_glyph(category: &LawCategory) -> (r: &'static str)
    ensures
        r@ == match *category {
            LawCategory::Conscription => "C"@,
            LawCategory::Economy => "E"@,
            LawCategory::Trade => "T"@,
            LawCategory::Taxation => "$"@,
            LawCategory::CivilRights => "R"@,
            LawCategory::InformationControl => "I"@,
        },
{
    match category {
        LawCategory::Conscription => "C",
        LawCategory::Economy => "E",
        LawCategory::Trade => "T",
        LawCategory::Taxation => "$",
        LawCategory::CivilRights => "R",
        LawCategory::InformationControl => "I",
    }
}

/// The palette colour of a law category.
pub fn politics_law_category_color(category: &LawCategory) -> (r: PaletteColor)
    ensures
        r == match *category {
            LawCategory::Conscription => PaletteColor::IdeoFascism,
            LawCategory::Economy => PaletteColor::Info,
            LawCategory::Trade => PaletteColor::Good,
            LawCategory::Taxation => PaletteColor::Gold,
            LawCategory::CivilRights => PaletteColor::ColdAtomic,
            LawCategory::InformationControl => PaletteColor::Bad,
        },
{
    match category {
        LawCategory::Conscription => PaletteColor::IdeoFascism,
        LawCategory::Economy => PaletteColor::Info,
        LawCategory::Trade => PaletteColor::Good,
        LawCategory::Taxation => PaletteColor::Gold,
        LawCategory::CivilRights => PaletteColor::ColdAtomic,
        LawCategory::InformationControl => PaletteColor::Bad,
    }
}

/// The line-art icon drawn for a law category.
#[derive(Clone, Copy, Debug, PartialEq, Eq, Structural)]
pub enum PanelSvgIcon {
    Person,
    Government,
    Helmet,
    Factory,
    Globe,
    Coin,
    Scales,
    Microphone,
}

impl PanelSvgIcon {
    /// The icon of a law category.
    pub fn from_law(category: &LawCategory) -> (r: PanelSvgIcon)
        ensures
            r == match *category {
                LawCategory::Conscription => PanelSvgIcon::Helmet,
                LawCategory::Economy => PanelSvgIcon::Factory,
                LawCategory::Trade => PanelSvgIcon::Globe,
                LawCategory::Taxation => PanelSvgIcon::Coin,
                LawCategory::CivilRights => PanelSvgIcon::Scales,
                LawCategory::InformationControl => PanelSvgIcon::Microphone,
            },
    {
        match category {
            LawCategory::Conscription => PanelSvgIcon::Helmet,
            LawCategory::Economy => PanelSvgIcon::Factory,
            LawCategory::Trade => PanelSvgIcon::Globe,
            LawCategory::Taxation => PanelSvgIcon::Coin,
            LawCategory::CivilRights => PanelSvgIcon::Scales,
            LawCategory::InformationControl => PanelSvgIcon::Microphone,
        }
    }
}

/// The status colour of a law slot: red when locked, amber while a change is
/// pending or the category cools down, green otherwise.
pub open spec fn law_status_color(slot: PoliticsLawEntry) -> PaletteColor {
    if slot.is_locked {
        PaletteColor::Bad
    } else if slot.pending.is_some() || slot.cooldown_days > 0 {
        PaletteColor::Warn
    } else {
        PaletteColor::Good
    }
}

/// The status colour of a law slot.
pub fn politics_law_status_color(slot: &PoliticsLawEntry) -> (r: PaletteColor)
    ensures
        r == law_status_color(*slot),
{
    if slot.is_locked {
        PaletteColor::Bad
    } else if slot.pending.is_some() || slot.cooldown_days > 0 {
        PaletteColor::Warn
    } else {
        PaletteColor::Good
    }
}

/// The translation key of a law category's caption.
pub fn politics_law_category_label_key(category: &LawCategory) -> (r: &'static str)
    ensures
        r@ == match *category {
            LawCategory::Conscription => "v6_law_conscription"@,
            LawCategory::Economy => "v6_law_economy"@,
            LawCategory::Trade => "v6_law_trade"@,
            LawCategory::Taxation => "v6_law_taxation"@,
            LawCategory::CivilRights => "v6_law_civil_rights"@,
            LawCategory::InformationControl => "v6_law_information_control"@,
        },
{
    match category {
        LawCategory::Conscription => "v6_law_conscription",
        LawCategory::Economy => "v6_law_economy",
        LawCategory::Trade => "v6_law_trade",
        LawCategory::Taxation => "v6_law_taxation",
        LawCategory::CivilRights => "v6_law_civil_rights",
        LawCategory::InformationControl => "v6_law_information_control",
    }
}

/// The translated words of a law slot's status line: locked, change
/// pending, cooldown and current.
#[derive(Clone, Debug)]
pub struct LawStatusWords {
    pub locked: String,
    pub pending: String,
    pub cooldown: String,
    pub current: String,
}

/// The status line of a law slot: the lock word when it is locked; else the
/// pending word, the target law and the remaining days while a change is
/// pending; else the cooldown word and its days while it cools down; else the
/// word for the current law.
pub open spec fn law_status_text(slot: PoliticsLawEntry, words: LawStatusWords) -> Seq<char> {
    if slot.is_locked {
        words.locked@
    } else {
        match slot.pending {
            Some((target, days)) => words.pending@ + ": "@ + target@ + " / "@ + decimal_text(
                days as nat,
            ) + "天"@,
            None => if slot.cooldown_days > 0 {
                words.cooldown@ + " "@ + decimal_text(slot.cooldown_days as nat) + "天"@
            } else {
                words.current@
            },
        }
    }
}

/// The status line shown on a law slot.
pub fn politics_law_status_text(slot: &PoliticsLawEntry, words: &LawStatusWords) -> (r: String)
    ensures
        r@ == law_status_text(*slot, *words),
{
    if slot.is_locked {
        return words.locked.clone();
    }
    match &slot.pending {
        Some((target, days)) => {
            let mut out = words.pending.clone();
            out.append(": ");
            out.append(target.as_str());
            out.append(" / ");
            out.append(decimal_string(*days as u64).as_str());
            out.append("天");
            out
        },
        None => {
            if slot.cooldown_days > 0 {
                let mut out = words.cooldown.clone();
                out.append(" ");
                out.append(decimal_string(slot.cooldown_days as u64).as_str());
                out.append("天");
                out
            } else {
                words.current.clone()
            }
        },
    }
}

/// The characters of a law name that a sprite name keeps: each character is
/// lower-cased (Unicode) and only ASCII letters and digits of the result stay.
pub open spec fn sprite_name_chars(s: Seq<char>) -> Seq<char>
    decreases s.len(),
{
    if s.len() == 0 {
        Seq::empty()
    } else {
        sprite_name_chars(s.drop_last()) + crate::text::unicode_char_lowercase(s.last()).filter(
            |c: char| is_ascii_alphanumeric(c),
        )
    }
}

/// An ASCII letter or digit.
pub open spec fn is_ascii_alphanumeric(c: char) -> bool {
    ('0' <= c && c <= '9') || ('a' <= c && c <= 'z') || ('A' <= c && c <= 'Z')
}

/// A sprite name made from a law name holds only ASCII letters and digits.
pub proof fn lemma_sprite_name_alphanumeric(s: Seq<char>)
    ensures
        forall|i: int|
            0 <= i < sprite_name_chars(s).len() ==> is_ascii_alphanumeric(
                #[trigger] sprite_name_chars(s)[i],
            ),
    decreases s.len(),
{
    if s.len() > 0 {
        lemma_sprite_name_alphanumeric(s.drop_last());
        let head = sprite_name_chars(s.drop_last());
        let tail = crate::text::unicode_char_lowercase(s.last()).filter(
            |c: char| is_ascii_alphanumeric(c),
        );
        assert forall|i: int| 0 <= i < sprite_name_chars(s).len() implies is_ascii_alphanumeric(
            #[trigger] sprite_name_chars(s)[i],
        ) by {
            if i >= head.len() {
                assert(sprite_name_chars(s)[i] == tail[i - head.len()]);
                crate::text::unicode_char_lowercase(s.last()).lemma_filter_pred(
                    |c: char| is_ascii_alphanumeric(c),
                    i - head.len(),
                );
            }
        }
    }
}

/// A law name reduced to the characters that sprite names use.
pub fn normalize_law_name_for_sprite(value: &str) -> (r: String)
    ensures
        r@ == sprite_name_chars(value@),
        forall|i: int| 0 <= i < r@.len() ==> is_ascii_alphanumeric(#[trigger] r@[i]),
{
    proof {
        lemma_sprite_name_alphanumeric(value@);
    }
    let cs = chars_of(value);
    let mut out: Vec<char> = Vec::new();
    let mut i: usize = 0;
    while i < cs.len()
        invariant
            i <= cs@.len(),
            cs@ == value@,
            out@ == sprite_name_chars(cs@.take(i as int)),
        decreases cs@.len() - i,
    {
        let lower = crate::text::char_to_lowercase(cs[i]);
        let mut j: usize = 0;
        let ghost base = out@;
        while j < lower.len()
            invariant
                j <= lower@.len(),
                out@ == base + lower@.take(j as int).filter(|c: char| is_ascii_alphanumeric(c)),
            decreases lower@.len() - j,
        {
            let c = lower[j];
            assert(lower@.take(j as int + 1).drop_last() =~= lower@.take(j as int));
            reveal_with_fuel(Seq::filter, 1);
            if ('0' <= c && c <= '9') || ('a' <= c && c <= 'z') || ('A' <= c && c <= 'Z') {
                out.push(c);
                assert(out@ =~= base + lower@.take(j as int + 1).filter(
                    |c: char| is_ascii_alphanumeric(c),
                ));
            } else {
                assert(out@ =~= base + lower@.take(j as int + 1).filter(
                    |c: char| is_ascii_alphanumeric(c),
                ));
            }
            j = j + 1;
        }
        assert(lower@.take(lower@.len() as int) =~= lower@);
        assert(cs@.take(i as int + 1).drop_last() =~= cs@.take(i as int));
        i = i + 1;
    }
    assert(cs@.take(cs@.len() as int) =~= cs@);
    string_from_chars(out.as_slice())
}

/// The lines of a law slot's tooltip: the category caption with the current
/// law, the click hint, then a line for a lock, a pending change and a
/// cooldown where they apply.
pub open spec fn law_tooltip_lines(slot: PoliticsLawEntry, category_label: Seq<char>) -> Seq<
    Seq<char>,
> {
    let base = seq![category_label + ": "@ + slot.current_name@, "点击打开法律详情"@];
    let with_lock = if slot.is_locked {
        base.push("状态：锁定"@)
    } else {
        base
    };
    let with_pending = match slot.pending {
        Some((target, days)) => with_lock.push(
            "切换中："@ + target@ + "，剩余 "@ + decimal_text(days as nat) + " 天"@,
        ),
        None => with_lock,
    };
    if slot.cooldown_days > 0 {
        with_pending.push("冷却中：剩余 "@ + decimal_text(slot.cooldown_days as nat) + " 天"@)
    } else {
        with_pending
    }
}

/// The tooltip of a law slot; `category_label` is the translated caption of
/// the law's category.
pub fn politics_law_tooltip(slot: &PoliticsLawEntry, category_label: &str) -> (r: String)
    ensures
        r@ == join_spec(law_tooltip_lines(*slot, category_label@), "\n"@),
{
    let mut first = String::from_str(category_label);
    first.append(": ");
    first.append(slot.current_name.as_str());
    let mut lines: Vec<String> = Vec::new();
    lines.push(first);
    lines.push(String::from_str("点击打开法律详情"));
    if slot.is_locked {
        lines.push(String::from_str("状态：锁定"));
    }
    match &slot.pending {
        Some((target, days)) => {
            let mut line = String::from_str("切换中：");
            line.append(target.as_str());
            line.append("，剩余 ");
            line.append(decimal_string(*days as u64).as_str());
            line.append(" 天");
            lines.push(line);
        },
        None => {},
    }
    if slot.cooldown_days > 0 {
        let mut line = String::from_str("冷却中：剩余 ");
        line.append(decimal_string(slot.cooldown_days as u64).as_str());
        line.append(" 天");
        lines.push(line);
    }
    assert(string_views(lines@) =~= law_tooltip_lines(*slot, category_label@));
    join_strings(lines.as_slice(), "\n")
}

/// The remaining days of the current focus as shown: the number and `天`
/// (days), or nothing when no focus is under way.
pub fn focus_cost_text(days: Option<u32>) -> (r: String)
    ensures
        r@ == match days {
            Some(d) => decimal_text(d as nat) + "天"@,
            None => Seq::<char>::empty(),
        },
{
    match days {
        Some(d) => {
            let mut out = decimal_string(d as u64);
            out.append("天");
            out
        },
        None => String::new(),
    }
}

// ───────────────────────── ideas and parties ─────────────────────────

/// The sprite of an idea: a non-empty picture name is used as it is when it
/// already starts with `GFX_`, gets `GFX_` in front when it starts with
/// `idea_`, and `GFX_idea_` in front otherwise; without a picture the idea's
/// key gets `GFX_idea_` in front; an idea with neither has no sprite.
pub open spec fn idea_sprite(key: Seq<char>, picture: Option<Seq<char>>) -> Option<Seq<char>> {
    if picture.is_some() && picture.unwrap().len() > 0 {
        let p = picture.unwrap();
        if has_prefix(p, "GFX_"@) {
            Some(p)
        } else if has_prefix(p, "idea_"@) {
            Some("GFX_"@ + p)
        } else {
            Some("GFX_idea_"@ + p)
        }
    } else if key.len() > 0 {
        Some("GFX_idea_"@ + key)
    } else {
        None
    }
}

/// The character view of an optional text.
pub open spec fn opt_view(s: Option<&str>) -> Option<Seq<char>> {
    match s {
        Some(t) => Some(t@),
        None => None,
    }
}

/// `prefix` followed by `rest`, as a new string.
fn concat_str(prefix: &str, rest: &str) -> (r: String)
    ensures
        r@ == prefix@ + rest@,
{
    let mut out = String::from_str(prefix);
    out.append(rest);
    out
}

/// Every idea sprite name starts with `GFX_`.
pub proof fn lemma_idea_sprite_prefix(key: Seq<char>, picture: Option<Seq<char>>)
    ensures
        idea_sprite(key, picture) matches Some(s) ==> has_prefix(s, "GFX_"@),
{
    reveal_strlit("GFX_");
    reveal_strlit("GFX_idea_");
    if picture.is_some() && picture.unwrap().len() > 0 {
        let p = picture.unwrap();
        assert(("GFX_"@ + p).subrange(0, 4) =~= "GFX_"@);
        assert(("GFX_idea_"@ + p).subrange(0, 4) =~= "GFX_"@);
    } else {
        assert(("GFX_idea_"@ + key).subrange(0, 4) =~= "GFX_"@);
    }
}

/// The sprite name of an idea with this key and picture.
pub fn idea_icon_gfx(key: &str, picture: Option<&str>) -> (r: Option<String>)
    ensures
        match r {
            Some(s) => idea_sprite(key@, opt_view(picture)) == Some(s@),
            None => idea_sprite(key@, opt_view(picture)).is_none(),
        },
{
    match picture {
        Some(p) if p.unicode_len() > 0 => {
            if str_starts_with(p, "GFX_") {
                Some(String::from_str(p))
            } else if str_starts_with(p, "idea_") {
                Some(concat_str("GFX_", p))
            } else {
                Some(concat_str("GFX_idea_", p))
            }
        },
        _ => {
            if key.unicode_len() > 0 {
                Some(concat_str("GFX_idea_", key))
            } else {
                None
            }
        },
    }
}

/// The first party name given for `ideology` that is not blank.
pub open spec fn first_party_name(names: Seq<(Seq<char>, Seq<char>)>, ideology: Seq<char>) -> Option<
    Seq<char>,
>
    decreases names.len(),
{
    if names.len() == 0 {
        None
    } else if names[0].0 == ideology && trim(names[0].1).len() > 0 {
        Some(names[0].1)
    } else {
        first_party_name(names.drop_first(), ideology)
    }
}

/// The character views of (ideology, party name) pairs.
pub open spec fn name_pair_views(names: Seq<(String, String)>) -> Seq<(Seq<char>, Seq<char>)> {
    names.map_values(|p: (String, String)| (p.0@, p.1@))
}

/// The name of the party of an ideology: the first non-blank name given for
/// it; else, for the ruling ideology, the party's full name when that is not
/// blank; else none, and the ideology's translated caption stands in for it.
pub open spec fn party_name_spec(
    names: Seq<(Seq<char>, Seq<char>)>,
    ruling_party: Seq<char>,
    party_full_name: Seq<char>,
    ideology: Seq<char>,
) -> Option<Seq<char>> {
    match first_party_name(names, ideology) {
        Some(n) => Some(n),
        None => if ideology == ruling_party && trim(party_full_name).len() > 0 {
            Some(party_full_name)
        } else {
            None
        },
    }
}

/// A chosen party name is never blank.
pub proof fn lemma_party_name_not_blank(
    names: Seq<(Seq<char>, Seq<char>)>,
    ruling_party: Seq<char>,
    party_full_name: Seq<char>,
    ideology: Seq<char>,
)
    ensures
        party_name_spec(names, ruling_party, party_full_name, ideology) matches Some(n) ==> trim(
            n,
        ).len() > 0,
    decreases names.len(),
{
    lemma_first_party_name_not_blank(names, ideology);
}

/// A party name found in the list is never blank.
proof fn lemma_first_party_name_not_blank(names: Seq<(Seq<char>, Seq<char>)>, ideology: Seq<char>)
    ensures
        first_party_name(names, ideology) matches Some(n) ==> trim(n).len() > 0,
    decreases names.len(),
{
    if names.len() > 0 {
        lemma_first_party_name_not_blank(names.drop_first(), ideology);
    }
}

/// Whether `s` has a character that is not white space.
fn is_not_blank(s: &str) -> (r: bool)
    ensures
        r == (trim(s@).len() > 0),
{
    let cs = chars_of(s);
    trim_chars(cs.as_slice()).len() > 0
}

/// The party name shown for `ideology`; `None` when the caption of the
/// ideology is shown in its place.
pub fn party_name_for_ideology(
    party_names: &[(String, String)],
    ruling_party: &str,
    party_full_name: &str,
    ideology: &str,
) -> (r: Option<String>)
    ensures
        match r {
            Some(n) => party_name_spec(
                name_pair_views(party_names@),
                ruling_party@,
                party_full_name@,
                ideology@,
            ) == Some(n@),
            None => party_name_spec(
                name_pair_views(party_names@),
                ruling_party@,
                party_full_name@,
                ideology@,
            ).is_none(),
        },
{
    let ghost all = name_pair_views(party_names@);
    assert(all.subrange(0, all.len() as int) =~= all);
    let mut i: usize = 0;
    while i < party_names.len()
        invariant
            i <= party_names@.len(),
            all == name_pair_views(party_names@),
            first_party_name(all, ideology@) == first_party_name(
                all.subrange(i as int, all.len() as int),
                ideology@,
            ),
        decreases party_names@.len() - i,
    {
        let ghost tail = all.subrange(i as int, all.len() as int);
        assert(tail[0] == (party_names@[i as int].0@, party_names@[i as int].1@));
        assert(tail.drop_first() =~= all.subrange(i + 1, all.len() as int));
        if str_eq(party_names[i].0.as_str(), ideology) && is_not_blank(party_names[i].1.as_str()) {
            return Some(party_names[i].1.clone());
        }
        i = i + 1;
    }
    assert(all.subrange(i as int, all.len() as int) =~= Seq::<(Seq<char>, Seq<char>)>::empty());
    if str_eq(ideology, ruling_party) && is_not_blank(party_full_name) {
        return Some(String::from_str(party_full_name));
    }
    None
}

/// A post of the government with its holder.
#[derive(Clone, Debug)]
pub struct GovernmentPostEntry {
    pub office: String,
    pub name: String,
    pub detail: String,
}

// ───────────────────────── commands ─────────────────────────

/// Some clicked command of the rendered view is `close`.
pub open spec fn has_close(clicked: Seq<String>) -> bool {
    exists|i: int| 0 <= i < clicked.len() && (#[trigger] clicked[i])@ == "close"@
}

/// Whether the rendered view reported a click on its close button.
pub fn politics_close_requested_from_render_stats(clicked_commands: &[String]) -> (r: bool)
    ensures
        r == has_close(clicked_commands@),
{
    let mut i: usize = 0;
    while i < clicked_commands.len()
        invariant
            i <= clicked_commands@.len(),
            forall|j: int| 0 <= j < i ==> (#[trigger] clicked_commands@[j])@ != "close"@,
        decreases clicked_commands@.len() - i,
    {
        if str_eq(clicked_commands[i].as_str(), "close") {
            return true;
        }
        i = i + 1;
    }
    false
}

/// What the politics panel asks the game to do.
#[derive(Clone, Debug, PartialEq)]
pub enum DecisionCommand {
    /// Activate the decision with this id.
    Activate(String),
    /// Open the national focus tree.
    OpenFocusTree,
    /// Show or hide the election panel.
    ToggleElectionPanel,
    /// Open the detail panel of a law category, with no particular law
    /// chosen.
    OpenLawDetail { category: String },
}

/// A command as a plain value: (0, empty) for the focus tree, (1, empty) for
/// the election panel, (2, category) for a law detail, (3, id) for activating
/// a decision.
pub open spec fn intent_view(c: DecisionCommand) -> (int, Seq<char>) {
    match c {
        DecisionCommand::Activate(id) => (3, id@),
        DecisionCommand::OpenFocusTree => (0, Seq::empty()),
        DecisionCommand::ToggleElectionPanel => (1, Seq::empty()),
        DecisionCommand::OpenLawDetail { category } => (2, category@),
    }
}

/// The intents of one clicked command: `open_focus_tree` opens the focus
/// tree, `law:<category>` opens that law category, anything else asks
/// nothing.
pub open spec fn click_intents(command: Seq<char>) -> Seq<(int, Seq<char>)> {
    if command == "open_focus_tree"@ {
        seq![(0, Seq::empty())]
    } else if has_prefix(command, "law:"@) {
        seq![(2, command.subrange(4, command.len() as int))]
    } else {
        Seq::empty()
    }
}

/// The intents of the clicked commands, in order.
pub open spec fn clicks_intents(clicked: Seq<Seq<char>>) -> Seq<(int, Seq<char>)>
    decreases clicked.len(),
{
    if clicked.len() == 0 {
        Seq::empty()
    } else {
        clicks_intents(clicked.drop_last()) + click_intents(clicked.last())
    }
}

/// The commands that the clicks reported by the rendered view ask for.
pub fn politics_commands_from_render_stats(clicked_commands: &[String]) -> (r: Vec<
    DecisionCommand,
>)
    ensures
        r@.map_values(|c: DecisionCommand| intent_view(c)) == clicks_intents(
            string_views(clicked_commands@),
        ),
{
    let ghost views = string_views(clicked_commands@);
    let mut out: Vec<DecisionCommand> = Vec::new();
    let mut i: usize = 0;
    proof {
        reveal_strlit("law:");
    }
    while i < clicked_commands.len()
        invariant
            i <= clicked_commands@.len(),
            views == string_views(clicked_commands@),
            "law:"@.len() == 4,
            out@.map_values(|c: DecisionCommand| intent_view(c)) == clicks_intents(
                views.take(i as int),
            ),
        decreases clicked_commands@.len() - i,
    {
        let cmd = clicked_commands[i].as_str();
        assert(views.take(i as int + 1).drop_last() =~= views.take(i as int));
        assert(views.take(i as int + 1).last() == cmd@);
        let ghost before = out@.map_values(|c: DecisionCommand| intent_view(c));
        if str_eq(cmd, "open_focus_tree") {
            out.push(DecisionCommand::OpenFocusTree);
            assert(out@.map_values(|c: DecisionCommand| intent_view(c)) =~= before + seq![
                (0, Seq::empty()),
            ]);
        } else if str_starts_with(cmd, "law:") {
            let cs = chars_of(cmd);
            let rest = slice_chars(cs.as_slice(), 4, cs.len());
            let category = string_from_chars(rest.as_slice());
            out.push(DecisionCommand::OpenLawDetail { category });
            assert(out@.map_values(|c: DecisionCommand| intent_view(c)) =~= before + seq![
                (2, cmd@.subrange(4, cmd@.len() as int)),
            ]);
        } else {
            assert(out@.map_values(|c: DecisionCommand| intent_view(c)) =~= before
                + Seq::<(int, Seq<char>)>::empty());
        }
        i = i + 1;
    }
    assert(views.take(clicked_commands@.len() as int) =~= views);
    out
}

/// The intent of a click on the node at `path`: a node of the active focus
/// opens the focus tree, the election button toggles the election panel,
/// and otherwise the first law category (in the country's law order) whose
/// key occurs in the path opens that category's detail.
pub open spec fn action_intent(path: Seq<char>, law_keys: Seq<Seq<char>>) -> Option<(int, Seq<char>)>
    decreases law_keys.len(),
{
    if has_substring(path, "active_goal"@) {
        Some((0, Seq::empty()))
    } else if has_substring(path, "election_button"@) {
        Some((1, Seq::empty()))
    } else if law_keys.len() == 0 {
        None
    } else if has_substring(path, law_keys[0]) {
        Some((2, law_keys[0]))
    } else {
        action_intent(path, law_keys.drop_first())
    }
}

/// What a click on the node at `path` asks for, given the keys of the
/// country's law categories in slot order.
pub fn politics_click_intent(path: &str, law_category_keys: &[String]) -> (r: Option<
    DecisionCommand,
>)
    ensures
        match r {
            Some(c) => action_intent(path@, string_views(law_category_keys@)) == Some(intent_view(c)),
            None => action_intent(path@, string_views(law_category_keys@)).is_none(),
        },
{
    if str_contains(path, "active_goal") {
        return Some(DecisionCommand::OpenFocusTree);
    }
    if str_contains(path, "election_button") {
        return Some(DecisionCommand::ToggleElectionPanel);
    }
    let ghost keys = string_views(law_category_keys@);
    let mut i: usize = 0;
    assert(keys.subrange(0, keys.len() as int) =~= keys);
    while i < law_category_keys.len()
        invariant
            i <= law_category_keys@.len(),
            keys == string_views(law_category_keys@),
            !has_substring(path@, "active_goal"@),
            !has_substring(path@, "election_button"@),
            action_intent(path@, keys) == action_intent(
                path@,
                keys.subrange(i as int, keys.len() as int),
            ),
        decreases law_category_keys@.len() - i,
    {
        let ghost tail = keys.subrange(i as int, keys.len() as int);
        assert(tail[0] == law_category_keys@[i as int]@);
        assert(tail.drop_first() =~= keys.subrange(i + 1, keys.len() as int));
        if str_contains(path, law_category_keys[i].as_str()) {
            return Some(
                DecisionCommand::OpenLawDetail { category: law_category_keys[i].clone() },
            );
        }
        i = i + 1;
    }
    assert(keys.subrange(i as int, keys.len() as int) =~= Seq::<Seq<char>>::empty());
    None
}

/// What a click on the politics view asks for: a click on the active goal
/// opens the focus tree; a click on the election button (outside the active
/// goal) toggles the election panel, whatever the law categories; any other
/// click opens the detail of the first law category named in its path, and
/// nothing when none is.
pub proof fn lemma_click_intents(path: Seq<char>, law_keys: Seq<Seq<char>>, c: DecisionCommand)
    ensures
        has_substring(path, "active_goal"@) ==> action_intent(path, law_keys) == Some(
            intent_view(DecisionCommand::OpenFocusTree),
        ),
        !has_substring(path, "active_goal"@) && has_substring(path, "election_button"@)
            ==> action_intent(path, law_keys) == Some(
            intent_view(DecisionCommand::ToggleElectionPanel),
        ),
        intent_view(c) == intent_view(DecisionCommand::ToggleElectionPanel) ==> c
            == DecisionCommand::ToggleElectionPanel,
        intent_view(c) == intent_view(DecisionCommand::OpenFocusTree) ==> c
            == DecisionCommand::OpenFocusTree,
        action_intent(path, law_keys) is Some && action_intent(path, law_keys).unwrap().0 == 2
            ==> !has_substring(path, "active_goal"@) && !has_substring(path, "election_button"@)
            && law_keys.contains(action_intent(path, law_keys).unwrap().1) && has_substring(
            path,
            action_intent(path, law_keys).unwrap().1,
        ),
        !has_substring(path, "active_goal"@) && !has_substring(path, "election_button"@) && (
        forall|i: int| 0 <= i < law_keys.len() ==> !has_substring(path, #[trigger] law_keys[i]))
            ==> action_intent(path, law_keys) is None,
    decreases law_keys.len(),
{
    if law_keys.len() > 0 {
        lemma_click_intents(path, law_keys.drop_first(), c);
        let rest = action_intent(path, law_keys.drop_first());
        if rest is Some && rest.unwrap().0 == 2 {
            let key = rest.unwrap().1;
            assert(law_keys.drop_first().contains(key));
            let k = choose|k: int|
                0 <= k < law_keys.drop_first().len() && law_keys.drop_first()[k] == key;
            assert(law_keys[k + 1] == key);
        }
        if !has_substring(path, "active_goal"@) && !has_substring(path, "election_button"@) && (
        forall|i: int| 0 <= i < law_keys.len() ==> !has_substring(path, #[trigger] law_keys[i])) {
            assert(!has_substring(path, law_keys[0]));
            assert forall|i: int| 0 <= i < law_keys.drop_first().len() implies !has_substring(
                path,
                #[trigger] law_keys.drop_first()[i],
            ) by {
                assert(law_keys.drop_first()[i] == law_keys[i + 1]);
            }
        }
        let all = action_intent(path, law_keys);
        if all is Some && all.unwrap().0 == 2 && has_substring(path, law_keys[0]) {
            assert(law_keys.contains(law_keys[0]));
        }
    }
}

/// The command an action on a node of the politics view gives: only a click
/// asks for anything, and a click asks for what `politics_click_intent`
/// finds for the node's path.
pub fn politics_action_command(is_click: bool, path: &str, law_category_keys: &[String]) -> (r:
    Option<DecisionCommand>)
    ensures
        !is_click ==> r is None,
        is_click ==> match r {
            Some(c) => action_intent(path@, string_views(law_category_keys@)) == Some(intent_view(c)),
            None => action_intent(path@, string_views(law_category_keys@)).is_none(),
        },
{
    if !is_click {
        return None;
    }
    politics_click_intent(path, law_category_keys)
}

/// The effect preview of a decision: the first five effect summaries, then
/// `...` when there were more, joined with `  ·  `.
pub open spec fn effect_preview(summaries: Seq<Seq<char>>) -> Seq<char> {
    if summaries.len() > 5 {
        join_spec(summaries.take(5).push("..."@), "  ·  "@)
    } else {
        join_spec(summaries, "  ·  "@)
    }
}

/// The effect preview of a decision from the summaries of its effects.
pub fn decision_effect_preview(summaries: Vec<String>) -> (r: String)
    ensures
        r@ == effect_preview(string_views(summaries@)),
{
    let mut kept = summaries;
    let ghost all = string_views(kept@);
    if kept.len() > 5 {
        kept.truncate(5);
        kept.push(String::from_str("..."));
        assert(string_views(kept@) =~= all.take(5).push("..."@));
    }
    join_strings(kept.as_slice(), "  ·  ")
}

/// The politics panel.
pub struct PoliticsPanel;

// ───────────────────────── data bindings ─────────────────────────

/// What a binding of the politics view sets on a node.
#[derive(Clone, Copy, Debug, PartialEq, Eq, Structural)]
pub enum CountryPoliticsBindingValue {
    Visibility,
    Text,
    TextColor,
    Sprite,
    Tint,
    Progress,
    Pie,
    Tooltip,
    Command,
    Instances,
}

/// Which nodes of the politics view get data, which values, and why.
#[derive(Clone, Debug)]
pub struct CountryPoliticsBindingSpec {
    pub path_pattern: &'static str,
    pub values: Vec<CountryPoliticsBindingValue>,
    pub reason: &'static str,
}

/// A binding description that is well formed: its pattern lies under the
/// politics view's root and it sets at least one value.
pub open spec fn binding_spec_ok(spec: CountryPoliticsBindingSpec) -> bool {
    has_prefix(spec.path_pattern@, "countrypoliticsview"@) && spec.values@.len() > 0
}

/// One binding description.
fn binding_spec(
    path_pattern: &'static str,
    values: Vec<CountryPoliticsBindingValue>,
    reason: &'static str,
) -> (r: CountryPoliticsBindingSpec)
    requires
        has_prefix(path_pattern@, "countrypoliticsview"@),
        values@.len() > 0,
    ensures
        binding_spec_ok(r),
        r.path_pattern == path_pattern,
        r.values@ == values@,
        r.reason == reason,
{
    CountryPoliticsBindingSpec { path_pattern, values, reason }
}

/// The binding descriptions of the politics view, in order: the node
/// pattern, the values set there, and why.
pub open spec fn binding_table() -> Seq<(&'static str, Seq<CountryPoliticsBindingValue>, &'static str)> {
    seq![
        ("countrypoliticsview.hidden-subsystems", seq![CountryPoliticsBindingValue::Visibility], "subjects, exiles, occupation and power balance are not wired to game data yet"),
        ("countrypoliticsview.political_title", seq![CountryPoliticsBindingValue::Text], "localized panel title"),
        ("countrypoliticsview.leader", seq![CountryPoliticsBindingValue::Sprite, CountryPoliticsBindingValue::Tooltip], "runtime leader portrait and hover text"),
        ("countrypoliticsview.leader_name", seq![CountryPoliticsBindingValue::Text], "runtime leader display name"),
        ("countrypoliticsview.active_goal", seq![CountryPoliticsBindingValue::Tooltip, CountryPoliticsBindingValue::Command], "focus tree hit target uses vanilla active_goal geometry"),
        ("countrypoliticsview.active_goal.add_national_goal_button", seq![CountryPoliticsBindingValue::Tooltip, CountryPoliticsBindingValue::Command], "focus tree button uses vanilla button sprite and state frames"),
        ("countrypoliticsview.active_goal.title", seq![CountryPoliticsBindingValue::Text], "current national focus name"),
        ("countrypoliticsview.active_goal.empty-focus-children", seq![CountryPoliticsBindingValue::Visibility], "hide vanilla focus progress chrome when no focus exists"),
        ("countrypoliticsview.active_goal.focus_cost", seq![CountryPoliticsBindingValue::Text], "current focus remaining days"),
        ("countrypoliticsview.active_goal.progress", seq![CountryPoliticsBindingValue::Progress], "current focus progress value for vanilla progressbartype"),
        ("countrypoliticsview.national_spirit", seq![CountryPoliticsBindingValue::Tooltip], "runtime tooltip for the vanilla national spirit header"),
        ("countrypoliticsview.national_spirit.spirit_grid", seq![CountryPoliticsBindingValue::Instances], "national spirit slot count"),
        ("countrypoliticsview.national_spirit.spirit_grid.political_idea_entry[*].add_idea_button", seq![CountryPoliticsBindingValue::Sprite, CountryPoliticsBindingValue::Tooltip], "national spirit icon and tooltip inside vanilla idea slot template"),
        ("countrypoliticsview.ruling_party_info.ideology", seq![CountryPoliticsBindingValue::Text], "ruling ideology text"),
        ("countrypoliticsview.ruling_party_info.elections", seq![CountryPoliticsBindingValue::Text], "election status text"),
        ("countrypoliticsview.political_pie_chart", seq![CountryPoliticsBindingValue::Pie], "party popularity values for vanilla pie chart"),
        ("countrypoliticsview.parties_grid", seq![CountryPoliticsBindingValue::Instances], "party row count"),
        ("countrypoliticsview.parties_grid.political_party_info_entry[*].name", seq![CountryPoliticsBindingValue::Text, CountryPoliticsBindingValue::TextColor], "party row name text"),
        ("countrypoliticsview.parties_grid.political_party_info_entry[*].leading_pol_party_bg", seq![CountryPoliticsBindingValue::Visibility], "vanilla row background sprite stays unmodified; party score is engine-provided, not a profile overlay"),
        ("countrypoliticsview.parties_grid.political_party_info_entry[*].color_block", seq![CountryPoliticsBindingValue::Tint], "party ideology color swatch"),
        ("countrypoliticsview.idea_categories_grid", seq![CountryPoliticsBindingValue::Instances], "three vanilla idea-category rows"),
        ("countrypoliticsview.idea_categories_grid.country_politics_idea_category_entry[*].name", seq![CountryPoliticsBindingValue::Text], "idea-category row title"),
        ("countrypoliticsview.idea_categories_grid.country_politics_idea_category_entry[*].category_icon", seq![CountryPoliticsBindingValue::Sprite], "idea-category frame index on vanilla category icon sprite"),
        ("countrypoliticsview.idea_categories_grid.country_politics_idea_category_entry[*].ideas_grid", seq![CountryPoliticsBindingValue::Instances], "idea slot count for laws and advisor rows"),
        ("countrypoliticsview.idea_categories_grid.country_politics_idea_category_entry[*].political_idea_entry[*].idea_alert_glow", seq![CountryPoliticsBindingValue::Visibility], "hide unsupported alert glow over dynamic law/spirit slots"),
        ("countrypoliticsview.idea_categories_grid.country_politics_idea_category_entry[*].political_idea_entry[*].idea_traits", seq![CountryPoliticsBindingValue::Visibility], "hide unsupported trait strip over dynamic law/spirit slots"),
        ("countrypoliticsview.idea_categories_grid.country_politics_idea_category_entry[0].political_idea_entry[*].add_idea_button", seq![CountryPoliticsBindingValue::Sprite, CountryPoliticsBindingValue::Tooltip, CountryPoliticsBindingValue::Command], "law slot icon, tooltip and detail command"),
        ("countrypoliticsview.idea_categories_grid.country_politics_idea_category_entry[1..].political_idea_entry[*].add_idea_button", seq![CountryPoliticsBindingValue::Tooltip], "advisor rows are visible but game data is not connected yet"),
        ("countrypoliticsview.close_button", seq![CountryPoliticsBindingValue::Tooltip, CountryPoliticsBindingValue::Command], "vanilla close button requests animated panel close"),
        ("countrypoliticsview.election_button", seq![CountryPoliticsBindingValue::Visibility, CountryPoliticsBindingValue::Command], "SPR 1936 election button opens hemicycle panel"),
        ("countrypoliticsview.election_hemicycle", seq![CountryPoliticsBindingValue::Visibility], "SPR 1936 election hemicycle seats visualization"),
    ]
}

/// What the binding table promises the panel: the focus progress node is fed
/// the progress value alone, the law slots' idea buttons carry a command, and
/// every binding gives a reason that does not start with white space.
pub proof fn lemma_binding_table_facts()
    ensures
        has_substring(binding_table()[9].0@, "active_goal.progress"@),
        binding_table()[9].1 == seq![CountryPoliticsBindingValue::Progress],
        has_substring(binding_table()[26].0@, "add_idea_button"@),
        binding_table()[26].1.contains(CountryPoliticsBindingValue::Command),
        forall|i: int|
            0 <= i < binding_table().len() ==> (#[trigger] binding_table()[i]).2@.len() > 0
                && !is_whitespace(binding_table()[i].2@[0]),
{
    reveal_strlit("countrypoliticsview.active_goal.progress");
    reveal_strlit("active_goal.progress");
    assert(binding_table()[9].0@.subrange(20, 40) =~= "active_goal.progress"@);
    assert(occurs_at(binding_table()[9].0@, "active_goal.progress"@, 20));
    reveal_strlit("countrypoliticsview.idea_categories_grid.country_politics_idea_category_entry[0].political_idea_entry[*].add_idea_button");
    reveal_strlit("add_idea_button");
    assert(binding_table()[26].0@.subrange(105, 120) =~= "add_idea_button"@);
    assert(occurs_at(binding_table()[26].0@, "add_idea_button"@, 105));
    assert(binding_table()[26].1[2] == CountryPoliticsBindingValue::Command);
    reveal_strlit("subjects, exiles, occupation and power balance are not wired to game data yet");
    reveal_strlit("localized panel title");
    reveal_strlit("runtime leader portrait and hover text");
    reveal_strlit("runtime leader display name");
    reveal_strlit("focus tree hit target uses vanilla active_goal geometry");
    reveal_strlit("focus tree button uses vanilla button sprite and state frames");
    reveal_strlit("current national focus name");
    reveal_strlit("hide vanilla focus progress chrome when no focus exists");
    reveal_strlit("current focus remaining days");
    reveal_strlit("current focus progress value for vanilla progressbartype");
    reveal_strlit("runtime tooltip for the vanilla national spirit header");
    reveal_strlit("national spirit slot count");
    reveal_strlit("national spirit icon and tooltip inside vanilla idea slot template");
    reveal_strlit("ruling ideology text");
    reveal_strlit("election status text");
    reveal_strlit("party popularity values for vanilla pie chart");
    reveal_strlit("party row count");
    reveal_strlit("party row name text");
    reveal_strlit("vanilla row background sprite stays unmodified; party score is engine-provided, not a profile overlay");
    reveal_strlit("party ideology color swatch");
    reveal_strlit("three vanilla idea-category rows");
    reveal_strlit("idea-category row title");
    reveal_strlit("idea-category frame index on vanilla category icon sprite");
    reveal_strlit("idea slot count for laws and advisor rows");
    reveal_strlit("hide unsupported alert glow over dynamic law/spirit slots");
    reveal_strlit("hide unsupported trait strip over dynamic law/spirit slots");
    reveal_strlit("law slot icon, tooltip and detail command");
    reveal_strlit("advisor rows are visible but game data is not connected yet");
    reveal_strlit("vanilla close button requests animated panel close");
    reveal_strlit("SPR 1936 election button opens hemicycle panel");
    reveal_strlit("SPR 1936 election hemicycle seats visualization");
}

/// The data bindings of the politics view: every node the panel feeds with
/// game data, each under the view's root and setting at least one value.
pub fn country_politics_binding_specs() -> (specs: Vec<CountryPoliticsBindingSpec>)
    ensures
        specs@.len() == 31,
        specs@.len() == binding_table().len(),
        forall|i: int|
            0 <= i < specs@.len() ==> (#[trigger] specs@[i]).path_pattern == binding_table()[i].0
                && specs@[i].values@ == binding_table()[i].1 && specs@[i].reason
                == binding_table()[i].2,
        forall|i: int| 0 <= i < specs@.len() ==> binding_spec_ok(#[trigger] specs@[i]),
{
    proof {
        reveal_strlit("countrypoliticsview");
        reveal_strlit("countrypoliticsview.hidden-subsystems");
        assert("countrypoliticsview.hidden-subsystems"@.subrange(0, 19) =~= "countrypoliticsview"@);
        reveal_strlit("countrypoliticsview.political_title");
        assert("countrypoliticsview.political_title"@.subrange(0, 19) =~= "countrypoliticsview"@);
        reveal_strlit("countrypoliticsview.leader");
        assert("countrypoliticsview.leader"@.subrange(0, 19) =~= "countrypoliticsview"@);
        reveal_strlit("countrypoliticsview.leader_name");
        assert("countrypoliticsview.leader_name"@.subrange(0, 19) =~= "countrypoliticsview"@);
        reveal_strlit("countrypoliticsview.active_goal");
        assert("countrypoliticsview.active_goal"@.subrange(0, 19) =~= "countrypoliticsview"@);
        reveal_strlit("countrypoliticsview.active_goal.add_national_goal_button");
        assert("countrypoliticsview.active_goal.add_national_goal_button"@.subrange(0, 19) =~= "countrypoliticsview"@);
        reveal_strlit("countrypoliticsview.active_goal.title");
        assert("countrypoliticsview.active_goal.title"@.subrange(0, 19) =~= "countrypoliticsview"@);
        reveal_strlit("countrypoliticsview.active_goal.empty-focus-children");
        assert("countrypoliticsview.active_goal.empty-focus-children"@.subrange(0, 19) =~= "countrypoliticsview"@);
        reveal_strlit("countrypoliticsview.active_goal.focus_cost");
        assert("countrypoliticsview.active_goal.focus_cost"@.subrange(0, 19) =~= "countrypoliticsview"@);
        reveal_strlit("countrypoliticsview.active_goal.progress");
        assert("countrypoliticsview.active_goal.progress"@.subrange(0, 19) =~= "countrypoliticsview"@);
        reveal_strlit("countrypoliticsview.national_spirit");
        assert("countrypoliticsview.national_spirit"@.subrange(0, 19) =~= "countrypoliticsview"@);
        reveal_strlit("countrypoliticsview.national_spirit.spirit_grid");
        assert("countrypoliticsview.national_spirit.spirit_grid"@.subrange(0, 19) =~= "countrypoliticsview"@);
        reveal_strlit("countrypoliticsview.national_spirit.spirit_grid.political_idea_entry[*].add_idea_button");
        assert("countrypoliticsview.national_spirit.spirit_grid.political_idea_entry[*].add_idea_button"@.subrange(0, 19) =~= "countrypoliticsview"@);
        reveal_strlit("countrypoliticsview.ruling_party_info.ideology");
        assert("countrypoliticsview.ruling_party_info.ideology"@.subrange(0, 19) =~= "countrypoliticsview"@);
        reveal_strlit("countrypoliticsview.ruling_party_info.elections");
        assert("countrypoliticsview.ruling_party_info.elections"@.subrange(0, 19) =~= "countrypoliticsview"@);
        reveal_strlit("countrypoliticsview.political_pie_chart");
        assert("countrypoliticsview.political_pie_chart"@.subrange(0, 19) =~= "countrypoliticsview"@);
        reveal_strlit("countrypoliticsview.parties_grid");
        assert("countrypoliticsview.parties_grid"@.subrange(0, 19) =~= "countrypoliticsview"@);
        reveal_strlit("countrypoliticsview.parties_grid.political_party_info_entry[*].name");
        assert("countrypoliticsview.parties_grid.political_party_info_entry[*].name"@.subrange(0, 19) =~= "countrypoliticsview"@);
        reveal_strlit("countrypoliticsview.parties_grid.political_party_info_entry[*].leading_pol_party_bg");
        assert("countrypoliticsview.parties_grid.political_party_info_entry[*].leading_pol_party_bg"@.subrange(0, 19) =~= "countrypoliticsview"@);
        reveal_strlit("countrypoliticsview.parties_grid.political_party_info_entry[*].color_block");
        assert("countrypoliticsview.parties_grid.political_party_info_entry[*].color_block"@.subrange(0, 19) =~= "countrypoliticsview"@);
        reveal_strlit("countrypoliticsview.idea_categories_grid");
        assert("countrypoliticsview.idea_categories_grid"@.subrange(0, 19) =~= "countrypoliticsview"@);
        reveal_strlit("countrypoliticsview.idea_categories_grid.country_politics_idea_category_entry[*].name");
        assert("countrypoliticsview.idea_categories_grid.country_politics_idea_category_entry[*].name"@.subrange(0, 19) =~= "countrypoliticsview"@);
        reveal_strlit("countrypoliticsview.idea_categories_grid.country_politics_idea_category_entry[*].category_icon");
        assert("countrypoliticsview.idea_categories_grid.country_politics_idea_category_entry[*].category_icon"@.subrange(0, 19) =~= "countrypoliticsview"@);
        reveal_strlit("countrypoliticsview.idea_categories_grid.country_politics_idea_category_entry[*].ideas_grid");
        assert("countrypoliticsview.idea_categories_grid.country_politics_idea_category_entry[*].ideas_grid"@.subrange(0, 19) =~= "countrypoliticsview"@);
        reveal_strlit("countrypoliticsview.idea_categories_grid.country_politics_idea_category_entry[*].political_idea_entry[*].idea_alert_glow");
        assert("countrypoliticsview.idea_categories_grid.country_politics_idea_category_entry[*].political_idea_entry[*].idea_alert_glow"@.subrange(0, 19) =~= "countrypoliticsview"@);
        reveal_strlit("countrypoliticsview.idea_categories_grid.country_politics_idea_category_entry[*].political_idea_entry[*].idea_traits");
        assert("countrypoliticsview.idea_categories_grid.country_politics_idea_category_entry[*].political_idea_entry[*].idea_traits"@.subrange(0, 19) =~= "countrypoliticsview"@);
        reveal_strlit("countrypoliticsview.idea_categories_grid.country_politics_idea_category_entry[0].political_idea_entry[*].add_idea_button");
        assert("countrypoliticsview.idea_categories_grid.country_politics_idea_category_entry[0].political_idea_entry[*].add_idea_button"@.subrange(0, 19) =~= "countrypoliticsview"@);
        reveal_strlit("countrypoliticsview.idea_categories_grid.country_politics_idea_category_entry[1..].political_idea_entry[*].add_idea_button");
        assert("countrypoliticsview.idea_categories_grid.country_politics_idea_category_entry[1..].political_idea_entry[*].add_idea_button"@.subrange(0, 19) =~= "countrypoliticsview"@);
        reveal_strlit("countrypoliticsview.close_button");
        assert("countrypoliticsview.close_button"@.subrange(0, 19) =~= "countrypoliticsview"@);
        reveal_strlit("countrypoliticsview.election_button");
        assert("countrypoliticsview.election_button"@.subrange(0, 19) =~= "countrypoliticsview"@);
        reveal_strlit("countrypoliticsview.election_hemicycle");
        assert("countrypoliticsview.election_hemicycle"@.subrange(0, 19) =~= "countrypoliticsview"@);
    }
    let mut specs: Vec<CountryPoliticsBindingSpec> = Vec::new();
    specs.push(binding_spec(
        "countrypoliticsview.hidden-subsystems",
        vec![CountryPoliticsBindingValue::Visibility],
        "subjects, exiles, occupation and power balance are not wired to game data yet",
    ));
    specs.push(binding_spec(
        "countrypoliticsview.political_title",
        vec![CountryPoliticsBindingValue::Text],
        "localized panel title",
    ));
    specs.push(binding_spec(
        "countrypoliticsview.leader",
        vec![CountryPoliticsBindingValue::Sprite, CountryPoliticsBindingValue::Tooltip],
        "runtime leader portrait and hover text",
    ));
    specs.push(binding_spec(
        "countrypoliticsview.leader_name",
        vec![CountryPoliticsBindingValue::Text],
        "runtime leader display name",
    ));
    specs.push(binding_spec(
        "countrypoliticsview.active_goal",
        vec![CountryPoliticsBindingValue::Tooltip, CountryPoliticsBindingValue::Command],
        "focus tree hit target uses vanilla active_goal geometry",
    ));
    specs.push(binding_spec(
        "countrypoliticsview.active_goal.add_national_goal_button",
        vec![CountryPoliticsBindingValue::Tooltip, CountryPoliticsBindingValue::Command],
        "focus tree button uses vanilla button sprite and state frames",
    ));
    specs.push(binding_spec(
        "countrypoliticsview.active_goal.title",
        vec![CountryPoliticsBindingValue::Text],
        "current national focus name",
    ));
    specs.push(binding_spec(
        "countrypoliticsview.active_goal.empty-focus-children",
        vec![CountryPoliticsBindingValue::Visibility],
        "hide vanilla focus progress chrome when no focus exists",
    ));
    specs.push(binding_spec(
        "countrypoliticsview.active_goal.focus_cost",
        vec![CountryPoliticsBindingValue::Text],
        "current focus remaining days",
    ));
    specs.push(binding_spec(
        "countrypoliticsview.active_goal.progress",
        vec![CountryPoliticsBindingValue::Progress],
        "current focus progress value for vanilla progressbartype",
    ));
    specs.push(binding_spec(
        "countrypoliticsview.national_spirit",
        vec![CountryPoliticsBindingValue::Tooltip],
        "runtime tooltip for the vanilla national spirit header",
    ));
    specs.push(binding_spec(
        "countrypoliticsview.national_spirit.spirit_grid",
        vec![CountryPoliticsBindingValue::Instances],
        "national spirit slot count",
    ));
    specs.push(binding_spec(
        "countrypoliticsview.national_spirit.spirit_grid.political_idea_entry[*].add_idea_button",
        vec![CountryPoliticsBindingValue::Sprite, CountryPoliticsBindingValue::Tooltip],
        "national spirit icon and tooltip inside vanilla idea slot template",
    ));
    specs.push(binding_spec(
        "countrypoliticsview.ruling_party_info.ideology",
        vec![CountryPoliticsBindingValue::Text],
        "ruling ideology text",
    ));
    specs.push(binding_spec(
        "countrypoliticsview.ruling_party_info.elections",
        vec![CountryPoliticsBindingValue::Text],
        "election status text",
    ));
    specs.push(binding_spec(
        "countrypoliticsview.political_pie_chart",
        vec![CountryPoliticsBindingValue::Pie],
        "party popularity values for vanilla pie chart",
    ));
    specs.push(binding_spec(
        "countrypoliticsview.parties_grid",
        vec![CountryPoliticsBindingValue::Instances],
        "party row count",
    ));
    specs.push(binding_spec(
        "countrypoliticsview.parties_grid.political_party_info_entry[*].name",
        vec![CountryPoliticsBindingValue::Text, CountryPoliticsBindingValue::TextColor],
        "party row name text",
    ));
    specs.push(binding_spec(
        "countrypoliticsview.parties_grid.political_party_info_entry[*].leading_pol_party_bg",
        vec![CountryPoliticsBindingValue::Visibility],
        "vanilla row background sprite stays unmodified; party score is engine-provided, not a profile overlay",
    ));
    specs.push(binding_spec(
        "countrypoliticsview.parties_grid.political_party_info_entry[*].color_block",
        vec![CountryPoliticsBindingValue::Tint],
        "party ideology color swatch",
    ));
    specs.push(binding_spec(
        "countrypoliticsview.idea_categories_grid",
        vec![CountryPoliticsBindingValue::Instances],
        "three vanilla idea-category rows",
    ));
    specs.push(binding_spec(
        "countrypoliticsview.idea_categories_grid.country_politics_idea_category_entry[*].name",
        vec![CountryPoliticsBindingValue::Text],
        "idea-category row title",
    ));
    specs.push(binding_spec(
        "countrypoliticsview.idea_categories_grid.country_politics_idea_category_entry[*].category_icon",
        vec![CountryPoliticsBindingValue::Sprite],
        "idea-category frame index on vanilla category icon sprite",
    ));
    specs.push(binding_spec(
        "countrypoliticsview.idea_categories_grid.country_politics_idea_category_entry[*].ideas_grid",
        vec![CountryPoliticsBindingValue::Instances],
        "idea slot count for laws and advisor rows",
    ));
    specs.push(binding_spec(
        "countrypoliticsview.idea_categories_grid.country_politics_idea_category_entry[*].political_idea_entry[*].idea_alert_glow",
        vec![CountryPoliticsBindingValue::Visibility],
        "hide unsupported alert glow over dynamic law/spirit slots",
    ));
    specs.push(binding_spec(
        "countrypoliticsview.idea_categories_grid.country_politics_idea_category_entry[*].political_idea_entry[*].idea_traits",
        vec![CountryPoliticsBindingValue::Visibility],
        "hide unsupported trait strip over dynamic law/spirit slots",
    ));
    specs.push(binding_spec(
        "countrypoliticsview.idea_categories_grid.country_politics_idea_category_entry[0].political_idea_entry[*].add_idea_button",
        vec![CountryPoliticsBindingValue::Sprite, CountryPoliticsBindingValue::Tooltip, CountryPoliticsBindingValue::Command],
        "law slot icon, tooltip and detail command",
    ));
    specs.push(binding_spec(
        "countrypoliticsview.idea_categories_grid.country_politics_idea_category_entry[1..].political_idea_entry[*].add_idea_button",
        vec![CountryPoliticsBindingValue::Tooltip],
        "advisor rows are visible but game data is not connected yet",
    ));
    specs.push(binding_spec(
        "countrypoliticsview.close_button",
        vec![CountryPoliticsBindingValue::Tooltip, CountryPoliticsBindingValue::Command],
        "vanilla close button requests animated panel close",
    ));
    specs.push(binding_spec(
        "countrypoliticsview.election_button",
        vec![CountryPoliticsBindingValue::Visibility, CountryPoliticsBindingValue::Command],
        "SPR 1936 election button opens hemicycle panel",
    ));
    specs.push(binding_spec(
        "countrypoliticsview.election_hemicycle",
        vec![CountryPoliticsBindingValue::Visibility],
        "SPR 1936 election hemicycle seats visualization",
    ));
    specs
}

} // verus!
