//! Research panel: technology categories with their captions, the search
//! that filters the technology tree, the status of a technology, which
//! technology is selected and what starting research on it gives.
use vstd::prelude::*;
use crate::color::PaletteColor;
use crate::text::{
    any_contains, any_lower_contains, decimal_string, decimal_text, has_substring, join_spec,
    join_strings, lower_contains, lowered_query, str_eq, string_views, trim, unicode_lowercase,
};

verus! {

/// The technology categories, in the order of the category tabs.
pub const CATEGORIES: [&'static str; 9] = [
    "industry",
    "chemistry",
    "electrical",
    "metallurgy",
    "military_doctrine",
    "air",
    "naval",
    "social_science",
    "information_control",
];

/// The caption of a technology category; `科技` (technology) for a category
/// the panel does not know.
pub open spec fn category_caption(category: Seq<char>) -> Seq<char> {
    if category == "industry"@ {
        "工业"@
    } else if category == "chemistry"@ {
        "化工"@
    } else if category == "electrical"@ {
        "电气"@
    } else if category == "metallurgy"@ {
        "冶金"@
    } else if category == "military_doctrine"@ {
        "军事学说"@
    } else if category == "air"@ {
        "航空"@
    } else if category == "naval"@ {
        "海军"@
    } else if category == "social_science"@ {
        "社会科学"@
    } else if category == "information_control"@ {
        "信息管制"@
    } else {
        "科技"@
    }
}

/// The caption of a technology category.
pub fn category_label(category: &str) -> (r: &'static str)
    ensures
        r@ == category_caption(category@),
{
    if str_eq(category, "industry") {
        "工业"
    } else if str_eq(category, "chemistry") {
        "化工"
    } else if str_eq(category, "electrical") {
        "电气"
    } else if str_eq(category, "metallurgy") {
        "冶金"
    } else if str_eq(category, "military_doctrine") {
        "军事学说"
    } else if str_eq(category, "air") {
        "航空"
    } else if str_eq(category, "naval") {
        "海军"
    } else if str_eq(category, "social_science") {
        "社会科学"
    } else if str_eq(category, "information_control") {
        "信息管制"
    } else {
        "科技"
    }
}

/// What the research panel asks the game to do.
#[derive(Debug)]
pub enum ResearchCommand {
    /// Start researching the technology with this key.
    StartResearch(String),
}

/// The research panel.
pub struct ResearchPanel;

/// A technology passes the search `search` when the trimmed, lower-cased
/// search is empty, or occurs in the lower-cased name, category caption, a
/// prerequisite or an unlock line of the technology.
pub open spec fn tech_search_hit(
    name: Seq<char>,
    category: Seq<char>,
    prerequisites: Seq<String>,
    unlock_summary: Seq<String>,
    search: Seq<char>,
) -> bool {
    let q = unicode_lowercase(trim(search));
    q.len() == 0 || has_substring(unicode_lowercase(name), q) || has_substring(
        unicode_lowercase(category_caption(category)),
        q,
    ) || any_lower_contains(prerequisites, q) || any_lower_contains(unlock_summary, q)
}

/// Whether a technology with these texts passes the search box's query.
pub fn tech_matches_search(
    name: &str,
    category: &str,
    prerequisites: &[String],
    unlock_summary: &[String],
    search: &str,
) -> (r: bool)
    ensures
        r == tech_search_hit(name@, category@, prerequisites@, unlock_summary@, search@),
{
    let q = lowered_query(search);
    if q.len() == 0 {
        return true;
    }
    lower_contains(name, &q) || lower_contains(category_label(category), &q) || any_contains(
        prerequisites,
        &q,
    ) || any_contains(unlock_summary, &q)
}

// ───────────────────────── technologies ─────────────────────────

/// A technology as the research panel's decisions see it.
#[derive(Clone, Debug)]
pub struct TechInfo {
    pub key: String,
    pub name: String,
    pub category: String,
    pub start_year: u16,
    pub completed: bool,
    pub researching: bool,
    pub prerequisites: Vec<String>,
    pub unlock_summary: Vec<String>,
}

/// The status word of a technology: done, under research, ahead of its
/// time (its year is later than the current one), or open to research.
pub open spec fn tech_status(tech: TechInfo, current_year: u16) -> Seq<char> {
    if tech.completed {
        "已完成"@
    } else if tech.researching {
        "研究中"@
    } else if tech.start_year > current_year {
        "超前"@
    } else {
        "可研究"@
    }
}

/// The status word shown for a technology.
pub fn tech_status_label(tech: &TechInfo, current_year: u16) -> (r: &'static str)
    ensures
        r@ == tech_status(*tech, current_year),
{
    if tech.completed {
        "已完成"
    } else if tech.researching {
        "研究中"
    } else if tech.start_year > current_year {
        "超前"
    } else {
        "可研究"
    }
}

/// The accent of a technology's node: green when done, amber under
/// research, red ahead of its time, blue otherwise.
pub open spec fn tech_accent(tech: TechInfo, current_year: u16) -> PaletteColor {
    if tech.completed {
        PaletteColor::Good
    } else if tech.researching {
        PaletteColor::Warn
    } else if tech.start_year > current_year {
        PaletteColor::Bad
    } else {
        PaletteColor::Info
    }
}

/// The accent colour of a technology's node in the tree.
pub fn tech_accent_color(tech: &TechInfo, current_year: u16) -> (r: PaletteColor)
    ensures
        r == tech_accent(*tech, current_year),
{
    if tech.completed {
        PaletteColor::Good
    } else if tech.researching {
        PaletteColor::Warn
    } else if tech.start_year > current_year {
        PaletteColor::Bad
    } else {
        PaletteColor::Info
    }
}

/// The caption under a technology's name in the detail card: its category's
/// caption, its year and its status, separated by ` / `.
pub fn tech_detail_caption(tech: &TechInfo, current_year: u16) -> (r: String)
    ensures
        r@ == category_caption(tech.category@) + " / "@ + decimal_text(tech.start_year as nat)
            + " / "@ + tech_status(*tech, current_year),
{
    let mut out = String::from_str(category_label(tech.category.as_str()));
    out.append(" / ");
    out.append(decimal_string(tech.start_year as u64).as_str());
    out.append(" / ");
    out.append(tech_status_label(tech, current_year));
    out
}

/// The prerequisites line of the detail card: `前置科技：` (prerequisites)
/// followed by the prerequisites joined by `, `, or by `无` (none).
pub fn prerequisite_line(prerequisites: &[String]) -> (r: String)
    ensures
        prerequisites@.len() == 0 ==> r@ == "前置科技：无"@,
        prerequisites@.len() > 0 ==> r@ == "前置科技："@ + join_spec(
            string_views(prerequisites@),
            ", "@,
        ),
{
    if prerequisites.len() == 0 {
        String::from_str("前置科技：无")
    } else {
        let mut out = String::from_str("前置科技：");
        out.append(join_strings(prerequisites, ", ").as_str());
        out
    }
}

/// The most unlock lines the detail card lists.
pub const UNLOCK_PREVIEW_ROWS: usize = 7;

/// The unlock lines of the detail card: the first seven lines of the unlock
/// summary, or a single line saying there is no direct unlock.
pub fn unlock_preview_rows(unlock_summary: &[String]) -> (r: Vec<String>)
    ensures
        unlock_summary@.len() == 0 ==> string_views(r@) == seq!["无直接解锁预览"@],
        unlock_summary@.len() > 0 ==> string_views(r@) == string_views(
            unlock_summary@.take(
                if unlock_summary@.len() < 7 {
                    unlock_summary@.len() as int
                } else {
                    7
                },
            ),
        ),
{
    let mut out: Vec<String> = Vec::new();
    if unlock_summary.len() == 0 {
        out.push(String::from_str("无直接解锁预览"));
        assert(string_views(out@) =~= seq!["无直接解锁预览"@]);
        return out;
    }
    let n: usize = if unlock_summary.len() < UNLOCK_PREVIEW_ROWS {
        unlock_summary.len()
    } else {
        UNLOCK_PREVIEW_ROWS
    };
    let mut i: usize = 0;
    while i < n
        invariant
            n <= unlock_summary@.len(),
            i <= n,
            out@ == unlock_summary@.take(i as int),
        decreases n - i,
    {
        out.push(unlock_summary[i].clone());
        assert(out@ =~= unlock_summary@.take(i as int + 1));
        i = i + 1;
    }
    out
}

/// Research on a technology can start: it is neither done nor under
/// research, and a research slot is idle.
pub open spec fn can_start_research(tech: TechInfo, idle_slots: usize) -> bool {
    !tech.completed && !tech.researching && idle_slots > 0
}

/// What the start button of the detail card gives when clicked: research on
/// the technology where it can start, nothing where the button is disabled.
pub fn start_research_command(tech: &TechInfo, idle_slots: usize) -> (r: Option<ResearchCommand>)
    ensures
        can_start_research(*tech, idle_slots) ==> (r matches Some(ResearchCommand::StartResearch(
            k,
        )) && k@ == tech.key@),
        !can_start_research(*tech, idle_slots) ==> r is None,
{
    if !tech.completed && !tech.researching && idle_slots > 0 {
        Some(ResearchCommand::StartResearch(tech.key.clone()))
    } else {
        None
    }
}

/// The caption of the disabled start button: done, under research, or no
/// idle slot.
pub fn disabled_research_label(tech: &TechInfo) -> (r: &'static str)
    ensures
        r@ == if tech.completed {
            "已完成"@
        } else if tech.researching {
            "研究中"@
        } else {
            "无空闲槽位"@
        },
{
    if tech.completed {
        "已完成"
    } else if tech.researching {
        "研究中"
    } else {
        "无空闲槽位"
    }
}

/// The research slots left idle: the slots beyond those in use, or none
/// when all are in use.
pub fn idle_slot_count(slot_count: usize, active_slots: usize) -> (r: usize)
    ensures
        r == if slot_count > active_slots {
            slot_count - active_slots
        } else {
            0
        },
{
    slot_count.saturating_sub(active_slots)
}

// ───────────────────────── the tree and the selection ─────────────────────────

/// The position of the first technology of `techs` that satisfies `p`, if
/// any does.
pub open spec fn first_where(techs: Seq<TechInfo>, p: spec_fn(TechInfo) -> bool) -> Option<int>
    decreases techs.len(),
{
    if techs.len() == 0 {
        None
    } else if p(techs[0]) {
        Some(0)
    } else {
        match first_where(techs.drop_first(), p) {
            Some(i) => Some(i + 1),
            None => None,
        }
    }
}

/// `first_where` names the first position whose technology satisfies `p`.
proof fn lemma_first_where_found(techs: Seq<TechInfo>, p: spec_fn(TechInfo) -> bool, i: int)
    requires
        0 <= i < techs.len(),
        p(techs[i]),
        forall|j: int| 0 <= j < i ==> !p(#[trigger] techs[j]),
    ensures
        first_where(techs, p) == Some(i),
    decreases i,
{
    if i > 0 {
        assert(!p(techs[0]));
        lemma_first_where_found(techs.drop_first(), p, i - 1);
    }
}

/// `first_where` finds nothing where no technology satisfies `p`.
proof fn lemma_first_where_none(techs: Seq<TechInfo>, p: spec_fn(TechInfo) -> bool)
    requires
        forall|j: int| 0 <= j < techs.len() ==> !p(#[trigger] techs[j]),
    ensures
        first_where(techs, p) is None,
    decreases techs.len(),
{
    if techs.len() > 0 {
        assert(!p(techs[0]));
        lemma_first_where_none(techs.drop_first(), p);
    }
}

/// What `first_where` finds lies in range and satisfies `p`.
proof fn lemma_first_where_sound(techs: Seq<TechInfo>, p: spec_fn(TechInfo) -> bool)
    ensures
        first_where(techs, p) matches Some(i) ==> 0 <= i < techs.len() && p(techs[i]),
    decreases techs.len(),
{
    if techs.len() > 0 && !p(techs[0]) {
        lemma_first_where_sound(techs.drop_first(), p);
    }
}

/// Where some technology satisfies `p`, `first_where` finds one.
proof fn lemma_first_where_some(techs: Seq<TechInfo>, p: spec_fn(TechInfo) -> bool, i: int)
    requires
        0 <= i < techs.len(),
        p(techs[i]),
    ensures
        first_where(techs, p) is Some,
    decreases i,
{
    if !p(techs[0]) {
        lemma_first_where_some(techs.drop_first(), p, i - 1);
    }
}

/// The technology has the key `key`.
pub open spec fn has_key(key: Seq<char>) -> spec_fn(TechInfo) -> bool {
    |t: TechInfo| t.key@ == key
}

/// The technology is under research.
pub open spec fn is_researching() -> spec_fn(TechInfo) -> bool {
    |t: TechInfo| t.researching
}

/// The technology is not done.
pub open spec fn is_unfinished() -> spec_fn(TechInfo) -> bool {
    |t: TechInfo| !t.completed
}

/// The position of the first technology with key `key`.
fn find_key(techs: &[TechInfo], key: &str) -> (r: Option<usize>)
    ensures
        match r {
            Some(i) => i < techs@.len() && first_where(techs@, has_key(key@)) == Some(i as int),
            None => first_where(techs@, has_key(key@)) is None,
        },
{
    let mut i: usize = 0;
    while i < techs.len()
        invariant
            i <= techs@.len(),
            forall|j: int| 0 <= j < i ==> !has_key(key@)(#[trigger] techs@[j]),
        decreases techs@.len() - i,
    {
        if str_eq(techs[i].key.as_str(), key) {
            proof {
                lemma_first_where_found(techs@, has_key(key@), i as int);
            }
            return Some(i);
        }
        i = i + 1;
    }
    proof {
        lemma_first_where_none(techs@, has_key(key@));
    }
    None
}

/// The position of the first technology under research.
fn find_researching(techs: &[TechInfo]) -> (r: Option<usize>)
    ensures
        match r {
            Some(i) => i < techs@.len() && first_where(techs@, is_researching()) == Some(i as int),
            None => first_where(techs@, is_researching()) is None,
        },
{
    let mut i: usize = 0;
    while i < techs.len()
        invariant
            i <= techs@.len(),
            forall|j: int| 0 <= j < i ==> !is_researching()(#[trigger] techs@[j]),
        decreases techs@.len() - i,
    {
        if techs[i].researching {
            proof {
                lemma_first_where_found(techs@, is_researching(), i as int);
            }
            return Some(i);
        }
        i = i + 1;
    }
    proof {
        lemma_first_where_none(techs@, is_researching());
    }
    None
}

/// The position of the first technology that is not done.
fn find_unfinished(techs: &[TechInfo]) -> (r: Option<usize>)
    ensures
        match r {
            Some(i) => i < techs@.len() && first_where(techs@, is_unfinished()) == Some(i as int),
            None => first_where(techs@, is_unfinished()) is None,
        },
{
    let mut i: usize = 0;
    while i < techs.len()
        invariant
            i <= techs@.len(),
            forall|j: int| 0 <= j < i ==> !is_unfinished()(#[trigger] techs@[j]),
        decreases techs@.len() - i,
    {
        if !techs[i].completed {
            proof {
                lemma_first_where_found(techs@, is_unfinished(), i as int);
            }
            return Some(i);
        }
        i = i + 1;
    }
    proof {
        lemma_first_where_none(techs@, is_unfinished());
    }
    None
}

/// The key of a position found among `techs`, if one was found.
pub open spec fn key_at(techs: Seq<TechInfo>, i: Option<int>) -> Option<Seq<char>> {
    match i {
        Some(j) => Some(techs[j].key@),
        None => None,
    }
}

/// The key the panel keeps selected: the previously selected key while some
/// technology has it; otherwise the key of the first technology under
/// research, else of the first that is not done, else of the first one, and
/// none when there is no technology.
pub open spec fn selected_key_spec(techs: Seq<TechInfo>, selected: Option<Seq<char>>) -> Option<
    Seq<char>,
> {
    if selected is Some && first_where(techs, has_key(selected.unwrap())) is Some {
        selected
    } else if first_where(techs, is_researching()) is Some {
        key_at(techs, first_where(techs, is_researching()))
    } else if first_where(techs, is_unfinished()) is Some {
        key_at(techs, first_where(techs, is_unfinished()))
    } else if techs.len() > 0 {
        Some(techs[0].key@)
    } else {
        None
    }
}

/// The view of an optional string.
pub open spec fn opt_string_view(s: Option<String>) -> Option<Seq<char>> {
    match s {
        Some(t) => Some(t@),
        None => None,
    }
}

/// The key of the technology the panel shows, from the key selected before.
pub fn research_selected_key(techs: &[TechInfo], selected: Option<&str>) -> (r: Option<String>)
    ensures
        opt_string_view(r) == selected_key_spec(
            techs@,
            match selected {
                Some(s) => Some(s@),
                None => None,
            },
        ),
{
    match selected {
        Some(key) => {
            if find_key(techs, key).is_some() {
                return Some(String::from_str(key));
            }
        },
        None => {},
    }
    match find_researching(techs) {
        Some(i) => return Some(techs[i].key.clone()),
        None => {},
    }
    match find_unfinished(techs) {
        Some(i) => return Some(techs[i].key.clone()),
        None => {},
    }
    if techs.len() > 0 {
        Some(techs[0].key.clone())
    } else {
        None
    }
}

/// The technology the detail card shows: the first with the selected key,
/// else the first under research, else the first one.
pub open spec fn shown_tech_spec(techs: Seq<TechInfo>, key: Option<Seq<char>>) -> Option<int> {
    if key is Some && first_where(techs, has_key(key.unwrap())) is Some {
        first_where(techs, has_key(key.unwrap()))
    } else if first_where(techs, is_researching()) is Some {
        first_where(techs, is_researching())
    } else if techs.len() > 0 {
        Some(0)
    } else {
        None
    }
}

/// The panel keeps a technology selected exactly when it has technologies,
/// the selected key then names one of them, and a key that still names a
/// technology stays selected.
pub proof fn lemma_selection_names_a_tech(techs: Seq<TechInfo>, selected: Option<Seq<char>>)
    ensures
        selected_key_spec(techs, selected) is Some <==> techs.len() > 0,
        selected_key_spec(techs, selected) matches Some(k) ==> exists|i: int|
            0 <= i < techs.len() && (#[trigger] techs[i]).key@ == k,
        selected matches Some(k) ==> ((exists|i: int|
            0 <= i < techs.len() && (#[trigger] techs[i]).key@ == k) ==> selected_key_spec(
            techs,
            selected,
        ) == selected),
{
    lemma_first_where_sound(techs, is_researching());
    lemma_first_where_sound(techs, is_unfinished());
    if selected is Some {
        let k = selected.unwrap();
        lemma_first_where_sound(techs, has_key(k));
        assert forall|i: int| 0 <= i < techs.len() && (#[trigger] techs[i]).key@ == k implies first_where(
            techs,
            has_key(k),
        ) is Some by {
            lemma_first_where_some(techs, has_key(k), i);
        }
    }
}

/// The position of the technology the detail card shows.
pub fn shown_tech_index(techs: &[TechInfo], key: Option<&str>) -> (r: Option<usize>)
    ensures
        match r {
            Some(i) => shown_tech_spec(
                techs@,
                match key {
                    Some(s) => Some(s@),
                    None => None,
                },
            ) == Some(i as int),
            None => shown_tech_spec(
                techs@,
                match key {
                    Some(s) => Some(s@),
                    None => None,
                },
            ) is None,
        },
        r is Some <==> techs@.len() > 0,
        r matches Some(i) ==> i < techs@.len(),
{
    match key {
        Some(k) => {
            match find_key(techs, k) {
                Some(i) => return Some(i),
                None => {},
            }
        },
        None => {},
    }
    match find_researching(techs) {
        Some(i) => return Some(i),
        None => {},
    }
    if techs.len() > 0 {
        Some(0)
    } else {
        None
    }
}

/// The number of technologies of `techs` that are done.
pub open spec fn completed_count(techs: Seq<TechInfo>) -> nat
    decreases techs.len(),
{
    if techs.len() == 0 {
        0
    } else {
        completed_count(techs.drop_last()) + if techs.last().completed {
            1nat
        } else {
            0nat
        }
    }
}

/// The number of technologies of `techs` that are not done and whose year
/// is later than `current_year`.
pub open spec fn ahead_count(techs: Seq<TechInfo>, current_year: u16) -> nat
    decreases techs.len(),
{
    if techs.len() == 0 {
        0
    } else {
        ahead_count(techs.drop_last(), current_year) + if !techs.last().completed
            && techs.last().start_year > current_year {
            1nat
        } else {
            0nat
        }
    }
}

/// How many technologies are done.
pub fn count_completed(techs: &[TechInfo]) -> (n: usize)
    ensures
        n == completed_count(techs@),
{
    let mut n: usize = 0;
    let mut i: usize = 0;
    while i < techs.len()
        invariant
            i <= techs@.len(),
            n == completed_count(techs@.take(i as int)),
            n <= i,
        decreases techs@.len() - i,
    {
        assert(techs@.take(i as int + 1).drop_last() =~= techs@.take(i as int));
        if techs[i].completed {
            n = n + 1;
        }
        i = i + 1;
    }
    assert(techs@.take(techs@.len() as int) =~= techs@);
    n
}

/// How many technologies are not done and ahead of the current year.
pub fn count_ahead(techs: &[TechInfo], current_year: u16) -> (n: usize)
    ensures
        n == ahead_count(techs@, current_year),
{
    let mut n: usize = 0;
    let mut i: usize = 0;
    while i < techs.len()
        invariant
            i <= techs@.len(),
            n == ahead_count(techs@.take(i as int), current_year),
            n <= i,
        decreases techs@.len() - i,
    {
        assert(techs@.take(i as int + 1).drop_last() =~= techs@.take(i as int));
        if !techs[i].completed && techs[i].start_year > current_year {
            n = n + 1;
        }
        i = i + 1;
    }
    assert(techs@.take(techs@.len() as int) =~= techs@);
    n
}

/// The positions, in order, of the technologies of category `category`.
pub open spec fn category_positions(techs: Seq<TechInfo>, category: Seq<char>) -> Seq<usize>
    decreases techs.len(),
{
    if techs.len() == 0 {
        Seq::empty()
    } else {
        let rest = category_positions(techs.drop_last(), category);
        if techs.last().category@ == category {
            rest.push((techs.len() - 1) as usize)
        } else {
            rest
        }
    }
}

/// The most technologies a row of the tree shows.
pub const TREE_ROW_LENGTH: usize = 5;

/// The first `n` items of `s`, or all of them when there are fewer.
pub open spec fn at_most(s: Seq<usize>, n: int) -> Seq<usize> {
    if s.len() <= n {
        s
    } else {
        s.take(n)
    }
}

/// The technologies in the tree's row of a category: the positions of the
/// first five technologies of that category, in order.
pub fn category_tree_row(techs: &[TechInfo], category: &str) -> (r: Vec<usize>)
    ensures
        r@ == at_most(category_positions(techs@, category@), 5),
{
    let mut out: Vec<usize> = Vec::new();
    let mut i: usize = 0;
    while i < techs.len()
        invariant
            i <= techs@.len(),
            out@ == at_most(category_positions(techs@.take(i as int), category@), 5),
        decreases techs@.len() - i,
    {
        let ghost before = category_positions(techs@.take(i as int), category@);
        assert(techs@.take(i as int + 1).drop_last() =~= techs@.take(i as int));
        if str_eq(techs[i].category.as_str(), category) {
            if out.len() < TREE_ROW_LENGTH {
                out.push(i);
                assert(out@ =~= at_most(before.push(i), 5));
            } else {
                assert(before.push(i).take(5) =~= before.take(5));
            }
        }
        i = i + 1;
    }
    assert(techs@.take(techs@.len() as int) =~= techs@);
    out
}

} // verus!
