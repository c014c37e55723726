//! Market panel: goods categories, secondary tabs, ledger titles, supply
//! source labels and the alert count that colours the panel.
use vstd::prelude::*;
use crate::color::Rgba8;
use crate::text::{
    any_contains, any_lower_contains, has_substring, join_spec, join_strings, lower_contains,
    lowered_query, str_eq, string_views, trim, unicode_lowercase,
};

verus! {

/// The category of a traded good.
#[derive(Clone, Copy, Debug, PartialEq, Eq, Structural)]
pub enum GoodCategory {
    RawMaterial,
    Intermediate,
    Consumer,
    Luxury,
    Service,
    MilitaryIntermediate,
}

/// The rank of a category in the goods table: raw materials first, then
/// intermediates, military intermediates, consumer goods, luxuries, services.
pub open spec fn category_rank(cat: GoodCategory) -> u8 {
    match cat {
        GoodCategory::RawMaterial => 0,
        GoodCategory::Intermediate => 1,
        GoodCategory::MilitaryIntermediate => 2,
        GoodCategory::Consumer => 3,
        GoodCategory::Luxury => 4,
        GoodCategory::Service => 5,
    }
}

/// The rank by which the goods table orders a category.
pub fn category_sort_order(cat: &GoodCategory) -> (r: u8)
    ensures
        r == category_rank(*cat),
{
    match cat {
        GoodCategory::RawMaterial => 0,
        GoodCategory::Intermediate => 1,
        GoodCategory::MilitaryIntermediate => 2,
        GoodCategory::Consumer => 3,
        GoodCategory::Luxury => 4,
        GoodCategory::Service => 5,
    }
}

/// Two categories share a rank only when they are the same, so the rank
/// orders the categories strictly and raw materials come before all others.
pub proof fn lemma_category_rank_strict(a: GoodCategory, b: GoodCategory)
    ensures
        category_rank(a) == category_rank(b) <==> a == b,
        a != GoodCategory::RawMaterial ==> category_rank(GoodCategory::RawMaterial) < category_rank(
            a,
        ),
        category_rank(a) <= 5,
{
}

/// The translation key of a category's caption.
pub open spec fn category_label_key_of(cat: GoodCategory) -> Seq<char> {
    match cat {
        GoodCategory::RawMaterial => "v6_good_raw_material"@,
        GoodCategory::Intermediate => "v6_good_intermediate"@,
        GoodCategory::Consumer => "v6_good_consumer"@,
        GoodCategory::Luxury => "v6_good_luxury"@,
        GoodCategory::Service => "v6_good_service"@,
        GoodCategory::MilitaryIntermediate => "v6_good_military_intermediate"@,
    }
}

/// The key under which the translations hold the caption of a category.
pub fn category_label_key(cat: &GoodCategory) -> (r: &'static str)
    ensures
        r@ == category_label_key_of(*cat),
{
    match cat {
        GoodCategory::RawMaterial => "v6_good_raw_material",
        GoodCategory::Intermediate => "v6_good_intermediate",
        GoodCategory::Consumer => "v6_good_consumer",
        GoodCategory::Luxury => "v6_good_luxury",
        GoodCategory::Service => "v6_good_service",
        GoodCategory::MilitaryIntermediate => "v6_good_military_intermediate",
    }
}

/// The swatch colour of a category: (red, green, blue).
pub open spec fn category_rgb(cat: GoodCategory) -> (u8, u8, u8) {
    match cat {
        GoodCategory::RawMaterial => (0x80, 0xa0, 0x50),
        GoodCategory::Intermediate => (0x60, 0x90, 0xb0),
        GoodCategory::Consumer => (0xc0, 0xa0, 0x30),
        GoodCategory::Luxury => (0xb0, 0x70, 0xc0),
        GoodCategory::Service => (0x50, 0xb0, 0x90),
        GoodCategory::MilitaryIntermediate => (0xa0, 0x50, 0x50),
    }
}

/// The opaque swatch colour of a category.
pub fn category_color(cat: &GoodCategory) -> (c: Rgba8)
    ensures
        (c.r, c.g, c.b) == category_rgb(*cat),
        c.a == 255,
{
    match cat {
        GoodCategory::RawMaterial => Rgba8::from_rgb(0x80, 0xa0, 0x50),
        GoodCategory::Intermediate => Rgba8::from_rgb(0x60, 0x90, 0xb0),
        GoodCategory::Consumer => Rgba8::from_rgb(0xc0, 0xa0, 0x30),
        GoodCategory::Luxury => Rgba8::from_rgb(0xb0, 0x70, 0xc0),
        GoodCategory::Service => Rgba8::from_rgb(0x50, 0xb0, 0x90),
        GoodCategory::MilitaryIntermediate => Rgba8::from_rgb(0xa0, 0x50, 0x50),
    }
}

/// Where a share of a good's supply comes from.
#[derive(Clone, Copy, Debug, PartialEq, Eq, Structural)]
pub enum GoodSupplySourceKind {
    Domestic,
    MarketBloc,
    Subject,
    WorldSpot,
    Stockpile,
}

/// The label of a supply source.
pub open spec fn supply_source_label(kind: GoodSupplySourceKind) -> Seq<char> {
    match kind {
        GoodSupplySourceKind::Domestic => "国内"@,
        GoodSupplySourceKind::MarketBloc => "市场圈"@,
        GoodSupplySourceKind::Subject => "殖民/傀儡"@,
        GoodSupplySourceKind::WorldSpot => "世界现货"@,
        GoodSupplySourceKind::Stockpile => "库存"@,
    }
}

/// The label shown for a supply source.
pub fn supply_source_kind_label(kind: GoodSupplySourceKind) -> (r: &'static str)
    ensures
        r@ == supply_source_label(kind),
{
    match kind {
        GoodSupplySourceKind::Domestic => "国内",
        GoodSupplySourceKind::MarketBloc => "市场圈",
        GoodSupplySourceKind::Subject => "殖民/傀儡",
        GoodSupplySourceKind::WorldSpot => "世界现货",
        GoodSupplySourceKind::Stockpile => "库存",
    }
}

/// A suggested market action.
#[derive(Clone, Debug)]
pub struct MarketActionEntry {
    pub title: String,
    pub description: String,
    pub related_good_id: Option<String>,
    pub priority: u8,
}

/// How serious a market alert is.
#[derive(Clone, Copy, Debug, PartialEq, Eq, Structural)]
pub enum MarketAlertSeverity {
    Info,
    Warning,
    Critical,
}

/// A market alert.
#[derive(Clone, Debug)]
pub struct MarketAlertEntry {
    pub severity: MarketAlertSeverity,
    pub good_id: String,
    pub title: String,
    pub description: String,
}

/// The number of critical alerts among `alerts`.
pub open spec fn critical_count(alerts: Seq<MarketAlertEntry>) -> nat
    decreases alerts.len(),
{
    if alerts.len() == 0 {
        0
    } else {
        critical_count(alerts.drop_last()) + if alerts.last().severity
            == MarketAlertSeverity::Critical {
            1nat
        } else {
            0nat
        }
    }
}

/// How many alerts are critical; the panel turns red when there is one.
pub fn count_critical_alerts(alerts: &[MarketAlertEntry]) -> (n: usize)
    ensures
        n == critical_count(alerts@),
{
    let mut n: usize = 0;
    let mut i: usize = 0;
    while i < alerts.len()
        invariant
            i <= alerts@.len(),
            n == critical_count(alerts@.take(i as int)),
            n <= i,
        decreases alerts@.len() - i,
    {
        assert(alerts@.take(i as int + 1).drop_last() =~= alerts@.take(i as int));
        if alerts[i].severity == MarketAlertSeverity::Critical {
            n = n + 1;
        }
        i = i + 1;
    }
    assert(alerts@.take(alerts@.len() as int) =~= alerts@);
    n
}

/// The footer of the market panel.
pub const MARKET_V9_FOOTER: &'static str = "Q 关闭 | 商品表 / 商品详情";

/// A tab of the market panel.
#[derive(Clone, Copy, Debug, PartialEq, Eq, Structural)]
pub enum MarketPanelTab {
    Overview,
    Shortages,
    Goods,
    IndustryChain,
    MarketBloc,
    Subjects,
    Trade,
    Actions,
}

/// The order in which the tabs are shown.
pub open spec fn tab_order() -> Seq<MarketPanelTab> {
    seq![
        MarketPanelTab::Overview,
        MarketPanelTab::Shortages,
        MarketPanelTab::Goods,
        MarketPanelTab::IndustryChain,
        MarketPanelTab::Trade,
        MarketPanelTab::MarketBloc,
        MarketPanelTab::Subjects,
        MarketPanelTab::Actions,
    ]
}

/// The identifier of a tab.
pub open spec fn tab_id(tab: MarketPanelTab) -> Seq<char> {
    match tab {
        MarketPanelTab::Overview => "overview"@,
        MarketPanelTab::Shortages => "shortages"@,
        MarketPanelTab::Goods => "goods"@,
        MarketPanelTab::IndustryChain => "industry_chain"@,
        MarketPanelTab::MarketBloc => "market_bloc"@,
        MarketPanelTab::Subjects => "subjects"@,
        MarketPanelTab::Trade => "trade"@,
        MarketPanelTab::Actions => "actions"@,
    }
}

/// The caption of a tab.
pub open spec fn tab_label(tab: MarketPanelTab) -> Seq<char> {
    match tab {
        MarketPanelTab::Overview => "总览"@,
        MarketPanelTab::Shortages => "短缺"@,
        MarketPanelTab::Goods => "商品"@,
        MarketPanelTab::IndustryChain => "产业链"@,
        MarketPanelTab::Trade => "进口出口"@,
        MarketPanelTab::MarketBloc => "市场圈"@,
        MarketPanelTab::Subjects => "殖民/傀儡供给"@,
        MarketPanelTab::Actions => "行动建议"@,
    }
}

/// The tab an identifier selects: the first tab, in display order, with that
/// identifier, and the overview for an identifier that no tab has.
pub open spec fn tab_from_id(id: Seq<char>) -> MarketPanelTab {
    if id == tab_id(MarketPanelTab::Overview) {
        MarketPanelTab::Overview
    } else if id == tab_id(MarketPanelTab::Shortages) {
        MarketPanelTab::Shortages
    } else if id == tab_id(MarketPanelTab::Goods) {
        MarketPanelTab::Goods
    } else if id == tab_id(MarketPanelTab::IndustryChain) {
        MarketPanelTab::IndustryChain
    } else if id == tab_id(MarketPanelTab::Trade) {
        MarketPanelTab::Trade
    } else if id == tab_id(MarketPanelTab::MarketBloc) {
        MarketPanelTab::MarketBloc
    } else if id == tab_id(MarketPanelTab::Subjects) {
        MarketPanelTab::Subjects
    } else if id == tab_id(MarketPanelTab::Actions) {
        MarketPanelTab::Actions
    } else {
        MarketPanelTab::Overview
    }
}

/// The tabs in display order.
pub fn market_v9_tab_order() -> (r: [MarketPanelTab; 8])
    ensures
        r@ == tab_order(),
{
    let r = [
        MarketPanelTab::Overview,
        MarketPanelTab::Shortages,
        MarketPanelTab::Goods,
        MarketPanelTab::IndustryChain,
        MarketPanelTab::Trade,
        MarketPanelTab::MarketBloc,
        MarketPanelTab::Subjects,
        MarketPanelTab::Actions,
    ];
    assert(r@ =~= tab_order());
    r
}

impl MarketPanelTab {
    /// The identifier of the tab.
    pub fn id(self) -> (r: &'static str)
        ensures
            r@ == tab_id(self),
    {
        match self {
            MarketPanelTab::Overview => "overview",
            MarketPanelTab::Shortages => "shortages",
            MarketPanelTab::Goods => "goods",
            MarketPanelTab::IndustryChain => "industry_chain",
            MarketPanelTab::MarketBloc => "market_bloc",
            MarketPanelTab::Subjects => "subjects",
            MarketPanelTab::Trade => "trade",
            MarketPanelTab::Actions => "actions",
        }
    }

    /// The caption of the tab.
    pub fn label(self) -> (r: &'static str)
        ensures
            r@ == tab_label(self),
    {
        match self {
            MarketPanelTab::Overview => "总览",
            MarketPanelTab::Shortages => "短缺",
            MarketPanelTab::Goods => "商品",
            MarketPanelTab::IndustryChain => "产业链",
            MarketPanelTab::Trade => "进口出口",
            MarketPanelTab::MarketBloc => "市场圈",
            MarketPanelTab::Subjects => "殖民/傀儡供给",
            MarketPanelTab::Actions => "行动建议",
        }
    }

    /// The tab with identifier `id`; the overview when no tab has it.
    pub fn from_id(id: &str) -> (r: MarketPanelTab)
        ensures
            r == tab_from_id(id@),
    {
        let order = market_v9_tab_order();
        let mut i: usize = 0;
        while i < 8
            invariant
                i <= 8,
                order@ == tab_order(),
                forall|j: int| 0 <= j < i ==> id@ != tab_id(#[trigger] tab_order()[j]),
            decreases 8 - i,
        {
            let tab = order[i];
            if str_eq(tab.id(), id) {
                return tab;
            }
            i = i + 1;
        }
        MarketPanelTab::Overview
    }
}

/// The identifier and caption of every tab, in display order.
pub fn market_v9_secondary_tabs() -> (r: [(&'static str, &'static str); 8])
    ensures
        forall|i: int|
            0 <= i < 8 ==> (#[trigger] r@[i]).0@ == tab_id(tab_order()[i]) && r@[i].1@ == tab_label(
                tab_order()[i],
            ),
{
    let order = market_v9_tab_order();
    [
        (order[0].id(), order[0].label()),
        (order[1].id(), order[1].label()),
        (order[2].id(), order[2].label()),
        (order[3].id(), order[3].label()),
        (order[4].id(), order[4].label()),
        (order[5].id(), order[5].label()),
        (order[6].id(), order[6].label()),
        (order[7].id(), order[7].label()),
    ]
}

/// Tab identifiers are distinct, so reading back the identifier of a tab
/// gives the same tab.
pub proof fn lemma_tab_id_round_trip(tab: MarketPanelTab)
    ensures
        tab_from_id(tab_id(tab)) == tab,
{
    reveal_strlit("overview");
    reveal_strlit("shortages");
    reveal_strlit("goods");
    reveal_strlit("industry_chain");
    reveal_strlit("market_bloc");
    reveal_strlit("subjects");
    reveal_strlit("trade");
    reveal_strlit("actions");
    assert("overview"@.len() == 8 && "overview"@[0] == 'o');
    assert("shortages"@.len() == 9 && "shortages"@[0] == 's');
    assert("goods"@.len() == 5 && "goods"@[0] == 'g');
    assert("industry_chain"@.len() == 14);
    assert("market_bloc"@.len() == 11);
    assert("subjects"@.len() == 8 && "subjects"@[0] == 's');
    assert("trade"@.len() == 5 && "trade"@[0] == 't');
    assert("actions"@.len() == 7);
}

/// The title of the goods ledger for a tab.
pub open spec fn ledger_title(tab: MarketPanelTab) -> Seq<char> {
    match tab {
        MarketPanelTab::Overview => "市场商品总览"@,
        MarketPanelTab::Shortages => "短缺商品"@,
        MarketPanelTab::Goods => "全部商品"@,
        MarketPanelTab::IndustryChain => "产业链相关商品"@,
        MarketPanelTab::MarketBloc => "市场圈商品"@,
        MarketPanelTab::Subjects => "殖民/傀儡供给商品"@,
        MarketPanelTab::Trade => "进出口商品"@,
        MarketPanelTab::Actions => "行动建议相关商品"@,
    }
}

/// The title of the goods ledger for a tab.
pub fn market_ledger_title(tab: MarketPanelTab) -> (r: &'static str)
    ensures
        r@ == ledger_title(tab),
{
    match tab {
        MarketPanelTab::Overview => "市场商品总览",
        MarketPanelTab::Shortages => "短缺商品",
        MarketPanelTab::Goods => "全部商品",
        MarketPanelTab::IndustryChain => "产业链相关商品",
        MarketPanelTab::MarketBloc => "市场圈商品",
        MarketPanelTab::Subjects => "殖民/傀儡供给商品",
        MarketPanelTab::Trade => "进出口商品",
        MarketPanelTab::Actions => "行动建议相关商品",
    }
}

/// A production chain as shown: the goods joined by ` -> `, or `无` (none)
/// when there are no goods.
pub fn display_chain(goods: &[String]) -> (r: String)
    ensures
        goods@.len() == 0 ==> r@ == "无"@,
        goods@.len() > 0 ==> r@ == join_spec(string_views(goods@), " -> "@),
{
    if goods.len() == 0 {
        String::from_str("无")
    } else {
        join_strings(goods, " -> ")
    }
}

// ───────────────────────── goods lookups and search ─────────────────────────

/// A good as the lookups by id see it: its id and its display name.
#[derive(Clone, Debug)]
pub struct GoodLabel {
    pub id: String,
    pub name: String,
}

/// The display name of the good with id `id`: the name of the first good of
/// `goods` with that id, or `未知商品` (unknown good) when there is none.
pub open spec fn good_display_name(goods: Seq<GoodLabel>, id: Seq<char>) -> Seq<char>
    decreases goods.len(),
{
    if goods.len() == 0 {
        "未知商品"@
    } else if goods[0].id@ == id {
        goods[0].name@
    } else {
        good_display_name(goods.drop_first(), id)
    }
}

/// The name under which an action names its related good.
pub fn related_good_display_name(goods: &[GoodLabel], good_id: &str) -> (r: String)
    ensures
        r@ == good_display_name(goods@, good_id@),
{
    let mut i: usize = 0;
    assert(goods@.subrange(0, goods@.len() as int) =~= goods@);
    while i < goods.len()
        invariant
            i <= goods@.len(),
            good_display_name(goods@, good_id@) == good_display_name(
                goods@.subrange(i as int, goods@.len() as int),
                good_id@,
            ),
        decreases goods@.len() - i,
    {
        assert(goods@.subrange(i as int, goods@.len() as int).drop_first() =~= goods@.subrange(
            i as int + 1,
            goods@.len() as int,
        ));
        if str_eq(goods[i].id.as_str(), good_id) {
            return goods[i].name.clone();
        }
        i = i + 1;
    }
    String::from_str("未知商品")
}

/// Some action of `fixes` has the lower-cased query `q` in its lower-cased
/// title or description.
pub open spec fn any_action_hit(fixes: Seq<MarketActionEntry>, q: Seq<char>) -> bool {
    exists|i: int|
        0 <= i < fixes.len() && (has_substring(unicode_lowercase((#[trigger] fixes[i]).title@), q)
            || has_substring(unicode_lowercase(fixes[i].description@), q))
}

/// A good passes the search `search` when the trimmed, lower-cased search is
/// empty, or occurs in the lower-cased name, category caption, one of the
/// related names (producers, consumers, government orders, affected
/// buildings, POP classes and demand buckets), the shortage reason, or the
/// title or description of a suggested fix.
pub open spec fn good_search_hit(
    name: Seq<char>,
    category_label: Seq<char>,
    related_names: Seq<String>,
    shortage_reason: Seq<char>,
    fixes: Seq<MarketActionEntry>,
    search: Seq<char>,
) -> bool {
    let q = unicode_lowercase(trim(search));
    q.len() == 0 || has_substring(unicode_lowercase(name), q) || has_substring(
        unicode_lowercase(category_label),
        q,
    ) || any_lower_contains(related_names, q) || has_substring(
        unicode_lowercase(shortage_reason),
        q,
    ) || any_action_hit(fixes, q)
}

/// Whether some suggested fix mentions the lower-cased query `q`.
fn any_fix_contains(fixes: &[MarketActionEntry], q: &Vec<char>) -> (r: bool)
    ensures
        r == any_action_hit(fixes@, q@),
{
    let mut i: usize = 0;
    while i < fixes.len()
        invariant
            i <= fixes@.len(),
            forall|j: int|
                0 <= j < i ==> !(has_substring(unicode_lowercase((#[trigger] fixes@[j]).title@), q@)
                    || has_substring(unicode_lowercase(fixes@[j].description@), q@)),
        decreases fixes@.len() - i,
    {
        if lower_contains(fixes[i].title.as_str(), q) || lower_contains(
            fixes[i].description.as_str(),
            q,
        ) {
            return true;
        }
        i = i + 1;
    }
    false
}

/// Whether a good with these texts passes the search box's query;
/// `category_label` is the translated caption of the good's category.
pub fn good_matches_search(
    name: &str,
    category_label: &str,
    related_names: &[String],
    shortage_reason: &str,
    fixes: &[MarketActionEntry],
    search: &str,
) -> (r: bool)
    ensures
        r == good_search_hit(
            name@,
            category_label@,
            related_names@,
            shortage_reason@,
            fixes@,
            search@,
        ),
{
    let q = lowered_query(search);
    if q.len() == 0 {
        return true;
    }
    lower_contains(name, &q) || lower_contains(category_label, &q) || any_contains(
        related_names,
        &q,
    ) || lower_contains(shortage_reason, &q) || any_fix_contains(fixes, &q)
}

/// Some supply source of the good is the market bloc.
pub open spec fn has_bloc_source(kinds: Seq<GoodSupplySourceKind>) -> bool {
    exists|i: int| 0 <= i < kinds.len() && kinds[i] == GoodSupplySourceKind::MarketBloc
}

/// Some suggested action names the good `good_id` as its related good.
pub open spec fn has_related_action(actions: Seq<MarketActionEntry>, good_id: Seq<char>) -> bool {
    exists|i: int|
        0 <= i < actions.len() && ((#[trigger] actions[i]).related_good_id matches Some(g) && g@
            == good_id)
}

/// A good stays in the goods list of a tab: every good on the overview, goods
/// and market-bloc tabs; a good short of supply on the shortages tab; a good
/// with upstream or downstream goods or affected buildings on the industry
/// chain tab; a good the market bloc supplies on the subjects tab; a good
/// that is traded or blockaded on the trade tab; a good an action names on
/// the actions tab. `has_shortage` and `has_trade` are the two facts measured
/// in amounts of the good.
pub open spec fn tab_keeps_good(
    tab: MarketPanelTab,
    has_shortage: bool,
    has_trade: bool,
    upstream_count: usize,
    downstream_count: usize,
    affected_building_count: usize,
    source_kinds: Seq<GoodSupplySourceKind>,
    good_id: Seq<char>,
    actions: Seq<MarketActionEntry>,
) -> bool {
    match tab {
        MarketPanelTab::Overview | MarketPanelTab::Goods | MarketPanelTab::MarketBloc => true,
        MarketPanelTab::Shortages => has_shortage,
        MarketPanelTab::IndustryChain => upstream_count > 0 || downstream_count > 0
            || affected_building_count > 0,
        MarketPanelTab::Subjects => has_bloc_source(source_kinds),
        MarketPanelTab::Trade => has_trade,
        MarketPanelTab::Actions => has_related_action(actions, good_id),
    }
}

/// The overview, goods and market-bloc tabs list every good, whatever its
/// shortage, trade, chain links, supply sources and actions; the other tabs
/// keep a good only for what they are about.
pub proof fn lemma_full_tabs_keep_every_good(
    tab: MarketPanelTab,
    has_shortage: bool,
    has_trade: bool,
    upstream_count: usize,
    downstream_count: usize,
    affected_building_count: usize,
    source_kinds: Seq<GoodSupplySourceKind>,
    good_id: Seq<char>,
    actions: Seq<MarketActionEntry>,
)
    ensures
        tab == MarketPanelTab::Overview || tab == MarketPanelTab::Goods || tab
            == MarketPanelTab::MarketBloc ==> tab_keeps_good(
            tab,
            has_shortage,
            has_trade,
            upstream_count,
            downstream_count,
            affected_building_count,
            source_kinds,
            good_id,
            actions,
        ),
        tab == MarketPanelTab::Shortages ==> (tab_keeps_good(
            tab,
            has_shortage,
            has_trade,
            upstream_count,
            downstream_count,
            affected_building_count,
            source_kinds,
            good_id,
            actions,
        ) == has_shortage),
        tab == MarketPanelTab::Trade ==> (tab_keeps_good(
            tab,
            has_shortage,
            has_trade,
            upstream_count,
            downstream_count,
            affected_building_count,
            source_kinds,
            good_id,
            actions,
        ) == has_trade),
        tab == MarketPanelTab::Subjects ==> (tab_keeps_good(
            tab,
            has_shortage,
            has_trade,
            upstream_count,
            downstream_count,
            affected_building_count,
            source_kinds,
            good_id,
            actions,
        ) == source_kinds.contains(GoodSupplySourceKind::MarketBloc)),
{
    if tab == MarketPanelTab::Subjects {
        if source_kinds.contains(GoodSupplySourceKind::MarketBloc) {
            let k = choose|k: int| 0 <= k < source_kinds.len() && source_kinds[k]
                == GoodSupplySourceKind::MarketBloc;
            assert(has_bloc_source(source_kinds));
        }
    }
}

/// Whether some supply source is the market bloc.
fn any_bloc_source(source_kinds: &[GoodSupplySourceKind]) -> (r: bool)
    ensures
        r == has_bloc_source(source_kinds@),
{
    let mut i: usize = 0;
    while i < source_kinds.len()
        invariant
            i <= source_kinds@.len(),
            forall|j: int| 0 <= j < i ==> source_kinds@[j] != GoodSupplySourceKind::MarketBloc,
        decreases source_kinds@.len() - i,
    {
        if source_kinds[i] == GoodSupplySourceKind::MarketBloc {
            return true;
        }
        i = i + 1;
    }
    false
}

/// Whether some action names `good_id` as its related good.
fn any_related_action(actions: &[MarketActionEntry], good_id: &str) -> (r: bool)
    ensures
        r == has_related_action(actions@, good_id@),
{
    let mut i: usize = 0;
    while i < actions.len()
        invariant
            i <= actions@.len(),
            forall|j: int|
                0 <= j < i ==> !((#[trigger] actions@[j]).related_good_id matches Some(g) && g@
                    == good_id@),
        decreases actions@.len() - i,
    {
        match &actions[i].related_good_id {
            Some(g) => {
                if str_eq(g.as_str(), good_id) {
                    return true;
                }
            },
            None => {},
        }
        i = i + 1;
    }
    false
}

/// Whether a good stays in the goods list of `tab`.
pub fn market_tab_keeps_good(
    tab: MarketPanelTab,
    has_shortage: bool,
    has_trade: bool,
    upstream_count: usize,
    downstream_count: usize,
    affected_building_count: usize,
    source_kinds: &[GoodSupplySourceKind],
    good_id: &str,
    actions: &[MarketActionEntry],
) -> (r: bool)
    ensures
        r == tab_keeps_good(
            tab,
            has_shortage,
            has_trade,
            upstream_count,
            downstream_count,
            affected_building_count,
            source_kinds@,
            good_id@,
            actions@,
        ),
{
    match tab {
        MarketPanelTab::Overview | MarketPanelTab::Goods | MarketPanelTab::MarketBloc => true,
        MarketPanelTab::Shortages => has_shortage,
        MarketPanelTab::IndustryChain => upstream_count > 0 || downstream_count > 0
            || affected_building_count > 0,
        MarketPanelTab::Subjects => any_bloc_source(source_kinds),
        MarketPanelTab::Trade => has_trade,
        MarketPanelTab::Actions => any_related_action(actions, good_id),
    }
}

/// The market panel.
pub struct MarketPanel;

} // verus!
