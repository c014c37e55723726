//! Military panel: army status captions and colours, the template picker
//! targets, generals and the army painter mode.
use vstd::prelude::*;
use crate::color::PaletteColor;
use crate::panel::PanelRequest;
use crate::text::{decimal_string, decimal_text, join_spec, join_strings, str_eq, string_views};

verus! {

/// The slot of a division template that the sub-unit picker fills.
#[derive(Clone, Copy, Debug, PartialEq, Eq, Structural)]
pub enum TemplatePickerTarget {
    Line { template: u16, row: u8, col: u8 },
    Support { template: u16, slot: u8 },
}

/// The state of the sub-unit picker window.
pub struct TemplateSubunitPickerData {
    pub target: Option<TemplatePickerTarget>,
    pub title: String,
    pub current: Option<String>,
    pub choices: Vec<String>,
}

/// A general that can lead an army.
pub struct GeneralEntry {
    pub id: u32,
    pub name: String,
    pub skill: u8,
    pub attack: u8,
    pub defense: u8,
    pub planning: u8,
    pub logistics: u8,
    pub command_limit: u16,
    pub assigned_army_id: Option<u32>,
}

/// What the map painter is drawing for an army.
#[derive(Clone, Copy, Debug, PartialEq, Eq, Structural)]
pub enum PainterModeInfo {
    Idle,
    ArmyPainter(u32),
    ArrowPainter(u32),
}

/// The facts about an army that its status shows.
#[derive(Clone, Copy, Debug, PartialEq, Eq, Structural)]
pub struct ArmyStatusView {
    pub member_count: usize,
    pub command_limit: Option<u16>,
    pub executing: bool,
    pub has_arrow: bool,
    pub has_path: bool,
    pub active: bool,
}

/// The army has more divisions than its commander may lead.
pub open spec fn over_limit(army: ArmyStatusView) -> bool {
    match army.command_limit {
        Some(limit) => army.member_count > limit as usize,
        None => false,
    }
}

/// Whether the army has more divisions than its commander may lead.
pub fn army_over_limit(army: &ArmyStatusView) -> (r: bool)
    ensures
        r == over_limit(*army),
{
    match army.command_limit {
        Some(limit) => army.member_count > limit as usize,
        None => false,
    }
}

/// The status of an army, by priority: over the command limit, executing its
/// plan, plan ready (arrow drawn), front line drawn, moving, idle.
pub enum ArmyStatus {
    OverLimit,
    Executing,
    PlanReady,
    HasFrontline,
    Active,
    Idle,
}

/// The status of an army.
pub open spec fn army_status(army: ArmyStatusView) -> ArmyStatus {
    if over_limit(army) {
        ArmyStatus::OverLimit
    } else if army.executing {
        ArmyStatus::Executing
    } else if army.has_arrow {
        ArmyStatus::PlanReady
    } else if army.has_path {
        ArmyStatus::HasFrontline
    } else if army.active {
        ArmyStatus::Active
    } else {
        ArmyStatus::Idle
    }
}

/// The caption of an army status.
pub open spec fn army_status_caption(status: ArmyStatus) -> Seq<char> {
    match status {
        ArmyStatus::OverLimit => "超限"@,
        ArmyStatus::Executing => "执行中"@,
        ArmyStatus::PlanReady => "计划就绪"@,
        ArmyStatus::HasFrontline => "已有前线"@,
        ArmyStatus::Active => "行动中"@,
        ArmyStatus::Idle => "待命"@,
    }
}

/// The palette colour of an army status.
pub open spec fn army_status_palette(status: ArmyStatus) -> PaletteColor {
    match status {
        ArmyStatus::OverLimit => PaletteColor::Bad,
        ArmyStatus::Executing => PaletteColor::Good,
        ArmyStatus::PlanReady => PaletteColor::GoldHot,
        ArmyStatus::HasFrontline => PaletteColor::Gold,
        ArmyStatus::Active => PaletteColor::Info,
        ArmyStatus::Idle => PaletteColor::Muted,
    }
}

/// The caption of an army's status.
pub fn army_status_label(army: &ArmyStatusView) -> (r: &'static str)
    ensures
        r@ == army_status_caption(army_status(*army)),
{
    if army_over_limit(army) {
        "超限"
    } else if army.executing {
        "执行中"
    } else if army.has_arrow {
        "计划就绪"
    } else if army.has_path {
        "已有前线"
    } else if army.active {
        "行动中"
    } else {
        "待命"
    }
}

/// The colour of an army's status.
pub fn army_status_color(army: &ArmyStatusView) -> (r: PaletteColor)
    ensures
        r == army_status_palette(army_status(*army)),
{
    if army_over_limit(army) {
        PaletteColor::Bad
    } else if army.executing {
        PaletteColor::Good
    } else if army.has_arrow {
        PaletteColor::GoldHot
    } else if army.has_path {
        PaletteColor::Gold
    } else if army.active {
        PaletteColor::Info
    } else {
        PaletteColor::Muted
    }
}

/// The accent of the military panel: amber while the painter draws, green
/// while some army executes its plan, brass otherwise.
pub fn military_panel_accent(mode: PainterModeInfo, executing_armies: usize) -> (r: PaletteColor)
    ensures
        r == if mode != PainterModeInfo::Idle {
            PaletteColor::Warn
        } else if executing_armies > 0 {
            PaletteColor::Good
        } else {
            PaletteColor::BrassBright
        },
{
    match mode {
        PainterModeInfo::ArmyPainter(_) | PainterModeInfo::ArrowPainter(_) => PaletteColor::Warn,
        PainterModeInfo::Idle => if executing_armies > 0 {
            PaletteColor::Good
        } else {
            PaletteColor::BrassBright
        },
    }
}

/// What the military panel asks the game to do.
#[derive(Debug)]
pub enum MilitaryCommand {
    Train(u16),
    NewTemplate,
    OpenTemplateEditor(u16),
    CloseTemplateEditor,
    OpenLineSubunitPicker { template: u16, row: u8, col: u8 },
    OpenSupportSubunitPicker { template: u16, slot: u8 },
    CloseSubunitPicker,
    SelectTemplate(u16),
    RenameTemplate(u16, String),
    CloneTemplate(u16),
    DeleteTemplate(u16),
    AddLineBattalion(u16, String),
    AddSupportCompany(u16, String),
    SetLineBattalion { template: u16, row: u8, col: u8, subunit: Option<String> },
    SetSupportCompany { template: u16, slot: u8, subunit: Option<String> },
    CreateArmy,
    DissolveArmy(u32),
    AddMembers(u32),
    RemoveMembers(u32),
    DrawFrontline(u32),
    ClearFrontline(u32),
    DrawArrow(u32),
    ClearArrow(u32),
    ExecutePlan(u32),
    HaltPlan(u32),
    AssignGeneral { army_id: u32, general_id: u32 },
    UnassignGeneral(u32),
    ToggleOverlay,
    SelectArmy(u32),
    ClearArmySelection,
    AddSelectedDivisionsToArmy(u32),
    ToggleDivisionSelection(usize),
    SelectAllDivisions,
    /// Open another panel.
    Panel(PanelRequest),
}

/// The facts about the selected army that its order buttons depend on.
#[derive(Clone, Copy, Debug, PartialEq, Eq, Structural)]
pub struct ArmyOrderView {
    pub id: u32,
    pub has_path: bool,
    pub has_arrow: bool,
    pub executing: bool,
}

/// What the bottom bar shows and allows.
#[derive(Clone, Copy, Debug, PartialEq, Eq, Structural)]
pub struct BottomBarState {
    /// The selected army, when one is selected and known.
    pub selected_army: Option<ArmyOrderView>,
    pub selected_division_count: usize,
    pub active_army_count: usize,
    pub max_armies_per_country: usize,
}

/// A control of the bottom bar that the player used.
#[derive(Clone, Copy, Debug, PartialEq, Eq, Structural)]
pub enum BottomBarAction {
    /// The "no general" entry of the commander box.
    UnassignGeneral,
    /// A general of the commander box, with the army it already leads.
    AssignGeneral { general_id: u32, assigned_army_id: Option<u32> },
    DrawFrontline,
    DrawArrow,
    /// The button that halts an executing plan or executes a ready one.
    ExecuteOrHalt,
    ClearFrontline,
    ClearArrow,
    AddMembers,
    RemoveMembers,
    Dissolve,
    /// A click on the army card at this position of the card tray.
    SelectArmy(usize),
    /// A secondary click on the army card at this position of the tray.
    AddDivisionsTo(usize),
    /// The slot that creates a new army.
    CreateArmy,
    ToggleOverlay,
}

/// A new army can be created: divisions are selected and the country has
/// fewer armies than it may have.
pub open spec fn can_create_army(state: BottomBarState) -> bool {
    state.selected_division_count > 0 && state.active_army_count < state.max_armies_per_country
}

/// The number of army cards the bottom bar's tray shows.
pub const ARMY_CARD_LIMIT: usize = 8;

/// The army whose card stands at position `card` of the tray: only the first
/// eight armies get a card.
pub open spec fn card_army(army_ids: Seq<u32>, card: usize) -> Option<u32> {
    if card < 8 && card < army_ids.len() {
        Some(army_ids[card as int])
    } else {
        None
    }
}

/// The ids of the armies that get a card in the tray: the first eight
/// armies, in order.
pub fn army_card_ids(army_ids: &[u32]) -> (r: Vec<u32>)
    ensures
        r@ == army_ids@.take(
            if army_ids@.len() < 8 {
                army_ids@.len() as int
            } else {
                8
            },
        ),
{
    let n: usize = if army_ids.len() < ARMY_CARD_LIMIT {
        army_ids.len()
    } else {
        ARMY_CARD_LIMIT
    };
    let mut out: Vec<u32> = Vec::new();
    let mut i: usize = 0;
    while i < n
        invariant
            n <= army_ids@.len(),
            i <= n,
            out@ == army_ids@.take(i as int),
        decreases n - i,
    {
        out.push(army_ids[i]);
        assert(out@ =~= army_ids@.take(i as int + 1));
        i = i + 1;
    }
    out
}

/// The command a control of the bottom bar gives, where `army_ids` are the
/// ids of the country's armies in order; `None` where the control is absent
/// (an army card past the eighth, the army tools without a selected army) or
/// disabled.
pub open spec fn bottom_bar_spec(state: BottomBarState, army_ids: Seq<u32>, action: BottomBarAction) -> Option<
    MilitaryCommand,
> {
    match action {
        BottomBarAction::SelectArmy(card) => match card_army(army_ids, card) {
            Some(id) => Some(MilitaryCommand::SelectArmy(id)),
            None => None,
        },
        BottomBarAction::AddDivisionsTo(card) => match card_army(army_ids, card) {
            Some(id) => if state.selected_division_count > 0 {
                Some(MilitaryCommand::AddSelectedDivisionsToArmy(id))
            } else {
                None
            },
            None => None,
        },
        BottomBarAction::CreateArmy => if can_create_army(state) {
            Some(MilitaryCommand::CreateArmy)
        } else {
            None
        },
        BottomBarAction::ToggleOverlay => Some(MilitaryCommand::ToggleOverlay),
        _ => match state.selected_army {
            None => None,
            Some(army) => match action {
                BottomBarAction::UnassignGeneral => Some(MilitaryCommand::UnassignGeneral(army.id)),
                BottomBarAction::AssignGeneral { general_id, assigned_army_id } => {
                    if assigned_army_id.is_some() && assigned_army_id.unwrap() != army.id {
                        None
                    } else {
                        Some(MilitaryCommand::AssignGeneral { army_id: army.id, general_id })
                    }
                },
                BottomBarAction::DrawFrontline => Some(MilitaryCommand::DrawFrontline(army.id)),
                BottomBarAction::DrawArrow => if army.has_path {
                    Some(MilitaryCommand::DrawArrow(army.id))
                } else {
                    None
                },
                BottomBarAction::ExecuteOrHalt => if army.executing {
                    Some(MilitaryCommand::HaltPlan(army.id))
                } else if army.has_arrow {
                    Some(MilitaryCommand::ExecutePlan(army.id))
                } else {
                    None
                },
                BottomBarAction::ClearFrontline => if army.has_path {
                    Some(MilitaryCommand::ClearFrontline(army.id))
                } else {
                    None
                },
                BottomBarAction::ClearArrow => if army.has_arrow {
                    Some(MilitaryCommand::ClearArrow(army.id))
                } else {
                    None
                },
                BottomBarAction::AddMembers => if state.selected_division_count > 0 {
                    Some(MilitaryCommand::AddMembers(army.id))
                } else {
                    None
                },
                BottomBarAction::RemoveMembers => if state.selected_division_count > 0 {
                    Some(MilitaryCommand::RemoveMembers(army.id))
                } else {
                    None
                },
                BottomBarAction::Dissolve => Some(MilitaryCommand::DissolveArmy(army.id)),
                _ => None,
            },
        },
    }
}

/// The command that using a control of the bottom bar gives.
pub fn bottom_bar_command(state: &BottomBarState, army_ids: &[u32], action: BottomBarAction) -> (r:
    Option<MilitaryCommand>)
    ensures
        r == bottom_bar_spec(*state, army_ids@, action),
{
    match action {
        BottomBarAction::SelectArmy(card) => {
            return if card < ARMY_CARD_LIMIT && card < army_ids.len() {
                Some(MilitaryCommand::SelectArmy(army_ids[card]))
            } else {
                None
            };
        },
        BottomBarAction::AddDivisionsTo(card) => {
            return if card < ARMY_CARD_LIMIT && card < army_ids.len()
                && state.selected_division_count > 0 {
                Some(MilitaryCommand::AddSelectedDivisionsToArmy(army_ids[card]))
            } else {
                None
            };
        },
        BottomBarAction::CreateArmy => {
            return if state.selected_division_count > 0 && state.active_army_count
                < state.max_armies_per_country {
                Some(MilitaryCommand::CreateArmy)
            } else {
                None
            };
        },
        BottomBarAction::ToggleOverlay => return Some(MilitaryCommand::ToggleOverlay),
        _ => {},
    }
    let army = match state.selected_army {
        Some(a) => a,
        None => return None,
    };
    match action {
        BottomBarAction::UnassignGeneral => Some(MilitaryCommand::UnassignGeneral(army.id)),
        BottomBarAction::AssignGeneral { general_id, assigned_army_id } => {
            let assigned_elsewhere = match assigned_army_id {
                Some(other) => other != army.id,
                None => false,
            };
            if assigned_elsewhere {
                None
            } else {
                Some(MilitaryCommand::AssignGeneral { army_id: army.id, general_id })
            }
        },
        BottomBarAction::DrawFrontline => Some(MilitaryCommand::DrawFrontline(army.id)),
        BottomBarAction::DrawArrow => if army.has_path {
            Some(MilitaryCommand::DrawArrow(army.id))
        } else {
            None
        },
        BottomBarAction::ExecuteOrHalt => if army.executing {
            Some(MilitaryCommand::HaltPlan(army.id))
        } else if army.has_arrow {
            Some(MilitaryCommand::ExecutePlan(army.id))
        } else {
            None
        },
        BottomBarAction::ClearFrontline => if army.has_path {
            Some(MilitaryCommand::ClearFrontline(army.id))
        } else {
            None
        },
        BottomBarAction::ClearArrow => if army.has_arrow {
            Some(MilitaryCommand::ClearArrow(army.id))
        } else {
            None
        },
        BottomBarAction::AddMembers => if state.selected_division_count > 0 {
            Some(MilitaryCommand::AddMembers(army.id))
        } else {
            None
        },
        BottomBarAction::RemoveMembers => if state.selected_division_count > 0 {
            Some(MilitaryCommand::RemoveMembers(army.id))
        } else {
            None
        },
        BottomBarAction::Dissolve => Some(MilitaryCommand::DissolveArmy(army.id)),
        _ => None,
    }
}

/// The order tools follow the plan's stages: an arrow needs a front line, a
/// plan runs only once an arrow is drawn, and every army command names the
/// selected army; an army is selected or reinforced from the tray only when it
/// is one of the first eight armies.
pub proof fn lemma_order_stages(state: BottomBarState, army_ids: Seq<u32>, action: BottomBarAction)
    ensures
        bottom_bar_spec(state, army_ids, action) matches Some(MilitaryCommand::SelectArmy(id))
            ==> exists|i: int| 0 <= i < 8 && i < army_ids.len() && army_ids[i] == id,
        bottom_bar_spec(state, army_ids, action) matches Some(
            MilitaryCommand::AddSelectedDivisionsToArmy(id),
        ) ==> state.selected_division_count > 0 && exists|i: int|
            0 <= i < 8 && i < army_ids.len() && army_ids[i] == id,
        action == BottomBarAction::DrawArrow && bottom_bar_spec(state, army_ids, action).is_some()
            ==> state.selected_army.unwrap().has_path,
        bottom_bar_spec(state, army_ids, action) matches Some(MilitaryCommand::ExecutePlan(id))
            ==> state.selected_army is Some && state.selected_army.unwrap().id == id
            && state.selected_army.unwrap().has_arrow && !state.selected_army.unwrap().executing,
        bottom_bar_spec(state, army_ids, action) matches Some(MilitaryCommand::HaltPlan(id))
            ==> state.selected_army is Some && state.selected_army.unwrap().id == id
            && state.selected_army.unwrap().executing,
        bottom_bar_spec(state, army_ids, action) matches Some(MilitaryCommand::CreateArmy) ==> can_create_army(
            state,
        ),
{
    match action {
        BottomBarAction::SelectArmy(card) | BottomBarAction::AddDivisionsTo(card) => {
            if card_army(army_ids, card) is Some {
                assert(army_ids[card as int] == card_army(army_ids, card).unwrap());
            }
        },
        _ => {},
    }
}

/// The hover text of the slot that creates an army: how to create one when
/// that is possible, else that divisions must be selected first, else that
/// the country has reached its limit of armies.
pub fn create_army_hint(state: &BottomBarState) -> (r: &'static str)
    ensures
        r@ == if can_create_army(*state) {
            "创建集团军（Ctrl多选师团后点击）"@
        } else if state.selected_division_count == 0 {
            "请先选择师团（Ctrl+点击多选）"@
        } else {
            "已达到集团军上限"@
        },
{
    if state.selected_division_count > 0 && state.active_army_count < state.max_armies_per_country {
        "创建集团军（Ctrl多选师团后点击）"
    } else if state.selected_division_count == 0 {
        "请先选择师团（Ctrl+点击多选）"
    } else {
        "已达到集团军上限"
    }
}

/// The hover text of the front-line tool: redraw when a front line exists.
pub fn frontline_tool_tooltip(has_path: bool) -> (r: &'static str)
    ensures
        r@ == if has_path {
            "重绘前线"@
        } else {
            "画前线"@
        },
{
    if has_path {
        "重绘前线"
    } else {
        "画前线"
    }
}

/// The hover text of the arrow tool: redraw when an arrow exists.
pub fn arrow_tool_tooltip(has_arrow: bool) -> (r: &'static str)
    ensures
        r@ == if has_arrow {
            "重绘进攻箭头"@
        } else {
            "画进攻箭头"@
        },
{
    if has_arrow {
        "重绘进攻箭头"
    } else {
        "画进攻箭头"
    }
}

/// The caption of the overlay toggle: upper case while the overlay shows.
pub fn overlay_toggle_text(visible: bool) -> (r: &'static str)
    ensures
        r@ == if visible {
            "ORD"@
        } else {
            "ord"@
        },
{
    if visible {
        "ORD"
    } else {
        "ord"
    }
}

/// The entry of a general in an army's commander box: name, skill level,
/// and the army's division count against the general's command limit.
pub fn general_option_label(general: &GeneralEntry, member_count: usize) -> (r: String)
    ensures
        r@ == general.name@ + "  Lv"@ + decimal_text(general.skill as nat) + "  "@ + decimal_text(
            member_count as nat,
        ) + "/"@ + decimal_text(general.command_limit as nat),
{
    let mut out = String::from_str(general.name.as_str());
    out.append("  Lv");
    let skill = decimal_string(general.skill as u64);
    out.append(skill.as_str());
    out.append("  ");
    let members = decimal_string(member_count as u64);
    out.append(members.as_str());
    out.append("/");
    let limit = decimal_string(general.command_limit as u64);
    out.append(limit.as_str());
    out
}

/// The hover text of a general in the commander box: the four traits and
/// the command limit.
pub fn general_option_tooltip(general: &GeneralEntry) -> (r: String)
    ensures
        r@ == "攻"@ + decimal_text(general.attack as nat) + " 防"@ + decimal_text(
            general.defense as nat,
        ) + " 计划"@ + decimal_text(general.planning as nat) + " 后勤"@ + decimal_text(
            general.logistics as nat,
        ) + "\n指挥上限 "@ + decimal_text(general.command_limit as nat) + "，超限会降低将领加成"@,
{
    let mut out = String::from_str("攻");
    out.append(decimal_string(general.attack as u64).as_str());
    out.append(" 防");
    out.append(decimal_string(general.defense as u64).as_str());
    out.append(" 计划");
    out.append(decimal_string(general.planning as u64).as_str());
    out.append(" 后勤");
    out.append(decimal_string(general.logistics as u64).as_str());
    out.append("\n指挥上限 ");
    out.append(decimal_string(general.command_limit as u64).as_str());
    out.append("，超限会降低将领加成");
    out
}

/// Whether a general leads another army than `army_id` and so cannot be
/// picked for it.
pub fn general_assigned_elsewhere(general: &GeneralEntry, army_id: u32) -> (r: bool)
    ensures
        r == (general.assigned_army_id.is_some() && general.assigned_army_id.unwrap() != army_id),
{
    match general.assigned_army_id {
        Some(id) => id != army_id,
        None => false,
    }
}

/// The military panel.
pub struct MilitaryPanel;

// ───────────────────────── the command panel ─────────────────────────

/// The colour of the dot before an army in the army list: green while it
/// executes its plan, brass once its arrow is drawn, amber once its front
/// line is drawn, grey otherwise.
pub fn command_army_dot_color(army: &ArmyOrderView) -> (r: PaletteColor)
    ensures
        r == if army.executing {
            PaletteColor::Good
        } else if army.has_arrow {
            PaletteColor::BrassBright
        } else if army.has_path {
            PaletteColor::Warn
        } else {
            PaletteColor::Muted
        },
{
    if army.executing {
        PaletteColor::Good
    } else if army.has_arrow {
        PaletteColor::BrassBright
    } else if army.has_path {
        PaletteColor::Warn
    } else {
        PaletteColor::Muted
    }
}

/// The caption of an army in the army list: its name and, in brackets, its
/// number of divisions.
pub fn command_army_row_label(name: &str, member_count: usize) -> (r: String)
    ensures
        r@ == name@ + "（"@ + decimal_text(member_count as nat) + " 师）"@,
{
    let mut out = String::from_str(name);
    out.append("（");
    out.append(decimal_string(member_count as u64).as_str());
    out.append(" 师）");
    out
}

/// The commander line under an army: the commander's name, or that no
/// general is appointed.
pub fn commander_caption(commander_name: Option<&str>) -> (r: String)
    ensures
        r@ == match commander_name {
            Some(n) => n@,
            None => "未任命将领"@,
        },
{
    match commander_name {
        Some(n) => String::from_str(n),
        None => String::from_str("未任命将领"),
    }
}

/// The army line of a division: the army it belongs to, or that it is in
/// none.
pub fn division_army_caption(army_name: Option<&str>) -> (r: String)
    ensures
        r@ == match army_name {
            Some(n) => n@,
            None => "未编入"@,
        },
{
    match army_name {
        Some(n) => String::from_str(n),
        None => String::from_str("未编入"),
    }
}

/// The state line of the selected army: executing its plan, active, or
/// standing by.
pub fn selected_army_state_text(executing: bool, active: bool) -> (r: &'static str)
    ensures
        r@ == if executing {
            "执行计划中"@
        } else if active {
            "已激活"@
        } else {
            "待命"@
        },
{
    if executing {
        "执行计划中"
    } else if active {
        "已激活"
    } else {
        "待命"
    }
}

/// Whether the selected army has a front line or an arrow: `已有` (present)
/// or `无` (none).
pub fn presence_text(present: bool) -> (r: &'static str)
    ensures
        r@ == if present {
            "已有"@
        } else {
            "无"@
        },
{
    if present {
        "已有"
    } else {
        "无"
    }
}

/// The strength line of the selected army: its number of divisions.
pub fn army_strength_text(member_count: usize) -> (r: String)
    ensures
        r@ == decimal_text(member_count as nat) + " 个师"@,
{
    let mut out = decimal_string(member_count as u64);
    out.append(" 个师");
    out
}

/// The caption of the front-line button of the command strip.
pub fn command_frontline_caption(has_path: bool) -> (r: &'static str)
    ensures
        r@ == if has_path {
            "重画前线"@
        } else {
            "画前线"@
        },
{
    if has_path {
        "重画前线"
    } else {
        "画前线"
    }
}

/// The caption of the overlay button of the command strip.
pub fn command_overlay_caption(visible: bool) -> (r: &'static str)
    ensures
        r@ == if visible {
            "隐藏叠层"@
        } else {
            "显示叠层"@
        },
{
    if visible {
        "隐藏叠层"
    } else {
        "显示叠层"
    }
}

/// What a click on a division's name gives: with Shift all divisions are
/// selected, with Ctrl this one is toggled, without either nothing happens.
pub fn division_click_command(shift: bool, ctrl: bool, division_index: usize) -> (r: Option<
    MilitaryCommand,
>)
    ensures
        shift ==> r matches Some(MilitaryCommand::SelectAllDivisions),
        !shift && ctrl ==> (r matches Some(MilitaryCommand::ToggleDivisionSelection(i)) && i
            == division_index),
        !shift && !ctrl ==> r is None,
{
    if shift {
        Some(MilitaryCommand::SelectAllDivisions)
    } else if ctrl {
        Some(MilitaryCommand::ToggleDivisionSelection(division_index))
    } else {
        None
    }
}

/// A button of the command panel's strip.
#[derive(Clone, Copy, Debug, PartialEq, Eq, Structural)]
pub enum CommandStripButton {
    NewTemplate,
    EditTemplate,
    CreateArmy,
    DrawFrontline,
    DrawArrow,
    /// The button that halts an executing plan or executes a ready one.
    ExecuteOrHalt,
    ClearFrontline,
    /// The button that opens the selected army's detail panel.
    ArmyDetail,
    /// The button that opens the logistics panel.
    Logistics,
    ToggleOverlay,
}

/// The command a button of the strip gives; `None` where the button is
/// absent (template editing needs a selected template, the army buttons a
/// selected army) or disabled.
pub open spec fn command_strip_spec(
    state: BottomBarState,
    selected_template: Option<u16>,
    button: CommandStripButton,
) -> Option<MilitaryCommand> {
    match button {
        CommandStripButton::NewTemplate => Some(MilitaryCommand::NewTemplate),
        CommandStripButton::EditTemplate => match selected_template {
            Some(t) => Some(MilitaryCommand::OpenTemplateEditor(t)),
            None => None,
        },
        CommandStripButton::CreateArmy => if can_create_army(state) {
            Some(MilitaryCommand::CreateArmy)
        } else {
            None
        },
        CommandStripButton::ToggleOverlay => Some(MilitaryCommand::ToggleOverlay),
        CommandStripButton::Logistics => Some(MilitaryCommand::Panel(PanelRequest::Logistics)),
        _ => match state.selected_army {
            None => None,
            Some(army) => match button {
                CommandStripButton::DrawFrontline => Some(MilitaryCommand::DrawFrontline(army.id)),
                CommandStripButton::DrawArrow => if army.has_path {
                    Some(MilitaryCommand::DrawArrow(army.id))
                } else {
                    None
                },
                CommandStripButton::ExecuteOrHalt => if army.executing {
                    Some(MilitaryCommand::HaltPlan(army.id))
                } else if army.has_arrow {
                    Some(MilitaryCommand::ExecutePlan(army.id))
                } else {
                    None
                },
                CommandStripButton::ClearFrontline => Some(MilitaryCommand::ClearFrontline(army.id)),
                CommandStripButton::ArmyDetail => Some(
                    MilitaryCommand::Panel(PanelRequest::ArmyDetail { army_id: army.id }),
                ),
                _ => None,
            },
        },
    }
}

/// The command that a click on a button of the strip gives.
pub fn command_strip_command(
    state: &BottomBarState,
    selected_template: Option<u16>,
    button: CommandStripButton,
) -> (r: Option<MilitaryCommand>)
    ensures
        r == command_strip_spec(*state, selected_template, button),
{
    match button {
        CommandStripButton::NewTemplate => return Some(MilitaryCommand::NewTemplate),
        CommandStripButton::EditTemplate => {
            return match selected_template {
                Some(t) => Some(MilitaryCommand::OpenTemplateEditor(t)),
                None => None,
            };
        },
        CommandStripButton::CreateArmy => {
            return if state.selected_division_count > 0 && state.active_army_count
                < state.max_armies_per_country {
                Some(MilitaryCommand::CreateArmy)
            } else {
                None
            };
        },
        CommandStripButton::ToggleOverlay => return Some(MilitaryCommand::ToggleOverlay),
        CommandStripButton::Logistics => return Some(
            MilitaryCommand::Panel(PanelRequest::Logistics),
        ),
        _ => {},
    }
    let army = match state.selected_army {
        Some(a) => a,
        None => return None,
    };
    match button {
        CommandStripButton::DrawFrontline => Some(MilitaryCommand::DrawFrontline(army.id)),
        CommandStripButton::DrawArrow => if army.has_path {
            Some(MilitaryCommand::DrawArrow(army.id))
        } else {
            None
        },
        CommandStripButton::ExecuteOrHalt => if army.executing {
            Some(MilitaryCommand::HaltPlan(army.id))
        } else if army.has_arrow {
            Some(MilitaryCommand::ExecutePlan(army.id))
        } else {
            None
        },
        CommandStripButton::ClearFrontline => Some(MilitaryCommand::ClearFrontline(army.id)),
        CommandStripButton::ArmyDetail => Some(
            MilitaryCommand::Panel(PanelRequest::ArmyDetail { army_id: army.id }),
        ),
        _ => None,
    }
}

/// What the `详情` (details) button of an army in the army list gives: the
/// army's detail panel.
pub fn army_detail_command(army_id: u32) -> (r: MilitaryCommand)
    ensures
        r == MilitaryCommand::Panel(PanelRequest::ArmyDetail { army_id }),
{
    MilitaryCommand::Panel(PanelRequest::ArmyDetail { army_id })
}

/// The command strip and the bottom bar agree: where both offer a control
/// for the same order, they give the same command, except that the strip
/// clears a front line even where none is drawn.
pub proof fn lemma_strip_agrees_with_bottom_bar(
    state: BottomBarState,
    army_ids: Seq<u32>,
    selected_template: Option<u16>,
)
    ensures
        command_strip_spec(state, selected_template, CommandStripButton::CreateArmy)
            == bottom_bar_spec(state, army_ids, BottomBarAction::CreateArmy),
        command_strip_spec(state, selected_template, CommandStripButton::DrawFrontline)
            == bottom_bar_spec(state, army_ids, BottomBarAction::DrawFrontline),
        command_strip_spec(state, selected_template, CommandStripButton::DrawArrow)
            == bottom_bar_spec(state, army_ids, BottomBarAction::DrawArrow),
        command_strip_spec(state, selected_template, CommandStripButton::ExecuteOrHalt)
            == bottom_bar_spec(state, army_ids, BottomBarAction::ExecuteOrHalt),
        command_strip_spec(state, selected_template, CommandStripButton::ToggleOverlay)
            == bottom_bar_spec(state, army_ids, BottomBarAction::ToggleOverlay),
        state.selected_army matches Some(a) && a.has_path ==> command_strip_spec(
            state,
            selected_template,
            CommandStripButton::ClearFrontline,
        ) == bottom_bar_spec(state, army_ids, BottomBarAction::ClearFrontline),
{
}

// ───────────────────────── the template editor ─────────────────────────

/// The caption of a template slot: the sub-unit in it, or `+` when it is
/// empty.
pub fn template_slot_caption(current: Option<&str>) -> (r: String)
    ensures
        r@ == match current {
            Some(s) => s@,
            None => "+"@,
        },
{
    match current {
        Some(s) => String::from_str(s),
        None => String::from_str("+"),
    }
}

/// The sub-unit in a slot of the battalion grid, where the grid has that
/// slot and it is filled.
pub fn line_slot_content(line_battalions: &Vec<Vec<Option<String>>>, row: usize, col: usize) -> (r:
    Option<String>)
    ensures
        r == if row < line_battalions@.len() && col < line_battalions@[row as int]@.len() {
            line_battalions@[row as int]@[col as int]
        } else {
            None
        },
{
    if row < line_battalions.len() && col < line_battalions[row].len() {
        line_battalions[row][col].clone()
    } else {
        None
    }
}

/// The sub-unit in a support slot, where there is that slot and it is
/// filled.
pub fn support_slot_content(support_companies: &Vec<Option<String>>, slot: usize) -> (r: Option<
    String,
>)
    ensures
        r == if slot < support_companies@.len() {
            support_companies@[slot as int]
        } else {
            None
        },
{
    if slot < support_companies.len() {
        support_companies[slot].clone()
    } else {
        None
    }
}

/// The side of the battalion grid and the number of support slots.
pub const TEMPLATE_GRID_SIZE: u8 = 5;

/// A control of the template editor that the player used.
#[derive(Clone, Debug)]
pub enum TemplateEditorAction {
    /// The name field now holds this text.
    Rename(String),
    Clone,
    Train,
    Delete,
    /// The button of a battalion slot, which opens the picker.
    OpenLineSlot { row: u8, col: u8 },
    /// The small `x` beside a battalion slot.
    ClearLineSlot { row: u8, col: u8 },
    /// The button of a support slot.
    OpenSupportSlot(u8),
    /// The small `x` beside a support slot.
    ClearSupportSlot(u8),
}

/// The command a control of the template editor gives; `None` while no
/// template is selected, for a name that did not change, and for a slot
/// outside the five-by-five grid or the five support slots.
pub open spec fn template_editor_spec(
    selected_template: Option<u16>,
    current_name: Seq<char>,
    action: TemplateEditorAction,
) -> Option<MilitaryCommand> {
    match selected_template {
        None => None,
        Some(t) => match action {
            TemplateEditorAction::Rename(name) => if name@ != current_name {
                Some(MilitaryCommand::RenameTemplate(t, name))
            } else {
                None
            },
            TemplateEditorAction::Clone => Some(MilitaryCommand::CloneTemplate(t)),
            TemplateEditorAction::Train => Some(MilitaryCommand::Train(t)),
            TemplateEditorAction::Delete => Some(MilitaryCommand::DeleteTemplate(t)),
            TemplateEditorAction::OpenLineSlot { row, col } => if row < 5 && col < 5 {
                Some(MilitaryCommand::OpenLineSubunitPicker { template: t, row, col })
            } else {
                None
            },
            TemplateEditorAction::ClearLineSlot { row, col } => if row < 5 && col < 5 {
                Some(MilitaryCommand::SetLineBattalion { template: t, row, col, subunit: None })
            } else {
                None
            },
            TemplateEditorAction::OpenSupportSlot(slot) => if slot < 5 {
                Some(MilitaryCommand::OpenSupportSubunitPicker { template: t, slot })
            } else {
                None
            },
            TemplateEditorAction::ClearSupportSlot(slot) => if slot < 5 {
                Some(MilitaryCommand::SetSupportCompany { template: t, slot, subunit: None })
            } else {
                None
            },
        },
    }
}

/// The command that using a control of the template editor gives.
pub fn template_editor_command(
    selected_template: Option<u16>,
    current_name: &str,
    action: TemplateEditorAction,
) -> (r: Option<MilitaryCommand>)
    ensures
        r == template_editor_spec(selected_template, current_name@, action),
{
    let t = match selected_template {
        Some(t) => t,
        None => return None,
    };
    match action {
        TemplateEditorAction::Rename(name) => {
            if str_eq(name.as_str(), current_name) {
                None
            } else {
                Some(MilitaryCommand::RenameTemplate(t, name))
            }
        },
        TemplateEditorAction::Clone => Some(MilitaryCommand::CloneTemplate(t)),
        TemplateEditorAction::Train => Some(MilitaryCommand::Train(t)),
        TemplateEditorAction::Delete => Some(MilitaryCommand::DeleteTemplate(t)),
        TemplateEditorAction::OpenLineSlot { row, col } => if row < TEMPLATE_GRID_SIZE && col
            < TEMPLATE_GRID_SIZE {
            Some(MilitaryCommand::OpenLineSubunitPicker { template: t, row, col })
        } else {
            None
        },
        TemplateEditorAction::ClearLineSlot { row, col } => if row < TEMPLATE_GRID_SIZE && col
            < TEMPLATE_GRID_SIZE {
            Some(MilitaryCommand::SetLineBattalion { template: t, row, col, subunit: None })
        } else {
            None
        },
        TemplateEditorAction::OpenSupportSlot(slot) => if slot < TEMPLATE_GRID_SIZE {
            Some(MilitaryCommand::OpenSupportSubunitPicker { template: t, slot })
        } else {
            None
        },
        TemplateEditorAction::ClearSupportSlot(slot) => if slot < TEMPLATE_GRID_SIZE {
            Some(MilitaryCommand::SetSupportCompany { template: t, slot, subunit: None })
        } else {
            None
        },
    }
}

/// The text of one equipment need: the equipment and the quantity.
pub open spec fn need_text(need: (String, u32)) -> Seq<char> {
    need.0@ + " "@ + decimal_text(need.1 as nat)
}

/// The texts of a list of equipment needs.
pub open spec fn need_texts(needs: Seq<(String, u32)>) -> Seq<Seq<char>> {
    needs.map_values(|n: (String, u32)| need_text(n))
}

/// The equipment line of the template editor: `装备需求：` followed by the
/// needs joined by ` / `, or by `无装备需求` (no equipment needed).
pub open spec fn equipment_line(needs: Seq<(String, u32)>) -> Seq<char> {
    "装备需求："@ + if needs.len() == 0 {
        "无装备需求"@
    } else {
        join_spec(need_texts(needs), " / "@)
    }
}

/// The equipment line of the template editor.
pub fn equipment_needs_line(needs: &[(String, u32)]) -> (r: String)
    ensures
        r@ == equipment_line(needs@),
{
    let mut out = String::from_str("装备需求：");
    if needs.len() == 0 {
        out.append("无装备需求");
        return out;
    }
    let mut parts: Vec<String> = Vec::new();
    let mut i: usize = 0;
    while i < needs.len()
        invariant
            i <= needs@.len(),
            parts@.len() == i,
            forall|j: int| 0 <= j < i ==> (#[trigger] parts@[j])@ == need_text(needs@[j]),
        decreases needs@.len() - i,
    {
        let mut part = needs[i].0.clone();
        part.append(" ");
        part.append(decimal_string(needs[i].1 as u64).as_str());
        parts.push(part);
        i = i + 1;
    }
    assert(string_views(parts@) =~= need_texts(needs@));
    out.append(join_strings(parts.as_slice(), " / ").as_str());
    out
}

// ───────────────────────── the sub-unit picker ─────────────────────────

/// The line naming what the picked slot holds: `当前：` (current) followed by
/// the sub-unit, or by `空` (empty).
pub fn picker_current_caption(current: Option<&str>) -> (r: String)
    ensures
        r@ == "当前："@ + match current {
            Some(s) => s@,
            None => "空"@,
        },
{
    let mut out = String::from_str("当前：");
    match current {
        Some(s) => out.append(s),
        None => out.append("空"),
    }
    out
}

/// The command that puts `subunit` (or nothing) into the picker's slot.
pub open spec fn set_slot_spec(target: TemplatePickerTarget, subunit: Option<String>) -> MilitaryCommand {
    match target {
        TemplatePickerTarget::Line { template, row, col } => MilitaryCommand::SetLineBattalion {
            template,
            row,
            col,
            subunit,
        },
        TemplatePickerTarget::Support { template, slot } => MilitaryCommand::SetSupportCompany {
            template,
            slot,
            subunit,
        },
    }
}

/// What choosing in the picker gives: the slot is set to the chosen
/// sub-unit (emptied by the clear button, `None`), then the picker closes.
pub fn picker_commands(target: TemplatePickerTarget, subunit: Option<String>) -> (r: Vec<
    MilitaryCommand,
>)
    ensures
        r@ == seq![set_slot_spec(target, subunit), MilitaryCommand::CloseSubunitPicker],
{
    let set = match target {
        TemplatePickerTarget::Line { template, row, col } => MilitaryCommand::SetLineBattalion {
            template,
            row,
            col,
            subunit,
        },
        TemplatePickerTarget::Support { template, slot } => MilitaryCommand::SetSupportCompany {
            template,
            slot,
            subunit,
        },
    };
    let mut out: Vec<MilitaryCommand> = Vec::new();
    out.push(set);
    out.push(MilitaryCommand::CloseSubunitPicker);
    assert(out@ =~= seq![set_slot_spec(target, subunit), MilitaryCommand::CloseSubunitPicker]);
    out
}

/// The number of armies of `armies` that execute their plan.
pub open spec fn executing_count(armies: Seq<ArmyOrderView>) -> nat
    decreases armies.len(),
{
    if armies.len() == 0 {
        0
    } else {
        executing_count(armies.drop_last()) + if armies.last().executing {
            1nat
        } else {
            0nat
        }
    }
}

/// How many armies execute their plan; the panel's accent and its
/// `执行计划` (executing) figure use it.
pub fn executing_army_count(armies: &[ArmyOrderView]) -> (n: usize)
    ensures
        n == executing_count(armies@),
{
    let mut n: usize = 0;
    let mut i: usize = 0;
    while i < armies.len()
        invariant
            i <= armies@.len(),
            n == executing_count(armies@.take(i as int)),
            n <= i,
        decreases armies@.len() - i,
    {
        assert(armies@.take(i as int + 1).drop_last() =~= armies@.take(i as int));
        if armies[i].executing {
            n = n + 1;
        }
        i = i + 1;
    }
    assert(armies@.take(armies@.len() as int) =~= armies@);
    n
}

/// Each control of the bottom bar gives the order it is for, and an order
/// comes only from its own control: with a selected army that has an arrow,
/// the clear-arrow control clears exactly that army's arrow, and the front
/// line, the arrow, the plan, the members and the army itself are each changed
/// only by their own control, always for the selected army.
pub proof fn lemma_bottom_bar_orders_match_controls(
    state: BottomBarState,
    army_ids: Seq<u32>,
    action: BottomBarAction,
)
    ensures
        state.selected_army matches Some(a) ==> (a.has_arrow ==> bottom_bar_spec(
            state,
            army_ids,
            BottomBarAction::ClearArrow,
        ) == Some(MilitaryCommand::ClearArrow(a.id))),
        state.selected_army matches Some(a) ==> (a.has_path ==> bottom_bar_spec(
            state,
            army_ids,
            BottomBarAction::ClearFrontline,
        ) == Some(MilitaryCommand::ClearFrontline(a.id))),
        state.selected_army matches Some(a) ==> bottom_bar_spec(
            state,
            army_ids,
            BottomBarAction::Dissolve,
        ) == Some(MilitaryCommand::DissolveArmy(a.id)),
        bottom_bar_spec(state, army_ids, action) matches Some(MilitaryCommand::ClearFrontline(id))
            ==> action == BottomBarAction::ClearFrontline && (state.selected_army is Some && state.selected_army.unwrap().id == id
                && state.selected_army.unwrap().has_path),
        bottom_bar_spec(state, army_ids, action) matches Some(MilitaryCommand::ClearArrow(id))
            ==> action == BottomBarAction::ClearArrow && (state.selected_army is Some && state.selected_army.unwrap().id == id
                && state.selected_army.unwrap().has_arrow),
        bottom_bar_spec(state, army_ids, action) matches Some(MilitaryCommand::DrawFrontline(id))
            ==> action == BottomBarAction::DrawFrontline && (state.selected_army is Some && state.selected_army.unwrap().id == id),
        bottom_bar_spec(state, army_ids, action) matches Some(MilitaryCommand::DrawArrow(id))
            ==> action == BottomBarAction::DrawArrow && (state.selected_army is Some && state.selected_army.unwrap().id == id),
        bottom_bar_spec(state, army_ids, action) matches Some(MilitaryCommand::ExecutePlan(_))
            ==> action == BottomBarAction::ExecuteOrHalt,
        bottom_bar_spec(state, army_ids, action) matches Some(MilitaryCommand::HaltPlan(_))
            ==> action == BottomBarAction::ExecuteOrHalt,
        bottom_bar_spec(state, army_ids, action) matches Some(MilitaryCommand::AddMembers(id))
            ==> action == BottomBarAction::AddMembers && (state.selected_army is Some && state.selected_army.unwrap().id == id),
        bottom_bar_spec(state, army_ids, action) matches Some(MilitaryCommand::RemoveMembers(id))
            ==> action == BottomBarAction::RemoveMembers && (state.selected_army is Some && state.selected_army.unwrap().id == id),
        bottom_bar_spec(state, army_ids, action) matches Some(MilitaryCommand::DissolveArmy(id))
            ==> action == BottomBarAction::Dissolve && (state.selected_army is Some && state.selected_army.unwrap().id == id),
        bottom_bar_spec(state, army_ids, action) matches Some(MilitaryCommand::CreateArmy)
            ==> action == BottomBarAction::CreateArmy,
        bottom_bar_spec(state, army_ids, action) matches Some(MilitaryCommand::ToggleOverlay)
            ==> action == BottomBarAction::ToggleOverlay,
{
}

/// Each control of the template editor gives the order it is for, for the
/// selected template, and an order comes only from its own control: train
/// trains, clone clones, delete deletes, and nothing is ordered while no
/// template is selected.
pub proof fn lemma_template_editor_orders_match_controls(
    selected_template: Option<u16>,
    current_name: Seq<char>,
    action: TemplateEditorAction,
)
    ensures
        selected_template is None ==> template_editor_spec(selected_template, current_name, action)
            is None,
        selected_template matches Some(t) ==> template_editor_spec(
            selected_template,
            current_name,
            TemplateEditorAction::Train,
        ) == Some(MilitaryCommand::Train(t)),
        selected_template matches Some(t) ==> template_editor_spec(
            selected_template,
            current_name,
            TemplateEditorAction::Clone,
        ) == Some(MilitaryCommand::CloneTemplate(t)),
        selected_template matches Some(t) ==> template_editor_spec(
            selected_template,
            current_name,
            TemplateEditorAction::Delete,
        ) == Some(MilitaryCommand::DeleteTemplate(t)),
        template_editor_spec(selected_template, current_name, action) matches Some(
            MilitaryCommand::Train(t),
        ) ==> action is Train && selected_template == Some(t),
        template_editor_spec(selected_template, current_name, action) matches Some(
            MilitaryCommand::CloneTemplate(t),
        ) ==> action is Clone && selected_template == Some(t),
        template_editor_spec(selected_template, current_name, action) matches Some(
            MilitaryCommand::DeleteTemplate(t),
        ) ==> action is Delete && selected_template == Some(t),
        template_editor_spec(selected_template, current_name, action) matches Some(
            MilitaryCommand::RenameTemplate(t, name),
        ) ==> action == TemplateEditorAction::Rename(name) && name@ != current_name
            && selected_template == Some(t),
{
}

} // verus!
