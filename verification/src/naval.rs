//! Naval panel: fleet missions with their captions and hints, and the repair
//! state shown for a fleet.
use vstd::prelude::*;
use crate::panel::PanelRequest;
use crate::text::{decimal_string, decimal_text, str_eq};

verus! {

/// The mission a fleet can be given.
#[derive(Clone, Copy, Debug, PartialEq, Eq, Structural)]
pub enum NavalMissionUi {
    Idle,
    Patrol,
    ConvoyEscort,
    StrikeForce,
    ConvoyRaiding,
    MineLaying,
    MineSweeping,
    NavalInvasionSupport,
}

/// The caption of a mission.
pub open spec fn mission_label(m: NavalMissionUi) -> Seq<char> {
    match m {
        NavalMissionUi::Idle => "待命"@,
        NavalMissionUi::Patrol => "巡逻"@,
        NavalMissionUi::ConvoyEscort => "护航"@,
        NavalMissionUi::StrikeForce => "打击舰队"@,
        NavalMissionUi::ConvoyRaiding => "通商破坏"@,
        NavalMissionUi::MineLaying => "布雷"@,
        NavalMissionUi::MineSweeping => "扫雷"@,
        NavalMissionUi::NavalInvasionSupport => "登陆支援"@,
    }
}

/// The explanation shown for a mission.
pub open spec fn mission_hint(m: NavalMissionUi) -> Seq<char> {
    match m {
        NavalMissionUi::Idle => "停泊或待命，不主动提供海区存在。"@,
        NavalMissionUi::Patrol => "提高侦察和制海存在，辅助发现敌舰与护航。"@,
        NavalMissionUi::ConvoyEscort => "保护己方贸易与海运航线，降低运输船损失。"@,
        NavalMissionUi::StrikeForce => "主力舰队主动寻找交战机会。"@,
        NavalMissionUi::ConvoyRaiding => "袭击敌方运输船，制造贸易和海运损失。"@,
        NavalMissionUi::MineLaying => "MVP 中作为弱巡逻存在处理。"@,
        NavalMissionUi::MineSweeping => "MVP 中作为弱巡逻存在处理。"@,
        NavalMissionUi::NavalInvasionSupport => "为登陆方向提供海军支援存在。"@,
    }
}

impl NavalMissionUi {
    /// Every mission, in the order of the mission buttons.
    pub const ALL: [NavalMissionUi; 8] = [
        NavalMissionUi::Idle,
        NavalMissionUi::Patrol,
        NavalMissionUi::ConvoyEscort,
        NavalMissionUi::StrikeForce,
        NavalMissionUi::ConvoyRaiding,
        NavalMissionUi::MineLaying,
        NavalMissionUi::MineSweeping,
        NavalMissionUi::NavalInvasionSupport,
    ];

    /// The caption of the mission.
    pub fn label(self) -> (r: &'static str)
        ensures
            r@ == mission_label(self),
    {
        match self {
            NavalMissionUi::Idle => "待命",
            NavalMissionUi::Patrol => "巡逻",
            NavalMissionUi::ConvoyEscort => "护航",
            NavalMissionUi::StrikeForce => "打击舰队",
            NavalMissionUi::ConvoyRaiding => "通商破坏",
            NavalMissionUi::MineLaying => "布雷",
            NavalMissionUi::MineSweeping => "扫雷",
            NavalMissionUi::NavalInvasionSupport => "登陆支援",
        }
    }

    /// The explanation of the mission.
    pub fn hint(self) -> (r: &'static str)
        ensures
            r@ == mission_hint(self),
    {
        match self {
            NavalMissionUi::Idle => "停泊或待命，不主动提供海区存在。",
            NavalMissionUi::Patrol => "提高侦察和制海存在，辅助发现敌舰与护航。",
            NavalMissionUi::ConvoyEscort => "保护己方贸易与海运航线，降低运输船损失。",
            NavalMissionUi::StrikeForce => "主力舰队主动寻找交战机会。",
            NavalMissionUi::ConvoyRaiding => "袭击敌方运输船，制造贸易和海运损失。",
            NavalMissionUi::MineLaying => "MVP 中作为弱巡逻存在处理。",
            NavalMissionUi::MineSweeping => "MVP 中作为弱巡逻存在处理。",
            NavalMissionUi::NavalInvasionSupport => "为登陆方向提供海军支援存在。",
        }
    }
}

/// The caption of a fleet's repair state: the three known states get their
/// Chinese names and any other state is shown as it is.
pub open spec fn repair_state_text(value: Seq<char>) -> Seq<char> {
    if value == "AtSea"@ {
        "海上"@
    } else if value == "InPort"@ {
        "港内"@
    } else if value == "Repairing"@ {
        "维修中"@
    } else {
        value
    }
}

/// The caption shown for a fleet's repair state.
pub fn repair_state_label(value: &str) -> (r: String)
    ensures
        r@ == repair_state_text(value@),
{
    if str_eq(value, "AtSea") {
        String::from_str("海上")
    } else if str_eq(value, "InPort") {
        String::from_str("港内")
    } else if str_eq(value, "Repairing") {
        String::from_str("维修中")
    } else {
        String::from_str(value)
    }
}

/// What the naval panel asks the game to do.
#[derive(Clone, Debug, PartialEq, Eq, Structural)]
pub enum NavalCommand {
    SetMission { fleet_id: u32, mission: NavalMissionUi },
    MoveToSelectedSeaRegion { fleet_id: u32 },
    SplitFleet { fleet_id: u32, count: usize },
    DisbandEmptyFleet { fleet_id: u32 },
    SetTransferSource { fleet_id: u32 },
    ClearTransferSource,
    TransferShips { from_fleet_id: u32, to_fleet_id: u32, count: usize },
    /// Open another panel.
    Panel(PanelRequest),
}

/// A button of the command strip under the fleet list.
#[derive(Clone, Copy, Debug, PartialEq, Eq, Structural)]
pub enum NavalStripButton {
    /// Opens the first fleet's detail panel.
    FleetDetail,
    MoveToSelectedSeaRegion,
    SetTransferSource,
    Patrol,
    ConvoyEscort,
    /// Opens the logistics panel.
    Logistics,
}

/// The command a strip button gives; the fleet buttons act on the first
/// fleet and are absent when there is no fleet, and the logistics button is
/// always there.
pub open spec fn strip_spec(first_fleet: Option<u32>, button: NavalStripButton) -> Option<
    NavalCommand,
> {
    match (button, first_fleet) {
        (NavalStripButton::Logistics, _) => Some(NavalCommand::Panel(PanelRequest::Logistics)),
        (_, None) => None,
        (NavalStripButton::FleetDetail, Some(id)) => Some(
            NavalCommand::Panel(PanelRequest::FleetDetail { fleet_id: id }),
        ),
        (NavalStripButton::MoveToSelectedSeaRegion, Some(id)) => Some(
            NavalCommand::MoveToSelectedSeaRegion { fleet_id: id },
        ),
        (NavalStripButton::SetTransferSource, Some(id)) => Some(
            NavalCommand::SetTransferSource { fleet_id: id },
        ),
        (NavalStripButton::Patrol, Some(id)) => Some(
            NavalCommand::SetMission { fleet_id: id, mission: NavalMissionUi::Patrol },
        ),
        (NavalStripButton::ConvoyEscort, Some(id)) => Some(
            NavalCommand::SetMission { fleet_id: id, mission: NavalMissionUi::ConvoyEscort },
        ),
    }
}

/// The command that pressing a strip button gives.
pub fn naval_strip_command(first_fleet: Option<u32>, button: NavalStripButton) -> (r: Option<
    NavalCommand,
>)
    ensures
        r == strip_spec(first_fleet, button),
{
    if button == NavalStripButton::Logistics {
        return Some(NavalCommand::Panel(PanelRequest::Logistics));
    }
    let id = match first_fleet {
        Some(id) => id,
        None => return None,
    };
    Some(
        match button {
            NavalStripButton::FleetDetail => NavalCommand::Panel(
                PanelRequest::FleetDetail { fleet_id: id },
            ),
            NavalStripButton::Logistics => NavalCommand::Panel(PanelRequest::Logistics),
            NavalStripButton::MoveToSelectedSeaRegion => NavalCommand::MoveToSelectedSeaRegion {
                fleet_id: id,
            },
            NavalStripButton::SetTransferSource => NavalCommand::SetTransferSource { fleet_id: id },
            NavalStripButton::Patrol => NavalCommand::SetMission {
                fleet_id: id,
                mission: NavalMissionUi::Patrol,
            },
            NavalStripButton::ConvoyEscort => NavalCommand::SetMission {
                fleet_id: id,
                mission: NavalMissionUi::ConvoyEscort,
            },
        },
    )
}

/// What a fleet's name or its `详情` (details) button in the fleet lists
/// gives: the fleet's detail panel.
pub fn fleet_detail_command(fleet_id: u32) -> (r: NavalCommand)
    ensures
        r == NavalCommand::Panel(PanelRequest::FleetDetail { fleet_id }),
{
    NavalCommand::Panel(PanelRequest::FleetDetail { fleet_id })
}

/// The sum of the counts.
pub open spec fn sum_counts(counts: Seq<usize>) -> int
    decreases counts.len(),
{
    if counts.len() == 0 {
        0
    } else {
        sum_counts(counts.drop_last()) + counts.last()
    }
}

/// A sum over a prefix never exceeds the sum over the whole list.
proof fn lemma_sum_prefix(counts: Seq<usize>, k: int)
    requires
        0 <= k <= counts.len(),
    ensures
        0 <= sum_counts(counts.take(k)) <= sum_counts(counts),
    decreases counts.len() - k,
{
    if k < counts.len() {
        lemma_sum_prefix(counts.drop_last(), k);
        assert(counts.drop_last().take(k) =~= counts.take(k));
    } else {
        assert(counts.take(k) =~= counts);
    }
    lemma_sum_nonneg(counts.take(k));
}

/// Sums of counts are not negative.
proof fn lemma_sum_nonneg(counts: Seq<usize>)
    ensures
        sum_counts(counts) >= 0,
    decreases counts.len(),
{
    if counts.len() > 0 {
        lemma_sum_nonneg(counts.drop_last());
    }
}

/// The number of ships over all fleets, given the ship count of each fleet
/// (the total must fit in `usize`, where the panel's sum would overflow).
pub fn total_ship_count(ship_counts: &[usize]) -> (n: usize)
    requires
        sum_counts(ship_counts@) <= usize::MAX,
    ensures
        n == sum_counts(ship_counts@),
{
    let mut n: usize = 0;
    let mut i: usize = 0;
    while i < ship_counts.len()
        invariant
            i <= ship_counts@.len(),
            sum_counts(ship_counts@) <= usize::MAX,
            n == sum_counts(ship_counts@.take(i as int)),
        decreases ship_counts@.len() - i,
    {
        assert(ship_counts@.take(i as int + 1).drop_last() =~= ship_counts@.take(i as int));
        proof {
            lemma_sum_prefix(ship_counts@, i as int + 1);
        }
        n = n + ship_counts[i];
        i = i + 1;
    }
    assert(ship_counts@.take(ship_counts@.len() as int) =~= ship_counts@);
    n
}

/// The notice that a fleet was chosen as the source of a ship transfer.
pub fn transfer_source_notice(fleet_id: u32) -> (r: String)
    ensures
        r@ == "舰队 #"@ + decimal_text(fleet_id as nat) + " 已设为转移来源。"@,
{
    let mut out = String::from_str("舰队 #");
    let id = decimal_string(fleet_id as u64);
    out.append(id.as_str());
    out.append(" 已设为转移来源。");
    out
}

/// The notice that a fleet waits for a sea region to be picked on the map.
pub fn pending_move_notice(fleet_id: u32) -> (r: String)
    ensures
        r@ == "舰队 #"@ + decimal_text(fleet_id as nat) + " 正等待地图选择目标海区。"@,
{
    let mut out = String::from_str("舰队 #");
    let id = decimal_string(fleet_id as u64);
    out.append(id.as_str());
    out.append(" 正等待地图选择目标海区。");
    out
}

/// The summary line of a fleet in the fleet list: mission, sea region and
/// number of ships.
pub fn fleet_summary_line(mission: NavalMissionUi, region_id: u32, ship_count: usize) -> (r: String)
    ensures
        r@ == mission_label(mission) + " / 海区 "@ + decimal_text(region_id as nat) + " / "@
            + decimal_text(ship_count as nat) + " 艘"@,
{
    let mut out = String::from_str(mission.label());
    out.append(" / 海区 ");
    let region = decimal_string(region_id as u64);
    out.append(region.as_str());
    out.append(" / ");
    let ships = decimal_string(ship_count as u64);
    out.append(ships.as_str());
    out.append(" 艘");
    out
}

/// The naval panel.
pub struct NavalPanel;

} // verus!
