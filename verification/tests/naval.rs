use hoi4_ui::panel::PanelRequest;
use hoi4_ui::naval::{
    fleet_detail_command, fleet_summary_line, naval_strip_command, pending_move_notice, repair_state_label,
    total_ship_count, transfer_source_notice, NavalCommand, NavalMissionUi, NavalStripButton,
};

#[test]
fn mission_labels_and_hints() {
    assert_eq!(NavalMissionUi::Idle.label(), "待命");
    assert_eq!(NavalMissionUi::ConvoyRaiding.label(), "通商破坏");
    assert_eq!(NavalMissionUi::NavalInvasionSupport.label(), "登陆支援");
    assert_eq!(NavalMissionUi::StrikeForce.hint(), "主力舰队主动寻找交战机会。");
    assert_eq!(NavalMissionUi::MineLaying.hint(), NavalMissionUi::MineSweeping.hint());
}

#[test]
fn every_mission_listed_once_with_distinct_labels() {
    let all = NavalMissionUi::ALL;
    assert_eq!(all.len(), 8);
    for (i, a) in all.iter().enumerate() {
        for b in all.iter().skip(i + 1) {
            assert_ne!(a, b);
            assert_ne!(a.label(), b.label());
        }
    }
}

#[test]
fn repair_states_have_captions() {
    assert_eq!(repair_state_label("AtSea"), "海上");
    assert_eq!(repair_state_label("InPort"), "港内");
    assert_eq!(repair_state_label("Repairing"), "维修中");
    assert_eq!(repair_state_label("Drydock"), "Drydock");
    assert_eq!(repair_state_label(""), "");
}

#[test]
fn strip_buttons_act_on_the_first_fleet() {
    assert_eq!(naval_strip_command(None, NavalStripButton::Patrol), None);
    assert_eq!(
        naval_strip_command(Some(7), NavalStripButton::Patrol),
        Some(NavalCommand::SetMission { fleet_id: 7, mission: NavalMissionUi::Patrol })
    );
    assert_eq!(
        naval_strip_command(Some(7), NavalStripButton::ConvoyEscort),
        Some(NavalCommand::SetMission { fleet_id: 7, mission: NavalMissionUi::ConvoyEscort })
    );
    assert_eq!(
        naval_strip_command(Some(3), NavalStripButton::MoveToSelectedSeaRegion),
        Some(NavalCommand::MoveToSelectedSeaRegion { fleet_id: 3 })
    );
    assert_eq!(
        naval_strip_command(Some(3), NavalStripButton::SetTransferSource),
        Some(NavalCommand::SetTransferSource { fleet_id: 3 })
    );
}

#[test]
fn ships_are_summed_over_fleets() {
    assert_eq!(total_ship_count(&[]), 0);
    assert_eq!(total_ship_count(&[3, 0, 12]), 15);
}

#[test]
fn notices_name_the_fleet() {
    assert_eq!(transfer_source_notice(12), "舰队 #12 已设为转移来源。");
    assert_eq!(pending_move_notice(0), "舰队 #0 正等待地图选择目标海区。");
    assert_eq!(
        pending_move_notice(u32::MAX),
        "舰队 #4294967295 正等待地图选择目标海区。"
    );
}

#[test]
fn fleet_summary_lines() {
    assert_eq!(
        fleet_summary_line(NavalMissionUi::Patrol, 205, 14),
        "巡逻 / 海区 205 / 14 艘"
    );
    assert_eq!(fleet_summary_line(NavalMissionUi::Idle, 0, 0), "待命 / 海区 0 / 0 艘");
}

#[test]
fn fleet_detail_and_logistics_open_panels() {
    assert_eq!(
        fleet_detail_command(12),
        NavalCommand::Panel(PanelRequest::FleetDetail { fleet_id: 12 })
    );
    assert_eq!(
        naval_strip_command(Some(3), NavalStripButton::FleetDetail),
        Some(NavalCommand::Panel(PanelRequest::FleetDetail { fleet_id: 3 }))
    );
    assert_eq!(naval_strip_command(None, NavalStripButton::FleetDetail), None);
    assert_eq!(
        naval_strip_command(None, NavalStripButton::Logistics),
        Some(NavalCommand::Panel(PanelRequest::Logistics))
    );
    assert_eq!(
        naval_strip_command(Some(3), NavalStripButton::Logistics),
        Some(NavalCommand::Panel(PanelRequest::Logistics))
    );
}
