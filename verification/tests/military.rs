use hoi4_ui::panel::PanelRequest;
use hoi4_ui::color::PaletteColor;
use hoi4_ui::military::{
    army_over_limit, army_status_color, army_status_label, arrow_tool_tooltip,
    army_card_ids, army_detail_command, executing_army_count, bottom_bar_command, create_army_hint, army_strength_text, command_army_dot_color,
    command_army_row_label, command_frontline_caption, command_overlay_caption,
    command_strip_command, commander_caption, division_army_caption, division_click_command,
    equipment_needs_line, line_slot_content, picker_commands, picker_current_caption,
    presence_text, selected_army_state_text, support_slot_content, template_editor_command,
    template_slot_caption, CommandStripButton, TemplateEditorAction, TemplatePickerTarget, frontline_tool_tooltip, general_assigned_elsewhere, general_option_label,
    general_option_tooltip, military_panel_accent, overlay_toggle_text, ArmyOrderView,
    ArmyStatusView, BottomBarAction, BottomBarState, GeneralEntry, MilitaryCommand,
    PainterModeInfo,
};

/// The country's armies, in order: nine of them, so the last has no card.
const ARMY_IDS: [u32; 9] = [2, 9, 8, 4, 5, 6, 7, 3, 10];

fn army() -> ArmyStatusView {
    ArmyStatusView {
        member_count: 10,
        command_limit: Some(24),
        executing: false,
        has_arrow: false,
        has_path: false,
        active: false,
    }
}

#[test]
fn army_status_by_priority() {
    let idle = army();
    assert_eq!(army_status_label(&idle), "待命");
    assert_eq!(army_status_color(&idle), PaletteColor::Muted);
    let active = ArmyStatusView { active: true, ..idle };
    assert_eq!(army_status_label(&active), "行动中");
    let front = ArmyStatusView { has_path: true, ..active };
    assert_eq!(army_status_label(&front), "已有前线");
    assert_eq!(army_status_color(&front), PaletteColor::Gold);
    let ready = ArmyStatusView { has_arrow: true, ..front };
    assert_eq!(army_status_label(&ready), "计划就绪");
    assert_eq!(army_status_color(&ready), PaletteColor::GoldHot);
    let running = ArmyStatusView { executing: true, ..ready };
    assert_eq!(army_status_label(&running), "执行中");
    assert_eq!(army_status_color(&running), PaletteColor::Good);
    let over = ArmyStatusView { member_count: 25, ..running };
    assert!(army_over_limit(&over));
    assert_eq!(army_status_label(&over), "超限");
    assert_eq!(army_status_color(&over), PaletteColor::Bad);
    let no_commander = ArmyStatusView { command_limit: None, member_count: 1000, ..idle };
    assert!(!army_over_limit(&no_commander));
    let at_limit = ArmyStatusView { member_count: 24, ..idle };
    assert!(!army_over_limit(&at_limit));
}

fn state(army: Option<ArmyOrderView>, selected: usize) -> BottomBarState {
    BottomBarState {
        selected_army: army,
        selected_division_count: selected,
        active_army_count: 2,
        max_armies_per_country: 3,
    }
}

fn unwrap_cmd(c: Option<MilitaryCommand>) -> String {
    format!("{c:?}")
}

#[test]
fn army_tools_follow_plan_stages() {
    let bare = ArmyOrderView { id: 4, has_path: false, has_arrow: false, executing: false };
    let s = state(Some(bare), 0);
    assert_eq!(unwrap_cmd(bottom_bar_command(&s, &ARMY_IDS, BottomBarAction::DrawArrow)), "None");
    assert_eq!(unwrap_cmd(bottom_bar_command(&s, &ARMY_IDS, BottomBarAction::ExecuteOrHalt)), "None");
    assert_eq!(
        unwrap_cmd(bottom_bar_command(&s, &ARMY_IDS, BottomBarAction::DrawFrontline)),
        "Some(DrawFrontline(4))"
    );
    let with_path = ArmyOrderView { has_path: true, ..bare };
    let s = state(Some(with_path), 0);
    assert_eq!(unwrap_cmd(bottom_bar_command(&s, &ARMY_IDS, BottomBarAction::DrawArrow)), "Some(DrawArrow(4))");
    assert_eq!(
        unwrap_cmd(bottom_bar_command(&s, &ARMY_IDS, BottomBarAction::ClearFrontline)),
        "Some(ClearFrontline(4))"
    );
    assert_eq!(unwrap_cmd(bottom_bar_command(&s, &ARMY_IDS, BottomBarAction::ClearArrow)), "None");
    let ready = ArmyOrderView { has_arrow: true, ..with_path };
    let s = state(Some(ready), 0);
    assert_eq!(
        unwrap_cmd(bottom_bar_command(&s, &ARMY_IDS, BottomBarAction::ExecuteOrHalt)),
        "Some(ExecutePlan(4))"
    );
    let running = ArmyOrderView { executing: true, ..ready };
    let s = state(Some(running), 0);
    assert_eq!(
        unwrap_cmd(bottom_bar_command(&s, &ARMY_IDS, BottomBarAction::ExecuteOrHalt)),
        "Some(HaltPlan(4))"
    );
}

#[test]
fn army_tools_need_a_selected_army() {
    let s = state(None, 5);
    assert_eq!(unwrap_cmd(bottom_bar_command(&s, &ARMY_IDS, BottomBarAction::Dissolve)), "None");
    assert_eq!(unwrap_cmd(bottom_bar_command(&s, &ARMY_IDS, BottomBarAction::AddMembers)), "None");
    assert_eq!(unwrap_cmd(bottom_bar_command(&s, &ARMY_IDS, BottomBarAction::SelectArmy(1))), "Some(SelectArmy(9))");
    assert_eq!(unwrap_cmd(bottom_bar_command(&s, &ARMY_IDS, BottomBarAction::ToggleOverlay)), "Some(ToggleOverlay)");
}

#[test]
fn division_tools_need_selected_divisions() {
    let a = ArmyOrderView { id: 1, has_path: false, has_arrow: false, executing: false };
    assert_eq!(unwrap_cmd(bottom_bar_command(&state(Some(a), 0), &ARMY_IDS, BottomBarAction::AddMembers)), "None");
    assert_eq!(
        unwrap_cmd(bottom_bar_command(&state(Some(a), 2), &ARMY_IDS, BottomBarAction::AddMembers)),
        "Some(AddMembers(1))"
    );
    assert_eq!(
        unwrap_cmd(bottom_bar_command(&state(Some(a), 2), &ARMY_IDS, BottomBarAction::RemoveMembers)),
        "Some(RemoveMembers(1))"
    );
    assert_eq!(unwrap_cmd(bottom_bar_command(&state(None, 0), &ARMY_IDS, BottomBarAction::AddDivisionsTo(2))), "None");
    assert_eq!(
        unwrap_cmd(bottom_bar_command(&state(None, 1), &ARMY_IDS, BottomBarAction::AddDivisionsTo(2))),
        "Some(AddSelectedDivisionsToArmy(8))"
    );
}

#[test]
fn creating_an_army_needs_selection_and_room() {
    assert_eq!(unwrap_cmd(bottom_bar_command(&state(None, 0), &ARMY_IDS, BottomBarAction::CreateArmy)), "None");
    assert_eq!(unwrap_cmd(bottom_bar_command(&state(None, 1), &ARMY_IDS, BottomBarAction::CreateArmy)), "Some(CreateArmy)");
    let full = BottomBarState { active_army_count: 3, ..state(None, 1) };
    assert_eq!(unwrap_cmd(bottom_bar_command(&full, &ARMY_IDS, BottomBarAction::CreateArmy)), "None");
}

#[test]
fn generals_of_other_armies_cannot_be_assigned() {
    let a = ArmyOrderView { id: 1, has_path: false, has_arrow: false, executing: false };
    let s = state(Some(a), 0);
    assert_eq!(
        unwrap_cmd(bottom_bar_command(
            &s, &ARMY_IDS,
            BottomBarAction::AssignGeneral { general_id: 5, assigned_army_id: Some(2) }
        )),
        "None"
    );
    assert_eq!(
        unwrap_cmd(bottom_bar_command(
            &s, &ARMY_IDS,
            BottomBarAction::AssignGeneral { general_id: 5, assigned_army_id: Some(1) }
        )),
        "Some(AssignGeneral { army_id: 1, general_id: 5 })"
    );
    assert_eq!(
        unwrap_cmd(bottom_bar_command(
            &s, &ARMY_IDS,
            BottomBarAction::AssignGeneral { general_id: 5, assigned_army_id: None }
        )),
        "Some(AssignGeneral { army_id: 1, general_id: 5 })"
    );
    assert_eq!(unwrap_cmd(bottom_bar_command(&s, &ARMY_IDS, BottomBarAction::UnassignGeneral)), "Some(UnassignGeneral(1))");
}

fn general() -> GeneralEntry {
    GeneralEntry {
        id: 5,
        name: "Rommel".to_owned(),
        skill: 4,
        attack: 3,
        defense: 2,
        planning: 5,
        logistics: 1,
        command_limit: 24,
        assigned_army_id: Some(2),
    }
}

#[test]
fn general_entries_in_the_commander_box() {
    let g = general();
    assert_eq!(general_option_label(&g, 12), "Rommel  Lv4  12/24");
    assert_eq!(
        general_option_tooltip(&g),
        "攻3 防2 计划5 后勤1\n指挥上限 24，超限会降低将领加成"
    );
    assert!(general_assigned_elsewhere(&g, 1));
    assert!(!general_assigned_elsewhere(&g, 2));
}

#[test]
fn tool_texts_and_accent() {
    assert_eq!(frontline_tool_tooltip(true), "重绘前线");
    assert_eq!(frontline_tool_tooltip(false), "画前线");
    assert_eq!(arrow_tool_tooltip(true), "重绘进攻箭头");
    assert_eq!(arrow_tool_tooltip(false), "画进攻箭头");
    assert_eq!(overlay_toggle_text(true), "ORD");
    assert_eq!(overlay_toggle_text(false), "ord");
    assert_eq!(military_panel_accent(PainterModeInfo::ArrowPainter(1), 0), PaletteColor::Warn);
    assert_eq!(military_panel_accent(PainterModeInfo::Idle, 2), PaletteColor::Good);
    assert_eq!(military_panel_accent(PainterModeInfo::Idle, 0), PaletteColor::BrassBright);
}

#[test]
fn create_army_hint_explains_the_slot() {
    let mut state = BottomBarState {
        selected_army: None,
        selected_division_count: 2,
        active_army_count: 1,
        max_armies_per_country: 3,
    };
    assert_eq!(create_army_hint(&state), "创建集团军（Ctrl多选师团后点击）");
    state.active_army_count = 3;
    assert_eq!(create_army_hint(&state), "已达到集团军上限");
    state.selected_division_count = 0;
    assert_eq!(create_army_hint(&state), "请先选择师团（Ctrl+点击多选）");
}

fn order_view(has_path: bool, has_arrow: bool, executing: bool) -> ArmyOrderView {
    ArmyOrderView { id: 4, has_path, has_arrow, executing }
}

#[test]
fn command_panel_army_rows() {
    assert_eq!(command_army_dot_color(&order_view(true, true, true)), PaletteColor::Good);
    assert_eq!(command_army_dot_color(&order_view(true, true, false)), PaletteColor::BrassBright);
    assert_eq!(command_army_dot_color(&order_view(true, false, false)), PaletteColor::Warn);
    assert_eq!(command_army_dot_color(&order_view(false, false, false)), PaletteColor::Muted);
    assert_eq!(command_army_row_label("第1集团军", 12), "第1集团军（12 师）");
    assert_eq!(commander_caption(Some("Rommel")), "Rommel");
    assert_eq!(commander_caption(None), "未任命将领");
    assert_eq!(division_army_caption(None), "未编入");
    assert_eq!(division_army_caption(Some("A")), "A");
    assert_eq!(selected_army_state_text(true, true), "执行计划中");
    assert_eq!(selected_army_state_text(false, true), "已激活");
    assert_eq!(selected_army_state_text(false, false), "待命");
    assert_eq!(presence_text(true), "已有");
    assert_eq!(presence_text(false), "无");
    assert_eq!(army_strength_text(24), "24 个师");
    assert_eq!(command_frontline_caption(true), "重画前线");
    assert_eq!(command_frontline_caption(false), "画前线");
    assert_eq!(command_overlay_caption(true), "隐藏叠层");
    assert_eq!(command_overlay_caption(false), "显示叠层");
}

#[test]
fn division_clicks_follow_modifiers() {
    assert!(matches!(division_click_command(true, true, 3), Some(MilitaryCommand::SelectAllDivisions)));
    assert!(matches!(
        division_click_command(false, true, 3),
        Some(MilitaryCommand::ToggleDivisionSelection(3))
    ));
    assert!(division_click_command(false, false, 3).is_none());
}

#[test]
fn command_strip_buttons() {
    let mut state = BottomBarState {
        selected_army: Some(order_view(false, false, false)),
        selected_division_count: 1,
        active_army_count: 0,
        max_armies_per_country: 2,
    };
    assert!(matches!(
        command_strip_command(&state, None, CommandStripButton::NewTemplate),
        Some(MilitaryCommand::NewTemplate)
    ));
    assert!(command_strip_command(&state, None, CommandStripButton::EditTemplate).is_none());
    assert!(matches!(
        command_strip_command(&state, Some(7), CommandStripButton::EditTemplate),
        Some(MilitaryCommand::OpenTemplateEditor(7))
    ));
    assert!(matches!(
        command_strip_command(&state, None, CommandStripButton::CreateArmy),
        Some(MilitaryCommand::CreateArmy)
    ));
    assert!(command_strip_command(&state, None, CommandStripButton::DrawArrow).is_none());
    assert!(command_strip_command(&state, None, CommandStripButton::ExecuteOrHalt).is_none());
    assert!(matches!(
        command_strip_command(&state, None, CommandStripButton::ClearFrontline),
        Some(MilitaryCommand::ClearFrontline(4))
    ));
    state.selected_army = Some(order_view(true, true, false));
    assert!(matches!(
        command_strip_command(&state, None, CommandStripButton::DrawArrow),
        Some(MilitaryCommand::DrawArrow(4))
    ));
    assert!(matches!(
        command_strip_command(&state, None, CommandStripButton::ExecuteOrHalt),
        Some(MilitaryCommand::ExecutePlan(4))
    ));
    state.selected_army = Some(order_view(true, true, true));
    assert!(matches!(
        command_strip_command(&state, None, CommandStripButton::ExecuteOrHalt),
        Some(MilitaryCommand::HaltPlan(4))
    ));
    state.selected_army = None;
    assert!(command_strip_command(&state, None, CommandStripButton::DrawFrontline).is_none());
    assert!(matches!(
        command_strip_command(&state, None, CommandStripButton::ToggleOverlay),
        Some(MilitaryCommand::ToggleOverlay)
    ));
    state.active_army_count = 2;
    assert!(command_strip_command(&state, None, CommandStripButton::CreateArmy).is_none());
}

#[test]
fn template_editor_controls() {
    assert!(template_editor_command(None, "Inf", TemplateEditorAction::Train).is_none());
    assert!(
        template_editor_command(Some(2), "Inf", TemplateEditorAction::Rename("Inf".into())).is_none()
    );
    match template_editor_command(Some(2), "Inf", TemplateEditorAction::Rename("Panzer".into())) {
        Some(MilitaryCommand::RenameTemplate(2, name)) => assert_eq!(name, "Panzer"),
        other => panic!("unexpected {other:?}"),
    }
    assert!(matches!(
        template_editor_command(Some(2), "Inf", TemplateEditorAction::Clone),
        Some(MilitaryCommand::CloneTemplate(2))
    ));
    assert!(matches!(
        template_editor_command(Some(2), "Inf", TemplateEditorAction::Delete),
        Some(MilitaryCommand::DeleteTemplate(2))
    ));
    assert!(matches!(
        template_editor_command(Some(2), "Inf", TemplateEditorAction::OpenLineSlot { row: 4, col: 1 }),
        Some(MilitaryCommand::OpenLineSubunitPicker { template: 2, row: 4, col: 1 })
    ));
    assert!(matches!(
        template_editor_command(Some(2), "Inf", TemplateEditorAction::ClearLineSlot { row: 0, col: 3 }),
        Some(MilitaryCommand::SetLineBattalion { template: 2, row: 0, col: 3, subunit: None })
    ));
    assert!(template_editor_command(Some(2), "Inf", TemplateEditorAction::OpenLineSlot { row: 5, col: 0 })
        .is_none());
    assert!(matches!(
        template_editor_command(Some(2), "Inf", TemplateEditorAction::OpenSupportSlot(4)),
        Some(MilitaryCommand::OpenSupportSubunitPicker { template: 2, slot: 4 })
    ));
    assert!(template_editor_command(Some(2), "Inf", TemplateEditorAction::ClearSupportSlot(5)).is_none());
}

#[test]
fn template_slots_and_equipment() {
    let grid = vec![vec![Some("infantry".to_owned()), None], vec![]];
    assert_eq!(line_slot_content(&grid, 0, 0).as_deref(), Some("infantry"));
    assert_eq!(line_slot_content(&grid, 0, 1), None);
    assert_eq!(line_slot_content(&grid, 1, 0), None);
    assert_eq!(line_slot_content(&grid, 4, 4), None);
    let support = vec![None, Some("engineer".to_owned())];
    assert_eq!(support_slot_content(&support, 1).as_deref(), Some("engineer"));
    assert_eq!(support_slot_content(&support, 3), None);
    assert_eq!(template_slot_caption(Some("infantry")), "infantry");
    assert_eq!(template_slot_caption(None), "+");
    assert_eq!(equipment_needs_line(&[]), "装备需求：无装备需求");
    assert_eq!(
        equipment_needs_line(&[("infantry_equipment".into(), 1000), ("artillery".into(), 36)]),
        "装备需求：infantry_equipment 1000 / artillery 36"
    );
}

#[test]
fn picker_sets_the_slot_then_closes() {
    assert_eq!(picker_current_caption(Some("infantry")), "当前：infantry");
    assert_eq!(picker_current_caption(None), "当前：空");
    let cmds = picker_commands(
        TemplatePickerTarget::Line { template: 1, row: 2, col: 3 },
        Some("artillery_brigade".to_owned()),
    );
    assert_eq!(cmds.len(), 2);
    match &cmds[0] {
        MilitaryCommand::SetLineBattalion { template: 1, row: 2, col: 3, subunit: Some(s) } => {
            assert_eq!(s, "artillery_brigade")
        }
        other => panic!("unexpected {other:?}"),
    }
    assert!(matches!(cmds[1], MilitaryCommand::CloseSubunitPicker));
    let cleared = picker_commands(TemplatePickerTarget::Support { template: 1, slot: 0 }, None);
    assert!(matches!(
        cleared[0],
        MilitaryCommand::SetSupportCompany { template: 1, slot: 0, subunit: None }
    ));
    assert!(matches!(cleared[1], MilitaryCommand::CloseSubunitPicker));
}

#[test]
fn only_the_first_eight_armies_get_cards() {
    assert_eq!(army_card_ids(&ARMY_IDS), vec![2, 9, 8, 4, 5, 6, 7, 3]);
    assert_eq!(army_card_ids(&ARMY_IDS[..3]), vec![2, 9, 8]);
    let s = state(None, 1);
    assert_eq!(unwrap_cmd(bottom_bar_command(&s, &ARMY_IDS, BottomBarAction::SelectArmy(7))), "Some(SelectArmy(3))");
    assert_eq!(unwrap_cmd(bottom_bar_command(&s, &ARMY_IDS, BottomBarAction::SelectArmy(8))), "None");
    assert_eq!(unwrap_cmd(bottom_bar_command(&s, &ARMY_IDS, BottomBarAction::AddDivisionsTo(8))), "None");
    assert_eq!(unwrap_cmd(bottom_bar_command(&s, &ARMY_IDS[..2], BottomBarAction::SelectArmy(2))), "None");
}

#[test]
fn detail_and_logistics_buttons_open_panels() {
    assert!(matches!(
        army_detail_command(5),
        MilitaryCommand::Panel(PanelRequest::ArmyDetail { army_id: 5 })
    ));
    let mut s = state(Some(order_view(false, false, false)), 0);
    assert!(matches!(
        command_strip_command(&s, None, CommandStripButton::ArmyDetail),
        Some(MilitaryCommand::Panel(PanelRequest::ArmyDetail { army_id: 4 }))
    ));
    assert!(matches!(
        command_strip_command(&s, None, CommandStripButton::Logistics),
        Some(MilitaryCommand::Panel(PanelRequest::Logistics))
    ));
    s.selected_army = None;
    assert!(command_strip_command(&s, None, CommandStripButton::ArmyDetail).is_none());
    assert!(matches!(
        command_strip_command(&s, None, CommandStripButton::Logistics),
        Some(MilitaryCommand::Panel(PanelRequest::Logistics))
    ));
}

#[test]
fn executing_armies_are_counted() {
    let armies = [order_view(true, true, true), order_view(true, false, false), order_view(true, true, true)];
    assert_eq!(executing_army_count(&armies), 2);
    assert_eq!(executing_army_count(&[]), 0);
}
