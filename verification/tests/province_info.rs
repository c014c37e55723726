use hoi4_ui::province_info::{
    building_level_text, province_card_open_after_frame, building_warnings_text, infrastructure_text, project_eta, project_label,
    province_kind_text, province_title, shows_controller, slots_text, strategic_nodes_text,
    tactical_extra_rows,
};

#[test]
fn province_lines() {
    assert_eq!(province_title(1042, "Berlin"), "#1042 Berlin");
    assert_eq!(province_kind_text("land", "urban"), "land / urban");
    assert!(!shows_controller("GER", "GER"));
    assert!(shows_controller("POL", "GER"));
    assert_eq!(
        strategic_nodes_text(&["Port".to_owned(), "Airbase".to_owned()]),
        "Port, Airbase"
    );
    assert_eq!(strategic_nodes_text(&[]), "");
}

#[test]
fn tactical_rows_count_the_optional_lines() {
    assert_eq!(tactical_extra_rows(false, 0, 0, "GER", "GER"), 0);
    assert_eq!(tactical_extra_rows(true, 5, 2, "POL", "GER"), 4);
    assert_eq!(tactical_extra_rows(true, 0, 1, "GER", "GER"), 2);
}

#[test]
fn state_and_building_lines() {
    assert_eq!(infrastructure_text(7), "7/10");
    assert_eq!(slots_text(3, 12), "3/12");
    assert_eq!(building_level_text(4), "Lv 4");
    assert_eq!(building_warnings_text(&[]), "None");
    assert_eq!(
        building_warnings_text(&["缺钢材".to_owned(), "缺工人".to_owned()]),
        "缺钢材; 缺工人"
    );
}

#[test]
fn construction_project_lines() {
    assert_eq!(project_label("Civilian Factory", 2, 3), "Civilian Factory Lv 2 -> 3");
    assert_eq!(project_eta(Some(45)), "ETA 45d");
    assert_eq!(project_eta(None), "ETA unknown");
}

#[test]
fn card_closes_on_its_close_button() {
    assert!(province_card_open_after_frame(true, false));
    assert!(!province_card_open_after_frame(true, true));
    assert!(!province_card_open_after_frame(false, false));
}
