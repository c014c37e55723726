use hoi4_ui::color::PaletteColor;
use hoi4_ui::research::{
    category_label, category_tree_row, count_ahead, count_completed, disabled_research_label,
    idle_slot_count, prerequisite_line, research_selected_key, shown_tech_index,
    start_research_command, tech_accent_color, tech_detail_caption, tech_matches_search,
    tech_status_label, unlock_preview_rows, ResearchCommand, TechInfo, CATEGORIES,
};

#[test]
fn every_category_has_a_caption() {
    let captions: Vec<&str> = CATEGORIES.iter().map(|c| category_label(c)).collect();
    assert_eq!(
        captions,
        vec!["工业", "化工", "电气", "冶金", "军事学说", "航空", "海军", "社会科学", "信息管制"]
    );
    assert_eq!(category_label("space"), "科技");
}

#[test]
fn tech_search_matches_any_text() {
    let prereqs = vec!["Basic Machine Tools".to_owned()];
    let unlocks = vec!["Unlocks: Synthetic Oil".to_owned()];
    let hit = |q: &str| tech_matches_search("Improved Machine Tools", "industry", &prereqs, &unlocks, q);
    assert!(hit(""));
    assert!(hit("   "));
    assert!(hit("improved"));
    assert!(hit("  MACHINE "));
    assert!(hit("工业"));
    assert!(hit("basic"));
    assert!(hit("synthetic"));
    assert!(!hit("radar"));
    assert!(!hit("化工"));
}

fn tech(key: &str, category: &str, year: u16, completed: bool, researching: bool) -> TechInfo {
    TechInfo {
        key: key.to_owned(),
        name: key.to_uppercase(),
        category: category.to_owned(),
        start_year: year,
        completed,
        researching,
        prerequisites: vec![],
        unlock_summary: vec![],
    }
}

#[test]
fn tech_status_follows_completion_research_and_year() {
    assert_eq!(tech_status_label(&tech("a", "industry", 1936, true, true), 1936), "已完成");
    assert_eq!(tech_status_label(&tech("a", "industry", 1940, false, true), 1936), "研究中");
    assert_eq!(tech_status_label(&tech("a", "industry", 1940, false, false), 1936), "超前");
    assert_eq!(tech_status_label(&tech("a", "industry", 1936, false, false), 1936), "可研究");
    assert_eq!(tech_accent_color(&tech("a", "industry", 1936, true, false), 1936), PaletteColor::Good);
    assert_eq!(tech_accent_color(&tech("a", "industry", 1936, false, true), 1936), PaletteColor::Warn);
    assert_eq!(tech_accent_color(&tech("a", "industry", 1939, false, false), 1936), PaletteColor::Bad);
    assert_eq!(tech_accent_color(&tech("a", "industry", 1936, false, false), 1936), PaletteColor::Info);
}

#[test]
fn tech_detail_lines() {
    assert_eq!(
        tech_detail_caption(&tech("a", "electrical", 1938, false, false), 1936),
        "电气 / 1938 / 超前"
    );
    assert_eq!(prerequisite_line(&[]), "前置科技：无");
    assert_eq!(
        prerequisite_line(&["Radio".to_owned(), "Radar".to_owned()]),
        "前置科技：Radio, Radar"
    );
    assert_eq!(unlock_preview_rows(&[]), vec!["无直接解锁预览".to_owned()]);
    let many: Vec<String> = (1..=9).map(|i| format!("unlock {i}")).collect();
    assert_eq!(unlock_preview_rows(&many), many[..7].to_vec());
    assert_eq!(unlock_preview_rows(&many[..2]), many[..2].to_vec());
}

#[test]
fn start_button_needs_an_idle_slot_and_an_open_tech() {
    let open = tech("radar", "electrical", 1936, false, false);
    match start_research_command(&open, 1) {
        Some(ResearchCommand::StartResearch(key)) => assert_eq!(key, "radar"),
        None => panic!("research should start"),
    }
    assert!(start_research_command(&open, 0).is_none());
    assert_eq!(disabled_research_label(&open), "无空闲槽位");
    let done = tech("radar", "electrical", 1936, true, false);
    assert!(start_research_command(&done, 2).is_none());
    assert_eq!(disabled_research_label(&done), "已完成");
    let busy = tech("radar", "electrical", 1936, false, true);
    assert!(start_research_command(&busy, 2).is_none());
    assert_eq!(disabled_research_label(&busy), "研究中");
    assert_eq!(idle_slot_count(3, 1), 2);
    assert_eq!(idle_slot_count(2, 5), 0);
}

#[test]
fn selection_falls_back_in_order() {
    let techs = vec![
        tech("a", "industry", 1936, true, false),
        tech("b", "industry", 1936, false, false),
        tech("c", "air", 1936, false, true),
    ];
    assert_eq!(research_selected_key(&techs, Some("b")).as_deref(), Some("b"));
    assert_eq!(research_selected_key(&techs, Some("zz")).as_deref(), Some("c"));
    assert_eq!(research_selected_key(&techs, None).as_deref(), Some("c"));
    assert_eq!(research_selected_key(&techs[..2], None).as_deref(), Some("b"));
    assert_eq!(research_selected_key(&techs[..1], None).as_deref(), Some("a"));
    assert_eq!(research_selected_key(&[], Some("a")), None);
    assert_eq!(shown_tech_index(&techs, Some("b")), Some(1));
    assert_eq!(shown_tech_index(&techs, Some("zz")), Some(2));
    assert_eq!(shown_tech_index(&techs[..2], None), Some(0));
    assert_eq!(shown_tech_index(&[], None), None);
}

#[test]
fn counts_and_tree_rows() {
    let techs = vec![
        tech("a", "industry", 1936, true, false),
        tech("b", "air", 1940, false, false),
        tech("c", "industry", 1941, false, false),
        tech("d", "industry", 1941, true, false),
        tech("e", "industry", 1936, false, true),
        tech("f", "industry", 1937, false, false),
        tech("g", "industry", 1938, false, false),
    ];
    assert_eq!(count_completed(&techs), 2);
    assert_eq!(count_ahead(&techs, 1937), 3);
    assert_eq!(category_tree_row(&techs, "industry"), vec![0, 2, 3, 4, 5]);
    assert_eq!(category_tree_row(&techs, "air"), vec![1]);
    assert_eq!(category_tree_row(&techs, "naval"), Vec::<usize>::new());
}
