use hoi4_ui::color::{PaletteColor, Rgba8};
use hoi4_ui::politics::{
    canonical_ideology_key, country_politics_binding_specs, country_politics_hidden_node,
    decision_effect_preview, hoi4_ideology_color, idea_category_kind_from_path, idea_icon_gfx,
    idea_slot_context_from_path, ideology_color, ideology_label_key, is_national_spirit_category,
    normalize_law_name_for_sprite, party_name_for_ideology, party_row_index_from_path,
    politics_close_requested_from_render_stats, politics_commands_from_render_stats,
    politics_idea_category_slot_count, politics_law_category_color, politics_law_category_glyph,
    politics_law_status_color, spirit_slot_index_from_path, CountryPoliticsBindingValue,
    national_spirit_ideas, politics_law_category_label_key, politics_law_status_text,
    politics_law_tooltip, LawStatusWords, politics_action_command, idea_modifier_label, ModifierStyle,
    IdeaCategoryRowKind, LawCategory, PanelSvgIcon, DecisionCommand, PoliticsLawEntry,
    COUNTRY_POLITICS_ROOT,
};

#[test]
fn gate6_ideology_colors_match_vanilla_00_ideologies() {
    assert_eq!(ideology_color("fascism"), Rgba8::from_rgb(150, 75, 0));
    assert_eq!(ideology_color("democratic"), Rgba8::from_rgb(0, 0, 255));
    assert_eq!(ideology_color("communism"), Rgba8::from_rgb(255, 0, 0));
    assert_eq!(
        ideology_color("neutrality"),
        Rgba8::from_rgb(124, 124, 124)
    );
}

#[test]
fn gate6_binding_specs_document_only_data_binding_values() {
    let specs = country_politics_binding_specs();
    assert!(specs.len() >= 20);
    for spec in &specs {
        assert!(spec.path_pattern.starts_with(COUNTRY_POLITICS_ROOT));
        assert!(!spec.values.is_empty(), "{spec:?}");
        assert!(!spec.reason.trim().is_empty(), "{spec:?}");
        for value in &spec.values {
            assert!(
                matches!(
                    value,
                    CountryPoliticsBindingValue::Visibility
                        | CountryPoliticsBindingValue::Text
                        | CountryPoliticsBindingValue::TextColor
                        | CountryPoliticsBindingValue::Sprite
                        | CountryPoliticsBindingValue::Tint
                        | CountryPoliticsBindingValue::Progress
                        | CountryPoliticsBindingValue::Pie
                        | CountryPoliticsBindingValue::Tooltip
                        | CountryPoliticsBindingValue::Command
                        | CountryPoliticsBindingValue::Instances
                ),
                "{spec:?}"
            );
        }
    }

    assert!(specs
        .iter()
        .any(|spec| spec.path_pattern.contains("active_goal.progress")
            && spec.values == [CountryPoliticsBindingValue::Progress]));
    assert!(specs.iter().any(|spec| {
        spec.path_pattern.contains("add_idea_button")
            && spec.values.contains(&CountryPoliticsBindingValue::Command)
    }));
}

#[test]
fn gate6_idea_picture_names_follow_vanilla_gfx_prefixes() {
    assert_eq!(
        idea_icon_gfx("general_staff", Some("general_staff")).as_deref(),
        Some("GFX_idea_general_staff")
    );
    assert_eq!(
        idea_icon_gfx("x", Some("idea_limited_conscription")).as_deref(),
        Some("GFX_idea_limited_conscription")
    );
}

#[test]
fn idea_sprites_cover_every_source() {
    assert_eq!(
        idea_icon_gfx("x", Some("GFX_idea_sour_loser")).as_deref(),
        Some("GFX_idea_sour_loser")
    );
    assert_eq!(
        idea_icon_gfx("sour_loser", Some("")).as_deref(),
        Some("GFX_idea_sour_loser")
    );
    assert_eq!(
        idea_icon_gfx("sour_loser", None).as_deref(),
        Some("GFX_idea_sour_loser")
    );
    assert_eq!(idea_icon_gfx("", None), None);
    assert_eq!(idea_icon_gfx("", Some("")), None);
}

#[test]
fn category_rows_are_read_from_paths() {
    let row1 = "countrypoliticsview.idea_categories_grid.country_politics_idea_category_entry[1].ideas_grid";
    assert_eq!(
        idea_category_kind_from_path(row1),
        Some(IdeaCategoryRowKind::ResearchProduction)
    );
    assert_eq!(
        idea_category_kind_from_path("x.country_politics_idea_category_entry[0]"),
        Some(IdeaCategoryRowKind::GovernmentLaws)
    );
    assert_eq!(
        idea_category_kind_from_path("x.country_politics_idea_category_entry[+2]"),
        Some(IdeaCategoryRowKind::MilitaryStaff)
    );
    assert_eq!(idea_category_kind_from_path("x.country_politics_idea_category_entry[3]"), None);
    assert_eq!(idea_category_kind_from_path("x.country_politics_idea_category_entry[]"), None);
    assert_eq!(idea_category_kind_from_path("x.country_politics_idea_category_entry[1"), None);
    assert_eq!(idea_category_kind_from_path("countrypoliticsview.leader"), None);
}

#[test]
fn idea_slots_are_read_from_paths() {
    let path = "countrypoliticsview.idea_categories_grid.country_politics_idea_category_entry[0].political_idea_entry[5].add_idea_button";
    assert_eq!(
        idea_slot_context_from_path(path),
        Some((IdeaCategoryRowKind::GovernmentLaws, 5))
    );
    assert_eq!(
        idea_slot_context_from_path("country_politics_idea_category_entry[2].political_idea_entry[x]"),
        None
    );
    assert_eq!(idea_slot_context_from_path("political_idea_entry[5]"), None);
}

#[test]
fn spirit_slots_need_the_spirit_grid() {
    let path = "countrypoliticsview.national_spirit.spirit_grid.political_idea_entry[12].add_idea_button";
    assert_eq!(spirit_slot_index_from_path(path), Some(12));
    assert_eq!(
        spirit_slot_index_from_path("countrypoliticsview.political_idea_entry[12]"),
        None
    );
    assert_eq!(
        spirit_slot_index_from_path("spirit_grid.political_idea_entry[99999999999999999999999]"),
        None
    );
}

#[test]
fn party_rows_need_the_parties_grid() {
    assert_eq!(
        party_row_index_from_path("countrypoliticsview.parties_grid.political_party_info_entry[3].name"),
        Some(3)
    );
    assert_eq!(
        party_row_index_from_path("countrypoliticsview.political_party_info_entry[3].name"),
        None
    );
    assert_eq!(
        party_row_index_from_path("parties_grid.political_party_info_entry[-1]"),
        None
    );
}

#[test]
fn hidden_nodes_by_name_or_path() {
    assert!(country_politics_hidden_node("countrypoliticsview.x", "faction"));
    assert!(country_politics_hidden_node("countrypoliticsview.x", "rules"));
    assert!(country_politics_hidden_node("countrypoliticsview.exiles_view.title", "title"));
    assert!(country_politics_hidden_node("a.subjects.b", "b"));
    assert!(!country_politics_hidden_node("countrypoliticsview.leader", "leader"));
    assert!(!country_politics_hidden_node("countrypoliticsview.x", "factions"));
}

#[test]
fn national_spirit_categories() {
    assert!(is_national_spirit_category("country"));
    assert!(is_national_spirit_category("national_spirit"));
    assert!(!is_national_spirit_category("economy"));
    assert!(!is_national_spirit_category("Country"));
}

#[test]
fn ideology_keys_are_normalised() {
    assert_eq!(canonical_ideology_key("fascist"), Some("fascism"));
    assert_eq!(canonical_ideology_key("  Democracy "), Some("democratic"));
    assert_eq!(canonical_ideology_key("COMMUNIST"), Some("communism"));
    assert_eq!(canonical_ideology_key("non-aligned"), Some("neutrality"));
    assert_eq!(canonical_ideology_key("Non_Aligned"), Some("neutrality"));
    assert_eq!(canonical_ideology_key("custom_gray_party"), None);
    assert_eq!(canonical_ideology_key(""), None);
}

#[test]
fn ideology_colors_follow_canonical_keys() {
    assert_eq!(hoi4_ideology_color("Fascist"), Rgba8::from_rgb(150, 75, 0));
    assert_eq!(hoi4_ideology_color("non-aligned"), Rgba8::from_rgb(124, 124, 124));
    assert_eq!(hoi4_ideology_color("monarchism"), Rgba8::from_rgb(0x66, 0x66, 0x60));
    for key in ["fascist", "democracy", "communist", "neutral"] {
        let canonical = canonical_ideology_key(key).unwrap();
        assert_eq!(hoi4_ideology_color(key), hoi4_ideology_color(canonical));
        assert_eq!(canonical_ideology_key(canonical), Some(canonical));
    }
}

#[test]
fn ideology_label_keys() {
    assert_eq!(ideology_label_key("democrat"), "democratic");
    assert_eq!(ideology_label_key("neutrality"), "neutrality");
    assert_eq!(ideology_label_key("anarchism"), "unknown");
}

#[test]
fn category_row_slot_counts() {
    let laws = IdeaCategoryRowKind::GovernmentLaws;
    assert_eq!(politics_idea_category_slot_count(laws, 0), 1);
    assert_eq!(politics_idea_category_slot_count(laws, 6), 6);
    assert_eq!(politics_idea_category_slot_count(laws, 9), 7);
    assert_eq!(
        politics_idea_category_slot_count(IdeaCategoryRowKind::ResearchProduction, 9),
        5
    );
    assert_eq!(politics_idea_category_slot_count(IdeaCategoryRowKind::MilitaryStaff, 0), 6);
}

#[test]
fn category_row_titles_frames_and_glyphs() {
    assert_eq!(IdeaCategoryRowKind::GovernmentLaws.title(), "Government / Laws");
    assert_eq!(IdeaCategoryRowKind::ResearchProduction.title(), "Research & Production");
    assert_eq!(IdeaCategoryRowKind::MilitaryStaff.title(), "Military Staff");
    assert_eq!(IdeaCategoryRowKind::GovernmentLaws.category_frame(), 5);
    assert_eq!(IdeaCategoryRowKind::ResearchProduction.category_frame(), 2);
    assert_eq!(IdeaCategoryRowKind::MilitaryStaff.glyph(), "M");
    assert_eq!(IdeaCategoryRowKind::MilitaryStaff.localized_title_key(), "military_staff");
}

fn law(category: LawCategory) -> PoliticsLawEntry {
    PoliticsLawEntry {
        category,
        current_id: "volunteer_only".to_owned(),
        current_name: "Volunteer Only".to_owned(),
        cooldown_days: 0,
        pending: None,
        is_locked: false,
    }
}

#[test]
fn law_slot_status_colors() {
    assert_eq!(politics_law_status_color(&law(LawCategory::Conscription)), PaletteColor::Good);
    let mut pending = law(LawCategory::Economy);
    pending.pending = Some(("War Economy".to_owned(), 12));
    assert_eq!(politics_law_status_color(&pending), PaletteColor::Warn);
    let mut cooldown = law(LawCategory::Trade);
    cooldown.cooldown_days = 7;
    assert_eq!(politics_law_status_color(&cooldown), PaletteColor::Warn);
    let mut locked = law(LawCategory::CivilRights);
    locked.is_locked = true;
    locked.cooldown_days = 7;
    assert_eq!(politics_law_status_color(&locked), PaletteColor::Bad);
}

#[test]
fn law_category_glyphs_colors_and_icons() {
    assert_eq!(politics_law_category_glyph(&LawCategory::Taxation), "$");
    assert_eq!(politics_law_category_glyph(&LawCategory::InformationControl), "I");
    assert_eq!(politics_law_category_color(&LawCategory::Conscription), PaletteColor::IdeoFascism);
    assert_eq!(politics_law_category_color(&LawCategory::CivilRights), PaletteColor::ColdAtomic);
    assert_eq!(PanelSvgIcon::from_law(&LawCategory::Trade), PanelSvgIcon::Globe);
    assert_eq!(PanelSvgIcon::from_law(&LawCategory::InformationControl), PanelSvgIcon::Microphone);
}

#[test]
fn law_names_reduce_to_sprite_characters() {
    assert_eq!(normalize_law_name_for_sprite("Volunteer Only"), "volunteeronly");
    assert_eq!(normalize_law_name_for_sprite("War-Economy (1936)"), "wareconomy1936");
    assert_eq!(normalize_law_name_for_sprite("全民动员"), "");
    assert_eq!(normalize_law_name_for_sprite(""), "");
}

#[test]
fn party_names_prefer_named_parties() {
    let names = vec![
        ("fascism".to_owned(), "  ".to_owned()),
        ("fascism".to_owned(), "NSDAP".to_owned()),
        ("democratic".to_owned(), "SPD".to_owned()),
    ];
    assert_eq!(
        party_name_for_ideology(&names, "fascism", "Long Name", "fascism").as_deref(),
        Some("NSDAP")
    );
    assert_eq!(
        party_name_for_ideology(&[], "fascism", "Long Name", "fascism").as_deref(),
        Some("Long Name")
    );
    assert_eq!(party_name_for_ideology(&[], "fascism", " ", "fascism"), None);
    assert_eq!(party_name_for_ideology(&names, "fascism", "Long", "communism"), None);
}

#[test]
fn close_click_is_detected() {
    assert!(!politics_close_requested_from_render_stats(&[]));
    assert!(politics_close_requested_from_render_stats(&[
        "open_focus_tree".to_owned(),
        "close".to_owned()
    ]));
    assert!(!politics_close_requested_from_render_stats(&["closed".to_owned()]));
}

#[test]
fn clicks_become_command_intents() {
    let clicks = vec![
        "open_focus_tree".to_owned(),
        "close".to_owned(),
        "law:Economy".to_owned(),
        "unknown".to_owned(),
        "law:".to_owned(),
    ];
    let intents = politics_commands_from_render_stats(&clicks);
    assert_eq!(intents.len(), 3);
    assert!(matches!(intents[0], DecisionCommand::OpenFocusTree));
    match &intents[1] {
        DecisionCommand::OpenLawDetail { category } => assert_eq!(category, "Economy"),
        other => panic!("unexpected intent: {other:?}"),
    }
    match &intents[2] {
        DecisionCommand::OpenLawDetail { category } => assert_eq!(category, ""),
        other => panic!("unexpected intent: {other:?}"),
    }
}

#[test]
fn effect_preview_keeps_five_summaries() {
    let few = vec!["+10 PP".to_owned(), "+5% stability".to_owned()];
    assert_eq!(decision_effect_preview(few), "+10 PP  ·  +5% stability");
    let many: Vec<String> = (1..=7).map(|i| format!("e{i}")).collect();
    assert_eq!(
        decision_effect_preview(many),
        "e1  ·  e2  ·  e3  ·  e4  ·  e5  ·  ..."
    );
    assert_eq!(decision_effect_preview(vec![]), "");
}

fn status_words() -> LawStatusWords {
    LawStatusWords {
        locked: "锁定".to_owned(),
        pending: "切换中".to_owned(),
        cooldown: "冷却".to_owned(),
        current: "当前".to_owned(),
    }
}

#[test]
fn gate9_law_slot_statuses_cover_current_pending_cooldown_locked() {
    let words = status_words();
    let current = law(LawCategory::Conscription);
    assert_eq!(politics_law_status_text(&current, &words), words.current);

    let mut pending = law(LawCategory::Economy);
    pending.pending = Some(("War Economy".to_owned(), 12));
    assert!(politics_law_status_text(&pending, &words).contains(words.pending.as_str()));
    assert!(politics_law_tooltip(&pending, "经济").contains("War Economy"));

    let mut cooldown = law(LawCategory::Trade);
    cooldown.cooldown_days = 7;
    assert!(politics_law_status_text(&cooldown, &words).contains(words.cooldown.as_str()));
    assert!(politics_law_tooltip(&cooldown, "贸易").contains("7"));

    let mut locked = law(LawCategory::CivilRights);
    locked.is_locked = true;
    assert_eq!(politics_law_status_text(&locked, &words), words.locked);
}

#[test]
fn law_status_text_has_exact_forms() {
    let words = status_words();
    let mut pending = law(LawCategory::Economy);
    pending.pending = Some(("War Economy".to_owned(), 12));
    pending.cooldown_days = 30;
    assert_eq!(politics_law_status_text(&pending, &words), "切换中: War Economy / 12天");
    let mut cooldown = law(LawCategory::Trade);
    cooldown.cooldown_days = 7;
    assert_eq!(politics_law_status_text(&cooldown, &words), "冷却 7天");
    let mut locked = pending.clone();
    locked.is_locked = true;
    assert_eq!(politics_law_status_text(&locked, &words), "锁定");
}

#[test]
fn law_tooltip_lists_every_state() {
    let mut slot = law(LawCategory::Economy);
    slot.is_locked = true;
    slot.pending = Some(("War Economy".to_owned(), 12));
    slot.cooldown_days = 30;
    assert_eq!(
        politics_law_tooltip(&slot, "经济"),
        "经济: Volunteer Only\n点击打开法律详情\n状态：锁定\n切换中：War Economy，剩余 12 天\n冷却中：剩余 30 天"
    );
}

#[test]
fn law_category_label_keys() {
    assert_eq!(politics_law_category_label_key(&LawCategory::Conscription), "v6_law_conscription");
    assert_eq!(
        politics_law_category_label_key(&LawCategory::InformationControl),
        "v6_law_information_control"
    );
}

#[test]
fn national_spirits_are_picked_in_order() {
    let categories: Vec<String> = ["country", "economy", "national_spirit", "trade_laws", "country"]
        .iter()
        .map(|s| s.to_string())
        .collect();
    assert_eq!(national_spirit_ideas(&categories), vec![0, 2, 4]);
    assert_eq!(national_spirit_ideas(&[]), Vec::<usize>::new());
    let none: Vec<String> = vec!["economy".to_owned(), "Country".to_owned()];
    assert_eq!(national_spirit_ideas(&none), Vec::<usize>::new());
}

#[test]
fn idea_modifiers_have_captions_and_styles() {
    assert_eq!(idea_modifier_label("political_power_gain"), Some(("政治力量", ModifierStyle::PerDay)));
    assert_eq!(
        idea_modifier_label("political_power_factor"),
        Some(("政治力量", ModifierStyle::Percent))
    );
    assert_eq!(
        idea_modifier_label("consumer_goods_factor"),
        Some(("消费品工厂", ModifierStyle::Percent))
    );
    assert_eq!(idea_modifier_label("attrition"), Some(("损耗", ModifierStyle::Percent)));
    assert_eq!(idea_modifier_label("stability_factor"), None);
}

#[test]
fn only_clicks_give_commands() {
    let keys = vec!["economy".to_owned()];
    let path = "countrypoliticsview.active_goal";
    assert!(politics_action_command(false, path, &keys).is_none());
    assert!(matches!(politics_action_command(true, path, &keys), Some(DecisionCommand::OpenFocusTree)));
    assert!(politics_action_command(false, "countrypoliticsview.law.economy", &keys).is_none());
    assert!(matches!(
        politics_action_command(true, "countrypoliticsview.law.economy", &keys),
        Some(DecisionCommand::OpenLawDetail { .. })
    ));
}

#[test]
fn binding_table_rows_are_exact() {
    let specs = country_politics_binding_specs();
    assert_eq!(specs.len(), 31);
    assert_eq!(specs[0].path_pattern, "countrypoliticsview.hidden-subsystems");
    assert_eq!(specs[9].path_pattern, "countrypoliticsview.active_goal.progress");
    assert_eq!(specs[9].values, vec![CountryPoliticsBindingValue::Progress]);
    assert_eq!(specs[30].path_pattern, "countrypoliticsview.election_hemicycle");
    assert_eq!(specs[30].reason, "SPR 1936 election hemicycle seats visualization");
}

#[test]
fn gate2_render_stats_commands_keep_close_and_focus_actions() {
    let clicked = vec!["open_focus_tree".to_owned(), "close".to_owned()];
    let commands = politics_commands_from_render_stats(&clicked);
    assert!(politics_close_requested_from_render_stats(&clicked));
    assert!(matches!(commands.as_slice(), [DecisionCommand::OpenFocusTree]));
}

#[test]
fn gate4_runtime_idea_category_slot_counts_follow_data() {
    let law_slots = 6;
    assert_eq!(politics_idea_category_slot_count(IdeaCategoryRowKind::GovernmentLaws, law_slots), 6);
    assert_eq!(
        politics_idea_category_slot_count(IdeaCategoryRowKind::ResearchProduction, law_slots),
        5
    );
    assert_eq!(politics_idea_category_slot_count(IdeaCategoryRowKind::MilitaryStaff, law_slots), 6);
}

#[test]
fn gate8_idea_category_rows_match_vanilla_density() {
    assert_eq!(IdeaCategoryRowKind::GovernmentLaws.title(), "Government / Laws");
    assert_eq!(IdeaCategoryRowKind::ResearchProduction.title(), "Research & Production");
    assert_eq!(IdeaCategoryRowKind::MilitaryStaff.title(), "Military Staff");
}
