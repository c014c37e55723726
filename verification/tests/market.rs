use hoi4_ui::color::Rgba8;
use hoi4_ui::market::{
    category_label_key, good_matches_search, market_tab_keeps_good, related_good_display_name, GoodLabel,
    MarketActionEntry, category_color, category_sort_order, count_critical_alerts, display_chain,
    market_ledger_title, market_v9_secondary_tabs, market_v9_tab_order, supply_source_kind_label,
    GoodCategory, GoodSupplySourceKind, MarketAlertEntry, MarketAlertSeverity, MarketPanelTab,
    MARKET_V9_FOOTER,
};

#[test]
fn category_sort_order_raw_first() {
    assert!(
        category_sort_order(&GoodCategory::RawMaterial)
            < category_sort_order(&GoodCategory::Intermediate)
    );
}

#[test]
fn market_v9_secondary_tabs_are_complete() {
    let ids: Vec<&str> = market_v9_tab_order()
        .into_iter()
        .map(MarketPanelTab::id)
        .collect();
    assert_eq!(
        ids,
        vec![
            "overview",
            "shortages",
            "goods",
            "industry_chain",
            "trade",
            "market_bloc",
            "subjects",
            "actions",
        ]
    );
}

#[test]
fn market_v9_footer_is_player_visible_chinese() {
    assert!(MARKET_V9_FOOTER.contains("关闭"));
    assert!(MARKET_V9_FOOTER.contains("商品详情"));
    assert!(!MARKET_V9_FOOTER.contains("Close"));
    assert!(!MARKET_V9_FOOTER.contains("Goods table"));
}

#[test]
fn category_sort_order_ranks_every_category_once() {
    let all = [
        GoodCategory::RawMaterial,
        GoodCategory::Intermediate,
        GoodCategory::MilitaryIntermediate,
        GoodCategory::Consumer,
        GoodCategory::Luxury,
        GoodCategory::Service,
    ];
    let ranks: Vec<u8> = all.iter().map(category_sort_order).collect();
    assert_eq!(ranks, vec![0, 1, 2, 3, 4, 5]);
}

#[test]
fn category_colors_are_opaque_swatches() {
    assert_eq!(
        category_color(&GoodCategory::RawMaterial),
        Rgba8::from_rgb(0x80, 0xa0, 0x50)
    );
    assert_eq!(
        category_color(&GoodCategory::MilitaryIntermediate),
        Rgba8 { r: 0xa0, g: 0x50, b: 0x50, a: 255 }
    );
}

#[test]
fn secondary_tabs_pair_ids_with_labels() {
    let tabs = market_v9_secondary_tabs();
    assert_eq!(tabs[0], ("overview", "总览"));
    assert_eq!(tabs[3], ("industry_chain", "产业链"));
    assert_eq!(tabs[4], ("trade", "进口出口"));
    assert_eq!(tabs[7], ("actions", "行动建议"));
    for (tab, (id, label)) in market_v9_tab_order().into_iter().zip(tabs) {
        assert_eq!(tab.id(), id);
        assert_eq!(tab.label(), label);
    }
}

#[test]
fn tab_ids_read_back_to_the_same_tab() {
    for tab in market_v9_tab_order() {
        assert_eq!(MarketPanelTab::from_id(tab.id()), tab);
    }
    assert_eq!(MarketPanelTab::from_id("market_bloc"), MarketPanelTab::MarketBloc);
}

#[test]
fn unknown_tab_id_falls_back_to_overview() {
    assert_eq!(MarketPanelTab::from_id(""), MarketPanelTab::Overview);
    assert_eq!(MarketPanelTab::from_id("Trade"), MarketPanelTab::Overview);
    assert_eq!(MarketPanelTab::from_id("trade "), MarketPanelTab::Overview);
}

#[test]
fn ledger_titles_follow_tabs() {
    assert_eq!(market_ledger_title(MarketPanelTab::Overview), "市场商品总览");
    assert_eq!(market_ledger_title(MarketPanelTab::Shortages), "短缺商品");
    assert_eq!(market_ledger_title(MarketPanelTab::Actions), "行动建议相关商品");
}

#[test]
fn supply_source_labels() {
    assert_eq!(supply_source_kind_label(GoodSupplySourceKind::Domestic), "国内");
    assert_eq!(supply_source_kind_label(GoodSupplySourceKind::Subject), "殖民/傀儡");
    assert_eq!(supply_source_kind_label(GoodSupplySourceKind::Stockpile), "库存");
}

#[test]
fn display_chain_joins_with_arrows() {
    assert_eq!(display_chain(&[]), "无");
    assert_eq!(display_chain(&["steel".to_string()]), "steel");
    assert_eq!(
        display_chain(&[
            "iron".to_string(),
            "steel".to_string(),
            "machine_tools".to_string()
        ]),
        "iron -> steel -> machine_tools"
    );
}

fn alert(severity: MarketAlertSeverity) -> MarketAlertEntry {
    MarketAlertEntry {
        severity,
        good_id: "steel".to_string(),
        title: "t".to_string(),
        description: "d".to_string(),
    }
}

#[test]
fn counts_only_critical_alerts() {
    assert_eq!(count_critical_alerts(&[]), 0);
    let alerts = vec![
        alert(MarketAlertSeverity::Critical),
        alert(MarketAlertSeverity::Info),
        alert(MarketAlertSeverity::Warning),
        alert(MarketAlertSeverity::Critical),
    ];
    assert_eq!(count_critical_alerts(&alerts), 2);
}

#[test]
fn market_action_related_good_uses_display_name() {
    let goods = vec![GoodLabel { id: "rubber".into(), name: "橡胶".into() }];
    let actions = vec![MarketActionEntry {
        title: "进口橡胶".into(),
        description: "从世界市场补足橡胶".into(),
        related_good_id: Some("rubber".into()),
        priority: 0,
    }];
    let related = actions[0].related_good_id.as_deref().unwrap();
    assert_eq!(related_good_display_name(&goods, related), "橡胶");
    assert_ne!(related_good_display_name(&goods, related), "rubber");
    assert_eq!(related_good_display_name(&goods, "missing"), "未知商品");
}

#[test]
fn display_name_takes_the_first_good_with_the_id() {
    let goods = vec![
        GoodLabel { id: "steel".into(), name: "钢材".into() },
        GoodLabel { id: "rubber".into(), name: "橡胶".into() },
        GoodLabel { id: "rubber".into(), name: "合成橡胶".into() },
    ];
    assert_eq!(related_good_display_name(&goods, "rubber"), "橡胶");
    assert_eq!(related_good_display_name(&goods, "steel"), "钢材");
    assert_eq!(related_good_display_name(&[], "steel"), "未知商品");
}

#[test]
fn category_label_keys() {
    assert_eq!(category_label_key(&GoodCategory::RawMaterial), "v6_good_raw_material");
    assert_eq!(
        category_label_key(&GoodCategory::MilitaryIntermediate),
        "v6_good_military_intermediate"
    );
}

#[test]
fn good_search_matches_any_text() {
    let related = vec!["Worker".to_owned(), "Tank Factory".to_owned()];
    let fixes = vec![MarketActionEntry {
        title: "Import Rubber".into(),
        description: "Buy on the WORLD market".into(),
        related_good_id: None,
        priority: 1,
    }];
    let hit = |q: &str| {
        good_matches_search("Rubber", "原材料", &related, "shortage hits aircraft", &fixes, q)
    };
    assert!(hit(""));
    assert!(hit("   "));
    assert!(hit("RUB"));
    assert!(hit("原材料"));
    assert!(hit(" worker "));
    assert!(hit("factory"));
    assert!(hit("aircraft"));
    assert!(hit("import"));
    assert!(hit("world market"));
    assert!(!hit("steel"));
    assert!(!hit("消费品"));
}

#[test]
fn tabs_keep_their_goods() {
    let actions = vec![MarketActionEntry {
        title: "进口橡胶".into(),
        description: "".into(),
        related_good_id: Some("rubber".into()),
        priority: 0,
    }];
    let keeps = |tab, shortage, trade, up, kinds: &[GoodSupplySourceKind], id: &str| {
        market_tab_keeps_good(tab, shortage, trade, up, 0, 0, kinds, id, &actions)
    };
    assert!(keeps(MarketPanelTab::Overview, false, false, 0, &[], "steel"));
    assert!(keeps(MarketPanelTab::Shortages, true, false, 0, &[], "steel"));
    assert!(!keeps(MarketPanelTab::Shortages, false, true, 0, &[], "steel"));
    assert!(keeps(MarketPanelTab::IndustryChain, false, false, 2, &[], "steel"));
    assert!(!keeps(MarketPanelTab::IndustryChain, false, false, 0, &[], "steel"));
    assert!(keeps(MarketPanelTab::Subjects, false, false, 0, &[GoodSupplySourceKind::Domestic, GoodSupplySourceKind::MarketBloc], "steel"));
    assert!(!keeps(MarketPanelTab::Subjects, false, false, 0, &[GoodSupplySourceKind::Domestic], "steel"));
    assert!(keeps(MarketPanelTab::Trade, false, true, 0, &[], "steel"));
    assert!(keeps(MarketPanelTab::Actions, false, false, 0, &[], "rubber"));
    assert!(!keeps(MarketPanelTab::Actions, false, false, 0, &[], "steel"));
}
