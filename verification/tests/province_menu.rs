use hoi4_ui::province_menu::{ProvinceMenu, ProvinceMenuButton, ProvinceMenuCommand};

fn open_menu() -> ProvinceMenu {
    ProvinceMenu {
        open: true,
        province_id: 6521,
        owner_tag: "POL".to_owned(),
        is_own_territory: false,
        has_wargoal: false,
        has_selected_divisions: true,
    }
}

#[test]
fn new_menu_is_closed_and_empty() {
    let m = ProvinceMenu::new();
    assert!(!m.open);
    assert_eq!(m.province_id, 0);
    assert_eq!(m.owner_tag, "");
    assert!(!m.is_own_territory && !m.has_wargoal && !m.has_selected_divisions);
}

#[test]
fn closed_menu_ignores_buttons() {
    let mut m = ProvinceMenu::new();
    assert_eq!(m.press(ProvinceMenuButton::Close), None);
    assert!(!m.open);
}

#[test]
fn buttons_give_commands_and_close() {
    let mut m = open_menu();
    assert_eq!(
        m.press(ProvinceMenuButton::MoveArmy),
        Some(ProvinceMenuCommand::MoveArmyHere { province_id: 6521 })
    );
    assert!(!m.open);

    let mut m = open_menu();
    assert_eq!(
        m.press(ProvinceMenuButton::WarAction),
        Some(ProvinceMenuCommand::JustifyWargoal { target_tag: "POL".to_owned() })
    );
    assert!(!m.open);

    let mut m = ProvinceMenu { has_wargoal: true, ..open_menu() };
    assert_eq!(
        m.press(ProvinceMenuButton::WarAction),
        Some(ProvinceMenuCommand::DeclareWar { target_tag: "POL".to_owned() })
    );

    let mut m = open_menu();
    assert_eq!(m.press(ProvinceMenuButton::Close), Some(ProvinceMenuCommand::Close));
    assert!(!m.open);
}

#[test]
fn hidden_buttons_do_nothing() {
    let mut m = ProvinceMenu { has_selected_divisions: false, ..open_menu() };
    assert_eq!(m.press(ProvinceMenuButton::MoveArmy), None);
    assert!(m.open);
    let mut m = ProvinceMenu { is_own_territory: true, ..open_menu() };
    assert_eq!(m.press(ProvinceMenuButton::WarAction), None);
    assert!(m.open);
}
