use hoi4_ui::nato::{archetype_from_lowered_name, archetype_from_template_name, contains_any, NatoArchetype};

#[test]
fn maps_common_template_names() {
    assert_eq!(
        archetype_from_template_name("步兵师"),
        NatoArchetype::Infantry
    );
    assert_eq!(archetype_from_template_name("装甲师"), NatoArchetype::Armor);
    assert_eq!(
        archetype_from_template_name("摩托化师"),
        NatoArchetype::Motorized
    );
    assert_eq!(
        archetype_from_template_name("机械化师"),
        NatoArchetype::Mechanized
    );
    assert_eq!(
        archetype_from_template_name("山地师"),
        NatoArchetype::Mountain
    );
    assert_eq!(
        archetype_from_template_name("骑兵旅"),
        NatoArchetype::Cavalry
    );
    assert_eq!(
        archetype_from_template_name("海军陆战队"),
        NatoArchetype::Marine
    );
    assert_eq!(
        archetype_from_template_name("伞兵师"),
        NatoArchetype::Paratrooper
    );
    assert_eq!(
        archetype_from_template_name("驻防旅"),
        NatoArchetype::Garrison
    );
}

#[test]
fn maps_english_and_spanish_names() {
    assert_eq!(
        archetype_from_template_name("Infantry Division"),
        NatoArchetype::Infantry
    );
    assert_eq!(
        archetype_from_template_name("División de Infantería"),
        NatoArchetype::Infantry
    );
    assert_eq!(
        archetype_from_template_name("Panzer Division"),
        NatoArchetype::Armor
    );
    assert_eq!(
        archetype_from_template_name("Comandancia de Baleares"),
        NatoArchetype::Garrison
    );
    assert_eq!(
        archetype_from_template_name("Brigada Mixta Montaña"),
        NatoArchetype::Mountain
    );
}

#[test]
fn unknown_falls_back() {
    assert_eq!(
        archetype_from_template_name("某种神秘部队"),
        NatoArchetype::Unknown
    );
    assert_eq!(archetype_from_template_name(""), NatoArchetype::Unknown);
}

#[test]
fn template_names_are_lowercased_before_matching() {
    // Upper-case words only match after lower-casing.
    assert_eq!(archetype_from_template_name("ANTI-AIR BATTALION"), NatoArchetype::AntiAir);
    assert_eq!(archetype_from_lowered_name("ANTI-AIR BATTALION"), NatoArchetype::Unknown);
    assert_eq!(archetype_from_template_name("MONTAÑA"), NatoArchetype::Mountain);
}

#[test]
fn specific_kinds_win_over_broad_ones() {
    assert_eq!(archetype_from_lowered_name("装甲步兵师"), NatoArchetype::Armor);
    assert_eq!(archetype_from_lowered_name("mechanized infantry"), NatoArchetype::Mechanized);
    assert_eq!(archetype_from_lowered_name("anti-air brigade"), NatoArchetype::AntiAir);
    assert_eq!(archetype_from_lowered_name("artillery division"), NatoArchetype::Artillery);
}

#[test]
fn anti_tank_names_get_the_anti_tank_symbol() {
    assert_eq!(archetype_from_template_name("Anti-Tank Brigade"), NatoArchetype::AntiTank);
    assert_eq!(archetype_from_template_name("Antitank Battalion"), NatoArchetype::AntiTank);
    assert_eq!(archetype_from_template_name("Tank Division"), NatoArchetype::Armor);
    assert_eq!(archetype_from_template_name("反坦克营"), NatoArchetype::AntiTank);
}

#[test]
fn contains_any_finds_any_word() {
    assert!(contains_any("panzer division", &["tank", "panzer"]));
    assert!(!contains_any("panzer division", &["tank", "armor"]));
    assert!(!contains_any("anything", &[]));
    assert!(contains_any("anything", &[""]));
}
