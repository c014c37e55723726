use hoi4_ui::pop::{filter_button_label, state_table_rows, visible_state_rows, PopIntegrationFilter, PopIntegrationKind};

#[test]
fn filters_let_through_their_kind() {
    assert!(PopIntegrationKind::Domestic.matches_filter(PopIntegrationFilter::All));
    assert!(PopIntegrationKind::Colonial.matches_filter(PopIntegrationFilter::All));
    assert!(PopIntegrationKind::Domestic.matches_filter(PopIntegrationFilter::Domestic));
    assert!(!PopIntegrationKind::Domestic.matches_filter(PopIntegrationFilter::Colonial));
    assert!(PopIntegrationKind::Colonial.matches_filter(PopIntegrationFilter::Colonial));
    assert!(!PopIntegrationKind::Colonial.matches_filter(PopIntegrationFilter::Domestic));
}

#[test]
fn filter_index_round_trip() {
    for f in [
        PopIntegrationFilter::All,
        PopIntegrationFilter::Domestic,
        PopIntegrationFilter::Colonial,
    ] {
        assert_eq!(PopIntegrationFilter::from_index(f.index()), f);
    }
    for i in 0..3 {
        assert_eq!(PopIntegrationFilter::from_index(i).index(), i);
    }
    assert_eq!(PopIntegrationFilter::from_index(7), PopIntegrationFilter::All);
    assert_eq!(PopIntegrationFilter::from_index(usize::MAX), PopIntegrationFilter::All);
}

#[test]
fn state_table_keeps_the_first_matching_rows() {
    let d = PopIntegrationKind::Domestic;
    let c = PopIntegrationKind::Colonial;
    let kinds = [d, c, d, d, c, d];
    assert_eq!(
        visible_state_rows(&kinds, PopIntegrationFilter::Domestic, 12),
        vec![0, 2, 3, 5]
    );
    assert_eq!(
        visible_state_rows(&kinds, PopIntegrationFilter::Colonial, 12),
        vec![1, 4]
    );
    assert_eq!(
        visible_state_rows(&kinds, PopIntegrationFilter::All, 3),
        vec![0, 1, 2]
    );
    assert_eq!(visible_state_rows(&kinds, PopIntegrationFilter::All, 0), Vec::<usize>::new());
    assert_eq!(visible_state_rows(&[], PopIntegrationFilter::All, 12), Vec::<usize>::new());
}

#[test]
fn state_table_shows_at_most_twelve_rows() {
    let mut kinds = vec![PopIntegrationKind::Colonial];
    kinds.extend(std::iter::repeat(PopIntegrationKind::Domestic).take(14));
    assert_eq!(state_table_rows(&kinds, PopIntegrationFilter::Domestic), (1..=12).collect::<Vec<usize>>());
    assert_eq!(state_table_rows(&kinds, PopIntegrationFilter::Colonial), vec![0]);
    assert_eq!(state_table_rows(&kinds, PopIntegrationFilter::All).len(), 12);
    assert_eq!(filter_button_label(PopIntegrationFilter::All), "All");
    assert_eq!(filter_button_label(PopIntegrationFilter::Domestic), "Core");
    assert_eq!(filter_button_label(PopIntegrationFilter::Colonial), "Colonial");
}
