//! Population panel: the integration filter (all / core / colonial states),
//! its persisted index, and the state rows the state table shows.
use vstd::prelude::*;

verus! {

/// Whether a state's population counts as core or colonial.
#[derive(Clone, Copy, Debug, PartialEq, Eq, Structural)]
pub enum PopIntegrationKind {
    Domestic,
    Colonial,
}

/// The filter of the state table.
#[derive(Clone, Copy, Debug, PartialEq, Eq, Structural)]
pub enum PopIntegrationFilter {
    All,
    Domestic,
    Colonial,
}

/// A state of `kind` passes `filter`: every state passes `All`, and the other
/// filters let through the states of their own kind.
pub open spec fn passes(kind: PopIntegrationKind, filter: PopIntegrationFilter) -> bool {
    match filter {
        PopIntegrationFilter::All => true,
        PopIntegrationFilter::Domestic => kind == PopIntegrationKind::Domestic,
        PopIntegrationFilter::Colonial => kind == PopIntegrationKind::Colonial,
    }
}

impl PopIntegrationKind {
    /// Whether a state of this kind passes `filter`.
    pub fn matches_filter(self, filter: PopIntegrationFilter) -> (r: bool)
        ensures
            r == passes(self, filter),
    {
        match (self, filter) {
            (_, PopIntegrationFilter::All) => true,
            (PopIntegrationKind::Domestic, PopIntegrationFilter::Domestic) => true,
            (PopIntegrationKind::Colonial, PopIntegrationFilter::Colonial) => true,
            _ => false,
        }
    }
}

/// The filter stored under an index: 1 is core, 2 colonial, anything else all.
pub open spec fn filter_at(index: usize) -> PopIntegrationFilter {
    if index == 1 {
        PopIntegrationFilter::Domestic
    } else if index == 2 {
        PopIntegrationFilter::Colonial
    } else {
        PopIntegrationFilter::All
    }
}

/// The index under which a filter is stored.
pub open spec fn filter_index(filter: PopIntegrationFilter) -> usize {
    match filter {
        PopIntegrationFilter::All => 0,
        PopIntegrationFilter::Domestic => 1,
        PopIntegrationFilter::Colonial => 2,
    }
}

impl PopIntegrationFilter {
    /// The filter stored under `index`.
    pub fn from_index(index: usize) -> (r: PopIntegrationFilter)
        ensures
            r == filter_at(index),
    {
        match index {
            1 => PopIntegrationFilter::Domestic,
            2 => PopIntegrationFilter::Colonial,
            _ => PopIntegrationFilter::All,
        }
    }

    /// The index under which this filter is stored.
    pub fn index(self) -> (r: usize)
        ensures
            r == filter_index(self),
    {
        match self {
            PopIntegrationFilter::All => 0,
            PopIntegrationFilter::Domestic => 1,
            PopIntegrationFilter::Colonial => 2,
        }
    }
}

/// Storing a filter and reading it back gives the same filter; an index below
/// three read and stored again is the same index.
pub proof fn lemma_filter_index_round_trip(filter: PopIntegrationFilter, index: usize)
    ensures
        filter_at(filter_index(filter)) == filter,
        index < 3 ==> filter_index(filter_at(index)) == index,
        filter_index(filter) < 3,
{
}

/// Every state passes the `All` filter, and every state passes exactly one of
/// the core and colonial filters.
pub proof fn lemma_filters_partition(kind: PopIntegrationKind)
    ensures
        passes(kind, PopIntegrationFilter::All),
        passes(kind, PopIntegrationFilter::Domestic) != passes(kind, PopIntegrationFilter::Colonial),
{
}

/// The positions of the states that pass `filter`, in order.
pub open spec fn passing_rows(kinds: Seq<PopIntegrationKind>, filter: PopIntegrationFilter) -> Seq<
    int,
>
    decreases kinds.len(),
{
    if kinds.len() == 0 {
        Seq::empty()
    } else if passes(kinds.last(), filter) {
        passing_rows(kinds.drop_last(), filter).push(kinds.len() - 1)
    } else {
        passing_rows(kinds.drop_last(), filter)
    }
}

/// The smaller of two integers.
pub open spec fn min_int(a: int, b: int) -> int {
    if a <= b {
        a
    } else {
        b
    }
}

/// The rows of the state table: the positions of the first `limit` states
/// (by position) that pass `filter`.
pub fn visible_state_rows(kinds: &[PopIntegrationKind], filter: PopIntegrationFilter, limit: usize) -> (rows: Vec<usize>)
    ensures
        rows@.map_values(|i: usize| i as int) == passing_rows(kinds@, filter).take(
            min_int(limit as int, passing_rows(kinds@, filter).len() as int),
        ),
{
    let mut rows: Vec<usize> = Vec::new();
    let mut i: usize = 0;
    while i < kinds.len()
        invariant
            i <= kinds@.len(),
            rows@.map_values(|j: usize| j as int) == passing_rows(kinds@.take(i as int), filter).take(
                min_int(limit as int, passing_rows(kinds@.take(i as int), filter).len() as int),
            ),
        decreases kinds@.len() - i,
    {
        let ghost before = passing_rows(kinds@.take(i as int), filter);
        assert(kinds@.take(i as int + 1).drop_last() =~= kinds@.take(i as int));
        assert(kinds@.take(i as int + 1).last() == kinds@[i as int]);
        if kinds[i].matches_filter(filter) {
            if rows.len() < limit {
                rows.push(i);
                assert(rows@.map_values(|j: usize| j as int) =~= before.take(
                    min_int(limit as int, before.len() as int),
                ).push(i as int));
            }
            let ghost after = passing_rows(kinds@.take(i as int + 1), filter);
            assert(after == before.push(i as int));
            assert(rows@.map_values(|j: usize| j as int) =~= after.take(
                min_int(limit as int, after.len() as int),
            ));
        }
        i = i + 1;
    }
    assert(kinds@.take(kinds@.len() as int) =~= kinds@);
    rows
}

/// The most rows the state table shows.
pub const STATE_TABLE_ROWS: usize = 12;

/// The rows of the state table as the panel shows it: the positions of the
/// first twelve states that pass `filter`.
pub fn state_table_rows(kinds: &[PopIntegrationKind], filter: PopIntegrationFilter) -> (rows: Vec<
    usize,
>)
    ensures
        rows@.map_values(|i: usize| i as int) == passing_rows(kinds@, filter).take(
            min_int(12, passing_rows(kinds@, filter).len() as int),
        ),
{
    visible_state_rows(kinds, filter, STATE_TABLE_ROWS)
}

/// The caption of a filter's button: `All`, `Core` or `Colonial`.
pub fn filter_button_label(filter: PopIntegrationFilter) -> (r: &'static str)
    ensures
        r@ == match filter {
            PopIntegrationFilter::All => "All"@,
            PopIntegrationFilter::Domestic => "Core"@,
            PopIntegrationFilter::Colonial => "Colonial"@,
        },
{
    match filter {
        PopIntegrationFilter::All => "All",
        PopIntegrationFilter::Domestic => "Core",
        PopIntegrationFilter::Colonial => "Colonial",
    }
}

/// The population panel.
pub struct PopPanel;

} // verus!
