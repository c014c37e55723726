//! Province info card: the lines the card writes about a province and its
//! state, and which optional rows it shows.
use vstd::prelude::*;
use crate::text::{decimal_string, decimal_text, join_spec, join_strings, str_eq, string_views};

verus! {

/// The province line: `#`, the province's id, a space and its name.
pub fn province_title(province_id: u32, province_name: &str) -> (r: String)
    ensures
        r@ == "#"@ + decimal_text(province_id as nat) + " "@ + province_name@,
{
    let mut out = String::from_str("#");
    out.append(decimal_string(province_id as u64).as_str());
    out.append(" ");
    out.append(province_name);
    out
}

/// The kind line: the province's type and terrain, separated by ` / `.
pub fn province_kind_text(province_type: &str, terrain: &str) -> (r: String)
    ensures
        r@ == province_type@ + " / "@ + terrain@,
{
    let mut out = String::from_str(province_type);
    out.append(" / ");
    out.append(terrain);
    out
}

/// The card has a controller row only where the controller is not the
/// owner.
pub fn shows_controller(owner_tag: &str, controller_tag: &str) -> (r: bool)
    ensures
        r == (owner_tag@ != controller_tag@),
{
    !str_eq(owner_tag, controller_tag)
}

/// The number of optional rows of the tactical section: one each for a
/// coast, victory points, strategic nodes and a controller other than the
/// owner.
pub fn tactical_extra_rows(
    coastal: bool,
    victory_points: u8,
    strategic_node_count: usize,
    owner_tag: &str,
    controller_tag: &str,
) -> (r: usize)
    ensures
        r == (if coastal {
            1int
        } else {
            0int
        }) + (if victory_points > 0 {
            1int
        } else {
            0int
        }) + (if strategic_node_count > 0 {
            1int
        } else {
            0int
        }) + (if owner_tag@ != controller_tag@ {
            1int
        } else {
            0int
        }),
        r <= 4,
{
    let mut n: usize = 0;
    if coastal {
        n = n + 1;
    }
    if victory_points > 0 {
        n = n + 1;
    }
    if strategic_node_count > 0 {
        n = n + 1;
    }
    if shows_controller(owner_tag, controller_tag) {
        n = n + 1;
    }
    n
}

/// The strategic nodes of a province, joined by `, `.
pub fn strategic_nodes_text(nodes: &[String]) -> (r: String)
    ensures
        r@ == join_spec(string_views(nodes@), ", "@),
{
    join_strings(nodes, ", ")
}

/// The infrastructure line: the level out of ten.
pub fn infrastructure_text(infrastructure: u8) -> (r: String)
    ensures
        r@ == decimal_text(infrastructure as nat) + "/10"@,
{
    let mut out = decimal_string(infrastructure as u64);
    out.append("/10");
    out
}

/// The building slots line: the slots used out of the slots there are.
pub fn slots_text(slots_used: u8, slots_max: u8) -> (r: String)
    ensures
        r@ == decimal_text(slots_used as nat) + "/"@ + decimal_text(slots_max as nat),
{
    let mut out = decimal_string(slots_used as u64);
    out.append("/");
    out.append(decimal_string(slots_max as u64).as_str());
    out
}

/// The level cell of a building: `Lv` and the level.
pub fn building_level_text(level: u8) -> (r: String)
    ensures
        r@ == "Lv "@ + decimal_text(level as nat),
{
    let mut out = String::from_str("Lv ");
    out.append(decimal_string(level as u64).as_str());
    out
}

/// The warnings cell of a building: its warnings joined by `; `, or `None`.
pub fn building_warnings_text(warnings: &[String]) -> (r: String)
    ensures
        warnings@.len() == 0 ==> r@ == "None"@,
        warnings@.len() > 0 ==> r@ == join_spec(string_views(warnings@), "; "@),
{
    if warnings.len() == 0 {
        String::from_str("None")
    } else {
        join_strings(warnings, "; ")
    }
}

/// The line of a construction project: the building and its level before
/// and after.
pub fn project_label(building_name: &str, current_level: u8, target_level: u8) -> (r: String)
    ensures
        r@ == building_name@ + " Lv "@ + decimal_text(current_level as nat) + " -> "@
            + decimal_text(target_level as nat),
{
    let mut out = String::from_str(building_name);
    out.append(" Lv ");
    out.append(decimal_string(current_level as u64).as_str());
    out.append(" -> ");
    out.append(decimal_string(target_level as u64).as_str());
    out
}

/// The time a construction project still needs: `ETA` and the days, or that
/// it is unknown.
pub fn project_eta(estimated_days_remaining: Option<u32>) -> (r: String)
    ensures
        r@ == match estimated_days_remaining {
            Some(d) => "ETA "@ + decimal_text(d as nat) + "d"@,
            None => "ETA unknown"@,
        },
{
    match estimated_days_remaining {
        Some(d) => {
            let mut out = String::from_str("ETA ");
            out.append(decimal_string(d as u64).as_str());
            out.append("d");
            out
        },
        None => String::from_str("ETA unknown"),
    }
}

/// Whether the card is still open after a frame: an open card stays open
/// unless its close button was clicked, and a closed card stays closed.
pub fn province_card_open_after_frame(open: bool, close_clicked: bool) -> (r: bool)
    ensures
        r == (open && !close_clicked),
{
    open && !close_clicked
}

} // verus!
