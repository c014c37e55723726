//! Panel logic of the strategy game's user interface: which tab, label,
//! colour, command or row a panel shows for the data it is given, separated
//! from the drawing itself.
use vstd::prelude::*;

pub mod color;
pub mod panel;
pub mod text;
pub mod nato;
pub mod portrait;
pub mod market;
pub mod naval;
pub mod pop;
pub mod politics;
pub mod military;
pub mod research;
pub mod province_info;
pub mod province_menu;
pub mod pyatiletka;
