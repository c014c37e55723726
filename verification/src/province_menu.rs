//! The province context menu: its state, and what pressing one of its
//! buttons asks for.
use vstd::prelude::*;

verus! {

/// What the province context menu asks the game to do.
#[derive(Debug, Clone, PartialEq)]
pub enum ProvinceMenuCommand {
    MoveArmyHere { province_id: u32 },
    JustifyWargoal { target_tag: String },
    DeclareWar { target_tag: String },
    Close,
}

/// The province context menu.
pub struct ProvinceMenu {
    pub open: bool,
    pub province_id: u32,
    pub owner_tag: String,
    pub is_own_territory: bool,
    pub has_wargoal: bool,
    pub has_selected_divisions: bool,
}

/// A button of the menu: the close buttons, move army, or the war action
/// (justify a war goal, or declare war once a war goal exists).
#[derive(Clone, Copy, Debug, PartialEq, Eq, Structural)]
pub enum ProvinceMenuButton {
    Close,
    MoveArmy,
    WarAction,
}

/// The menu shows the button: close always, move army when divisions are
/// selected, the war action for a province of another country.
pub open spec fn button_shown(menu: ProvinceMenu, button: ProvinceMenuButton) -> bool {
    match button {
        ProvinceMenuButton::Close => true,
        ProvinceMenuButton::MoveArmy => menu.has_selected_divisions,
        ProvinceMenuButton::WarAction => !menu.is_own_territory,
    }
}

/// A command as a plain value: (kind, province, target tag), with kind 0 for
/// move army, 1 for justify a war goal, 2 for declare war, 3 for close.
pub open spec fn command_view(c: ProvinceMenuCommand) -> (int, u32, Seq<char>) {
    match c {
        ProvinceMenuCommand::MoveArmyHere { province_id } => (0, province_id, Seq::empty()),
        ProvinceMenuCommand::JustifyWargoal { target_tag } => (1, 0, target_tag@),
        ProvinceMenuCommand::DeclareWar { target_tag } => (2, 0, target_tag@),
        ProvinceMenuCommand::Close => (3, 0, Seq::empty()),
    }
}

/// The command a shown button of an open menu gives.
pub open spec fn button_command(menu: ProvinceMenu, button: ProvinceMenuButton) -> (
    int,
    u32,
    Seq<char>,
) {
    match button {
        ProvinceMenuButton::Close => (3, 0, Seq::empty()),
        ProvinceMenuButton::MoveArmy => (0, menu.province_id, Seq::empty()),
        ProvinceMenuButton::WarAction => if menu.has_wargoal {
            (2, 0, menu.owner_tag@)
        } else {
            (1, 0, menu.owner_tag@)
        },
    }
}

impl ProvinceMenu {
    /// A closed menu for no province.
    pub fn new() -> (m: ProvinceMenu)
        ensures
            !m.open,
            m.province_id == 0,
            m.owner_tag@ == Seq::<char>::empty(),
            !m.is_own_territory,
            !m.has_wargoal,
            !m.has_selected_divisions,
    {
        ProvinceMenu {
            open: false,
            province_id: 0,
            owner_tag: String::new(),
            is_own_territory: false,
            has_wargoal: false,
            has_selected_divisions: false,
        }
    }

    /// Presses a button. A shown button of an open menu gives its command and
    /// closes the menu; a closed menu or a button that is not shown gives
    /// nothing and leaves the menu as it was.
    pub fn press(&mut self, button: ProvinceMenuButton) -> (r: Option<ProvinceMenuCommand>)
        ensures
            old(self).open && button_shown(*old(self), button) ==> r.is_some() && command_view(
                r.unwrap(),
            ) == button_command(*old(self), button) && !final(self).open,
            !(old(self).open && button_shown(*old(self), button)) ==> r.is_none() && final(self).open
                == old(self).open,
            final(self).province_id == old(self).province_id,
            final(self).owner_tag == old(self).owner_tag,
            final(self).is_own_territory == old(self).is_own_territory,
            final(self).has_wargoal == old(self).has_wargoal,
            final(self).has_selected_divisions == old(self).has_selected_divisions,
    {
        if !self.open {
            return None;
        }
        match button {
            ProvinceMenuButton::Close => {
                self.open = false;
                Some(ProvinceMenuCommand::Close)
            },
            ProvinceMenuButton::MoveArmy => {
                if self.has_selected_divisions {
                    self.open = false;
                    Some(ProvinceMenuCommand::MoveArmyHere { province_id: self.province_id })
                } else {
                    None
                }
            },
            ProvinceMenuButton::WarAction => {
                if self.is_own_territory {
                    None
                } else {
                    let target_tag = self.owner_tag.clone();
                    self.open = false;
                    if self.has_wargoal {
                        Some(ProvinceMenuCommand::DeclareWar { target_tag })
                    } else {
                        Some(ProvinceMenuCommand::JustifyWargoal { target_tag })
                    }
                }
            },
        }
    }
}

} // verus!
