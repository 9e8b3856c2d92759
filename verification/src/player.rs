//! The player: position, oxygen meter, bag of collected items, and the
//! bookkeeping for redrawing the player icon.

use vstd::prelude::*;

use crate::map::MapLayers;
use crate::utils::Position;

verus! {

/// Oxygen on a fresh start, and its ceiling on any non-water tile.
pub const PLAYER_INIT_OXYGEN: i32 = 10;

/// The mathematical content of a player.
#[verifier::ext_equal]
pub ghost struct PlayerModel {
    pub update_draw: bool,
    pub icon: char,
    pub position: Position,
    pub bag: Seq<char>,
    pub oxygen: i32,
    pub previous_position: Option<Position>,
}

/// The player state.  `previous_position` is the last rendered location,
/// kept for dirty-tracking; `update_draw` is set when the icon moved and
/// cleared when the move has been drawn.
pub struct Player {
    pub update_draw: bool,
    pub icon: char,
    pub position: Position,
    pub bag: Vec<char>,
    pub oxygen: i32,
    pub previous_position: Option<Position>,
}

impl View for Player {
    type V = PlayerModel;

    open spec fn view(&self) -> PlayerModel {
        PlayerModel {
            update_draw: self.update_draw,
            icon: self.icon,
            position: self.position,
            bag: self.bag@,
            oxygen: self.oxygen,
            previous_position: self.previous_position,
        }
    }
}

impl Default for Player {
    /// A fresh player: at the origin, full oxygen, empty bag, not yet drawn
    /// anywhere, and due for a first draw.
    fn default() -> (r: Self)
        ensures
            r@ == (PlayerModel {
                update_draw: true,
                icon: PLAYER_ICON,
                position: Position(0, 0),
                bag: Seq::empty(),
                oxygen: PLAYER_INIT_OXYGEN,
                previous_position: None,
            }),
    {
        Player {
            update_draw: true,
            icon: PLAYER_ICON,
            position: Position::default(),
            bag: Vec::new(),
            previous_position: None,
            oxygen: PLAYER_INIT_OXYGEN,
        }
    }
}

/// The character the player is drawn as.
pub const PLAYER_ICON: char = '☻';

impl Player {
    /// Move the player to a position and mark the icon for redrawing.
    pub fn move_to(&mut self, position: Position)
        ensures
            final(self)@ == (PlayerModel { position, update_draw: true, ..old(self)@ }),
    {
        self.position = position;
        self.update_draw = true;
    }

    /// Apply the oxygen rule of the tile the player stands on: water
    /// drains one unit of oxygen, every other tile (or no tile) refills
    /// the meter to its ceiling.  Nothing else changes.
    pub fn interact_background(&mut self, map: &MapLayers)
        requires
            map.wf(),
            old(self).oxygen > i32::MIN,
        ensures
            map@.is_water(old(self).position) ==> final(self)@ == (PlayerModel {
                oxygen: (old(self).oxygen - 1) as i32,
                ..old(self)@
            }),
            !map@.is_water(old(self).position) ==> final(self)@ == (PlayerModel {
                oxygen: PLAYER_INIT_OXYGEN,
                ..old(self)@
            }),
    {
        if map.is_water(&self.position) {
            self.oxygen = self.oxygen - 1;
            return ;
        }
        self.oxygen = PLAYER_INIT_OXYGEN;
    }
}

} // verus!
