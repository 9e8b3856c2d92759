//! The derived, queryable index over the raw tile map: background and
//! foreground layers, the barrier and water sets, and the dirty list of
//! positions that need a redraw.

use vstd::prelude::*;

use crate::assoc::{
    assoc_get, assoc_insert, assoc_map, assoc_remove, pos_contains, pos_set, pos_set_insert,
    pos_set_remove, unique_keys,
};
use crate::player::Player;
use crate::utils::{BackgroundVariant, ForegroundVariant, MapObjectVariant, Position, RawMapObject};

verus! {

/// The glyph drawn for the player.
pub const PLAYER_ICON: char = '☻';

/// The glyph drawn for a sign.
pub const FLAG: char = '⚑';

/// What one screen cell shows: a glyph over an optional terrain style.
/// The shell turns the terrain into the engine's color.
#[derive(Debug, Clone, Copy, PartialEq, Eq, Structural)]
pub struct Cell {
    pub glyph: char,
    pub background: Option<BackgroundVariant>,
}

/// The mathematical content of the map layers.
#[verifier::ext_equal]
pub ghost struct MapModel {
    /// Where the player overlay is drawn.
    pub player: Position,
    /// Terrain by position.
    pub bgs: Map<Position, BackgroundVariant>,
    /// Overlay objects by position.
    pub fgs: Map<Position, ForegroundVariant>,
    /// The positions whose background is `Barrier`.
    pub barriers: Set<Position>,
    /// The positions whose background is `Water`.
    pub waters: Set<Position>,
    /// The positions queued for a redraw, oldest first.
    pub dirty: Seq<Position>,
}

impl MapModel {
    /// Movement into `p` is blocked.
    pub open spec fn is_barrier(self, p: Position) -> bool {
        self.bgs.contains_key(p) && self.bgs[p] == BackgroundVariant::Barrier
    }

    /// Standing on `p` drains oxygen.
    pub open spec fn is_water(self, p: Position) -> bool {
        self.bgs.contains_key(p) && self.bgs[p] == BackgroundVariant::Water
    }

    /// What `p` shows: the foreground glyph (an object's own character, or
    /// the sign glyph) over the terrain, a space where there is neither;
    /// the player glyph always wins where the player stands.
    pub open spec fn render(self, p: Position) -> Cell {
        let object_glyph = if self.fgs.contains_key(p) {
            match self.fgs[p] {
                ForegroundVariant::Object(c) => c,
                ForegroundVariant::Sign(_) => FLAG,
            }
        } else {
            ' '
        };
        Cell {
            glyph: if self.player == p {
                PLAYER_ICON
            } else {
                object_glyph
            },
            background: if self.bgs.contains_key(p) {
                Some(self.bgs[p])
            } else {
                None
            },
        }
    }
}

/// The derived map index, built once from the raw tile map at load time.
/// After construction its only mutations are foreground consumption on
/// pickup and the bookkeeping of the player overlay and the dirty list.
pub struct MapLayers {
    pub player: Position,
    pub foregrounds: Vec<(Position, ForegroundVariant)>,
    pub backgrounds: Vec<(Position, BackgroundVariant)>,
    pub should_draw: Vec<Position>,
    pub waters: Vec<Position>,
    pub barriers: Vec<Position>,
}

impl View for MapLayers {
    type V = MapModel;

    open spec fn view(&self) -> MapModel {
        MapModel {
            player: self.player,
            bgs: assoc_map(self.backgrounds@),
            fgs: assoc_map(self.foregrounds@),
            barriers: pos_set(self.barriers@),
            waters: pos_set(self.waters@),
            dirty: self.should_draw@,
        }
    }
}

/// The terrain layer that a raw entry list denotes; a later entry for a
/// position wins, and foreground entries leave the terrain alone.
pub open spec fn spec_backgrounds(s: Seq<(Position, RawMapObject)>) -> Map<
    Position,
    BackgroundVariant,
>
    decreases s.len(),
{
    if s.len() == 0 {
        Map::empty()
    } else {
        let m = spec_backgrounds(s.drop_last());
        match s.last().1.spec_classify() {
            MapObjectVariant::Background(b) => m.insert(s.last().0, b),
            MapObjectVariant::Foreground(_) => m,
        }
    }
}

/// The overlay layer that a raw entry list denotes.
pub open spec fn spec_foregrounds(s: Seq<(Position, RawMapObject)>) -> Map<
    Position,
    ForegroundVariant,
>
    decreases s.len(),
{
    if s.len() == 0 {
        Map::empty()
    } else {
        let m = spec_foregrounds(s.drop_last());
        match s.last().1.spec_classify() {
            MapObjectVariant::Foreground(f) => m.insert(s.last().0, f),
            MapObjectVariant::Background(_) => m,
        }
    }
}

/// The positions a raw entry list mentions, in order.
pub open spec fn spec_listed_positions(s: Seq<(Position, RawMapObject)>) -> Seq<Position> {
    s.map_values(|e: (Position, RawMapObject)| e.0)
}

/// A position that the raw map never lists ends up in neither layer: it is
/// implicitly empty, walkable terrain.  In particular, by the contracts of
/// `MapLayers::is_barrier` and `MapLayers::is_water`, both return false on
/// it for layers built by `MapLayers::from_raw`.
pub proof fn lemma_unlisted_position_is_free(s: Seq<(Position, RawMapObject)>, p: Position)
    requires
        forall|i: int| 0 <= i < s.len() ==> s[i].0 != p,
    ensures
        !spec_backgrounds(s).contains_key(p),
        !spec_foregrounds(s).contains_key(p),
    decreases s.len(),
{
    if s.len() > 0 {
        assert(forall|i: int| 0 <= i < s.drop_last().len() ==> s.drop_last()[i] == s[i]);
        lemma_unlisted_position_is_free(s.drop_last(), p);
        assert(s.last() == s[s.len() - 1]);
    }
}

impl MapLayers {
    /// The layers' invariant: entry lists have unique keys, and the barrier
    /// and water sets hold exactly the positions whose terrain is `Barrier`
    /// respectively `Water`.
    pub open spec fn wf(self) -> bool {
        &&& unique_keys(self.backgrounds@)
        &&& unique_keys(self.foregrounds@)
        &&& self.barriers@.no_duplicates()
        &&& self.waters@.no_duplicates()
        &&& (forall|p: Position| #[trigger]
            pos_set(self.barriers@).contains(p) <==> self@.is_barrier(p))
        &&& (forall|p: Position| #[trigger] pos_set(self.waters@).contains(p) <==> self@.is_water(p))
    }

    /// Build the derived index from the raw tile map, as a list of
    /// (position, descriptor) entries; a later entry for a position wins.
    /// Every listed position is marked dirty for the first draw, in order.
    pub fn from_raw(entries: &Vec<(Position, RawMapObject)>) -> (r: MapLayers)
        ensures
            r.wf(),
            r@.player == Position(0, 0),
            r@.bgs == spec_backgrounds(entries@),
            r@.fgs == spec_foregrounds(entries@),
            r@.dirty == spec_listed_positions(entries@),
    {
        let mut backgrounds: Vec<(Position, BackgroundVariant)> = Vec::new();
        let mut foregrounds: Vec<(Position, ForegroundVariant)> = Vec::new();
        let mut barriers: Vec<Position> = Vec::new();
        let mut waters: Vec<Position> = Vec::new();
        let mut should_draw: Vec<Position> = Vec::new();
        let mut i: usize = 0;
        while i < entries.len()
            invariant
                i <= entries@.len(),
                unique_keys(backgrounds@),
                unique_keys(foregrounds@),
                barriers@.no_duplicates(),
                waters@.no_duplicates(),
                assoc_map(backgrounds@) == spec_backgrounds(entries@.take(i as int)),
                assoc_map(foregrounds@) == spec_foregrounds(entries@.take(i as int)),
                forall|p: Position| #[trigger]
                    pos_set(barriers@).contains(p) <==> (assoc_map(backgrounds@).contains_key(p)
                        && assoc_map(backgrounds@)[p] == BackgroundVariant::Barrier),
                forall|p: Position| #[trigger]
                    pos_set(waters@).contains(p) <==> (assoc_map(backgrounds@).contains_key(p)
                        && assoc_map(backgrounds@)[p] == BackgroundVariant::Water),
                should_draw@ == spec_listed_positions(entries@.take(i as int)),
            decreases entries@.len() - i,
        {
            let position = entries[i].0;
            let ghost bgs0 = assoc_map(backgrounds@);
            let ghost barriers0 = pos_set(barriers@);
            let ghost waters0 = pos_set(waters@);
            match entries[i].1.classify() {
                MapObjectVariant::Foreground(f) => {
                    assoc_insert(&mut foregrounds, position, f);
                }
                MapObjectVariant::Background(b) => {
                    assoc_insert(&mut backgrounds, position, b);
                    if b.is_barrier() {
                        pos_set_insert(&mut barriers, position);
                    } else {
                        pos_set_remove(&mut barriers, position);
                    }
                    if b.is_water() {
                        pos_set_insert(&mut waters, position);
                    } else {
                        pos_set_remove(&mut waters, position);
                    }
                    proof {
                        assert forall|p: Position| #[trigger]
                            pos_set(barriers@).contains(p) <==> (assoc_map(
                            backgrounds@,
                        ).contains_key(p) && assoc_map(backgrounds@)[p]
                            == BackgroundVariant::Barrier) by {
                            if p == position {
                            } else {
                                assert(pos_set(barriers@).contains(p) <==> barriers0.contains(p));
                                assert(assoc_map(backgrounds@).contains_key(p) <==> bgs0.contains_key(
                                    p,
                                ));
                            }
                        }
                        assert forall|p: Position| #[trigger]
                            pos_set(waters@).contains(p) <==> (assoc_map(backgrounds@).contains_key(
                            p,
                        ) && assoc_map(backgrounds@)[p] == BackgroundVariant::Water) by {
                            if p == position {
                            } else {
                                assert(pos_set(waters@).contains(p) <==> waters0.contains(p));
                                assert(assoc_map(backgrounds@).contains_key(p) <==> bgs0.contains_key(
                                    p,
                                ));
                            }
                        }
                    }
                }
            }
            should_draw.push(position);
            proof {
                let pre = entries@.take(i as int);
                let post = entries@.take(i + 1 as int);
                assert(post.drop_last() =~= pre);
                assert(post.last() == entries@[i as int]);
                assert(spec_listed_positions(post) =~= spec_listed_positions(pre).push(position));
            }
            i = i + 1;
        }
        proof {
            assert(entries@.take(entries@.len() as int) =~= entries@);
        }
        MapLayers {
            player: Position(0, 0),
            foregrounds,
            backgrounds,
            should_draw,
            waters,
            barriers,
        }
    }

    /// Render the cell at a position; always yields a cell to draw.
    pub fn get(&self, position: &Position) -> (r: Option<Cell>)
        requires
            self.wf(),
        ensures
            r == Some(self@.render(*position)),
    {
        let mut glyph: char = ' ';
        match assoc_get(&self.foregrounds, *position) {
            Some(foreground) => {
                match foreground {
                    ForegroundVariant::Object(c) => {
                        glyph = *c;
                    }
                    ForegroundVariant::Sign(_) => {
                        glyph = FLAG;
                    }
                }
            }
            None => {}
        }
        let background = match assoc_get(&self.backgrounds, *position) {
            Some(b) => Some(*b),
            None => None,
        };
        if self.player == *position {
            glyph = PLAYER_ICON;
        }
        Some(Cell { glyph, background })
    }

    /// Record the player's new overlay position and queue the cells that
    /// must be redrawn: the freshly vacated one and the newly occupied one.
    /// Does nothing while the player has no pending draw.
    pub fn update_player(&mut self, player: &mut Player)
        requires
            old(self).wf(),
        ensures
            final(self).wf(),
            !old(player).update_draw ==> *final(self) == *old(self) && *final(player) == *old(
                player,
            ),
            old(player).update_draw ==> {
                &&& final(self)@.player == old(player).position
                &&& final(self)@.bgs == old(self)@.bgs
                &&& final(self)@.fgs == old(self)@.fgs
                &&& final(self)@.barriers == old(self)@.barriers
                &&& final(self)@.waters == old(self)@.waters
                &&& final(self)@.dirty == (match old(player).previous_position {
                    Some(pp) => old(self)@.dirty.push(pp).push(old(player).position),
                    None => old(self)@.dirty.push(old(player).position),
                })
                &&& final(player)@ == (crate::player::PlayerModel {
                    update_draw: false,
                    previous_position: Some(old(player).position),
                    ..old(player)@
                })
            },
    {
        if !player.update_draw {
            return ;
        }
        match player.previous_position {
            Some(position) => {
                self.should_draw.push(position);
            }
            None => {}
        }
        let position = player.position;
        self.player = position;
        player.previous_position = Some(position);
        self.should_draw.push(position);
        player.update_draw = false;
    }

    /// Movement into this position is blocked: its terrain is `Barrier`.
    /// Positions the raw map never listed are never barriers.
    pub fn is_barrier(&self, position: &Position) -> (r: bool)
        requires
            self.wf(),
        ensures
            r == self@.is_barrier(*position),
    {
        pos_contains(&self.barriers, *position)
    }

    /// Standing on this position drains oxygen: its terrain is `Water`.
    /// Positions the raw map never listed are never water.
    pub fn is_water(&self, position: &Position) -> (r: bool)
        requires
            self.wf(),
        ensures
            r == self@.is_water(*position),
    {
        pos_contains(&self.waters, *position)
    }

    /// Drain the dirty list: the positions queued since the last draw,
    /// each with its freshly rendered cell, oldest first.  This is the
    /// only channel that feeds the renderer; it never re-sends the whole
    /// map.
    pub fn get_style_characters(&mut self) -> (r: Vec<(Position, Option<Cell>)>)
        requires
            old(self).wf(),
        ensures
            final(self).wf(),
            final(self)@ == (MapModel { dirty: Seq::empty(), ..old(self)@ }),
            r@.len() == old(self)@.dirty.len(),
            forall|i: int|
                0 <= i < r@.len() ==> r@[i] == (
                old(self)@.dirty[i],
                Some(old(self)@.render(old(self)@.dirty[i])),
            ),
    {
        let mut out: Vec<(Position, Option<Cell>)> = Vec::new();
        let mut j: usize = 0;
        while j < self.should_draw.len()
            invariant
                *self == *old(self),
                self.wf(),
                j <= self@.dirty.len(),
                out@.len() == j,
                forall|i: int|
                    0 <= i < j ==> out@[i] == (self@.dirty[i], Some(self@.render(self@.dirty[i]))),
            decreases self@.dirty.len() - j,
        {
            let position = self.should_draw[j];
            let cell = self.get(&position);
            out.push((position, cell));
            j = j + 1;
        }
        self.should_draw.clear();
        out
    }

    /// Consume the foreground at a position (on pickup) and queue the
    /// position for a redraw.  The terrain there is untouched.
    pub fn remove_foreground(&mut self, position: &Position)
        requires
            old(self).wf(),
        ensures
            final(self).wf(),
            final(self)@ == (MapModel {
                fgs: old(self)@.fgs.remove(*position),
                dirty: old(self)@.dirty.push(*position),
                ..old(self)@
            }),
    {
        assoc_remove(&mut self.foregrounds, *position);
        self.should_draw.push(*position);
    }
}

} // verus!
