//! The game controller: one structure owning the whole mutable state, a
//! per-tick orchestration step, and the key-intent handler, described by
//! functional transitions over the game's mathematical model.

use vstd::prelude::*;

use vstd::string::StringExecFns;

use crate::assoc::assoc_get;
use crate::map::{Cell, MapLayers, MapModel, spec_backgrounds, spec_foregrounds,
    spec_listed_positions};
use crate::player::{Player, PlayerModel, PLAYER_ICON, PLAYER_INIT_OXYGEN};
use crate::progress::{Quest, QuestProgress, QuestStatus, Reset};
use crate::quest::{CompoundModel, CompoundQuest, GameQuest, PickupQuest, QuestModel, StepQuest,
    SubQuest, lemma_apply_events_snoc, spec_apply_event, spec_apply_events};
use crate::utils::{BackgroundVariant, Control, Event, EventModel, ForegroundVariant, Key,
    MessageModel, MessageType, Position, RawMapObject};
use crate::viewport::{spec_viewport_step, viewport_step};

verus! {

/// The process-wide status: `Running` turns into `Died` when oxygen runs
/// out, and back only through an explicit restart.
#[derive(Debug, Clone, Copy, PartialEq, Eq, Structural)]
pub enum GameStatus {
    Running,
    Died,
}

/// The notice shown and logged when the player drowns.
pub open spec fn spec_death_text() -> Seq<char> {
    "You died from drown, press Enter to restart"@
}

/// The quests a fresh game starts with: one compound quest of walking on
/// water five consecutive times, then picking up three 'x' objects.
pub open spec fn spec_default_quests() -> Seq<QuestModel> {
    seq![
        QuestModel::Compound(
            CompoundModel {
                subs: seq![
                    SubQuest::Step(
                        StepQuest {
                            background: BackgroundVariant::Water,
                            progress: QuestProgress { steps: 5, status: QuestStatus::Pending(1) },
                        },
                    ),
                    SubQuest::Pickup(
                        PickupQuest {
                            item: 'x',
                            progress: QuestProgress { steps: 3, status: QuestStatus::Pending(1) },
                        },
                    ),
                ],
                progress: QuestProgress { steps: 2, status: QuestStatus::Pending(1) },
            },
        ),
    ]
}

/// The quest models of a quest list.
pub open spec fn quests_model(qs: Seq<GameQuest>) -> Seq<QuestModel> {
    qs.map_values(|q: GameQuest| q@)
}

/// The event models of an event log.
pub open spec fn events_model(evs: Seq<Event>) -> Seq<EventModel> {
    evs.map_values(|e: Event| e@)
}

/// The mathematical content of the whole game state.
#[verifier::ext_equal]
pub ghost struct GameModel {
    pub game_status: GameStatus,
    pub control: Control,
    pub viewport_position: Position,
    pub message: MessageModel,
    pub frame: i32,
    pub player: PlayerModel,
    pub map: MapModel,
    pub events: Seq<EventModel>,
    pub quests: Seq<QuestModel>,
    pub raw: Seq<(Position, RawMapObject)>,
    pub screen_width: u16,
    pub game_height: u16,
    pub message_height: u16,
}

/// The game state: everything a run mutates, plus the static raw map and
/// screen dimensions it was set up with.
pub struct GameState {
    pub game_status: GameStatus,
    pub control: Control,
    pub viewport_position: Position,
    pub message: MessageType,
    pub frame: i32,
    pub player: Player,
    pub map_layers: MapLayers,
    pub events: Vec<Event>,
    pub quests: Vec<GameQuest>,
    pub raw_game_map: Vec<(Position, RawMapObject)>,
    pub screen_width: u16,
    pub game_height: u16,
    pub message_height: u16,
}

impl View for GameState {
    type V = GameModel;

    open spec fn view(&self) -> GameModel {
        GameModel {
            game_status: self.game_status,
            control: self.control,
            viewport_position: self.viewport_position,
            message: self.message@,
            frame: self.frame,
            player: self.player@,
            map: self.map_layers@,
            events: events_model(self.events@),
            quests: quests_model(self.quests@),
            raw: self.raw_game_map@,
            screen_width: self.screen_width,
            game_height: self.game_height,
            message_height: self.message_height,
        }
    }
}

impl GameModel {
    /// The movement delta the control state asks for, on each axis.
    pub open spec fn delta_x(self) -> int {
        (if self.control.left { -1int } else { 0int }) + (if self.control.right { 1int } else { 0int })
    }

    pub open spec fn delta_y(self) -> int {
        (if self.control.up { -1int } else { 0int }) + (if self.control.down { 1int } else { 0int })
    }

    /// Where the pending movement would land.
    pub open spec fn move_target(self) -> Position {
        Position(
            (self.player.position.0 + self.delta_x()) as i32,
            (self.player.position.1 + self.delta_y()) as i32,
        )
    }

    /// The pending movement does nothing: no direction asked for, the
    /// target coordinates do not fit the coordinate type, or the target
    /// is a barrier.  A rejected move changes nothing at all.
    pub open spec fn move_blocked(self) -> bool {
        ||| (self.delta_x() == 0 && self.delta_y() == 0)
        ||| !(i32::MIN <= self.player.position.0 + self.delta_x() <= i32::MAX)
        ||| !(i32::MIN <= self.player.position.1 + self.delta_y() <= i32::MAX)
        ||| self.map.is_barrier(self.move_target())
    }

    /// The tile interaction at the player's position, run right after a
    /// successful move: log the move, consume and bag an object lying
    /// there, show a sign lying there (clearing a stale sign or pickup
    /// message otherwise), and detect death the same tick oxygen ran out.
    pub open spec fn interact(self) -> GameModel {
        let pos = self.player.position;
        let bg = if self.map.bgs.contains_key(pos) {
            Some(self.map.bgs[pos])
        } else {
            None
        };
        let fg = if self.map.fgs.contains_key(pos) {
            Some(self.map.fgs[pos])
        } else {
            None
        };
        let events0 = self.events.push(EventModel::MoveTo(pos, bg));
        let (bag1, events1, message1, map1) = match fg {
            Some(ForegroundVariant::Object(c)) => (
                self.player.bag.push(c),
                events0.push(EventModel::Pickup(c)),
                MessageModel::Pickup(c),
                MapModel { fgs: self.map.fgs.remove(pos), dirty: self.map.dirty.push(pos), ..self.map },
            ),
            Some(ForegroundVariant::Sign(s)) => (
                self.player.bag,
                events0,
                MessageModel::Sign(s@),
                self.map,
            ),
            None => (
                self.player.bag,
                events0,
                match self.message {
                    MessageModel::Sign(_) => MessageModel::Empty,
                    MessageModel::Pickup(_) => MessageModel::Empty,
                    _ => self.message,
                },
                self.map,
            ),
        };
        let dies = self.player.oxygen <= 0;
        GameModel {
            player: PlayerModel { bag: bag1, ..self.player },
            map: map1,
            events: if dies {
                events1.push(EventModel::Die(spec_death_text()))
            } else {
                events1
            },
            message: if dies {
                MessageModel::Death(spec_death_text())
            } else {
                message1
            },
            game_status: if dies {
                GameStatus::Died
            } else {
                self.game_status
            },
            ..self
        }
    }

    /// One movement resolution: either the move is blocked and nothing
    /// changes, or the player moves, the oxygen rule of the target tile
    /// applies (water drains one unit, anything else refills the meter),
    /// and the tile interaction runs — one atomic step.
    pub open spec fn resolve_move(self) -> GameModel {
        if self.move_blocked() {
            self
        } else {
            let target = self.move_target();
            let oxygen = if self.map.is_water(target) {
                (self.player.oxygen - 1) as i32
            } else {
                PLAYER_INIT_OXYGEN
            };
            let moved = GameModel {
                player: PlayerModel {
                    position: target,
                    update_draw: true,
                    oxygen,
                    ..self.player
                },
                ..self
            };
            moved.interact()
        }
    }

    /// The state right after re-deriving all mutable state from the static
    /// raw map: a fresh player at the origin whose icon has not been drawn
    /// yet, fresh layers with every listed position dirty, fresh quests,
    /// everything else cleared.  The static map and the screen dimensions
    /// pass through.
    pub open spec fn initialized(self) -> GameModel {
        GameModel {
            game_status: GameStatus::Running,
            control: Control { up: false, down: false, left: false, right: false },
            viewport_position: Position(0, 0),
            message: MessageModel::Empty,
            frame: 0,
            player: PlayerModel {
                update_draw: true,
                icon: PLAYER_ICON,
                position: Position(0, 0),
                bag: Seq::empty(),
                oxygen: PLAYER_INIT_OXYGEN,
                previous_position: None,
            },
            map: MapModel {
                player: Position(0, 0),
                bgs: spec_backgrounds(self.raw),
                fgs: spec_foregrounds(self.raw),
                barriers: Set::new(
                    |p: Position|
                        spec_backgrounds(self.raw).contains_key(p) && spec_backgrounds(self.raw)[p]
                            == BackgroundVariant::Barrier,
                ),
                waters: Set::new(
                    |p: Position|
                        spec_backgrounds(self.raw).contains_key(p) && spec_backgrounds(self.raw)[p]
                            == BackgroundVariant::Water,
                ),
                dirty: spec_listed_positions(self.raw),
            },
            events: Seq::empty(),
            quests: spec_default_quests(),
            ..self
        }
    }

    /// The started state: the initialized one with the player moved to the
    /// start position and its first draw done: the icon stands on the map
    /// and the start cell is queued for a redraw.
    pub open spec fn started(self) -> GameModel {
        let init = self.initialized();
        GameModel {
            player: PlayerModel {
                update_draw: false,
                position: Position(3, 3),
                previous_position: Some(Position(3, 3)),
                ..init.player
            },
            map: MapModel {
                player: Position(3, 3),
                dirty: init.map.dirty.push(Position(3, 3)),
                ..init.map
            },
            ..init
        }
    }

    /// The viewport-follow rule applied once.
    pub open spec fn viewport_updated(self) -> GameModel {
        let stepped = spec_viewport_step(
            self.viewport_position,
            self.player.position,
            self.screen_width,
            self.game_height,
            self.message_height,
        );
        GameModel {
            viewport_position: Position(stepped.0 as i32, stepped.1 as i32),
            ..self
        }
    }

    /// The player-overlay bookkeeping of one tick: if the icon moved, put
    /// it at the player's position and queue the vacated and the occupied
    /// cells for a redraw.
    pub open spec fn player_overlay_updated(self) -> GameModel {
        if !self.player.update_draw {
            self
        } else {
            GameModel {
                player: PlayerModel {
                    update_draw: false,
                    previous_position: Some(self.player.position),
                    ..self.player
                },
                map: MapModel {
                    player: self.player.position,
                    dirty: match self.player.previous_position {
                        Some(pp) => self.map.dirty.push(pp).push(self.player.position),
                        None => self.map.dirty.push(self.player.position),
                    },
                    ..self.map
                },
                ..self
            }
        }
    }

    /// What this tick sends to the renderer: every dirty cell, rendered.
    pub open spec fn draw_list(self) -> Seq<(Position, Option<Cell>)> {
        Seq::new(self.map.dirty.len(), |i: int| (self.map.dirty[i], Some(self.map.render(self.map.dirty[i]))))
    }

    /// The dirty list drained.
    pub open spec fn drained(self) -> GameModel {
        GameModel { map: MapModel { dirty: Seq::empty(), ..self.map }, ..self }
    }

    /// This tick's events delivered to every quest, then discarded.
    pub open spec fn quests_updated(self) -> GameModel {
        GameModel {
            quests: spec_apply_events(self.quests, self.events),
            events: Seq::empty(),
            ..self
        }
    }

    /// The movement intents consumed at the end of a tick.
    pub open spec fn control_cleared(self) -> GameModel {
        GameModel { control: Control { up: false, down: false, left: false, right: false }, ..self }
    }

    /// The frame counter advanced, wrapping around at the end of its range.
    pub open spec fn frame_advanced(self) -> GameModel {
        GameModel { frame: spec_wrap_inc(self.frame), ..self }
    }

    /// One whole tick: resolve the pending movement with its interaction,
    /// follow with the viewport, redraw the player icon, drain the dirty
    /// list, feed this tick's events to the quests, consume the intents,
    /// and advance the frame counter.
    pub open spec fn ticked(self) -> GameModel {
        self.resolve_move().viewport_updated().player_overlay_updated().drained().quests_updated()
            .control_cleared().frame_advanced()
    }

    /// What one whole tick sends to the renderer.
    pub open spec fn tick_draws(self) -> Seq<(Position, Option<Cell>)> {
        self.resolve_move().viewport_updated().player_overlay_updated().draw_list()
    }

    /// The key-intent rule: while dead, every intent is ignored except the
    /// restart key, which starts a fresh run; while running, three
    /// character keys toggle the debug, bag and quest views, and the
    /// directions accumulate in the control state for the coming tick.
    pub open spec fn event_applied(self, key: Key) -> GameModel {
        match self.game_status {
            GameStatus::Died => if key is Enter {
                self.started()
            } else {
                self
            },
            GameStatus::Running => {
                let toggled = match key {
                    Key::Char(c) => if c == 't' {
                        GameModel {
                            message: if self.message is Debug {
                                MessageModel::Empty
                            } else {
                                MessageModel::Debug(self.player.position)
                            },
                            ..self
                        }
                    } else if c == 'b' {
                        GameModel {
                            message: if self.message is Bag {
                                MessageModel::Empty
                            } else {
                                MessageModel::Bag(self.player.bag)
                            },
                            ..self
                        }
                    } else if c == 'q' {
                        GameModel {
                            message: if self.message is Quest {
                                MessageModel::Empty
                            } else {
                                MessageModel::Quest(self.quests[0].spec_text())
                            },
                            ..self
                        }
                    } else {
                        self
                    },
                    _ => self,
                };
                GameModel {
                    control: Control {
                        left: key is Left || self.control.left,
                        right: key is Right || self.control.right,
                        up: key is Up || self.control.up,
                        down: key is Down || self.control.down,
                    },
                    ..toggled
                }
            }
        }
    }
}

/// The frame counter's successor, wrapping around at the end of its range.
pub open spec fn spec_wrap_inc(f: i32) -> i32 {
    if f == i32::MAX {
        i32::MIN
    } else {
        (f + 1) as i32
    }
}

impl GameState {
    /// The controller's invariant between ticks: well-formed layers and
    /// quests (at least one quest), oxygen within its meter while alive,
    /// and a dead game keeps no pending input and no pending draw.
    pub open spec fn wf(self) -> bool {
        &&& self.map_layers.wf()
        &&& self.events@.len() == 0
        &&& self.quests@.len() >= 1
        &&& (forall|i: int| 0 <= i < self.quests@.len() ==> (#[trigger] self.quests@[i]).wf())
        &&& self.player.oxygen <= PLAYER_INIT_OXYGEN
        &&& (self.game_status is Running ==> self.player.oxygen >= 1)
        &&& (self.game_status is Died ==> self.control == (Control {
            up: false,
            down: false,
            left: false,
            right: false,
        }) && !self.player.update_draw)
    }

    /// A controller over the given raw map, freshly started; the screen
    /// dimensions default to zero until the shell reports them.
    pub fn new(raw_game_map: Vec<(Position, RawMapObject)>) -> (r: GameState)
        ensures
            r.wf(),
            r@.raw == raw_game_map@,
            r@.screen_width == 0,
            r@.game_height == 0,
            r@.message_height == 0,
            r@ == r@.started(),
    {
        let mut r = GameState {
            game_status: GameStatus::Running,
            control: Control::default(),
            viewport_position: Position(0, 0),
            message: MessageType::Empty,
            frame: 0,
            player: Player::default(),
            map_layers: MapLayers {
                player: Position(0, 0),
                foregrounds: Vec::new(),
                backgrounds: Vec::new(),
                should_draw: Vec::new(),
                waters: Vec::new(),
                barriers: Vec::new(),
            },
            events: Vec::new(),
            quests: default_quests(),
            raw_game_map,
            screen_width: 0,
            game_height: 0,
            message_height: 0,
        };
        r.on_start();
        proof {
            assert(r@ =~~= r@.started());
        }
        r
    }

    /// Record the screen dimensions the shell reports: total width, game
    /// rows, message rows.
    pub fn set_screen_size(&mut self, width: u16, game_height: u16, message_height: u16)
        ensures
            *final(self) == (GameState {
                screen_width: width,
                game_height,
                message_height,
                ..*old(self)
            }),
    {
        self.screen_width = width;
        self.game_height = game_height;
        self.message_height = message_height;
    }

    /// Re-derive every piece of mutable state from the static raw map;
    /// keeps the screen dimensions.
    fn init(&mut self)
        ensures
            final(self).wf(),
            final(self).map_layers.wf(),
            final(self)@ == old(self)@.initialized(),
    {
        self.game_status = GameStatus::Running;
        self.control = Control::default();
        self.viewport_position = Position(0, 0);
        self.message = MessageType::Empty;
        self.frame = 0;
        self.player = Player::default();
        self.map_layers = MapLayers::from_raw(&self.raw_game_map);
        self.events = Vec::new();
        self.quests = default_quests();
        proof {
            assert(self@.map.barriers =~= old(self)@.initialized().map.barriers);
            assert(self@.map.waters =~= old(self)@.initialized().map.waters);
            assert(self@ =~~= old(self)@.initialized());
        }
    }

    /// Start (or restart) the run: fresh state from the static map, the
    /// player moved to the start position and queued for its first draw.
    pub fn on_start(&mut self)
        ensures
            final(self).wf(),
            final(self).map_layers.wf(),
            final(self)@ == old(self)@.started(),
    {
        self.init();
        self.player.move_to(Position(3, 3));
        self.map_layers.update_player(&mut self.player);
        proof {
            assert(self@ =~~= old(self)@.started());
        }
    }

    /// Resolve the pending movement: where the control state asks for no
    /// move, the target does not fit the coordinate type, or the target is
    /// a barrier, nothing changes at all; otherwise the player moves, the
    /// target tile's oxygen rule applies and the tile interaction runs —
    /// one atomic step, with no partial state observable in between.
    pub fn update_player_position(&mut self)
        requires
            old(self).wf(),
        ensures
            final(self).map_layers.wf(),
            final(self)@ == old(self)@.resolve_move(),
    {
        let move_by = Position::from_control(&self.control);
        if move_by.is_origin() {
            return ;
        }
        let next = match self.player.position.checked_add(move_by) {
            Some(n) => n,
            None => {
                return ;
            }
        };
        if self.map_layers.is_barrier(&next) {
            return ;
        }
        self.player.move_to(next);
        self.player.interact_background(&self.map_layers);
        self.update_message_and_status();
        proof {
            assert(self@ =~~= old(self)@.resolve_move());
        }
    }

    /// The tile interaction at the player's position: log the move with
    /// the terrain moved onto, bag and consume an object lying there, show
    /// a sign lying there (clearing a stale sign or pickup message where
    /// there is neither), and on drained oxygen log the death, show the
    /// death notice and end the run, all in the same resolution pass.
    pub fn update_message_and_status(&mut self)
        requires
            old(self).map_layers.wf(),
        ensures
            final(self).map_layers.wf(),
            final(self)@ == old(self)@.interact(),
    {
        let pos = self.player.position;
        let bg = match assoc_get(&self.map_layers.backgrounds, pos) {
            Some(b) => Some(*b),
            None => None,
        };
        self.events.push(Event::MoveTo(pos, bg));
        let fg = match assoc_get(&self.map_layers.foregrounds, pos) {
            Some(ForegroundVariant::Object(c)) => Some(ForegroundVariant::Object(*c)),
            Some(ForegroundVariant::Sign(s)) => Some(ForegroundVariant::Sign(s.clone())),
            None => None,
        };
        match fg {
            Some(ForegroundVariant::Object(c)) => {
                self.player.bag.push(c);
                self.message = MessageType::Pickup(c);
                self.events.push(Event::Pickup(c));
                self.map_layers.remove_foreground(&pos);
            }
            Some(ForegroundVariant::Sign(s)) => {
                self.message = MessageType::Sign(s);
            }
            None => {
                let stale = match &self.message {
                    MessageType::Sign(_) => true,
                    MessageType::Pickup(_) => true,
                    _ => false,
                };
                if stale {
                    self.message = MessageType::Empty;
                }
            }
        }
        if self.player.oxygen <= 0 {
            self.message = MessageType::Death(
                String::from_str("You died from drown, press Enter to restart"),
            );
            self.events.push(
                Event::Die(String::from_str("You died from drown, press Enter to restart")),
            );
            self.game_status = GameStatus::Died;
        }
        proof {
            assert(self@ =~~= old(self)@.interact());
        }
    }

    /// Apply the viewport-follow rule for this tick.
    pub fn update_viewport_position(&mut self)
        ensures
            *final(self) == (GameState {
                viewport_position: final(self).viewport_position,
                ..*old(self)
            }),
            final(self)@ == old(self)@.viewport_updated(),
    {
        self.viewport_position = viewport_step(
            self.viewport_position,
            self.player.position,
            self.screen_width,
            self.game_height,
            self.message_height,
        );
    }

    /// Handle one key intent between ticks.
    pub fn on_event(&mut self, key: Key)
        requires
            old(self).wf(),
        ensures
            final(self).wf(),
            final(self)@ == old(self)@.event_applied(key),
    {
        match self.game_status {
            GameStatus::Died => {
                match key {
                    Key::Enter => {
                        self.on_start();
                    }
                    _ => {}
                }
            }
            GameStatus::Running => {
                match key {
                    Key::Char(ch) => {
                        if ch == 't' {
                            let open = match &self.message {
                                MessageType::Debug(_) => true,
                                _ => false,
                            };
                            if open {
                                self.message = MessageType::Empty;
                            } else {
                                self.message = MessageType::Debug(self.player.position);
                            }
                        } else if ch == 'b' {
                            let open = match &self.message {
                                MessageType::Bag(_) => true,
                                _ => false,
                            };
                            if open {
                                self.message = MessageType::Empty;
                            } else {
                                let bag = copy_chars(&self.player.bag);
                                self.message = MessageType::Bag(bag);
                            }
                        } else if ch == 'q' {
                            let open = match &self.message {
                                MessageType::Quest(_) => true,
                                _ => false,
                            };
                            if open {
                                self.message = MessageType::Empty;
                            } else {
                                let text = self.quests[0].text();
                                self.message = MessageType::Quest(text);
                            }
                        }
                    }
                    _ => {}
                }
                self.control.update(key);
            }
        }
        proof {
            assert(self@ =~~= old(self)@.event_applied(key));
        }
    }

    /// Run one tick: resolve movement and interaction, follow with the
    /// viewport, redraw the player icon, drain the dirty list into the
    /// draw list handed back, feed this tick's events to every quest,
    /// consume the movement intents and advance the frame counter.
    pub fn on_tick(&mut self) -> (draws: Vec<(Position, Option<Cell>)>)
        requires
            old(self).wf(),
        ensures
            final(self).wf(),
            final(self)@ == old(self)@.ticked(),
            draws@ == old(self)@.tick_draws(),
    {
        self.update_player_position();
        self.update_viewport_position();
        self.map_layers.update_player(&mut self.player);
        proof {
            assert(self@ =~~= old(self)@.resolve_move().viewport_updated().player_overlay_updated());
        }
        let draws = self.map_layers.get_style_characters();
        proof {
            assert(draws@ =~~= old(self)@.tick_draws());
            assert(self@ =~~= old(self)@.resolve_move().viewport_updated().player_overlay_updated()
                .drained());
        }
        let ghost g_mid = *self;
        let ghost evs = events_model(self.events@);
        proof {
            assert(self@.quests == old(self)@.quests);
            assert forall|i: int| 0 <= i < self.quests@.len() implies (#[trigger] self.quests@[i]).wf() by {
                assert(quests_model(self.quests@)[i] == self.quests@[i]@);
                assert(quests_model(old(self).quests@)[i] == old(self).quests@[i]@);
                assert(old(self).quests@[i].wf());
            }
        }
        let mut e: usize = 0;
        while e < self.events.len()
            invariant
                e <= g_mid.events@.len(),
                self.events == g_mid.events,
                self.game_status == g_mid.game_status,
                self.control == g_mid.control,
                self.viewport_position == g_mid.viewport_position,
                self.message == g_mid.message,
                self.frame == g_mid.frame,
                self.player == g_mid.player,
                self.map_layers == g_mid.map_layers,
                self.raw_game_map == g_mid.raw_game_map,
                self.screen_width == g_mid.screen_width,
                self.game_height == g_mid.game_height,
                self.message_height == g_mid.message_height,
                self.quests@.len() == g_mid.quests@.len(),
                forall|i: int| 0 <= i < self.quests@.len() ==> (#[trigger] self.quests@[i]).wf(),
                evs == events_model(g_mid.events@),
                quests_model(self.quests@) == spec_apply_events(
                    quests_model(g_mid.quests@),
                    evs.take(e as int),
                ),
            decreases g_mid.events@.len() - e,
        {
            let ghost qs_e = self.quests@;
            let mut qi: usize = 0;
            while qi < self.quests.len()
                invariant
                    qi <= qs_e.len(),
                    e < g_mid.events@.len(),
                    self.events == g_mid.events,
                    self.game_status == g_mid.game_status,
                    self.control == g_mid.control,
                    self.viewport_position == g_mid.viewport_position,
                    self.message == g_mid.message,
                    self.frame == g_mid.frame,
                    self.player == g_mid.player,
                    self.map_layers == g_mid.map_layers,
                    self.raw_game_map == g_mid.raw_game_map,
                    self.screen_width == g_mid.screen_width,
                    self.game_height == g_mid.game_height,
                    self.message_height == g_mid.message_height,
                    evs == events_model(g_mid.events@),
                    self.quests@.len() == qs_e.len(),
                    forall|j: int| 0 <= j < qs_e.len() ==> (#[trigger] qs_e[j]).wf(),
                    forall|j: int|
                        0 <= j < qi ==> (#[trigger] self.quests@[j])@ == qs_e[j]@.spec_update(
                            evs[e as int],
                        ) && self.quests@[j].wf(),
                    forall|j: int| qi <= j < qs_e.len() ==> #[trigger] self.quests@[j] == qs_e[j],
                decreases qs_e.len() - qi,
            {
                let ghost qs_pre = self.quests@;
                let mut q = self.quests.remove(qi);
                q.update(&self.events[e]);
                self.quests.insert(qi, q);
                proof {
                    assert(self.quests@ =~= qs_pre.update(qi as int, q));
                }
                qi = qi + 1;
            }
            proof {
                assert(quests_model(self.quests@) =~= spec_apply_event(
                    quests_model(qs_e),
                    evs[e as int],
                ));
                lemma_apply_events_snoc(
                    quests_model(g_mid.quests@),
                    evs.take(e as int),
                    evs[e as int],
                );
                assert(evs.take(e as int + 1) =~= evs.take(e as int).push(evs[e as int]));
            }
            e = e + 1;
        }
        proof {
            assert(evs.take(g_mid.events@.len() as int) =~= evs);
        }
        self.events.clear();
        self.control.clear();
        self.frame = wrap_inc(self.frame);
        proof {
            assert(self@ =~~= old(self)@.ticked());
        }
        draws
    }
}

/// Movement resolution repeated `k` times with the control state as it is.
pub open spec fn spec_resolve_iter(m: GameModel, k: nat) -> GameModel
    decreases k,
{
    if k == 0 {
        m
    } else {
        spec_resolve_iter(m, (k - 1) as nat).resolve_move()
    }
}

/// A blocked move — into a barrier, off the coordinate range, or no move
/// asked for — is an idempotent rejection: one resolution changes nothing
/// (no position change, no oxygen change, no event), and any sequence of
/// repeated attempts still changes nothing.
pub proof fn lemma_blocked_move_is_idempotent(m: GameModel, k: nat)
    requires
        m.move_blocked(),
    ensures
        m.resolve_move() == m,
        spec_resolve_iter(m, k) == m,
    decreases k,
{
    if k > 0 {
        lemma_blocked_move_is_idempotent(m, (k - 1) as nat);
    }
}

/// After death, ticks are inert until restart: with the game over (its
/// control state consumed, the icon drawn, the event log drained — all of
/// which hold of a dead game between ticks), a tick leaves the player,
/// the layers, the quests, the message and the status untouched; only the
/// viewport may still settle, the frame counter advances, and nothing is
/// left to draw.
pub proof fn lemma_dead_tick_is_inert(m: GameModel)
    requires
        m.game_status is Died,
        m.control == (Control { up: false, down: false, left: false, right: false }),
        !m.player.update_draw,
        m.events.len() == 0,
    ensures
        m.ticked() == (GameModel {
            viewport_position: m.viewport_updated().viewport_position,
            frame: spec_wrap_inc(m.frame),
            map: MapModel { dirty: Seq::empty(), ..m.map },
            ..m
        }),
        m.ticked().player == m.player,
        m.ticked().quests == m.quests,
        m.ticked().game_status is Died,
{
    assert(m.resolve_move() == m);
    assert(m.ticked() =~~= (GameModel {
        viewport_position: m.viewport_updated().viewport_position,
        frame: spec_wrap_inc(m.frame),
        map: MapModel { dirty: Seq::empty(), ..m.map },
        ..m
    }));
}

/// The tick step repeated `k` times with no input in between.
pub open spec fn spec_tick_iter(m: GameModel, k: nat) -> GameModel
    decreases k,
{
    if k == 0 {
        m
    } else {
        spec_tick_iter(m, (k - 1) as nat).ticked()
    }
}

/// After death, any number of subsequent ticks leaves the player, the
/// layers, the quests, the message, the status and the event log exactly
/// as they were: no movement-derived mutation happens until restart.
pub proof fn lemma_dead_game_stays_inert(m: GameModel, k: nat)
    requires
        m.game_status is Died,
        m.control == (Control { up: false, down: false, left: false, right: false }),
        !m.player.update_draw,
        m.events.len() == 0,
    ensures
        spec_tick_iter(m, k).game_status is Died,
        spec_tick_iter(m, k).player == m.player,
        spec_tick_iter(m, k).quests == m.quests,
        spec_tick_iter(m, k).message == m.message,
        spec_tick_iter(m, k).control == m.control,
        spec_tick_iter(m, k).events == m.events,
        spec_tick_iter(m, k).map.bgs == m.map.bgs,
        spec_tick_iter(m, k).map.fgs == m.map.fgs,
        spec_tick_iter(m, k).map.barriers == m.map.barriers,
        spec_tick_iter(m, k).map.waters == m.map.waters,
        spec_tick_iter(m, k).map.player == m.map.player,
        k >= 1 ==> spec_tick_iter(m, k).map.dirty == Seq::<Position>::empty(),
    decreases k,
{
    if k > 0 {
        lemma_dead_game_stays_inert(m, (k - 1) as nat);
        lemma_dead_tick_is_inert(spec_tick_iter(m, (k - 1) as nat));
    }
}

/// The frame counter's successor, executable.
fn wrap_inc(f: i32) -> (r: i32)
    ensures
        r == spec_wrap_inc(f),
{
    if f == i32::MAX {
        i32::MIN
    } else {
        f + 1
    }
}

/// An element-for-element copy of a bag's contents.
fn copy_chars(v: &Vec<char>) -> (r: Vec<char>)
    ensures
        r@ == v@,
{
    let mut r: Vec<char> = Vec::new();
    let mut i: usize = 0;
    while i < v.len()
        invariant
            i <= v@.len(),
            r@ == v@.take(i as int),
        decreases v@.len() - i,
    {
        r.push(v[i]);
        proof {
            assert(r@ =~= v@.take(i as int + 1));
        }
        i = i + 1;
    }
    proof {
        assert(v@.take(v@.len() as int) =~= v@);
    }
    r
}

/// Build the quests a fresh game starts with.
fn default_quests() -> (r: Vec<GameQuest>)
    ensures
        quests_model(r@) == spec_default_quests(),
        r@.len() == 1,
        forall|i: int| 0 <= i < r@.len() ==> (#[trigger] r@[i]).wf(),
{
    let q1 = StepQuest::new(BackgroundVariant::Water, 5);
    let q2 = PickupQuest::new('x', 3);
    let mut subs: Vec<SubQuest> = Vec::new();
    subs.push(SubQuest::Step(q1));
    subs.push(SubQuest::Pickup(q2));
    let q = CompoundQuest::new(subs);
    let mut quests: Vec<GameQuest> = Vec::new();
    quests.push(GameQuest::Compound(q));
    proof {
        assert(quests_model(quests@) =~~= spec_default_quests());
    }
    quests
}

} // verus!
