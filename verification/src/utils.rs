//! Basic value types of the game: positions, key intents, the movement
//! control state, tile classification and the per-tick gameplay events.

use vstd::prelude::*;

verus! {

/// A 2D integer coordinate, used both as a map key and as a movement delta.
#[derive(Clone, Copy, Debug, PartialEq, Eq, Hash, Structural)]
pub struct Position(pub i32, pub i32);

impl Default for Position {
    /// The origin.
    fn default() -> (r: Self)
        ensures
            r == Position(0, 0),
    {
        Position(0, 0)
    }
}

impl Position {
    /// True exactly on the origin: the zero movement delta.
    pub fn is_origin(&self) -> (r: bool)
        ensures
            r <==> (self.0 == 0 && self.1 == 0),
    {
        self.0 == 0 && self.1 == 0
    }

    /// Vector addition of two positions.
    pub fn add(self, rhs: Position) -> (r: Position)
        requires
            i32::MIN <= self.0 + rhs.0 <= i32::MAX,
            i32::MIN <= self.1 + rhs.1 <= i32::MAX,
        ensures
            r.0 == self.0 + rhs.0,
            r.1 == self.1 + rhs.1,
    {
        Position(self.0 + rhs.0, self.1 + rhs.1)
    }

    /// Vector addition that reports overflow instead of requiring its absence.
    pub fn checked_add(self, rhs: Position) -> (r: Option<Position>)
        ensures
            (i32::MIN <= self.0 + rhs.0 <= i32::MAX && i32::MIN <= self.1 + rhs.1 <= i32::MAX)
                ==> r == Some(Position((self.0 + rhs.0) as i32, (self.1 + rhs.1) as i32)),
            !(i32::MIN <= self.0 + rhs.0 <= i32::MAX && i32::MIN <= self.1 + rhs.1 <= i32::MAX)
                ==> r is None,
    {
        let x: i64 = self.0 as i64 + rhs.0 as i64;
        let y: i64 = self.1 as i64 + rhs.1 as i64;
        if x < i32::MIN as i64 || x > i32::MAX as i64 || y < i32::MIN as i64 || y > i32::MAX as i64 {
            None
        } else {
            Some(Position(x as i32, y as i32))
        }
    }

    /// The movement delta that a control state asks for: one cell per
    /// pressed direction, opposite directions cancelling out.
    pub fn from_control(control: &Control) -> (r: Position)
        ensures
            r.0 == (if control.left { -1int } else { 0int }) + (if control.right { 1int } else { 0int }),
            r.1 == (if control.up { -1int } else { 0int }) + (if control.down { 1int } else { 0int }),
    {
        let mut x: i32 = 0;
        let mut y: i32 = 0;
        if control.left {
            x = x - 1;
        }
        if control.right {
            x = x + 1;
        }
        if control.up {
            y = y - 1;
        }
        if control.down {
            y = y + 1;
        }
        Position(x, y)
    }
}

/// A key intent that the game reads, decoupled from any keyboard driver:
/// the four directions, the restart key, and a plain character key.
#[derive(Clone, Copy, Debug, PartialEq, Eq, Structural)]
pub enum Key {
    Left,
    Right,
    Up,
    Down,
    Enter,
    Char(char),
}

/// The per-tick movement intent buffer: which directions were pressed
/// since the last tick.
#[derive(Clone, Copy, Debug, PartialEq, Eq, Structural)]
pub struct Control {
    pub up: bool,
    pub down: bool,
    pub left: bool,
    pub right: bool,
}

impl Default for Control {
    /// No direction pressed.
    fn default() -> (r: Self)
        ensures
            r == (Control { up: false, down: false, left: false, right: false }),
    {
        Control { up: false, down: false, left: false, right: false }
    }
}

impl Control {
    /// Forget all pressed directions; run at the end of every tick.
    pub fn clear(&mut self)
        ensures
            *final(self) == (Control { up: false, down: false, left: false, right: false }),
    {
        *self = Control::default();
    }

    /// Record a pressed key; keys other than the four directions are ignored.
    pub fn update(&mut self, key: Key)
        ensures
            final(self).left == (if key is Left { true } else { old(self).left }),
            final(self).right == (if key is Right { true } else { old(self).right }),
            final(self).up == (if key is Up { true } else { old(self).up }),
            final(self).down == (if key is Down { true } else { old(self).down }),
    {
        match key {
            Key::Left => {
                self.left = true;
            }
            Key::Right => {
                self.right = true;
            }
            Key::Up => {
                self.up = true;
            }
            Key::Down => {
                self.down = true;
            }
            _ => {}
        }
    }
}

/// The message shown in the message box, by its cause.  The shell turns a
/// value of this into the title and body that the rendering engine shows.
#[derive(Debug, Clone)]
pub enum MessageType {
    /// The player died; holds the death notice.
    Death(String),
    /// The player stands on a sign; holds the sign's text.
    Sign(String),
    /// The debug view is open; shows the player position.
    Debug(Position),
    /// An object was just picked up; holds its identity.
    Pickup(char),
    /// The bag view is open; holds the bag contents.
    Bag(Vec<char>),
    /// The quest view is open; holds the quest description.
    Quest(String),
    /// No message box is shown.
    Empty,
}

/// A gameplay-relevant state change of one tick.  Events are the sole
/// channel that quests observe: quests never read the player or the map.
#[derive(Debug, Clone, PartialEq, Eq)]
pub enum Event {
    /// The player moved to a position whose background is the given one
    /// (`None` where the map lists no background there).
    MoveTo(Position, Option<BackgroundVariant>),
    /// The player picked up the object with the given identity.
    Pickup(char),
    /// The player died; holds the death notice.
    Die(String),
}

/// The mathematical content of an event.
#[verifier::ext_equal]
pub ghost enum EventModel {
    MoveTo(Position, Option<BackgroundVariant>),
    Pickup(char),
    Die(Seq<char>),
}

impl View for Event {
    type V = EventModel;

    open spec fn view(&self) -> EventModel {
        match self {
            Event::MoveTo(p, bg) => EventModel::MoveTo(*p, *bg),
            Event::Pickup(c) => EventModel::Pickup(*c),
            Event::Die(s) => EventModel::Die(s@),
        }
    }
}

impl Default for MessageType {
    /// No message box is shown.
    fn default() -> (r: Self)
        ensures
            r is Empty,
    {
        MessageType::Empty
    }
}

/// The mathematical content of a message.
#[verifier::ext_equal]
pub ghost enum MessageModel {
    Death(Seq<char>),
    Sign(Seq<char>),
    Debug(Position),
    Pickup(char),
    Bag(Seq<char>),
    Quest(Seq<char>),
    Empty,
}

impl View for MessageType {
    type V = MessageModel;

    open spec fn view(&self) -> MessageModel {
        match self {
            MessageType::Death(s) => MessageModel::Death(s@),
            MessageType::Sign(s) => MessageModel::Sign(s@),
            MessageType::Debug(p) => MessageModel::Debug(*p),
            MessageType::Pickup(c) => MessageModel::Pickup(*c),
            MessageType::Bag(b) => MessageModel::Bag(b@),
            MessageType::Quest(s) => MessageModel::Quest(s@),
            MessageType::Empty => MessageModel::Empty,
        }
    }
}

/// A tile descriptor as the map source lists it, one tag per position.
#[derive(Debug, Clone, PartialEq, Eq)]
pub enum RawMapObject {
    Grass,
    Sand,
    Rock,
    Cinderblock,
    Flowerbush,
    Barrier,
    Water,
    Sign(String),
    Object(char),
}

/// A tile descriptor classified into the layer it belongs to.
#[derive(Debug, Clone, PartialEq, Eq)]
pub enum MapObjectVariant {
    Foreground(ForegroundVariant),
    Background(BackgroundVariant),
}

/// Terrain classification at a position.  Exactly one variant is a barrier
/// and exactly one is water; all others are neutral walkable terrain.
#[derive(Debug, Clone, Copy, PartialEq, Eq, Structural)]
pub enum BackgroundVariant {
    Grass,
    Sand,
    Rock,
    Cinderblock,
    Flowerbush,
    Barrier,
    Water,
}

/// An overlay object at a position: a readable sign or a pickup object.
#[derive(Debug, Clone, PartialEq, Eq)]
pub enum ForegroundVariant {
    Sign(String),
    Object(char),
}

impl RawMapObject {
    /// The layer a raw tile descriptor belongs to, with its classification.
    pub open spec fn spec_classify(self) -> MapObjectVariant {
        match self {
            RawMapObject::Object(c) => MapObjectVariant::Foreground(ForegroundVariant::Object(c)),
            RawMapObject::Sign(s) => MapObjectVariant::Foreground(ForegroundVariant::Sign(s)),
            RawMapObject::Barrier => MapObjectVariant::Background(BackgroundVariant::Barrier),
            RawMapObject::Cinderblock => MapObjectVariant::Background(
                BackgroundVariant::Cinderblock,
            ),
            RawMapObject::Flowerbush => MapObjectVariant::Background(BackgroundVariant::Flowerbush),
            RawMapObject::Grass => MapObjectVariant::Background(BackgroundVariant::Grass),
            RawMapObject::Rock => MapObjectVariant::Background(BackgroundVariant::Rock),
            RawMapObject::Sand => MapObjectVariant::Background(BackgroundVariant::Sand),
            RawMapObject::Water => MapObjectVariant::Background(BackgroundVariant::Water),
        }
    }

    /// Classify a raw tile descriptor into background or foreground.
    pub fn classify(&self) -> (r: MapObjectVariant)
        ensures
            r == self.spec_classify(),
    {
        match self {
            RawMapObject::Object(c) => MapObjectVariant::Foreground(ForegroundVariant::Object(*c)),
            RawMapObject::Sign(s) => MapObjectVariant::Foreground(
                ForegroundVariant::Sign(s.clone()),
            ),
            RawMapObject::Barrier => MapObjectVariant::Background(BackgroundVariant::Barrier),
            RawMapObject::Cinderblock => MapObjectVariant::Background(
                BackgroundVariant::Cinderblock,
            ),
            RawMapObject::Flowerbush => MapObjectVariant::Background(BackgroundVariant::Flowerbush),
            RawMapObject::Grass => MapObjectVariant::Background(BackgroundVariant::Grass),
            RawMapObject::Rock => MapObjectVariant::Background(BackgroundVariant::Rock),
            RawMapObject::Sand => MapObjectVariant::Background(BackgroundVariant::Sand),
            RawMapObject::Water => MapObjectVariant::Background(BackgroundVariant::Water),
        }
    }
}

impl BackgroundVariant {
    /// Only `Barrier` blocks movement.
    pub fn is_barrier(&self) -> (r: bool)
        ensures
            r <==> *self == BackgroundVariant::Barrier,
    {
        *self == BackgroundVariant::Barrier
    }

    /// Only `Water` drains oxygen.
    pub fn is_water(&self) -> (r: bool)
        ensures
            r <==> *self == BackgroundVariant::Water,
    {
        *self == BackgroundVariant::Water
    }
}

} // verus!
