//! Plain-value model of the decoded protocol messages that the analysis engines consume.
//!
//! A decoder turns the raw byte stream into these values; nothing here knows how. Numbers that
//! the protocol carries in floating point are held as the IEEE-754 bit pattern of the
//! single-precision value: the engines only ever store and hand on such numbers, so the bits
//! are all they need.

use crate::resolver::identify_prop;
use crate::resolver::prop_identifier;
use crate::search::first_where;
use crate::search::lemma_first_where;
use vstd::prelude::*;

verus! {

/// The bit pattern of a single-precision floating-point number.
pub type FloatBits = u32;

/// The identifier of a simulation object, reused once the object has left the visible set.
pub type EntityId = u32;

/// A point or direction in game space.
#[derive(Debug, Clone, Copy, PartialEq, Eq, Structural, Hash)]
pub struct Vector {
    pub x: FloatBits,
    pub y: FloatBits,
    pub z: FloatBits,
}

impl Vector {
    /// The origin: every component is positive zero.
    pub fn zero() -> (v: Vector)
        ensures
            v == (Vector { x: 0, y: 0, z: 0 }),
    {
        Vector { x: 0, y: 0, z: 0 }
    }
}

impl Default for Vector {
    fn default() -> (v: Vector)
        ensures
            v == (Vector { x: 0, y: 0, z: 0 }),
    {
        Vector::zero()
    }
}

/// The horizontal part of a point in game space.
#[derive(Debug, Clone, Copy, PartialEq, Eq, Structural, Hash)]
pub struct VectorXY {
    pub x: FloatBits,
    pub y: FloatBits,
}

impl VectorXY {
    /// The origin: both components are positive zero.
    pub fn zero() -> (v: VectorXY)
        ensures
            v == (VectorXY { x: 0, y: 0 }),
    {
        VectorXY { x: 0, y: 0 }
    }
}

impl Default for VectorXY {
    fn default() -> (v: VectorXY)
        ensures
            v == (VectorXY { x: 0, y: 0 }),
    {
        VectorXY::zero()
    }
}

/// The value of one property delta.
///
/// The engines never look inside an array, so its elements are not modelled.
#[derive(Debug, Clone, PartialEq, Eq)]
pub enum SendPropValue {
    Vector(Vector),
    VectorXY(VectorXY),
    Integer(i64),
    Float(FloatBits),
    String(String),
    Array,
}

impl SendPropValue {
    /// The integer this value carries, if it is an integer.
    pub fn as_integer(&self) -> (r: Option<i64>)
        ensures
            r == (match *self {
                SendPropValue::Integer(v) => Some(v),
                _ => None,
            }),
    {
        match self {
            SendPropValue::Integer(v) => Some(*v),
            _ => None,
        }
    }

    /// The integer this value carries, or `fallback` for a value of any other kind.
    pub fn integer_or(&self, fallback: i64) -> (r: i64)
        ensures
            r == self.spec_integer_or(fallback),
    {
        match self {
            SendPropValue::Integer(v) => *v,
            _ => fallback,
        }
    }

    pub open spec fn spec_integer_or(&self, fallback: i64) -> i64 {
        match *self {
            SendPropValue::Integer(v) => v,
            _ => fallback,
        }
    }

    /// The number this value carries, or positive zero for a value of any other kind.
    pub fn float_or_zero(&self) -> (r: FloatBits)
        ensures
            r == self.spec_float_or_zero(),
    {
        match self {
            SendPropValue::Float(v) => *v,
            _ => 0,
        }
    }

    pub open spec fn spec_float_or_zero(&self) -> FloatBits {
        match *self {
            SendPropValue::Float(v) => v,
            _ => 0,
        }
    }

    /// The vector this value carries, if it is one.
    pub fn as_vector(&self) -> (r: Option<Vector>)
        ensures
            r == (match *self {
                SendPropValue::Vector(v) => Some(v),
                _ => None,
            }),
    {
        match self {
            SendPropValue::Vector(v) => Some(*v),
            _ => None,
        }
    }

    /// The vector this value carries, or the origin for a value of any other kind.
    pub fn vector_or_zero(&self) -> (r: Vector)
        ensures
            r == self.spec_vector_or_zero(),
    {
        match self {
            SendPropValue::Vector(v) => *v,
            _ => Vector::zero(),
        }
    }

    pub open spec fn spec_vector_or_zero(&self) -> Vector {
        match *self {
            SendPropValue::Vector(v) => v,
            _ => Vector { x: 0, y: 0, z: 0 },
        }
    }

    /// The horizontal vector this value carries, or the origin for a value of any other kind.
    pub fn vector_xy_or_zero(&self) -> (r: VectorXY)
        ensures
            r == self.spec_vector_xy_or_zero(),
    {
        match self {
            SendPropValue::VectorXY(v) => *v,
            _ => VectorXY::zero(),
        }
    }

    pub open spec fn spec_vector_xy_or_zero(&self) -> VectorXY {
        match *self {
            SendPropValue::VectorXY(v) => v,
            _ => VectorXY { x: 0, y: 0 },
        }
    }
}

/// One property delta of an entity update.
#[derive(Debug, Clone, PartialEq, Eq)]
pub struct SendProp {
    pub identifier: u64,
    pub value: SendPropValue,
}

/// How an update changes the visibility of its entity.
#[derive(Debug, Clone, Copy, PartialEq, Eq, Structural, Hash)]
pub enum Pvs {
    Preserve,
    Leave,
    Enter,
    Delete,
}

/// The update of one entity within a tick.
#[derive(Debug, Clone, PartialEq, Eq)]
pub struct PacketEntity {
    pub server_class: u16,
    pub entity_index: EntityId,
    pub props: Vec<SendProp>,
    pub pvs: Pvs,
}

/// Whether a property is tagged `identifier`.
pub open spec fn tagged(identifier: u64) -> spec_fn(SendProp) -> bool {
    |prop: SendProp| prop.identifier == identifier
}

/// The position of the first property in `props` tagged `identifier`.
pub open spec fn first_prop_index(props: Seq<SendProp>, identifier: u64) -> Option<int> {
    first_where(props, tagged(identifier))
}

impl PacketEntity {
    /// The first property of this update tagged `identifier`.
    pub fn get_prop_by_identifier(&self, identifier: u64) -> (found: Option<&SendProp>)
        ensures
            found == (match first_prop_index(self.props@, identifier) {
                Some(i) => Some(&self.props@[i]),
                None => None,
            }),
    {
        let mut i: usize = 0;
        while i < self.props.len()
            invariant
                i <= self.props.len(),
                forall|j: int| 0 <= j < i ==> !tagged(identifier)(#[trigger] self.props@[j]),
            decreases self.props.len() - i,
        {
            if self.props[i].identifier == identifier {
                proof {
                    lemma_first_where(self.props@, tagged(identifier));
                    assert(tagged(identifier)(self.props@[i as int]));
                }
                return Some(&self.props[i]);
            }
            i += 1;
        }
        proof {
            lemma_first_where(self.props@, tagged(identifier));
        }
        None
    }

    /// The first property of this update that is the property `name` of `table`.
    pub fn get_prop_by_name(&self, table: &str, name: &str) -> (found: Option<&SendProp>)
        ensures
            found == (match first_prop_index(self.props@, prop_identifier(table@, name@)) {
                Some(i) => Some(&self.props@[i]),
                None => None,
            }),
    {
        self.get_prop_by_identifier(identify_prop(table, name))
    }
}

/// A player was killed.
#[derive(Debug, Clone, PartialEq, Eq)]
pub struct PlayerDeathEvent {
    pub user_id: u16,
    pub victim_ent_index: u32,
    pub inflictor_ent_index: u32,
    pub attacker: u16,
    pub weapon: String,
    pub assister: u16,
}

/// A player entered the game world.
#[derive(Debug, Clone, Copy, PartialEq, Eq, Structural, Hash)]
pub struct PlayerSpawnEvent {
    pub user_id: u16,
    pub team: u16,
    pub class: u16,
}

/// A round was won.
#[derive(Debug, Clone, Copy, PartialEq, Eq, Structural, Hash)]
pub struct TeamPlayRoundWinEvent {
    pub team: u8,
    pub win_reason: u8,
    pub round_time: FloatBits,
}

/// The game events that the engines react to; every other event is `Other`.
#[derive(Debug, Clone, PartialEq, Eq)]
pub enum GameEvent {
    PlayerDeath(PlayerDeathEvent),
    PlayerSpawn(PlayerSpawnEvent),
    TeamPlayRoundStart,
    TeamPlayRoundWin(TeamPlayRoundWinEvent),
    Other,
}

/// The channel a chat line was sent on.
#[derive(Debug, Clone, Copy, PartialEq, Eq, Structural, Hash)]
pub enum ChatMessageKind {
    ChatAll,
    ChatTeam,
    ChatAllDead,
    ChatTeamDead,
    ChatAllSpec,
    NameChange,
    Empty,
}

/// A line of chat, or the announcement of a changed name.
#[derive(Debug, Clone, PartialEq, Eq)]
pub struct SayText2Message {
    pub kind: ChatMessageKind,
    pub from: Option<String>,
    pub text: String,
}

/// The user messages that the engines react to; every other one is `Other`.
#[derive(Debug, Clone, PartialEq, Eq)]
pub enum UserMessage {
    SayText2(SayText2Message),
    Other,
}

/// One decoded message of a tick; kinds that no engine reads are `Other`.
#[derive(Debug, Clone, PartialEq, Eq)]
pub enum Message {
    ServerInfo { interval_per_tick: FloatBits },
    GameEvent(GameEvent),
    UserMessage(UserMessage),
    PacketEntities { entities: Vec<PacketEntity>, removed_entities: Vec<EntityId> },
    Other,
}

/// The definition of one property of a send table.
#[derive(Debug, Clone, PartialEq, Eq)]
pub struct PropDefinition {
    pub name: String,
    pub identifier: u64,
}

/// A table of property definitions, as announced by the data-table message.
#[derive(Debug, Clone, PartialEq, Eq)]
pub struct SendTable {
    pub name: String,
    pub props: Vec<PropDefinition>,
}

} // verus!
