//! The cumulative analysis of a session: who played, who killed whom and where, what was said,
//! and how the rounds went.

use crate::entities::count_of;
use crate::entities::describes;
use crate::entities::describes_other;
use crate::entities::find_entity;
use crate::search::lemma_first_where;
use crate::entities::lemma_remove_entity;
use crate::entities::remove_entity;
use crate::search::first_where;
use crate::entities::ids_distinct;
use crate::entities::lemma_with_entity;
use crate::entities::slot_of;
use crate::entities::slot_or_create;
use crate::entities::with_entity;
use crate::entities::EntityRecord;
use crate::protocol::ChatMessageKind;
use crate::protocol::EntityId;
use crate::protocol::FloatBits;
use crate::protocol::GameEvent;
use crate::protocol::Message;
use crate::protocol::PacketEntity;
use crate::protocol::Pvs;
use crate::protocol::PlayerDeathEvent;
use crate::protocol::SendProp;
use crate::protocol::SendPropValue;
use crate::protocol::SendTable;
use crate::protocol::UserMessage;
use crate::protocol::first_prop_index;
use crate::resolver::class_name_of;
use crate::resolver::fold_props;
use crate::resolver::folded;
use crate::resolver::names_with_tables;
use crate::resolver::prop_identifier;
use crate::resolver::resolve_class;
use crate::resolver::NamePair;
use crate::resolver::PropNames;
use crate::resolver::PropStep;
use crate::text::parse_u32;
use crate::text::spec_parse_unsigned;
use crate::text::str_eq;
use crate::protocol::PlayerSpawnEvent;
use crate::protocol::SayText2Message;
use crate::protocol::TeamPlayRoundWinEvent;
use crate::protocol::Vector;
use crate::users::first_named;
pub use crate::users::UserInfo;
use crate::users::has_user;
use crate::users::ids_ascend;
use crate::users::is_named;
use crate::users::lemma_update_keeps_ids;
use crate::users::lemma_user_index;
use crate::users::not_below;
use crate::users::rank_of;
use crate::users::user_info_recorded;
use crate::users::UserInfoError;
use crate::users::user_index;
use crate::users::UserTable;
use std::collections::HashMap;
use vstd::prelude::*;
use vstd::std_specs::convert::TryFromSpec;

verus! {

broadcast use vstd::std_specs::hash::group_hash_axioms;

/// Entity indices below this bound are player slots; larger ones are unrelated handles.
pub const MAX_PLAYER_ENTITY: u32 = 34;

/// Assister ids from this bound on mean that nobody assisted.
pub const NO_ASSISTER: u16 = 16384;

/// The round-win reason that marks a round ended by its time limit.
pub const WIN_REASON_TIME_LIMIT: u8 = 6;

/// The number that `number` stands for once narrowed to a byte: itself where it fits, else 0.
pub open spec fn byte_or_zero<U>(number: U) -> u8 where u8: TryFrom<U> {
    match <u8 as TryFromSpec<U>>::try_from_spec(number) {
        Ok(byte) => byte,
        Err(_) => 0u8,
    }
}

/// A line of chat.
#[derive(Debug, Clone, PartialEq, Eq)]
pub struct ChatMessage {
    pub kind: ChatMessageKind,
    pub from: String,
    pub text: String,
    pub tick: u32,
}

impl ChatMessage {
    /// The chat line that `message` carried at `tick`; a missing sender is the empty name.
    pub fn from_message(message: &SayText2Message, tick: u32) -> (chat: ChatMessage)
        ensures
            chat.kind == message.kind,
            chat.from@ == (match message.from {
                Some(name) => name@,
                None => Seq::<char>::empty(),
            }),
            chat.text@ == message.text@,
            chat.tick == tick,
    {
        let from = match &message.from {
            Some(name) => name.clone(),
            None => String::new(),
        };
        ChatMessage { kind: message.kind, from, text: message.text.clone(), tick }
    }
}

/// The side a player or an object belongs to.
#[derive(Debug, Clone, Copy, PartialEq, Eq, Structural, Hash)]
pub enum Team {
    Other,
    Spectator,
    Red,
    Blu,
}

impl Team {
    /// The team numbered `number`; numbers without a team are `Other`.
    pub open spec fn of_byte(number: u8) -> Team {
        if number == 1 {
            Team::Spectator
        } else if number == 2 {
            Team::Red
        } else if number == 3 {
            Team::Blu
        } else {
            Team::Other
        }
    }

    /// The team numbered `number`; numbers without a team are `Other`.
    pub fn from_byte(number: u8) -> (team: Team)
        ensures
            team == Team::of_byte(number),
    {
        match number {
            1 => Team::Spectator,
            2 => Team::Red,
            3 => Team::Blu,
            _ => Team::Other,
        }
    }

    /// The team numbered `number`. A number that does not fit a byte, or that no team has,
    /// gives `Other`.
    pub fn new<U>(number: U) -> (team: Team) where u8: TryFrom<U>
        ensures
            <u8 as TryFromSpec<U>>::obeys_try_from_spec() ==> team == Team::of_byte(
                byte_or_zero(number),
            ),
    {
        match u8::try_from(number) {
            Ok(byte) => Team::from_byte(byte),
            Err(_) => Team::Other,
        }
    }
}

impl Default for Team {
    fn default() -> (team: Team)
        ensures
            team == Team::Other,
    {
        Team::Other
    }
}

/// The class a player plays.
#[derive(Debug, Clone, Copy, PartialEq, Eq, Structural, Hash)]
pub enum Class {
    Other,
    Scout,
    Sniper,
    Soldier,
    Demoman,
    Medic,
    Heavy,
    Pyro,
    Spy,
    Engineer,
}

impl Class {
    /// The class numbered `number`; numbers without a class are `Other`.
    pub open spec fn of_byte(number: u8) -> Class {
        if number == 1 {
            Class::Scout
        } else if number == 2 {
            Class::Sniper
        } else if number == 3 {
            Class::Soldier
        } else if number == 4 {
            Class::Demoman
        } else if number == 5 {
            Class::Medic
        } else if number == 6 {
            Class::Heavy
        } else if number == 7 {
            Class::Pyro
        } else if number == 8 {
            Class::Spy
        } else if number == 9 {
            Class::Engineer
        } else {
            Class::Other
        }
    }

    /// The number of this class, which is also its position in a table of ten flags.
    pub open spec fn spec_index(self) -> nat {
        match self {
            Class::Other => 0,
            Class::Scout => 1,
            Class::Sniper => 2,
            Class::Soldier => 3,
            Class::Demoman => 4,
            Class::Medic => 5,
            Class::Heavy => 6,
            Class::Pyro => 7,
            Class::Spy => 8,
            Class::Engineer => 9,
        }
    }

    /// The class numbered `number`. A number that does not fit a byte, or that no class has,
    /// gives `Other`.
    pub fn new<U>(number: U) -> (class: Class) where u8: TryFrom<U>
        ensures
            <u8 as TryFromSpec<U>>::obeys_try_from_spec() ==> class == Class::of_byte(
                byte_or_zero(number),
            ),
    {
        match u8::try_from(number) {
            Ok(1) => Class::Scout,
            Ok(2) => Class::Sniper,
            Ok(3) => Class::Soldier,
            Ok(4) => Class::Demoman,
            Ok(5) => Class::Medic,
            Ok(6) => Class::Heavy,
            Ok(7) => Class::Pyro,
            Ok(8) => Class::Spy,
            Ok(9) => Class::Engineer,
            _ => Class::Other,
        }
    }

    /// The number of this class.
    pub fn index(self) -> (i: usize)
        ensures
            i == self.spec_index(),
            i < 10,
    {
        match self {
            Class::Other => 0,
            Class::Scout => 1,
            Class::Sniper => 2,
            Class::Soldier => 3,
            Class::Demoman => 4,
            Class::Medic => 5,
            Class::Heavy => 6,
            Class::Pyro => 7,
            Class::Spy => 8,
            Class::Engineer => 9,
        }
    }
}

impl Default for Class {
    fn default() -> (class: Class)
        ensures
            class == Class::Other,
    {
        Class::Other
    }
}

/// Numbering a class and reading the number back gives the class again.
pub proof fn lemma_class_index_roundtrip(class: Class)
    ensures
        class.spec_index() < 10,
        Class::of_byte(class.spec_index() as u8) == class,
{
}

/// The persistent identifier of a connected user.
#[derive(Debug, Clone, Copy, PartialEq, Eq, Structural, Hash, PartialOrd, Ord)]
pub struct UserId(pub u32);

impl From<u32> for UserId {
    fn from(number: u32) -> (id: UserId) {
        UserId(number)
    }
}

impl vstd::std_specs::convert::FromSpecImpl<u32> for UserId {
    open spec fn obeys_from_spec() -> bool {
        true
    }

    open spec fn from_spec(number: u32) -> UserId {
        UserId(number)
    }
}

impl From<u16> for UserId {
    fn from(number: u16) -> (id: UserId) {
        UserId(number as u32)
    }
}

impl vstd::std_specs::convert::FromSpecImpl<u16> for UserId {
    open spec fn obeys_from_spec() -> bool {
        true
    }

    open spec fn from_spec(number: u16) -> UserId {
        UserId(number as u32)
    }
}

/// A player entered the game world.
#[derive(Debug, Clone, Copy, PartialEq, Eq, Structural)]
pub struct Spawn {
    pub user: UserId,
    pub class: Class,
    pub team: Team,
    pub tick: u32,
}

impl Spawn {
    /// What `event` says happened at `tick`.
    pub fn from_event(event: &PlayerSpawnEvent, tick: u32) -> (spawn: Spawn)
        ensures
            spawn == Spawn::of_event(*event, tick),
    {
        Spawn {
            user: UserId::from(event.user_id),
            class: Class::new(event.class),
            team: Team::new(event.team),
            tick,
        }
    }

    pub open spec fn of_event(event: PlayerSpawnEvent, tick: u32) -> Spawn {
        Spawn {
            user: UserId(event.user_id as u32),
            class: Class::of_byte(if event.class <= 255 { event.class as u8 } else { 0 }),
            team: Team::of_byte(if event.team <= 255 { event.team as u8 } else { 0 }),
            tick,
        }
    }
}

/// The life state of a player entity.
#[derive(Debug, Clone, Copy, PartialEq, Eq, Structural, Hash)]
pub enum PlayerState {
    Alive,
    Dying,
    Death,
    Respawnable,
}

impl PlayerState {
    /// The life state numbered `number`; every number without a state of its own means alive.
    pub fn new(number: i64) -> (state: PlayerState)
        ensures
            state == PlayerState::of_number(number),
    {
        match number {
            1 => PlayerState::Dying,
            2 => PlayerState::Death,
            3 => PlayerState::Respawnable,
            _ => PlayerState::Alive,
        }
    }

    pub open spec fn of_number(number: i64) -> PlayerState {
        if number == 1 {
            PlayerState::Dying
        } else if number == 2 {
            PlayerState::Death
        } else if number == 3 {
            PlayerState::Respawnable
        } else {
            PlayerState::Alive
        }
    }
}

/// The low eleven bits of an entity handle: the index of the entity it refers to.
pub open spec fn handle_index_bits(handle: i64) -> u32 {
    (handle as u32) & 0x7ff
}

/// The entity that `handle` refers to. The handle whose index bits are all set, or all clear,
/// refers to none; the result is never zero.
pub fn handle_to_entity_index(handle: i64) -> (index: Option<u32>)
    ensures
        index == (if handle_index_bits(handle) == 2047 || handle_index_bits(handle) == 0 {
            None
        } else {
            Some(handle_index_bits(handle))
        }),
{
    let ret: u32 = (#[verifier::truncate] (handle as u32)) & 0x7ff;
    if ret == 2047 || ret == 0 {
        return None;
    }
    Some(ret)
}

/// For a handle that is not negative, the index bits are the handle modulo 2048.
pub proof fn lemma_handle_index_bits(handle: i64)
    requires
        handle >= 0,
    ensures
        handle_index_bits(handle) == handle % 2048,
        handle_index_bits(handle) < 2048,
{
    assert(((handle as u32) & 0x7ff) == (handle % 2048) as u32 && ((handle as u32) & 0x7ff)
        < 2048) by (bit_vector)
        requires
            handle >= 0,
    ;
}

/// What is known of one player's body in the game world at one instant.
#[derive(Debug, Clone, Copy, PartialEq, Eq, Structural)]
pub struct PlayerEntity {
    pub entity: EntityId,
    pub position: Vector,
    pub health: u16,
    pub max_health: u16,
    pub class: Class,
    pub team: Team,
    pub view_angle_horizontal: FloatBits,
    pub view_angle_vertical: FloatBits,
    pub state: PlayerState,
}

impl EntityRecord for PlayerEntity {
    open spec fn entity_of(&self) -> EntityId {
        self.entity
    }

    fn entity_id(&self) -> (id: EntityId) {
        self.entity
    }

    open spec fn fresh_spec(id: EntityId) -> PlayerEntity {
        PlayerEntity {
            entity: id,
            position: Vector { x: 0, y: 0, z: 0 },
            health: 0,
            max_health: 0,
            class: Class::Other,
            team: Team::Other,
            view_angle_horizontal: 0,
            view_angle_vertical: 0,
            state: PlayerState::Alive,
        }
    }

    fn fresh(id: EntityId) -> (record: PlayerEntity) {
        PlayerEntity {
            entity: id,
            position: Vector::zero(),
            health: 0,
            max_health: 0,
            class: Class::Other,
            team: Team::Other,
            view_angle_horizontal: 0,
            view_angle_vertical: 0,
            state: PlayerState::Alive,
        }
    }

    proof fn lemma_fresh(id: EntityId) {
    }
}

/// What is tracked of an entity that is no player.
#[derive(Debug, Clone, Copy, PartialEq, Eq)]
pub enum OtherEntity {
    /// A sentry gun and, once known, where it stands.
    Sentry { position: Option<Vector> },
    /// A rocket fired by a sentry gun and, once known, the entity of that gun.
    SentryRocket { sentry: Option<EntityId> },
}

/// The corners of the box that holds the game world.
#[derive(Debug, Clone, Copy, PartialEq, Eq, Structural)]
pub struct World {
    pub boundary_min: Vector,
    pub boundary_max: Vector,
}

/// A round that was played to its end.
#[derive(Debug, Clone, Copy, PartialEq, Eq, Structural)]
pub struct Round {
    pub winner: Team,
    pub length: FloatBits,
    pub end_tick: u32,
}

impl Round {
    /// The round that `event` ended at `tick`.
    pub fn from_event(event: &TeamPlayRoundWinEvent, tick: u32) -> (round: Round)
        ensures
            round == Round::of_event(*event, tick),
    {
        Round { winner: Team::from_byte(event.team), length: event.round_time, end_tick: tick }
    }

    pub open spec fn of_event(event: TeamPlayRoundWinEvent, tick: u32) -> Round {
        Round { winner: Team::of_byte(event.team), length: event.round_time, end_tick: tick }
    }
}

/// The user who made the kill that `event` reports. A kill by the world counts as the
/// victim's own.
pub open spec fn killer_of(event: PlayerDeathEvent) -> UserId {
    UserId(
        (if event.attacker == 0 {
            event.user_id
        } else {
            event.attacker
        }) as u32,
    )
}

/// The user who died.
pub open spec fn victim_of(event: PlayerDeathEvent) -> UserId {
    UserId(event.user_id as u32)
}

/// The user who assisted in the kill, if anybody did.
pub open spec fn assister_of(event: PlayerDeathEvent) -> Option<UserId> {
    if event.assister < NO_ASSISTER {
        Some(UserId(event.assister as u32))
    } else {
        None
    }
}

/// The entity that dealt the kill. For a kill by the world it is the victim's own.
pub open spec fn killer_entity_of(event: PlayerDeathEvent) -> u32 {
    if event.attacker == 0 {
        event.victim_ent_index
    } else {
        event.inflictor_ent_index
    }
}

/// Whether `users` holds every user that `event` names.
pub open spec fn names_known_users(event: PlayerDeathEvent, users: Seq<UserInfo>) -> bool {
    &&& has_user(users, killer_of(event))
    &&& has_user(users, victim_of(event))
    &&& event.assister < NO_ASSISTER ==> has_user(users, UserId(event.assister as u32))
}

/// A kill, with everything resolved at the instant it happened.
#[derive(Debug, Clone, PartialEq, Eq)]
pub struct Death {
    pub weapon: String,
    pub victim: UserId,
    pub victim_steamid: String,
    pub victim_entity: u32,
    pub victim_entity_state: Option<PlayerEntity>,
    pub assister: Option<UserId>,
    pub assister_steamid: Option<String>,
    pub killer: UserId,
    pub killer_steamid: String,
    pub killer_entity: u32,
    pub killer_entity_state: Option<PlayerEntity>,
    pub tick: u32,
    pub round: u32,
    pub during_round: bool,
    pub sentry_position: Option<Vector>,
}

impl Death {
    /// Whether this record says of the users involved what `event` and `users` say.
    pub open spec fn records(
        &self,
        event: PlayerDeathEvent,
        tick: u32,
        users: Seq<UserInfo>,
        round: u32,
        during_round: bool,
    ) -> bool {
        &&& self.weapon@ == event.weapon@
        &&& self.victim == victim_of(event)
        &&& self.victim_steamid@ == users[user_index(users, victim_of(event))].steam_id@
        &&& self.victim_entity == event.victim_ent_index
        &&& self.assister == assister_of(event)
        &&& match self.assister_steamid {
            Some(steam_id) => event.assister < NO_ASSISTER && steam_id@ == users[user_index(
                users,
                UserId(event.assister as u32),
            )].steam_id@,
            None => event.assister >= NO_ASSISTER,
        }
        &&& self.killer == killer_of(event)
        &&& self.killer_steamid@ == users[user_index(users, killer_of(event))].steam_id@
        &&& self.killer_entity == killer_entity_of(event)
        &&& self.tick == tick
        &&& self.round == round
        &&& self.during_round == during_round
    }

    /// The record of the kill that `event` reports, before the bodies of killer and victim
    /// and the sentry position are filled in.
    ///
    /// The killer and the entity that dealt the kill are the victim's own exactly when the
    /// world made the kill.
    pub fn from_event(
        event: &PlayerDeathEvent,
        tick: u32,
        users: &UserTable,
        round: u32,
        during_round: bool,
    ) -> (death: Death)
        requires
            names_known_users(*event, users@),
        ensures
            death.records(*event, tick, users@, round, during_round),
            death.killer_entity_state is None,
            death.victim_entity_state is None,
            death.sentry_position is None,
            death.killer == death.victim <==> event.attacker == 0 || event.attacker
                == event.user_id,
    {
        let (assister, assister_steamid) = if event.assister < NO_ASSISTER {
            let assister = UserId::from(event.assister);
            (Some(assister), Some(users.get(assister).unwrap().steam_id.clone()))
        } else {
            (None, None)
        };
        let killer = UserId::from(
            if event.attacker == 0 {
                event.user_id
            } else {
                event.attacker
            },
        );
        let victim = UserId::from(event.user_id);
        let killer_steamid = users.get(killer).unwrap().steam_id.clone();
        let victim_steamid = users.get(victim).unwrap().steam_id.clone();
        Death {
            assister,
            assister_steamid,
            tick,
            round,
            during_round,
            killer,
            killer_steamid,
            killer_entity: if event.attacker == 0 {
                event.victim_ent_index
            } else {
                event.inflictor_ent_index
            },
            killer_entity_state: None,
            weapon: event.weapon.clone(),
            victim,
            victim_steamid,
            victim_entity: event.victim_ent_index,
            victim_entity_state: None,
            sentry_position: None,
        }
    }
}

/// A kill by the world is recorded as the victim's own, and so is a kill by the victim.
pub proof fn lemma_suicide(event: PlayerDeathEvent)
    ensures
        event.attacker == 0 ==> killer_of(event) == victim_of(event) && killer_entity_of(event)
            == event.victim_ent_index,
        killer_of(event) == victim_of(event) <==> event.attacker == 0 || event.attacker
            == event.user_id,
{
}

/// The cumulative analysis of a session up to the current tick.
#[derive(Debug, Clone, PartialEq)]
pub struct HeatmapAnalysis {
    /// The tick that counts as tick 0, once a tick that is not zero was seen.
    pub tick_offset: Option<u32>,
    pub current_tick: u32,
    pub interval_per_tick: FloatBits,
    pub chat: Vec<ChatMessage>,
    pub users: UserTable,
    pub deaths: Vec<Death>,
    pub rounds: Vec<Round>,
    pub in_round: bool,
    pub player_entities: Vec<PlayerEntity>,
    pub other_entities: HashMap<EntityId, OtherEntity>,
    pub world: Option<World>,
    pub map: String,
}

impl HeatmapAnalysis {
    /// The users' ids ascend and the player entities are distinct; the world, user 0 and
    /// entity 0, leads both.
    pub open spec fn wf(&self) -> bool {
        &&& self.users.wf()
        &&& self.users@.len() > 0
        &&& self.users@[0].user_id == UserId(0)
        &&& ids_distinct(self.player_entities@)
        &&& self.player_entities@.len() > 0
        &&& self.player_entities@[0].entity == 0
    }

    /// Whether this is the analysis of a session of which nothing was seen yet. It knows the
    /// world and nothing else: the one user is the world, user 0, bound to entity 0, with
    /// no player identifier and on no team; the one player entity is a fresh record of
    /// entity 0. No tick was counted, no round is running, and nothing is recorded.
    pub open spec fn is_fresh(&self) -> bool {
        &&& self.tick_offset is None
        &&& self.current_tick == 0
        &&& self.interval_per_tick == 0
        &&& self.chat@.len() == 0
        &&& self.deaths@.len() == 0
        &&& self.rounds@.len() == 0
        &&& !self.in_round
        &&& self.users@.len() == 1
        &&& self.users@[0].name@ == "world"@
        &&& self.users@[0].user_id == UserId(0)
        &&& self.users@[0].steam_id@.len() == 0
        &&& self.users@[0].entity_id == Some(0u32)
        &&& self.users@[0].team == Team::Other
        &&& self.player_entities@ == seq![PlayerEntity::fresh_spec(0)]
        &&& self.other_entities@ == Map::<EntityId, OtherEntity>::empty()
        &&& self.world is None
        &&& self.map@.len() == 0
    }

    /// The analysis of a session of which nothing was seen yet: it knows the world, as user
    /// and as entity, and nothing else.
    pub fn new() -> (analysis: HeatmapAnalysis)
        ensures
            analysis.is_fresh(),
            analysis.wf(),
    {
        let mut users = UserTable::new();
        users.upsert(UserId(0), "world".to_owned(), String::new(), Some(0));
        let mut player_entities: Vec<PlayerEntity> = Vec::new();
        player_entities.push(PlayerEntity::fresh(0));
        assert(player_entities@ =~= seq![PlayerEntity::fresh_spec(0)]);
        HeatmapAnalysis {
            tick_offset: None,
            current_tick: 0,
            interval_per_tick: 0,
            chat: Vec::new(),
            users,
            deaths: Vec::new(),
            rounds: Vec::new(),
            in_round: false,
            player_entities,
            other_entities: HashMap::new(),
            world: None,
            map: String::new(),
        }
    }

    /// The record of the player entity `entity_id`, made afresh where there was none.
    ///
    /// A record that exists is handed out as it is; a new one is added at the end. No other
    /// record moves or changes.
    pub fn get_or_create_player_entity(&mut self, entity_id: EntityId) -> (player: &mut PlayerEntity)
        ensures
            *player == with_entity(old(self).player_entities@, entity_id)[slot_of(
                old(self).player_entities@,
                entity_id,
            )],
            player.entity == entity_id,
            0 <= slot_of(old(self).player_entities@, entity_id) < with_entity(
                old(self).player_entities@,
                entity_id,
            ).len(),
            final(self).player_entities@ == with_entity(
                old(self).player_entities@,
                entity_id,
            ).update(slot_of(old(self).player_entities@, entity_id), *final(player)),
            *final(self) == (HeatmapAnalysis {
                player_entities: final(self).player_entities,
                ..*old(self)
            }),
    {
        let slot = slot_or_create(&mut self.player_entities, entity_id);
        &mut self.player_entities[slot]
    }
}

impl Default for HeatmapAnalysis {
    /// The analysis of a session of which nothing was seen yet.
    fn default() -> (analysis: HeatmapAnalysis)
        ensures
            analysis.is_fresh(),
            analysis.wf(),
    {
        HeatmapAnalysis::new()
    }
}

/// The kinds of entity that the analysis tells apart by the name of their class.
#[derive(Debug, Clone, Copy, PartialEq, Eq, Structural, Hash)]
pub enum EntityKind {
    Player,
    PlayerResource,
    World,
    Sentry,
    SentryRocket,
    /// Every class that the analysis does not follow.
    Unclassified,
}

/// The kind of the entities of the class `name`; names are matched letter for letter.
pub open spec fn spec_classify(name: Seq<char>) -> EntityKind {
    if name == "CTFPlayer"@ {
        EntityKind::Player
    } else if name == "CTFPlayerResource"@ {
        EntityKind::PlayerResource
    } else if name == "CWorld"@ {
        EntityKind::World
    } else if name == "CObjectSentrygun"@ {
        EntityKind::Sentry
    } else if name == "CTFProjectile_SentryRocket"@ {
        EntityKind::SentryRocket
    } else {
        EntityKind::Unclassified
    }
}

/// The kind of the entities of the class `name`.
pub fn classify(name: &str) -> (kind: EntityKind)
    ensures
        kind == spec_classify(name@),
{
    if str_eq(name, "CTFPlayer") {
        EntityKind::Player
    } else if str_eq(name, "CTFPlayerResource") {
        EntityKind::PlayerResource
    } else if str_eq(name, "CWorld") {
        EntityKind::World
    } else if str_eq(name, "CObjectSentrygun") {
        EntityKind::Sentry
    } else if str_eq(name, "CTFProjectile_SentryRocket") {
        EntityKind::SentryRocket
    } else {
        EntityKind::Unclassified
    }
}

/// How a player entity takes in a property delta.
pub struct PlayerProps;

impl PropStep<PlayerEntity> for PlayerProps {
    open spec fn spec_step(
        state: PlayerEntity,
        table: Seq<char>,
        name: Seq<char>,
        value: SendPropValue,
    ) -> PlayerEntity {
        if table == "DT_BasePlayer"@ {
            if name == "m_iHealth"@ {
                PlayerEntity { health: value.spec_integer_or(0) as u16, ..state }
            } else if name == "m_iMaxHealth"@ {
                PlayerEntity { max_health: value.spec_integer_or(0) as u16, ..state }
            } else if name == "m_lifeState"@ {
                PlayerEntity { state: PlayerState::of_number(value.spec_integer_or(0)), ..state }
            } else {
                state
            }
        } else if table == "DT_TFLocalPlayerExclusive"@ || table
            == "DT_TFNonLocalPlayerExclusive"@ {
            if name == "m_vecOrigin"@ {
                PlayerEntity {
                    position: Vector {
                        x: value.spec_vector_xy_or_zero().x,
                        y: value.spec_vector_xy_or_zero().y,
                        z: state.position.z,
                    },
                    ..state
                }
            } else if name == "m_vecOrigin[2]"@ {
                PlayerEntity {
                    position: Vector { z: value.spec_float_or_zero(), ..state.position },
                    ..state
                }
            } else if name == "m_angEyeAngles[0]"@ {
                PlayerEntity { view_angle_vertical: value.spec_float_or_zero(), ..state }
            } else if name == "m_angEyeAngles[1]"@ {
                PlayerEntity { view_angle_horizontal: value.spec_float_or_zero(), ..state }
            } else {
                state
            }
        } else {
            state
        }
    }

    fn step(state: PlayerEntity, table: &str, name: &str, value: &SendPropValue) -> (next:
        PlayerEntity) {
        let mut player = state;
        if str_eq(table, "DT_BasePlayer") {
            if str_eq(name, "m_iHealth") {
                player.health = #[verifier::truncate] (value.integer_or(0) as u16);
            } else if str_eq(name, "m_iMaxHealth") {
                player.max_health = #[verifier::truncate] (value.integer_or(0) as u16);
            } else if str_eq(name, "m_lifeState") {
                player.state = PlayerState::new(value.integer_or(0));
            }
        } else if str_eq(table, "DT_TFLocalPlayerExclusive") || str_eq(
            table,
            "DT_TFNonLocalPlayerExclusive",
        ) {
            if str_eq(name, "m_vecOrigin") {
                let pos_xy = value.vector_xy_or_zero();
                player.position.x = pos_xy.x;
                player.position.y = pos_xy.y;
            } else if str_eq(name, "m_vecOrigin[2]") {
                player.position.z = value.float_or_zero();
            } else if str_eq(name, "m_angEyeAngles[0]") {
                player.view_angle_vertical = value.float_or_zero();
            } else if str_eq(name, "m_angEyeAngles[1]") {
                player.view_angle_horizontal = value.float_or_zero();
            }
        }
        player
    }
}

/// Taking in properties never changes which entity a player record describes.
pub proof fn lemma_player_props_keep_entity(
    player: PlayerEntity,
    props: Seq<SendProp>,
    names: Map<u64, NamePair>,
)
    ensures
        folded::<PlayerEntity, PlayerProps>(player, props, names).entity == player.entity,
    decreases props.len(),
{
    if props.len() > 0 {
        lemma_player_props_keep_entity(player, props.drop_last(), names);
    }
}

/// A record that holds what is known of a player's body.
pub trait PlayerRecord: EntityRecord {
    /// What the record knows of the body.
    spec fn body(&self) -> PlayerEntity;

    /// The record with `body` in place of what it knew of the body.
    spec fn with_body(&self, body: PlayerEntity) -> Self;

    /// What the record knows of the body.
    fn get_body(&self) -> (body: PlayerEntity)
        ensures
            body == self.body(),
    ;

    /// Replaces what the record knows of the body.
    fn set_body(&mut self, body: PlayerEntity)
        ensures
            *final(self) == old(self).with_body(body),
    ;

    /// The entity of a record is the entity of the body it holds.
    proof fn lemma_body(&self, body: PlayerEntity)
        ensures
            self.entity_of() == self.body().entity,
            self.with_body(body).entity_of() == body.entity,
    ;
}

impl PlayerRecord for PlayerEntity {
    open spec fn body(&self) -> PlayerEntity {
        *self
    }

    open spec fn with_body(&self, body: PlayerEntity) -> PlayerEntity {
        body
    }

    fn get_body(&self) -> (body: PlayerEntity) {
        *self
    }

    fn set_body(&mut self, body: PlayerEntity) {
        *self = body;
    }

    proof fn lemma_body(&self, body: PlayerEntity) {
    }
}

/// The player `player` after the scoreboard sent `value` in its table `table`.
pub open spec fn resource_applied(
    player: PlayerEntity,
    table: Seq<char>,
    value: SendPropValue,
) -> PlayerEntity {
    if table == "m_iTeam"@ {
        PlayerEntity { team: Team::of_byte(byte_or_zero(value.spec_integer_or(0))), ..player }
    } else if table == "m_iMaxHealth"@ {
        PlayerEntity { max_health: value.spec_integer_or(0) as u16, ..player }
    } else if table == "m_iPlayerClass"@ {
        PlayerEntity { class: Class::of_byte(byte_or_zero(value.spec_integer_or(0))), ..player }
    } else {
        player
    }
}

/// The players after one scoreboard property. The scoreboard names the player by the slot
/// written in the property's name; a name that is no number, or the number of no known player
/// entity, changes nothing.
pub open spec fn players_with_resource<T: PlayerRecord>(
    players: Seq<T>,
    table: Seq<char>,
    name: Seq<char>,
    value: SendPropValue,
) -> Seq<T> {
    match spec_parse_unsigned(name, u32::MAX as nat) {
        Some(slot) => match first_where(players, describes::<T>(slot as u32)) {
            Some(i) => players.update(
                i,
                players[i].with_body(resource_applied(players[i].body(), table, value)),
            ),
            None => players,
        },
        None => players,
    }
}

/// The players after the scoreboard properties `props`, taken in order.
pub open spec fn players_after_resource<T: PlayerRecord>(
    players: Seq<T>,
    props: Seq<SendProp>,
    names: Map<u64, NamePair>,
) -> Seq<T>
    decreases props.len(),
{
    if props.len() == 0 {
        players
    } else {
        let before = players_after_resource(players, props.drop_last(), names);
        let last = props.last();
        if names.contains_key(last.identifier) {
            players_with_resource(
                before,
                names[last.identifier].0,
                names[last.identifier].1,
                last.value,
            )
        } else {
            before
        }
    }
}

/// Whether `after` holds records of the same entities as `before`, in the same places.
pub open spec fn same_entities<T: EntityRecord>(before: Seq<T>, after: Seq<T>) -> bool {
    &&& after.len() == before.len()
    &&& forall|i: int|
        0 <= i < before.len() ==> (#[trigger] after[i]).entity_of() == before[i].entity_of()
}

/// Scoreboard properties change no record's entity, so the records stay distinct.
pub proof fn lemma_resource_keeps_entities<T: PlayerRecord>(
    players: Seq<T>,
    props: Seq<SendProp>,
    names: Map<u64, NamePair>,
)
    ensures
        same_entities(players, players_after_resource(players, props, names)),
    decreases props.len(),
{
    if props.len() > 0 {
        lemma_resource_keeps_entities(players, props.drop_last(), names);
        let before = players_after_resource(players, props.drop_last(), names);
        let last = props.last();
        if names.contains_key(last.identifier) {
            let table = names[last.identifier].0;
            let name = names[last.identifier].1;
            match spec_parse_unsigned(name, u32::MAX as nat) {
                Some(slot) => {
                    lemma_first_where(before, describes::<T>(slot as u32));
                    match first_where(before, describes::<T>(slot as u32)) {
                        Some(i) => {
                            before[i].lemma_body(
                                resource_applied(before[i].body(), table, last.value),
                            );
                        },
                        None => {},
                    }
                },
                None => {},
            }
        }
    }
}

/// Records of the same entities in the same places are distinct together.
pub proof fn lemma_same_entities_distinct<T: EntityRecord>(before: Seq<T>, after: Seq<T>)
    requires
        same_entities(before, after),
        ids_distinct(before),
    ensures
        ids_distinct(after),
{
    assert forall|i: int, j: int| 0 <= i < j < after.len() implies (#[trigger] after[i]).entity_of()
        != (#[trigger] after[j]).entity_of() by {
        assert(before[i].entity_of() != before[j].entity_of());
    }
}

/// Lets the players take in an update of the scoreboard, which tells team, class and greatest
/// health of the players by their slot.
pub fn apply_player_resource<T: PlayerRecord>(
    players: &mut Vec<T>,
    props: &Vec<SendProp>,
    names: &PropNames,
)
    ensures
        final(players)@ == players_after_resource(old(players)@, props@, names@),
{
    let mut i: usize = 0;
    while i < props.len()
        invariant
            i <= props.len(),
            players@ == players_after_resource(old(players)@, props@.take(i as int), names@),
        decreases props.len() - i,
    {
        proof {
            assert(props@.take(i + 1).drop_last() =~= props@.take(i as int));
        }
        let prop = &props[i];
        match names.get(prop.identifier) {
            Some(path) => match parse_u32(path.name.as_str()) {
                Some(player_id) => match find_entity(players, player_id) {
                    Some(slot) => {
                        let mut body = players[slot].get_body();
                        let table = path.table.as_str();
                        if str_eq(table, "m_iTeam") {
                            body.team = Team::new(prop.value.integer_or(0));
                        } else if str_eq(table, "m_iMaxHealth") {
                            body.max_health = #[verifier::truncate] (prop.value.integer_or(0)
                                as u16);
                        } else if str_eq(table, "m_iPlayerClass") {
                            body.class = Class::new(prop.value.integer_or(0));
                        }
                        let mut record = players[slot];
                        record.set_body(body);
                        players[slot] = record;
                    },
                    None => {},
                },
                None => {},
            },
            None => {},
        }
        i += 1;
    }
    proof {
        assert(props@.take(i as int) =~= props@);
    }
}

/// How a sentry gun takes in a property delta: the flag records that the update named a
/// known property at all, the other part is the position.
pub struct SentryProps;

impl PropStep<(bool, Option<Vector>)> for SentryProps {
    open spec fn spec_step(
        state: (bool, Option<Vector>),
        table: Seq<char>,
        name: Seq<char>,
        value: SendPropValue,
    ) -> (bool, Option<Vector>) {
        if name == "m_vecOrigin"@ {
            (true, Some(value.spec_vector_or_zero()))
        } else {
            (true, state.1)
        }
    }

    fn step(state: (bool, Option<Vector>), table: &str, name: &str, value: &SendPropValue) -> (next:
        (bool, Option<Vector>)) {
        if str_eq(name, "m_vecOrigin") {
            (true, Some(value.vector_or_zero()))
        } else {
            (true, state.1)
        }
    }
}

/// The entity that `value` refers to as a handle, if it refers to one.
pub open spec fn handle_target(value: SendPropValue) -> Option<EntityId> {
    let bits = handle_index_bits(value.spec_integer_or(0));
    if bits == 2047 || bits == 0 {
        None
    } else {
        Some(bits)
    }
}

/// How a sentry rocket takes in a property delta: the flag records that the update named a
/// known property at all, the other part is the entity of the gun that fired.
pub struct SentryRocketProps;

impl PropStep<(bool, Option<EntityId>)> for SentryRocketProps {
    open spec fn spec_step(
        state: (bool, Option<EntityId>),
        table: Seq<char>,
        name: Seq<char>,
        value: SendPropValue,
    ) -> (bool, Option<EntityId>) {
        if name == "m_hOwnerEntity"@ {
            (true, handle_target(value))
        } else {
            (true, state.1)
        }
    }

    fn step(state: (bool, Option<EntityId>), table: &str, name: &str, value: &SendPropValue) -> (next:
        (bool, Option<EntityId>)) {
        if str_eq(name, "m_hOwnerEntity") {
            (true, handle_to_entity_index(value.integer_or(0)))
        } else {
            (true, state.1)
        }
    }
}

/// Everything the analysis knows of the entities of the game world.
pub struct Scene {
    pub players: Seq<PlayerEntity>,
    pub others: Map<EntityId, OtherEntity>,
    pub world: Option<World>,
}

/// The position known of the sentry gun `id`.
pub open spec fn known_sentry_position(others: Map<EntityId, OtherEntity>, id: EntityId) -> Option<
    Vector,
> {
    if others.contains_key(id) {
        match others[id] {
            OtherEntity::Sentry { position } => position,
            _ => None,
        }
    } else {
        None
    }
}

/// The gun known to have fired the sentry rocket `id`.
pub open spec fn known_rocket_owner(others: Map<EntityId, OtherEntity>, id: EntityId) -> Option<
    EntityId,
> {
    if others.contains_key(id) {
        match others[id] {
            OtherEntity::SentryRocket { sentry } => sentry,
            _ => None,
        }
    } else {
        None
    }
}

/// The vector that the first property `name` of `table` in `props` carries.
pub open spec fn vector_prop(props: Seq<SendProp>, table: Seq<char>, name: Seq<char>) -> Option<
    Vector,
> {
    match first_prop_index(props, prop_identifier(table, name)) {
        Some(i) => match props[i].value {
            SendPropValue::Vector(v) => Some(v),
            _ => None,
        },
        None => None,
    }
}

/// The scene after an entity of the kind `kind` took in the update `entity`: a player, the
/// scoreboard, the world, a sentry gun or one of its rockets. An update of any other kind
/// changes nothing.
pub open spec fn scene_after_kind(
    scene: Scene,
    kind: EntityKind,
    entity: PacketEntity,
    names: Map<u64, NamePair>,
) -> Scene {
    let id = entity.entity_index;
    match kind {
        EntityKind::Player => {
            let present = with_entity(scene.players, id);
            let slot = slot_of(scene.players, id);
            Scene {
                players: present.update(
                    slot,
                    folded::<PlayerEntity, PlayerProps>(present[slot], entity.props@, names),
                ),
                ..scene
            }
        },
        EntityKind::PlayerResource => Scene {
            players: players_after_resource(scene.players, entity.props@, names),
            ..scene
        },
        EntityKind::World => match (
            vector_prop(entity.props@, "DT_WORLD"@, "m_WorldMins"@),
            vector_prop(entity.props@, "DT_WORLD"@, "m_WorldMaxs"@),
        ) {
            (Some(boundary_min), Some(boundary_max)) => Scene {
                world: Some(World { boundary_min, boundary_max }),
                ..scene
            },
            _ => scene,
        },
        EntityKind::Sentry => {
            let taken = folded::<(bool, Option<Vector>), SentryProps>(
                (false, known_sentry_position(scene.others, id)),
                entity.props@,
                names,
            );
            if taken.0 {
                Scene {
                    others: scene.others.insert(id, OtherEntity::Sentry { position: taken.1 }),
                    ..scene
                }
            } else {
                scene
            }
        },
        EntityKind::SentryRocket => {
            let taken = folded::<(bool, Option<EntityId>), SentryRocketProps>(
                (false, known_rocket_owner(scene.others, id)),
                entity.props@,
                names,
            );
            if taken.0 {
                Scene {
                    others: scene.others.insert(id, OtherEntity::SentryRocket { sentry: taken.1 }),
                    ..scene
                }
            } else {
                scene
            }
        },
        EntityKind::Unclassified => scene,
    }
}

/// The scene after the update `entity` of an entity that did not leave. The name of the
/// entity's class decides its kind.
pub open spec fn scene_after_entity(
    scene: Scene,
    entity: PacketEntity,
    names: Map<u64, NamePair>,
    class_names: Seq<String>,
) -> Scene {
    scene_after_kind(
        scene,
        spec_classify(class_name_of(class_names, entity.server_class)),
        entity,
        names,
    )
}

/// The scene after the entity `id` left it. The world, entity 0, never leaves the players.
pub open spec fn scene_without(scene: Scene, id: EntityId) -> Scene {
    Scene {
        players: if id == 0 {
            scene.players
        } else {
            scene.players.filter(describes_other::<PlayerEntity>(id))
        },
        others: scene.others.remove(id),
        world: scene.world,
    }
}

/// The scene after the updates `entities`, taken in order: an update that deletes its entity
/// removes it, any other is taken in by the entity.
pub open spec fn scene_after_entities(
    scene: Scene,
    entities: Seq<PacketEntity>,
    names: Map<u64, NamePair>,
    class_names: Seq<String>,
) -> Scene
    decreases entities.len(),
{
    if entities.len() == 0 {
        scene
    } else {
        let before = scene_after_entities(scene, entities.drop_last(), names, class_names);
        if entities.last().pvs == Pvs::Delete {
            scene_without(before, entities.last().entity_index)
        } else {
            scene_after_entity(before, entities.last(), names, class_names)
        }
    }
}

/// The scene after every entity of `removed` left it.
pub open spec fn scene_without_all(scene: Scene, removed: Seq<EntityId>) -> Scene
    decreases removed.len(),
{
    if removed.len() == 0 {
        scene
    } else {
        scene_without(scene_without_all(scene, removed.drop_last()), removed.last())
    }
}

/// Whether the players of `scene` are distinct and led by the world.
pub open spec fn scene_wf(scene: Scene) -> bool {
    &&& ids_distinct(scene.players)
    &&& scene.players.len() > 0
    &&& scene.players[0].entity == 0
}

/// An entity update keeps the players distinct and led by the world.
pub proof fn lemma_scene_after_kind_wf(
    scene: Scene,
    kind: EntityKind,
    entity: PacketEntity,
    names: Map<u64, NamePair>,
)
    requires
        scene_wf(scene),
    ensures
        scene_wf(scene_after_kind(scene, kind, entity, names)),
{
    let id = entity.entity_index;
    match kind {
        EntityKind::Player => {
            lemma_with_entity(scene.players, id);
            let present = with_entity(scene.players, id);
            let slot = slot_of(scene.players, id);
            lemma_player_props_keep_entity(present[slot], entity.props@, names);
            let after = scene_after_kind(scene, kind, entity, names).players;
            assert(same_entities::<PlayerEntity>(present, after));
            lemma_same_entities_distinct(present, after);
        },
        EntityKind::PlayerResource => {
            lemma_resource_keeps_entities(scene.players, entity.props@, names);
            lemma_same_entities_distinct(
                scene.players,
                players_after_resource(scene.players, entity.props@, names),
            );
        },
        _ => {},
    }
}

/// The leaving of an entity keeps the players distinct and led by the world.
pub proof fn lemma_scene_without_wf(scene: Scene, id: EntityId)
    requires
        scene_wf(scene),
    ensures
        scene_wf(scene_without(scene, id)),
{
    if id != 0 {
        lemma_remove_entity(scene.players, id);
    }
}

/// An entity that left and comes back starts afresh.
///
/// Once the entity `entity.entity_index` has left the scene, its update as a player yields
/// exactly one record of it, and that record is what a fresh record makes of the properties
/// of the update: nothing of the record that was there before the entity left survives.
pub proof fn lemma_returning_player_starts_afresh(
    scene: Scene,
    entity: PacketEntity,
    names: Map<u64, NamePair>,
)
    requires
        scene_wf(scene),
        entity.entity_index != 0,
    ensures
        ({
            let id = entity.entity_index;
            let gone = scene_without(scene, id);
            let back = scene_after_kind(gone, EntityKind::Player, entity, names);
            &&& count_of(gone.players, id) == 0
            &&& count_of(back.players, id) == 1
            &&& back.players.len() == gone.players.len() + 1
            &&& back.players.last() == folded::<PlayerEntity, PlayerProps>(
                PlayerEntity::fresh_spec(id),
                entity.props@,
                names,
            )
            &&& back.players.drop_last() == gone.players
        }),
{
    let id = entity.entity_index;
    let gone = scene_without(scene, id);
    let back = scene_after_kind(gone, EntityKind::Player, entity, names);
    lemma_remove_entity(scene.players, id);
    lemma_with_entity(gone.players, id);
    lemma_scene_after_kind_wf(gone, EntityKind::Player, entity, names);
    crate::entities::lemma_count_distinct(back.players, id);
    let present = with_entity(gone.players, id);
    let slot = slot_of(gone.players, id);
    lemma_player_props_keep_entity(present[slot], entity.props@, names);
    lemma_first_where(back.players, describes::<PlayerEntity>(id));
    assert(describes::<PlayerEntity>(id)(back.players[slot]));
    assert(back.players.drop_last() =~= gone.players);
}

/// The tick offset once a message of the tick `tick` was seen. The first tick that is not
/// zero fixes it for good, so that this tick counts as tick 1; an offset that is fixed
/// never changes.
pub open spec fn offset_after(offset: Option<u32>, tick: u32) -> Option<u32> {
    match offset {
        Some(fixed) => Some(fixed),
        None => if tick != 0 {
            Some((tick - 1) as u32)
        } else {
            None
        },
    }
}

/// The tick that counts as tick 0: the offset where it is fixed, else 0.
pub open spec fn offset_value(offset: Option<u32>) -> u32 {
    match offset {
        Some(fixed) => fixed,
        None => 0,
    }
}

/// The current tick at the tick `tick`, counted from the offset as it is once `tick` was
/// seen.
pub open spec fn current_tick_at(offset: Option<u32>, tick: u32) -> int {
    tick - offset_value(offset_after(offset, tick))
}

/// Once the first tick `first` that is not zero has fixed the offset, every tick counts
/// from it: `first` is tick 1, and a later tick is as far from 1 as it is from `first`.
pub proof fn lemma_ticks_count_from_the_first(first: u32, later: u32)
    requires
        first != 0,
    ensures
        offset_after(None, first) == Some((first - 1) as u32),
        current_tick_at(None, first) == 1,
        offset_after(offset_after(None, first), later) == offset_after(None, first),
        current_tick_at(offset_after(None, first), later) == later - first + 1,
{
}

/// `users`, with the user `id` bound to `entity` where `entity` is a player slot.
pub open spec fn users_bound(users: Seq<UserInfo>, id: UserId, entity: u32) -> Seq<UserInfo> {
    if entity < MAX_PLAYER_ENTITY {
        users.update(
            user_index(users, id),
            UserInfo { entity_id: Some(entity), ..users[user_index(users, id)] },
        )
    } else {
        users
    }
}

/// The entity that the user `id` is bound to.
pub open spec fn binding_of(users: Seq<UserInfo>, id: UserId) -> Option<EntityId> {
    users[user_index(users, id)].entity_id
}

/// `players`, with a record for the bound entity where it was missing.
pub open spec fn players_with(players: Seq<PlayerEntity>, binding: Option<EntityId>) -> Seq<
    PlayerEntity,
> {
    match binding {
        Some(entity) => with_entity(players, entity),
        None => players,
    }
}

/// The record of the bound entity, fresh where `players` holds none.
pub open spec fn snapshot_of(players: Seq<PlayerEntity>, binding: Option<EntityId>) -> Option<
    PlayerEntity,
> {
    match binding {
        Some(entity) => Some(with_entity(players, entity)[slot_of(players, entity)]),
        None => None,
    }
}

/// Whether `weapon` is one of the names under which a sentry gun kills.
pub open spec fn is_sentry_weapon(weapon: Seq<char>) -> bool {
    weapon == "obj_sentrygun"@ || weapon == "obj_sentrygun2"@ || weapon == "obj_sentrygun3"@
        || weapon == "obj_minisentry"@
}

/// Where the sentry gun stood that killed with `weapon` through the entity `killer_entity`:
/// the position of that entity if it is a gun, or of the gun that owns it if it is a rocket.
pub open spec fn sentry_position_of(
    weapon: Seq<char>,
    others: Map<EntityId, OtherEntity>,
    killer_entity: u32,
) -> Option<Vector> {
    if is_sentry_weapon(weapon) && others.contains_key(killer_entity) {
        match others[killer_entity] {
            OtherEntity::Sentry { position } => position,
            OtherEntity::SentryRocket { sentry: Some(gun) } => known_sentry_position(others, gun),
            OtherEntity::SentryRocket { sentry: None } => None,
        }
    } else {
        None
    }
}

/// Whether `after` is `before` with the kill that `event` reports at `tick` recorded.
///
/// Killer and victim are bound to the entities that the event names, where these are player
/// slots; the record holds a copy of the body of each who is bound at all, made afresh where
/// none was known; and it is added at the end of the kills.
pub open spec fn death_applied(
    before: HeatmapAnalysis,
    after: HeatmapAnalysis,
    event: PlayerDeathEvent,
    tick: u32,
) -> bool {
    let users1 = users_bound(before.users@, killer_of(event), killer_entity_of(event));
    let killer_binding = binding_of(users1, killer_of(event));
    let players1 = players_with(before.player_entities@, killer_binding);
    let users2 = users_bound(users1, victim_of(event), event.victim_ent_index);
    let victim_binding = binding_of(users2, victim_of(event));
    let players2 = players_with(players1, victim_binding);
    &&& after == (HeatmapAnalysis {
        deaths: after.deaths,
        users: after.users,
        player_entities: after.player_entities,
        ..before
    })
    &&& after.users@ == users2
    &&& after.player_entities@ == players2
    &&& after.deaths@.len() == before.deaths@.len() + 1
    &&& after.deaths@.drop_last() == before.deaths@
    &&& after.deaths@.last().records(
        event,
        tick,
        before.users@,
        (before.rounds@.len() + 1) as u32,
        before.in_round,
    )
    &&& after.deaths@.last().killer_entity_state == snapshot_of(
        before.player_entities@,
        killer_binding,
    )
    &&& after.deaths@.last().victim_entity_state == snapshot_of(players1, victim_binding)
    &&& after.deaths@.last().sentry_position == sentry_position_of(
        event.weapon@,
        before.other_entities@,
        killer_entity_of(event),
    )
}

/// `users`, with the user `id` on `team`; unchanged where `id` is not known.
pub open spec fn users_on_team(users: Seq<UserInfo>, id: UserId, team: Team) -> Seq<UserInfo> {
    if has_user(users, id) {
        users.update(user_index(users, id), UserInfo { team, ..users[user_index(users, id)] })
    } else {
        users
    }
}

/// Whether `after` is `before` with the game event `event` of the tick `tick` taken in.
pub open spec fn event_applied(
    before: HeatmapAnalysis,
    after: HeatmapAnalysis,
    event: GameEvent,
    tick: u32,
) -> bool {
    match event {
        GameEvent::PlayerDeath(death) => death_applied(before, after, death, tick),
        GameEvent::PlayerSpawn(spawn) => {
            &&& after == (HeatmapAnalysis { users: after.users, ..before })
            &&& after.users@ == users_on_team(
                before.users@,
                Spawn::of_event(spawn, tick).user,
                Spawn::of_event(spawn, tick).team,
            )
        },
        GameEvent::TeamPlayRoundStart => after == (HeatmapAnalysis { in_round: true, ..before }),
        GameEvent::TeamPlayRoundWin(win) => {
            &&& after == (HeatmapAnalysis { in_round: false, rounds: after.rounds, ..before })
            &&& after.rounds@ == (if win.win_reason != WIN_REASON_TIME_LIMIT {
                before.rounds@.push(Round::of_event(win, tick))
            } else {
                before.rounds@
            })
        },
        GameEvent::Other => after == before,
    }
}

/// Whether `after` is `before` with the user message `message` of the tick `tick` taken in:
/// a changed name renames the first user who bears the old name, any other line is added to
/// the chat.
pub open spec fn user_message_applied(
    before: HeatmapAnalysis,
    after: HeatmapAnalysis,
    message: UserMessage,
    tick: u32,
) -> bool {
    match message {
        UserMessage::SayText2(text) => if text.kind == ChatMessageKind::NameChange {
            &&& after == (HeatmapAnalysis { users: after.users, ..before })
            &&& match text.from {
                Some(from) => match first_named(before.users@, from@) {
                    Some(i) => {
                        &&& after.users@.len() == before.users@.len()
                        &&& after.users@[i].name@ == text.text@
                        &&& after.users@ == before.users@.update(
                            i,
                            UserInfo { name: after.users@[i].name, ..before.users@[i] },
                        )
                    },
                    None => after.users@ == before.users@,
                },
                None => after.users@ == before.users@,
            }
        } else {
            &&& after == (HeatmapAnalysis { chat: after.chat, ..before })
            &&& after.chat@.len() == before.chat@.len() + 1
            &&& after.chat@.drop_last() == before.chat@
            &&& after.chat@.last().kind == text.kind
            &&& after.chat@.last().from@ == (match text.from {
                Some(name) => name@,
                None => Seq::<char>::empty(),
            })
            &&& after.chat@.last().text@ == text.text@
            &&& after.chat@.last().tick == tick
        },
        UserMessage::Other => after == before,
    }
}

/// Whether `after` is `before` with `message` of the tick `tick` taken in, the tick itself
/// left aside.
pub open spec fn message_applied(
    before: HeatmapAnalysis,
    after: HeatmapAnalysis,
    message: Message,
    tick: u32,
    names: Map<u64, NamePair>,
    class_names: Seq<String>,
) -> bool {
    match message {
        Message::ServerInfo { interval_per_tick } => after == (HeatmapAnalysis {
            interval_per_tick,
            ..before
        }),
        Message::GameEvent(event) => event_applied(before, after, event, tick),
        Message::UserMessage(user_message) => user_message_applied(
            before,
            after,
            user_message,
            tick,
        ),
        Message::PacketEntities { entities, removed_entities } => {
            &&& after == before.scene_replaced(after)
            &&& after.scene() == scene_without_all(
                scene_after_entities(before.scene(), entities@, names, class_names),
                removed_entities@,
            )
        },
        Message::Other => after == before,
    }
}

/// Binding a known user to an entity keeps the users known, in place and in order.
pub proof fn lemma_users_bound(users: Seq<UserInfo>, id: UserId, entity: u32, other: UserId)
    requires
        has_user(users, id),
    ensures
        users_bound(users, id, entity).len() == users.len(),
        forall|i: int|
            0 <= i < users.len() ==> (#[trigger] users_bound(users, id, entity)[i]).user_id
                == users[i].user_id,
        has_user(users_bound(users, id, entity), other) == has_user(users, other),
        user_index(users_bound(users, id, entity), other) == user_index(users, other),
        ids_ascend(users) ==> ids_ascend(users_bound(users, id, entity)),
{
    lemma_user_index(users, id);
    if entity < MAX_PLAYER_ENTITY {
        let i = user_index(users, id);
        lemma_update_keeps_ids(users, i, UserInfo { entity_id: Some(entity), ..users[i] }, other);
    }
}

/// Whether two lists of names hold the same names in the same order.
pub open spec fn same_names(a: Seq<String>, b: Seq<String>) -> bool {
    &&& a.len() == b.len()
    &&& forall|i: int| 0 <= i < a.len() ==> (#[trigger] a[i])@ == b[i]@
}

impl HeatmapAnalysis {
    /// This analysis once a message of the tick `tick` was seen: the current tick counts from
    /// the first tick that was not zero, which is tick 1.
    pub open spec fn ticked(&self, tick: u32) -> HeatmapAnalysis {
        HeatmapAnalysis {
            tick_offset: offset_after(self.tick_offset, tick),
            current_tick: current_tick_at(self.tick_offset, tick) as u32,
            ..*self
        }
    }

    /// What the analysis knows of the entities of the game world.
    pub open spec fn scene(&self) -> Scene {
        Scene {
            players: self.player_entities@,
            others: self.other_entities@,
            world: self.world,
        }
    }

    /// This analysis with another scene.
    pub open spec fn scene_replaced(&self, after: HeatmapAnalysis) -> HeatmapAnalysis {
        HeatmapAnalysis {
            player_entities: after.player_entities,
            other_entities: after.other_entities,
            world: after.world,
            ..*self
        }
    }
}

/// The engine that turns the messages of a session, tick by tick, into its analysis.
#[derive(Debug, Clone, PartialEq)]
pub struct HeatmapAnalyser {
    pub state: HeatmapAnalysis,
    pub prop_names: PropNames,
    pub class_names: Vec<String>,
}

impl Default for HeatmapAnalyser {
    /// The engine before any message: its analysis is fresh, and it knows no class and no
    /// property by name.
    fn default() -> (analyser: HeatmapAnalyser)
        ensures
            analyser.state.is_fresh(),
            analyser.state.wf(),
            analyser.prop_names@ == Map::<u64, NamePair>::empty(),
            analyser.class_names@.len() == 0,
    {
        HeatmapAnalyser {
            state: HeatmapAnalysis::new(),
            prop_names: PropNames::new(),
            class_names: Vec::new(),
        }
    }
}

impl HeatmapAnalyser {
    /// Whether only the scene differs between `self` and `after`.
    pub open spec fn only_scene_differs(&self, after: HeatmapAnalyser) -> bool {
        after == (HeatmapAnalyser { state: self.state.scene_replaced(after.state), ..*self })
    }

    /// Whether the engine can take in `message` at `tick`.
    ///
    /// Ticks must not fall below the tick offset, and a kill must name users that the user
    /// table of the stream has announced: a stream that breaks either rule is inconsistent.
    /// The number of rounds must leave room for the number of the next one.
    pub open spec fn accepts(&self, message: &Message, tick: u32) -> bool {
        &&& current_tick_at(self.state.tick_offset, tick) >= 0
        &&& match *message {
            Message::GameEvent(GameEvent::PlayerDeath(death)) => {
                &&& names_known_users(death, self.state.users@)
                &&& self.state.rounds@.len() < u32::MAX
            },
            _ => true,
        }
    }

    /// Whether the engine can take in `message` at `tick`.
    pub fn can_handle(&self, message: &Message, tick: u32) -> (can: bool)
        ensures
            can == self.accepts(message, tick),
    {
        if let Some(offset) = self.state.tick_offset {
            if tick < offset {
                return false;
            }
        }
        match message {
            Message::GameEvent(GameEvent::PlayerDeath(death)) => {
                let killer = UserId::from(
                    if death.attacker == 0 {
                        death.user_id
                    } else {
                        death.attacker
                    },
                );
                self.state.users.find(killer).is_some() && self.state.users.find(
                    UserId::from(death.user_id),
                ).is_some() && (death.assister >= NO_ASSISTER || self.state.users.find(
                    UserId::from(death.assister),
                ).is_some()) && self.state.rounds.len() < u32::MAX as usize
            },
            _ => true,
        }
    }

    /// Records the kill that `event` reports at `tick`.
    pub fn handle_death(&mut self, event: &PlayerDeathEvent, tick: u32)
        requires
            names_known_users(*event, old(self).state.users@),
            old(self).state.rounds@.len() < u32::MAX,
        ensures
            death_applied(old(self).state, final(self).state, *event, tick),
            final(self).prop_names == old(self).prop_names,
            final(self).class_names == old(self).class_names,
            old(self).state.wf() ==> final(self).state.wf(),
    {
        let round = self.state.rounds.len() as u32 + 1;
        let mut death = Death::from_event(
            event,
            tick,
            &self.state.users,
            round,
            self.state.in_round,
        );
        death.sentry_position = self.sentry_position(event.weapon.as_str(), death.killer_entity);
        proof {
            lemma_users_bound(
                self.state.users@,
                death.killer,
                death.killer_entity,
                death.victim,
            );
            lemma_users_bound(
                self.state.users@,
                death.killer,
                death.killer_entity,
                death.killer,
            );
            lemma_users_bound(self.state.users@, death.killer, death.killer_entity, UserId(0));
            lemma_user_index(self.state.users@, death.killer);
        }
        let killer = self.state.users.find(death.killer).unwrap();
        if death.killer_entity < MAX_PLAYER_ENTITY {
            self.state.users.set_entity_at(killer, Some(death.killer_entity));
        }
        let ghost users1 = self.state.users@;
        let killer_binding = self.state.users.entries()[killer].entity_id;
        if let Some(killer_entity) = killer_binding {
            proof {
                if ids_distinct(self.state.player_entities@) {
                    lemma_with_entity(self.state.player_entities@, killer_entity);
                }
            }
            let body = *self.state.get_or_create_player_entity(killer_entity);
            death.killer_entity_state = Some(body);
            assert(self.state.player_entities@ =~= with_entity(
                old(self).state.player_entities@,
                killer_entity,
            ));
        }
        let ghost players1 = self.state.player_entities@;
        proof {
            lemma_users_bound(users1, death.victim, death.victim_entity, death.victim);
            lemma_users_bound(users1, death.victim, death.victim_entity, UserId(0));
            lemma_user_index(users1, death.victim);
        }
        let victim = self.state.users.find(death.victim).unwrap();
        if death.victim_entity < MAX_PLAYER_ENTITY {
            self.state.users.set_entity_at(victim, Some(death.victim_entity));
        }
        let victim_binding = self.state.users.entries()[victim].entity_id;
        if let Some(victim_entity) = victim_binding {
            proof {
                if ids_distinct(self.state.player_entities@) {
                    lemma_with_entity(self.state.player_entities@, victim_entity);
                }
            }
            let body = *self.state.get_or_create_player_entity(victim_entity);
            death.victim_entity_state = Some(body);
            assert(self.state.player_entities@ =~= with_entity(players1, victim_entity));
        }
        self.state.deaths.push(death);
        proof {
            assert(self.state.deaths@.drop_last() =~= old(self).state.deaths@);
        }
    }

    /// Takes in the game event `event` of the tick `tick`: a kill is recorded, a spawn puts
    /// the user on a team, and the start and the win of a round open and close it. A win is
    /// recorded as a round unless the time limit ended it.
    pub fn handle_event(&mut self, event: &GameEvent, tick: u32)
        requires
            match *event {
                GameEvent::PlayerDeath(death) => names_known_users(death, old(self).state.users@)
                    && old(self).state.rounds@.len() < u32::MAX,
                _ => true,
            },
        ensures
            event_applied(old(self).state, final(self).state, *event, tick),
            final(self).prop_names == old(self).prop_names,
            final(self).class_names == old(self).class_names,
            old(self).state.wf() ==> final(self).state.wf(),
    {
        match event {
            GameEvent::PlayerDeath(death) => {
                self.handle_death(death, tick);
            },
            GameEvent::PlayerSpawn(spawn_event) => {
                let spawn = Spawn::from_event(spawn_event, tick);
                match self.state.users.find(spawn.user) {
                    Some(user) => {
                        self.state.users.set_team_at(user, spawn.team);
                    },
                    None => {},
                }
            },
            GameEvent::TeamPlayRoundStart => {
                self.state.in_round = true;
            },
            GameEvent::TeamPlayRoundWin(win) => {
                self.state.in_round = false;
                if win.win_reason != WIN_REASON_TIME_LIMIT {
                    self.state.rounds.push(Round::from_event(win, tick));
                }
            },
            GameEvent::Other => {},
        }
    }

    /// Gives the first user named `from` the name `to`.
    pub fn change_name(&mut self, from: &str, to: String)
        ensures
            *final(self) == (HeatmapAnalyser {
                state: HeatmapAnalysis { users: final(self).state.users, ..old(self).state },
                ..*old(self)
            }),
            final(self).state.users@ == (match first_named(old(self).state.users@, from@) {
                Some(i) => old(self).state.users@.update(
                    i,
                    UserInfo { name: to, ..old(self).state.users@[i] },
                ),
                None => old(self).state.users@,
            }),
            old(self).state.wf() ==> final(self).state.wf(),
    {
        proof {
            lemma_first_where(self.state.users@, is_named(from@));
        }
        self.state.users.rename(from, to);
    }

    /// Takes in the user message `message` of the tick `tick`.
    pub fn handle_user_message(&mut self, message: &UserMessage, tick: u32)
        ensures
            user_message_applied(old(self).state, final(self).state, *message, tick),
            final(self).prop_names == old(self).prop_names,
            final(self).class_names == old(self).class_names,
            old(self).state.wf() ==> final(self).state.wf(),
    {
        match message {
            UserMessage::SayText2(text_message) => {
                if text_message.kind == ChatMessageKind::NameChange {
                    match &text_message.from {
                        Some(from) => {
                            proof {
                                lemma_first_where(self.state.users@, is_named(from@));
                            }
                            self.change_name(from.as_str(), text_message.text.clone());
                        },
                        None => {},
                    }
                } else {
                    self.state.chat.push(ChatMessage::from_message(text_message, tick));
                    proof {
                        assert(self.state.chat@.drop_last() =~= old(self).state.chat@);
                    }
                }
            },
            UserMessage::Other => {},
        }
    }

    /// Takes in one message of the tick `tick`.
    ///
    /// The tick is noted first. Then server information sets the length of a tick, game
    /// events and user messages are taken in as such, and a batch of entity updates is taken
    /// in update by update, after which every entity that the batch lists as removed is
    /// forgotten. A message of any other kind only notes the tick.
    pub fn handle_message(&mut self, message: &Message, tick: u32)
        requires
            old(self).accepts(message, tick),
        ensures
            message_applied(
                old(self).state.ticked(tick),
                final(self).state,
                *message,
                tick,
                old(self).prop_names@,
                old(self).class_names@,
            ),
            final(self).prop_names == old(self).prop_names,
            final(self).class_names == old(self).class_names,
            old(self).state.wf() ==> final(self).state.wf(),
    {
        let offset = match self.state.tick_offset {
            Some(offset) => offset,
            None => if tick != 0 {
                self.state.tick_offset = Some(tick - 1);
                tick - 1
            } else {
                0
            },
        };
        self.state.current_tick = tick - offset;
        let ghost before = self.state;
        match message {
            Message::ServerInfo { interval_per_tick } => {
                self.state.interval_per_tick = *interval_per_tick;
            },
            Message::GameEvent(event) => {
                self.handle_event(event, tick);
            },
            Message::UserMessage(user_message) => {
                self.handle_user_message(user_message, tick);
            },
            Message::PacketEntities { entities, removed_entities } => {
                let mut i: usize = 0;
                while i < entities.len()
                    invariant
                        i <= entities.len(),
                        self.state == before.scene_replaced(self.state),
                        self.prop_names == old(self).prop_names,
                        self.class_names == old(self).class_names,
                        self.state.scene() == scene_after_entities(
                            before.scene(),
                            entities@.take(i as int),
                            self.prop_names@,
                            self.class_names@,
                        ),
                        scene_wf(before.scene()) ==> scene_wf(self.state.scene()),
                    decreases entities.len() - i,
                {
                    proof {
                        assert(entities@.take(i + 1).drop_last() =~= entities@.take(i as int));
                        if scene_wf(self.state.scene()) {
                            lemma_scene_after_kind_wf(
                                self.state.scene(),
                                spec_classify(
                                    class_name_of(
                                        self.class_names@,
                                        entities@[i as int].server_class,
                                    ),
                                ),
                                entities@[i as int],
                                self.prop_names@,
                            );
                            lemma_scene_without_wf(
                                self.state.scene(),
                                entities@[i as int].entity_index,
                            );
                        }
                    }
                    let entity = &entities[i];
                    if entity.pvs == Pvs::Delete {
                        self.remove_entity(entity.entity_index);
                    } else {
                        self.handle_entity(entity);
                    }
                    i += 1;
                }
                proof {
                    assert(entities@.take(i as int) =~= entities@);
                }
                let ghost updated = self.state.scene();
                let mut j: usize = 0;
                while j < removed_entities.len()
                    invariant
                        j <= removed_entities.len(),
                        self.state == before.scene_replaced(self.state),
                        self.prop_names == old(self).prop_names,
                        self.class_names == old(self).class_names,
                        self.state.scene() == scene_without_all(
                            updated,
                            removed_entities@.take(j as int),
                        ),
                        scene_wf(before.scene()) ==> scene_wf(self.state.scene()),
                    decreases removed_entities.len() - j,
                {
                    proof {
                        assert(removed_entities@.take(j + 1).drop_last()
                            =~= removed_entities@.take(j as int));
                        if scene_wf(self.state.scene()) {
                            lemma_scene_without_wf(
                                self.state.scene(),
                                removed_entities@[j as int],
                            );
                        }
                    }
                    self.remove_entity(removed_entities[j]);
                    j += 1;
                }
                proof {
                    assert(removed_entities@.take(j as int) =~= removed_entities@);
                }
            },
            Message::Other => {},
        }
    }

    /// Takes in one entry of a string table of the stream. Only the table of users is read:
    /// its entries announce the users, as `UserTable::record_user_info` says.
    pub fn handle_string_entry(
        &mut self,
        table: &str,
        index: usize,
        text: Option<&str>,
        data: Option<&[u8]>,
    ) -> (done: Result<(), UserInfoError>)
        ensures
            *final(self) == (HeatmapAnalyser {
                state: HeatmapAnalysis { users: final(self).state.users, ..old(self).state },
                ..*old(self)
            }),
            table@ != "userinfo"@ ==> done is Ok && final(self).state.users@ == old(
                self,
            ).state.users@,
            table@ == "userinfo"@ ==> user_info_recorded(
                old(self).state.users@,
                final(self).state.users@,
                match text {
                    Some(t) => Some(t@),
                    None => None,
                },
                match data {
                    Some(d) => Some(d@),
                    None => None,
                },
                done,
            ),
            old(self).state.wf() ==> final(self).state.wf(),
    {
        if str_eq(table, "userinfo") {
            proof {
                lemma_first_where(self.state.users@, not_below(UserId(0)));
            }
            let done = self.state.users.record_user_info(text, data);
            proof {
                if old(self).state.wf() && self.state.users@ != old(self).state.users@ {
                    let before = old(self).state.users@;
                    let bytes = data->0@;
                    let fields = crate::users::spec_user_record(bytes)->Ok_0;
                    let id = UserId(fields.1);
                    lemma_user_index(before, id);
                    if has_user(before, id) {
                    } else {
                        lemma_first_where(before, not_below(id));
                        let k = rank_of(before, id);
                        if k == 0 {
                            assert(not_below(id)(before[0]));
                            assert(before[0].user_id == id);
                        }
                        assert(self.state.users@.remove(k)[0] == self.state.users@[0]);
                    }
                }
            }
            done
        } else {
            Ok(())
        }
    }

    /// Takes in the data tables of the stream: the classes give the class names by number,
    /// and every property of every table is added to the known property names.
    pub fn handle_data_tables(&mut self, tables: &Vec<SendTable>, server_classes: &Vec<String>)
        ensures
            final(self).state == old(self).state,
            same_names(final(self).class_names@, server_classes@),
            final(self).prop_names@ == names_with_tables(old(self).prop_names@, tables@),
    {
        let mut class_names: Vec<String> = Vec::new();
        let mut i: usize = 0;
        while i < server_classes.len()
            invariant
                i <= server_classes.len(),
                same_names(class_names@, server_classes@.take(i as int)),
            decreases server_classes.len() - i,
        {
            class_names.push(server_classes[i].clone());
            i += 1;
        }
        proof {
            assert(server_classes@.take(i as int) =~= server_classes@);
        }
        self.class_names = class_names;
        self.prop_names.add_tables(tables);
    }

    /// Takes in the update of a player entity: the record of the entity, made afresh where
    /// there was none, takes in the properties of the update in order.
    pub fn handle_player_entity(&mut self, entity: &PacketEntity)
        ensures
            final(self).state.scene() == scene_after_kind(
                old(self).state.scene(),
                EntityKind::Player,
                *entity,
                old(self).prop_names@,
            ),
            old(self).only_scene_differs(*final(self)),
    {
        let slot = slot_or_create(&mut self.state.player_entities, entity.entity_index);
        let player = fold_props::<PlayerEntity, PlayerProps>(
            self.state.player_entities[slot],
            &entity.props,
            &self.prop_names,
        );
        self.state.player_entities[slot] = player;
    }

    /// Takes in an update of the scoreboard, which tells team, class and greatest health of
    /// the players by their slot.
    pub fn handle_player_resource(&mut self, entity: &PacketEntity)
        ensures
            final(self).state.scene() == scene_after_kind(
                old(self).state.scene(),
                EntityKind::PlayerResource,
                *entity,
                old(self).prop_names@,
            ),
            old(self).only_scene_differs(*final(self)),
    {
        apply_player_resource(&mut self.state.player_entities, &entity.props, &self.prop_names);
    }

    /// Takes in an update of the world, which tells the corners of the box that holds it.
    /// Both corners must come as vectors, else nothing changes.
    pub fn handle_world_entity(&mut self, entity: &PacketEntity)
        ensures
            final(self).state.scene() == scene_after_kind(
                old(self).state.scene(),
                EntityKind::World,
                *entity,
                old(self).prop_names@,
            ),
            old(self).only_scene_differs(*final(self)),
    {
        let mins = match entity.get_prop_by_name("DT_WORLD", "m_WorldMins") {
            Some(prop) => prop.value.as_vector(),
            None => None,
        };
        let maxs = match entity.get_prop_by_name("DT_WORLD", "m_WorldMaxs") {
            Some(prop) => prop.value.as_vector(),
            None => None,
        };
        match (mins, maxs) {
            (Some(boundary_min), Some(boundary_max)) => {
                self.state.world = Some(World { boundary_min, boundary_max });
            },
            _ => {},
        }
    }

    /// Takes in the update of a sentry gun. An update that names a known property makes the
    /// entity a sentry gun; its position is the last one sent, or the one known before.
    pub fn handle_sentry_entity(&mut self, entity: &PacketEntity)
        ensures
            final(self).state.scene() == scene_after_kind(
                old(self).state.scene(),
                EntityKind::Sentry,
                *entity,
                old(self).prop_names@,
            ),
            old(self).only_scene_differs(*final(self)),
    {
        let id = entity.entity_index;
        let known = match self.state.other_entities.get(&id) {
            Some(OtherEntity::Sentry { position }) => *position,
            _ => None,
        };
        let taken = fold_props::<(bool, Option<Vector>), SentryProps>(
            (false, known),
            &entity.props,
            &self.prop_names,
        );
        if taken.0 {
            self.state.other_entities.insert(id, OtherEntity::Sentry { position: taken.1 });
        }
    }

    /// Takes in the update of a sentry rocket. An update that names a known property makes
    /// the entity a sentry rocket; its gun is the last one sent, or the one known before.
    pub fn handle_sentry_rocket_entity(&mut self, entity: &PacketEntity)
        ensures
            final(self).state.scene() == scene_after_kind(
                old(self).state.scene(),
                EntityKind::SentryRocket,
                *entity,
                old(self).prop_names@,
            ),
            old(self).only_scene_differs(*final(self)),
    {
        let id = entity.entity_index;
        let known = match self.state.other_entities.get(&id) {
            Some(OtherEntity::SentryRocket { sentry }) => *sentry,
            _ => None,
        };
        let taken = fold_props::<(bool, Option<EntityId>), SentryRocketProps>(
            (false, known),
            &entity.props,
            &self.prop_names,
        );
        if taken.0 {
            self.state.other_entities.insert(id, OtherEntity::SentryRocket { sentry: taken.1 });
        }
    }

    /// Takes in the update of an entity that did not leave, as the kind of its class asks.
    pub fn handle_entity(&mut self, entity: &PacketEntity)
        ensures
            final(self).state.scene() == scene_after_entity(
                old(self).state.scene(),
                *entity,
                old(self).prop_names@,
                old(self).class_names@,
            ),
            old(self).only_scene_differs(*final(self)),
    {
        let kind = classify(resolve_class(&self.class_names, entity.server_class));
        match kind {
            EntityKind::Player => self.handle_player_entity(entity),
            EntityKind::PlayerResource => self.handle_player_resource(entity),
            EntityKind::World => self.handle_world_entity(entity),
            EntityKind::Sentry => self.handle_sentry_entity(entity),
            EntityKind::SentryRocket => self.handle_sentry_rocket_entity(entity),
            EntityKind::Unclassified => {},
        }
    }

    /// Forgets the entity `id`, which left the visible set. The world never leaves.
    pub fn remove_entity(&mut self, id: EntityId)
        ensures
            final(self).state.scene() == scene_without(old(self).state.scene(), id),
            old(self).only_scene_differs(*final(self)),
    {
        if id != 0 {
            remove_entity(&mut self.state.player_entities, id);
        }
        self.state.other_entities.remove(&id);
    }

    /// Where the sentry gun stood that killed with `weapon` through `killer_entity`.
    pub fn sentry_position(&self, weapon: &str, killer_entity: u32) -> (position: Option<Vector>)
        ensures
            position == sentry_position_of(weapon@, self.state.other_entities@, killer_entity),
    {
        if str_eq(weapon, "obj_sentrygun") || str_eq(weapon, "obj_sentrygun2") || str_eq(
            weapon,
            "obj_sentrygun3",
        ) || str_eq(weapon, "obj_minisentry") {
            match self.state.other_entities.get(&killer_entity) {
                Some(OtherEntity::Sentry { position }) => *position,
                Some(OtherEntity::SentryRocket { sentry: Some(gun) }) => {
                    match self.state.other_entities.get(gun) {
                        Some(OtherEntity::Sentry { position }) => *position,
                        _ => None,
                    }
                },
                _ => None,
            }
        } else {
            None
        }
    }
}

} // verus!
