//! The snapshot of the game world that playback shows for one instant, and the engine that
//! keeps it up to date.

use crate::demo_player::weapons::index_to_weapon;
use crate::demo_player::weapons::weapon_of;
use crate::demo_player::weapons::Weapon;
use crate::entities::describes_other;
use crate::entities::ids_distinct;
use crate::entities::lemma_remove_entity;
use crate::entities::lemma_with_entity;
use crate::entities::remove_entity;
use crate::entities::slot_of;
use crate::entities::slot_or_create;
use crate::entities::with_entity;
use crate::entities::EntityRecord;
use crate::heatmap_analyser::apply_player_resource;
use crate::heatmap_analyser::handle_target;
use crate::heatmap_analyser::handle_to_entity_index;
use crate::heatmap_analyser::lemma_resource_keeps_entities;
use crate::heatmap_analyser::lemma_same_entities_distinct;
use crate::heatmap_analyser::current_tick_at;
use crate::heatmap_analyser::offset_after;
use crate::heatmap_analyser::players_after_resource;
use crate::heatmap_analyser::same_entities;
use crate::heatmap_analyser::same_names;
use crate::heatmap_analyser::users_on_team;
use crate::heatmap_analyser::Class;
use crate::heatmap_analyser::PlayerProps;
use crate::heatmap_analyser::PlayerRecord;
use crate::heatmap_analyser::PlayerState;
use crate::heatmap_analyser::Spawn;
use crate::heatmap_analyser::Team;
use crate::protocol::EntityId;
use crate::protocol::FloatBits;
use crate::protocol::GameEvent;
use crate::protocol::Message;
use crate::protocol::PacketEntity;
use crate::protocol::Pvs;
use crate::protocol::SendProp;
use crate::protocol::SendPropValue;
use crate::protocol::SendTable;
use crate::protocol::Vector;
use crate::resolver::class_name_of;
use crate::resolver::fold_props;
use crate::resolver::folded;
use crate::resolver::names_with_tables;
use crate::resolver::resolve_class;
use crate::resolver::NamePair;
use crate::resolver::PropNames;
use crate::resolver::PropStep;
use crate::text::str_eq;
use crate::users::user_info_recorded;
use crate::users::UserInfoError;
use crate::users::UserTable;
use std::collections::BTreeMap;
use vstd::prelude::*;

verus! {

broadcast use vstd::std_specs::btree::group_btree_axioms;

/// What playback shows of one player's body.
#[derive(Debug, Clone, Copy, PartialEq, Eq)]
pub struct PlayerEntity {
    pub entity: EntityId,
    pub position: Vector,
    pub health: u16,
    pub max_health: u16,
    pub class: Class,
    pub team: Team,
    pub view_angle_horizontal: FloatBits,
    pub view_angle_vertical: FloatBits,
    pub state: PlayerState,
    /// The entity of the weapon in the player's hands.
    pub active_weapon: Option<EntityId>,
}

impl EntityRecord for PlayerEntity {
    open spec fn entity_of(&self) -> EntityId {
        self.entity
    }

    fn entity_id(&self) -> (id: EntityId) {
        self.entity
    }

    open spec fn fresh_spec(id: EntityId) -> PlayerEntity {
        PlayerEntity {
            entity: id,
            position: Vector { x: 0, y: 0, z: 0 },
            health: 0,
            max_health: 0,
            class: Class::Other,
            team: Team::Other,
            view_angle_horizontal: 0,
            view_angle_vertical: 0,
            state: PlayerState::Alive,
            active_weapon: None,
        }
    }

    fn fresh(id: EntityId) -> (record: PlayerEntity) {
        PlayerEntity {
            entity: id,
            position: Vector::zero(),
            health: 0,
            max_health: 0,
            class: Class::Other,
            team: Team::Other,
            view_angle_horizontal: 0,
            view_angle_vertical: 0,
            state: PlayerState::Alive,
            active_weapon: None,
        }
    }

    proof fn lemma_fresh(id: EntityId) {
    }
}

impl PlayerRecord for PlayerEntity {
    open spec fn body(&self) -> crate::heatmap_analyser::PlayerEntity {
        crate::heatmap_analyser::PlayerEntity {
            entity: self.entity,
            position: self.position,
            health: self.health,
            max_health: self.max_health,
            class: self.class,
            team: self.team,
            view_angle_horizontal: self.view_angle_horizontal,
            view_angle_vertical: self.view_angle_vertical,
            state: self.state,
        }
    }

    open spec fn with_body(&self, body: crate::heatmap_analyser::PlayerEntity) -> PlayerEntity {
        PlayerEntity {
            entity: body.entity,
            position: body.position,
            health: body.health,
            max_health: body.max_health,
            class: body.class,
            team: body.team,
            view_angle_horizontal: body.view_angle_horizontal,
            view_angle_vertical: body.view_angle_vertical,
            state: body.state,
            active_weapon: self.active_weapon,
        }
    }

    fn get_body(&self) -> (body: crate::heatmap_analyser::PlayerEntity) {
        crate::heatmap_analyser::PlayerEntity {
            entity: self.entity,
            position: self.position,
            health: self.health,
            max_health: self.max_health,
            class: self.class,
            team: self.team,
            view_angle_horizontal: self.view_angle_horizontal,
            view_angle_vertical: self.view_angle_vertical,
            state: self.state,
        }
    }

    fn set_body(&mut self, body: crate::heatmap_analyser::PlayerEntity) {
        self.entity = body.entity;
        self.position = body.position;
        self.health = body.health;
        self.max_health = body.max_health;
        self.class = body.class;
        self.team = body.team;
        self.view_angle_horizontal = body.view_angle_horizontal;
        self.view_angle_vertical = body.view_angle_vertical;
        self.state = body.state;
    }

    proof fn lemma_body(&self, body: crate::heatmap_analyser::PlayerEntity) {
    }
}

/// How a player entity of playback takes in a property delta: as the body does, and the
/// weapon in hand besides.
pub struct ArmedPlayerProps;

impl PropStep<PlayerEntity> for ArmedPlayerProps {
    open spec fn spec_step(
        state: PlayerEntity,
        table: Seq<char>,
        name: Seq<char>,
        value: SendPropValue,
    ) -> PlayerEntity {
        if table == "DT_BaseCombatCharacter"@ {
            if name == "m_hActiveWeapon"@ {
                PlayerEntity { active_weapon: handle_target(value), ..state }
            } else {
                state
            }
        } else {
            state.with_body(PlayerProps::spec_step(state.body(), table, name, value))
        }
    }

    fn step(state: PlayerEntity, table: &str, name: &str, value: &SendPropValue) -> (next:
        PlayerEntity) {
        let mut player = state;
        if str_eq(table, "DT_BaseCombatCharacter") {
            if str_eq(name, "m_hActiveWeapon") {
                player.active_weapon = handle_to_entity_index(value.integer_or(0));
            }
        } else {
            let body = PlayerProps::step(state.get_body(), table, name, value);
            player.set_body(body);
        }
        player
    }
}

/// Taking in properties never changes which entity a player record describes.
pub proof fn lemma_armed_player_props_keep_entity(
    player: PlayerEntity,
    props: Seq<SendProp>,
    names: Map<u64, NamePair>,
)
    ensures
        folded::<PlayerEntity, ArmedPlayerProps>(player, props, names).entity == player.entity,
    decreases props.len(),
{
    if props.len() > 0 {
        lemma_armed_player_props_keep_entity(player, props.drop_last(), names);
    }
}

/// What is known of a projectile in flight.
#[derive(Debug, Clone, Copy, PartialEq, Eq, Structural)]
pub struct ProjectileProperties {
    pub crit: bool,
    pub team: Team,
}

impl ProjectileProperties {
    /// A projectile of which nothing is known: no crit, no team.
    pub open spec fn unknown() -> ProjectileProperties {
        ProjectileProperties { crit: false, team: Team::Other }
    }
}

impl Default for ProjectileProperties {
    fn default() -> (properties: ProjectileProperties)
        ensures
            properties == ProjectileProperties::unknown(),
    {
        ProjectileProperties { crit: false, team: Team::Other }
    }
}

/// What an entity that is no player was found to be.
#[derive(Debug, Clone, PartialEq, Eq)]
pub enum EntityContent {
    Unknown,
    /// An entity of a class that playback does not follow further.
    Other { class_name: String },
    /// A grenade whose type is not known: what it has taken in is kept for the pipe or the
    /// sticky that it turns out to be.
    Grenade(ProjectileProperties),
    Pipe(ProjectileProperties),
    Sticky(ProjectileProperties),
    Rocket(ProjectileProperties),
    TeamTrainWatcher {
        total_progress: FloatBits,
        train_speed_level: i32,
        num_cappers: i32,
        recede_time: FloatBits,
    },
    Cart,
    Weapon { name: Weapon, id: i32, owner: Option<EntityId> },
}

/// `EntityContent` with its text as a sequence of characters.
pub enum ContentView {
    Unknown,
    Other { class_name: Seq<char> },
    Grenade(ProjectileProperties),
    Pipe(ProjectileProperties),
    Sticky(ProjectileProperties),
    Rocket(ProjectileProperties),
    TeamTrainWatcher {
        total_progress: FloatBits,
        train_speed_level: i32,
        num_cappers: i32,
        recede_time: FloatBits,
    },
    Cart,
    Weapon { name: Weapon, id: i32, owner: Option<EntityId> },
}

impl View for EntityContent {
    type V = ContentView;

    open spec fn view(&self) -> ContentView {
        match *self {
            EntityContent::Unknown => ContentView::Unknown,
            EntityContent::Other { class_name } => ContentView::Other { class_name: class_name@ },
            EntityContent::Grenade(p) => ContentView::Grenade(p),
            EntityContent::Pipe(p) => ContentView::Pipe(p),
            EntityContent::Sticky(p) => ContentView::Sticky(p),
            EntityContent::Rocket(p) => ContentView::Rocket(p),
            EntityContent::TeamTrainWatcher {
                total_progress,
                train_speed_level,
                num_cappers,
                recede_time,
            } => ContentView::TeamTrainWatcher {
                total_progress,
                train_speed_level,
                num_cappers,
                recede_time,
            },
            EntityContent::Cart => ContentView::Cart,
            EntityContent::Weapon { name, id, owner } => ContentView::Weapon { name, id, owner },
        }
    }
}

impl Default for EntityContent {
    fn default() -> (content: EntityContent)
        ensures
            content == EntityContent::Unknown,
    {
        EntityContent::Unknown
    }
}

/// An entity that is no player: what it is, where it is and how it is turned.
#[derive(Debug, Clone, PartialEq, Eq)]
pub struct OtherEntity {
    pub entity_content: EntityContent,
    pub position: Vector,
    pub rotation: Vector,
}

/// `OtherEntity` with its text as a sequence of characters.
pub struct OtherEntityView {
    pub entity_content: ContentView,
    pub position: Vector,
    pub rotation: Vector,
}

impl OtherEntityView {
    /// An entity of which nothing is known, at the origin.
    pub open spec fn unknown() -> OtherEntityView {
        OtherEntityView {
            entity_content: ContentView::Unknown,
            position: Vector { x: 0, y: 0, z: 0 },
            rotation: Vector { x: 0, y: 0, z: 0 },
        }
    }
}

impl View for OtherEntity {
    type V = OtherEntityView;

    open spec fn view(&self) -> OtherEntityView {
        OtherEntityView {
            entity_content: self.entity_content@,
            position: self.position,
            rotation: self.rotation,
        }
    }
}

impl Default for OtherEntity {
    fn default() -> (entity: OtherEntity)
        ensures
            entity@ == OtherEntityView::unknown(),
    {
        OtherEntity {
            entity_content: EntityContent::Unknown,
            position: Vector::zero(),
            rotation: Vector::zero(),
        }
    }
}

/// Where an entity is and how it is turned.
pub type Placement = (Vector, Vector);

/// How any entity takes in its position and its rotation.
pub open spec fn placed(state: Placement, name: Seq<char>, value: SendPropValue) -> Placement {
    if name == "m_vecOrigin"@ {
        (value.spec_vector_or_zero(), state.1)
    } else if name == "m_angRotation"@ {
        (state.0, value.spec_vector_or_zero())
    } else {
        state
    }
}

/// Takes in a position or a rotation.
pub fn place(state: Placement, name: &str, value: &SendPropValue) -> (next: Placement)
    ensures
        next == placed(state, name@, *value),
{
    if str_eq(name, "m_vecOrigin") {
        (value.vector_or_zero(), state.1)
    } else if str_eq(name, "m_angRotation") {
        (state.0, value.vector_or_zero())
    } else {
        state
    }
}

/// How an entity that is only placed takes in a property delta.
pub struct PlacementProps;

impl PropStep<Placement> for PlacementProps {
    open spec fn spec_step(
        state: Placement,
        table: Seq<char>,
        name: Seq<char>,
        value: SendPropValue,
    ) -> Placement {
        placed(state, name, value)
    }

    fn step(state: Placement, table: &str, name: &str, value: &SendPropValue) -> (next: Placement) {
        place(state, name, value)
    }
}

/// How a grenade takes in a property delta: its placement, its type, and what is known of
/// it as a projectile.
pub struct ProjectileProps;

impl PropStep<(Placement, i64, ProjectileProperties)> for ProjectileProps {
    open spec fn spec_step(
        state: (Placement, i64, ProjectileProperties),
        table: Seq<char>,
        name: Seq<char>,
        value: SendPropValue,
    ) -> (Placement, i64, ProjectileProperties) {
        if name == "m_iType"@ {
            (state.0, value.spec_integer_or(-1i64), state.2)
        } else if name == "m_bCritical"@ {
            (
                state.0,
                state.1,
                ProjectileProperties { crit: value.spec_integer_or(0) != 0, ..state.2 },
            )
        } else if name == "m_iTeamNum"@ {
            (
                state.0,
                state.1,
                ProjectileProperties {
                    team: Team::of_byte(
                        crate::heatmap_analyser::byte_or_zero(value.spec_integer_or(0)),
                    ),
                    ..state.2
                },
            )
        } else {
            (placed(state.0, name, value), state.1, state.2)
        }
    }

    fn step(
        state: (Placement, i64, ProjectileProperties),
        table: &str,
        name: &str,
        value: &SendPropValue,
    ) -> (next: (Placement, i64, ProjectileProperties)) {
        let (placement, itype, mut properties) = state;
        if str_eq(name, "m_iType") {
            (placement, value.integer_or(-1), properties)
        } else if str_eq(name, "m_bCritical") {
            properties.crit = value.integer_or(0) != 0;
            (placement, itype, properties)
        } else if str_eq(name, "m_iTeamNum") {
            properties.team = Team::new(value.integer_or(0));
            (placement, itype, properties)
        } else {
            (place(placement, name, value), itype, properties)
        }
    }
}

/// How a rocket takes in a property delta: its placement, and what is known of it as a
/// projectile.
pub struct RocketProps;

impl PropStep<(Placement, ProjectileProperties)> for RocketProps {
    open spec fn spec_step(
        state: (Placement, ProjectileProperties),
        table: Seq<char>,
        name: Seq<char>,
        value: SendPropValue,
    ) -> (Placement, ProjectileProperties) {
        if name == "m_bCritical"@ {
            (state.0, ProjectileProperties { crit: value.spec_integer_or(0) != 0, ..state.1 })
        } else if name == "m_iTeamNum"@ {
            (
                state.0,
                ProjectileProperties {
                    team: Team::of_byte(
                        crate::heatmap_analyser::byte_or_zero(value.spec_integer_or(0)),
                    ),
                    ..state.1
                },
            )
        } else {
            (placed(state.0, name, value), state.1)
        }
    }

    fn step(
        state: (Placement, ProjectileProperties),
        table: &str,
        name: &str,
        value: &SendPropValue,
    ) -> (next: (Placement, ProjectileProperties)) {
        let (placement, mut properties) = state;
        if str_eq(name, "m_bCritical") {
            properties.crit = value.integer_or(0) != 0;
            (placement, properties)
        } else if str_eq(name, "m_iTeamNum") {
            properties.team = Team::new(value.integer_or(0));
            (placement, properties)
        } else {
            (place(placement, name, value), properties)
        }
    }
}

/// The progress of a cart: how far it is, how fast it goes, how many push it, and when it
/// will roll back.
pub type CartProgress = (FloatBits, i32, i32, FloatBits);

/// How the watcher of a cart takes in a property delta: its placement and the progress of
/// the cart.
pub struct TrainWatcherProps;

impl PropStep<(Placement, CartProgress)> for TrainWatcherProps {
    open spec fn spec_step(
        state: (Placement, CartProgress),
        table: Seq<char>,
        name: Seq<char>,
        value: SendPropValue,
    ) -> (Placement, CartProgress) {
        let progress = state.1;
        if name == "m_flTotalProgress"@ {
            (state.0, (value.spec_float_or_zero(), progress.1, progress.2, progress.3))
        } else if name == "m_iTrainSpeedLevel"@ {
            (state.0, (progress.0, value.spec_integer_or(0) as i32, progress.2, progress.3))
        } else if name == "m_nNumCappers"@ {
            (state.0, (progress.0, progress.1, value.spec_integer_or(0) as i32, progress.3))
        } else if name == "m_flRecedeTime"@ {
            (state.0, (progress.0, progress.1, progress.2, value.spec_float_or_zero()))
        } else {
            (placed(state.0, name, value), progress)
        }
    }

    fn step(state: (Placement, CartProgress), table: &str, name: &str, value: &SendPropValue) -> (next:
        (Placement, CartProgress)) {
        let (placement, progress) = state;
        if str_eq(name, "m_flTotalProgress") {
            (placement, (value.float_or_zero(), progress.1, progress.2, progress.3))
        } else if str_eq(name, "m_iTrainSpeedLevel") {
            let level = #[verifier::truncate] (value.integer_or(0) as i32);
            (placement, (progress.0, level, progress.2, progress.3))
        } else if str_eq(name, "m_nNumCappers") {
            let cappers = #[verifier::truncate] (value.integer_or(0) as i32);
            (placement, (progress.0, progress.1, cappers, progress.3))
        } else if str_eq(name, "m_flRecedeTime") {
            (placement, (progress.0, progress.1, progress.2, value.float_or_zero()))
        } else {
            (place(placement, name, value), progress)
        }
    }
}

/// How a weapon takes in a property delta: its placement, the index of its item definition
/// and the entity that holds it.
pub struct WeaponProps;

impl PropStep<(Placement, i32, Option<EntityId>)> for WeaponProps {
    open spec fn spec_step(
        state: (Placement, i32, Option<EntityId>),
        table: Seq<char>,
        name: Seq<char>,
        value: SendPropValue,
    ) -> (Placement, i32, Option<EntityId>) {
        if name == "moveparent"@ {
            (state.0, state.1, handle_target(value))
        } else if name == "m_iItemDefinitionIndex"@ {
            (state.0, value.spec_integer_or(-1i64) as i32, state.2)
        } else {
            (placed(state.0, name, value), state.1, state.2)
        }
    }

    fn step(
        state: (Placement, i32, Option<EntityId>),
        table: &str,
        name: &str,
        value: &SendPropValue,
    ) -> (next: (Placement, i32, Option<EntityId>)) {
        let (placement, item, owner) = state;
        if str_eq(name, "moveparent") {
            (placement, item, handle_to_entity_index(value.integer_or(0)))
        } else if str_eq(name, "m_iItemDefinitionIndex") {
            let index = #[verifier::truncate] (value.integer_or(-1) as i32);
            (placement, index, owner)
        } else {
            (place(placement, name, value), item, owner)
        }
    }
}

/// The kinds of entity that playback tells apart by the name of their class.
#[derive(Debug, Clone, Copy, PartialEq, Eq, Structural, Hash)]
pub enum EntityKind {
    Player,
    PlayerResource,
    DemoProjectile,
    Rocket,
    TeamTrainWatcher,
    FuncTrackTrain,
    Weapon,
    /// Every class that playback does not know; such entities are still shown, under the
    /// name of their class.
    Unclassified,
}

/// Whether `name` is the class of a weapon or of another item held like one.
pub open spec fn is_weapon_class(name: Seq<char>) -> bool {
    name == "CTFBat"@ || name == "CTFBat_Fish"@ || name == "CTFBat_Giftwrap"@
        || name == "CTFBat_Wood"@ || name == "CTFBonesaw"@ || name == "CTFBottle"@
        || name == "CTFBreakableMelee"@ || name == "CTFBreakableSign"@
        || name == "CTFBuffItem"@ || name == "CTFCannon"@ || name == "CTFChargedSMG"@
        || name == "CTFCleaver"@ || name == "CTFClub"@ || name == "CTFCompoundBow"@
        || name == "CTFCrossbow"@ || name == "CTFDRGPomson"@ || name == "CTFFireAxe"@
        || name == "CTFFists"@ || name == "CTFFlameThrower"@ || name == "CTFFlareGun"@
        || name == "CTFFlareGun_Revenge"@ || name == "CTFGrenadeLauncher"@ || name == "CTFJar"@
        || name == "CTFJarGas"@ || name == "CTFJarMilk"@ || name == "CTFKatana"@
        || name == "CTFKnife"@ || name == "CTFLaserPointer"@ || name == "CTFLunchBox"@
        || name == "CTFLunchBox_Drink"@ || name == "CTFMechanicalArm"@ || name == "CTFMinigun"@
        || name == "CTFParachute"@ || name == "CTFParachute_Primary"@
        || name == "CTFParachute_Secondary"@ || name == "CTFParticleCannon"@
        || name == "CTFPEPBrawlerBlaster"@ || name == "CTFPipebombLauncher"@
        || name == "CTFPistol"@ || name == "CTFPistol_Scout"@
        || name == "CTFPistol_ScoutPrimary"@ || name == "CTFPistol_ScoutSecondary"@
        || name == "CTFRevolver"@ || name == "CTFRobotArm"@ || name == "CTFRocketLauncher"@
        || name == "CTFRocketLauncher_AirStrike"@ || name == "CTFRocketLauncher_DirectHit"@
        || name == "CTFRocketLauncher_Mortar"@ || name == "CTFRocketPack"@
        || name == "CTFScatterGun"@ || name == "CTFShotgun"@ || name == "CTFShotgun_HWG"@
        || name == "CTFShotgun_Pyro"@ || name == "CTFShotgun_Revenge"@
        || name == "CTFShotgun_Soldier"@ || name == "CTFShotgunBuildingRescue"@
        || name == "CTFShovel"@ || name == "CTFSlap"@ || name == "CTFSMG"@
        || name == "CTFSniperRifle"@ || name == "CTFSniperRifleClassic"@
        || name == "CTFSniperRifleDecap"@ || name == "CTFSodaPopper"@
        || name == "CTFStickBomb"@ || name == "CTFSword"@ || name == "CTFSyringeGun"@
        || name == "CTFWeaponBuilder"@ || name == "CTFWeaponPDA"@
        || name == "CTFWeaponPDA_Engineer_Build"@ || name == "CTFWeaponPDA_Engineer_Destroy"@
        || name == "CTFWeaponPDA_Spy"@ || name == "CTFWeaponSapper"@
        || name == "CTFWearableDemoShield"@ || name == "CTFWearableRazorback"@
        || name == "CTFWearableRobotArm"@ || name == "CTFWrench"@
}

/// Whether `name` is the class of a weapon or of another item held like one.
pub fn weapon_class(name: &str) -> (is: bool)
    ensures
        is == is_weapon_class(name@),
{
    str_eq(name, "CTFBat") || str_eq(name, "CTFBat_Fish")
        || str_eq(name, "CTFBat_Giftwrap") || str_eq(name, "CTFBat_Wood")
        || str_eq(name, "CTFBonesaw") || str_eq(name, "CTFBottle")
        || str_eq(name, "CTFBreakableMelee") || str_eq(name, "CTFBreakableSign")
        || str_eq(name, "CTFBuffItem") || str_eq(name, "CTFCannon")
        || str_eq(name, "CTFChargedSMG") || str_eq(name, "CTFCleaver")
        || str_eq(name, "CTFClub") || str_eq(name, "CTFCompoundBow")
        || str_eq(name, "CTFCrossbow") || str_eq(name, "CTFDRGPomson")
        || str_eq(name, "CTFFireAxe") || str_eq(name, "CTFFists")
        || str_eq(name, "CTFFlameThrower") || str_eq(name, "CTFFlareGun")
        || str_eq(name, "CTFFlareGun_Revenge") || str_eq(name, "CTFGrenadeLauncher")
        || str_eq(name, "CTFJar") || str_eq(name, "CTFJarGas") || str_eq(name, "CTFJarMilk")
        || str_eq(name, "CTFKatana") || str_eq(name, "CTFKnife")
        || str_eq(name, "CTFLaserPointer") || str_eq(name, "CTFLunchBox")
        || str_eq(name, "CTFLunchBox_Drink") || str_eq(name, "CTFMechanicalArm")
        || str_eq(name, "CTFMinigun") || str_eq(name, "CTFParachute")
        || str_eq(name, "CTFParachute_Primary") || str_eq(name, "CTFParachute_Secondary")
        || str_eq(name, "CTFParticleCannon") || str_eq(name, "CTFPEPBrawlerBlaster")
        || str_eq(name, "CTFPipebombLauncher") || str_eq(name, "CTFPistol")
        || str_eq(name, "CTFPistol_Scout") || str_eq(name, "CTFPistol_ScoutPrimary")
        || str_eq(name, "CTFPistol_ScoutSecondary") || str_eq(name, "CTFRevolver")
        || str_eq(name, "CTFRobotArm") || str_eq(name, "CTFRocketLauncher")
        || str_eq(name, "CTFRocketLauncher_AirStrike")
        || str_eq(name, "CTFRocketLauncher_DirectHit")
        || str_eq(name, "CTFRocketLauncher_Mortar") || str_eq(name, "CTFRocketPack")
        || str_eq(name, "CTFScatterGun") || str_eq(name, "CTFShotgun")
        || str_eq(name, "CTFShotgun_HWG") || str_eq(name, "CTFShotgun_Pyro")
        || str_eq(name, "CTFShotgun_Revenge") || str_eq(name, "CTFShotgun_Soldier")
        || str_eq(name, "CTFShotgunBuildingRescue") || str_eq(name, "CTFShovel")
        || str_eq(name, "CTFSlap") || str_eq(name, "CTFSMG") || str_eq(name, "CTFSniperRifle")
        || str_eq(name, "CTFSniperRifleClassic") || str_eq(name, "CTFSniperRifleDecap")
        || str_eq(name, "CTFSodaPopper") || str_eq(name, "CTFStickBomb")
        || str_eq(name, "CTFSword") || str_eq(name, "CTFSyringeGun")
        || str_eq(name, "CTFWeaponBuilder") || str_eq(name, "CTFWeaponPDA")
        || str_eq(name, "CTFWeaponPDA_Engineer_Build")
        || str_eq(name, "CTFWeaponPDA_Engineer_Destroy") || str_eq(name, "CTFWeaponPDA_Spy")
        || str_eq(name, "CTFWeaponSapper") || str_eq(name, "CTFWearableDemoShield")
        || str_eq(name, "CTFWearableRazorback") || str_eq(name, "CTFWearableRobotArm")
        || str_eq(name, "CTFWrench")
}

/// The kind of the entities of the class `name`; names are matched letter for letter.
pub open spec fn spec_classify(name: Seq<char>) -> EntityKind {
    if name == "CTFPlayer"@ {
        EntityKind::Player
    } else if name == "CTFPlayerResource"@ {
        EntityKind::PlayerResource
    } else if name == "CTFGrenadePipebombProjectile"@ {
        EntityKind::DemoProjectile
    } else if name == "CTFProjectile_Rocket"@ {
        EntityKind::Rocket
    } else if name == "CTeamTrainWatcher"@ {
        EntityKind::TeamTrainWatcher
    } else if name == "CFuncTrackTrain"@ {
        EntityKind::FuncTrackTrain
    } else if is_weapon_class(name) {
        EntityKind::Weapon
    } else {
        EntityKind::Unclassified
    }
}

/// The kind of the entities of the class `name`.
pub fn classify(name: &str) -> (kind: EntityKind)
    ensures
        kind == spec_classify(name@),
{
    if str_eq(name, "CTFPlayer") {
        EntityKind::Player
    } else if str_eq(name, "CTFPlayerResource") {
        EntityKind::PlayerResource
    } else if str_eq(name, "CTFGrenadePipebombProjectile") {
        EntityKind::DemoProjectile
    } else if str_eq(name, "CTFProjectile_Rocket") {
        EntityKind::Rocket
    } else if str_eq(name, "CTeamTrainWatcher") {
        EntityKind::TeamTrainWatcher
    } else if str_eq(name, "CFuncTrackTrain") {
        EntityKind::FuncTrackTrain
    } else if weapon_class(name) {
        EntityKind::Weapon
    } else {
        EntityKind::Unclassified
    }
}

/// What playback knows of the entities of the game world.
pub struct Scene {
    pub players: Seq<PlayerEntity>,
    pub others: Map<EntityId, OtherEntityView>,
}

/// What is known of the entity `id`; an entity not seen yet is unknown and at the origin.
pub open spec fn known_entity(others: Map<EntityId, OtherEntityView>, id: EntityId) -> OtherEntityView {
    if others.contains_key(id) {
        others[id]
    } else {
        OtherEntityView::unknown()
    }
}

/// What is known of an entity of the kind `kind` and the class `class_name` after it took
/// in `props`, given what was `known` of it before.
///
/// Every kind keeps position and rotation up to date. What was found out of a projectile, a
/// cart or a weapon stays known until a property says otherwise. A grenade is a pipe or a
/// sticky by its type, and keeps what it took in while its type is not known; a weapon is
/// named by its item definition index once, and shown under the name of its class while
/// that index names none.
pub open spec fn entity_after_kind(
    known: OtherEntityView,
    kind: EntityKind,
    props: Seq<SendProp>,
    names: Map<u64, NamePair>,
    class_name: Seq<char>,
) -> OtherEntityView {
    let placement = (known.position, known.rotation);
    match kind {
        EntityKind::DemoProjectile => {
            let start = match known.entity_content {
                ContentView::Pipe(properties) => (0i64, properties),
                ContentView::Sticky(properties) => (1i64, properties),
                ContentView::Grenade(properties) => (-1i64, properties),
                _ => (-1i64, ProjectileProperties::unknown()),
            };
            let taken = folded::<(Placement, i64, ProjectileProperties), ProjectileProps>(
                (placement, start.0, start.1),
                props,
                names,
            );
            OtherEntityView {
                entity_content: if taken.1 == 0 {
                    ContentView::Pipe(taken.2)
                } else if taken.1 == 1 {
                    ContentView::Sticky(taken.2)
                } else {
                    ContentView::Grenade(taken.2)
                },
                position: taken.0.0,
                rotation: taken.0.1,
            }
        },
        EntityKind::Rocket => {
            let start = match known.entity_content {
                ContentView::Rocket(properties) => properties,
                _ => ProjectileProperties::unknown(),
            };
            let taken = folded::<(Placement, ProjectileProperties), RocketProps>(
                (placement, start),
                props,
                names,
            );
            OtherEntityView {
                entity_content: ContentView::Rocket(taken.1),
                position: taken.0.0,
                rotation: taken.0.1,
            }
        },
        EntityKind::TeamTrainWatcher => {
            let start: CartProgress = match known.entity_content {
                ContentView::TeamTrainWatcher {
                    total_progress,
                    train_speed_level,
                    num_cappers,
                    recede_time,
                } => (total_progress, train_speed_level, num_cappers, recede_time),
                _ => (0u32, 0i32, 0i32, 0u32),
            };
            let taken = folded::<(Placement, CartProgress), TrainWatcherProps>(
                (placement, start),
                props,
                names,
            );
            OtherEntityView {
                entity_content: ContentView::TeamTrainWatcher {
                    total_progress: taken.1.0,
                    train_speed_level: taken.1.1,
                    num_cappers: taken.1.2,
                    recede_time: taken.1.3,
                },
                position: taken.0.0,
                rotation: taken.0.1,
            }
        },
        EntityKind::FuncTrackTrain => {
            let taken = folded::<Placement, PlacementProps>(placement, props, names);
            OtherEntityView {
                entity_content: ContentView::Cart,
                position: taken.0,
                rotation: taken.1,
            }
        },
        EntityKind::Weapon => {
            let start = match known.entity_content {
                ContentView::Weapon { name, id, owner } => (id, name, owner),
                _ => (-1i32, Weapon::Unknown, None::<EntityId>),
            };
            let taken = folded::<(Placement, i32, Option<EntityId>), WeaponProps>(
                (placement, start.0, start.2),
                props,
                names,
            );
            let name = if start.1 == Weapon::Unknown {
                weapon_of(taken.1)
            } else {
                start.1
            };
            OtherEntityView {
                entity_content: if name == Weapon::Unknown {
                    ContentView::Other { class_name }
                } else {
                    ContentView::Weapon { name, id: taken.1, owner: taken.2 }
                },
                position: taken.0.0,
                rotation: taken.0.1,
            }
        },
        _ => {
            let taken = folded::<Placement, PlacementProps>(placement, props, names);
            OtherEntityView {
                entity_content: ContentView::Other { class_name },
                position: taken.0,
                rotation: taken.1,
            }
        },
    }
}

/// What a grenade takes in before its type is kept: a grenade not seen before that is first
/// told whether it is critical and whose it is, and only then its type, is the pipe or the
/// sticky that the type says, with what it was told before.
pub proof fn lemma_grenade_keeps_what_came_before_its_type(
    critical: SendProp,
    team: SendProp,
    itype: SendProp,
    names: Map<u64, NamePair>,
    class_name: Seq<char>,
)
    requires
        names.contains_key(critical.identifier),
        names[critical.identifier].1 == "m_bCritical"@,
        names.contains_key(team.identifier),
        names[team.identifier].1 == "m_iTeamNum"@,
        names.contains_key(itype.identifier),
        names[itype.identifier].1 == "m_iType"@,
        itype.value.spec_integer_or(-1i64) == 0 || itype.value.spec_integer_or(-1i64) == 1,
    ensures
        ({
            let told = ProjectileProperties {
                crit: critical.value.spec_integer_or(0) != 0,
                team: Team::of_byte(
                    crate::heatmap_analyser::byte_or_zero(team.value.spec_integer_or(0)),
                ),
            };
            let first = entity_after_kind(
                OtherEntityView::unknown(),
                EntityKind::DemoProjectile,
                seq![critical, team],
                names,
                class_name,
            );
            let second = entity_after_kind(
                first,
                EntityKind::DemoProjectile,
                seq![itype],
                names,
                class_name,
            );
            &&& first.entity_content == ContentView::Grenade(told)
            &&& second.entity_content == (if itype.value.spec_integer_or(-1i64) == 0 {
                ContentView::Pipe(told)
            } else {
                ContentView::Sticky(told)
            })
        }),
{
    reveal_strlit("m_bCritical");
    reveal_strlit("m_iTeamNum");
    reveal_strlit("m_iType");
    let start = (
        (Vector { x: 0, y: 0, z: 0 }, Vector { x: 0, y: 0, z: 0 }),
        -1i64,
        ProjectileProperties::unknown(),
    );
    let two = seq![critical, team];
    assert(two.drop_last() =~= seq![critical]);
    assert(seq![critical].drop_last() =~= Seq::<SendProp>::empty());
    assert(folded::<(Placement, i64, ProjectileProperties), ProjectileProps>(
        start,
        Seq::<SendProp>::empty(),
        names,
    ) == start);
    let after_one = folded::<(Placement, i64, ProjectileProperties), ProjectileProps>(
        start,
        seq![critical],
        names,
    );
    assert(seq![critical].last() == critical);
    assert(after_one == ProjectileProps::spec_step(
        start,
        names[critical.identifier].0,
        names[critical.identifier].1,
        critical.value,
    ));
    let after_two = folded::<(Placement, i64, ProjectileProperties), ProjectileProps>(
        start,
        two,
        names,
    );
    assert(two.last() == team);
    assert(after_two == ProjectileProps::spec_step(
        after_one,
        names[team.identifier].0,
        names[team.identifier].1,
        team.value,
    ));
    let told = ProjectileProperties {
        crit: critical.value.spec_integer_or(0) != 0,
        team: Team::of_byte(crate::heatmap_analyser::byte_or_zero(team.value.spec_integer_or(0))),
    };
    assert("m_bCritical"@.len() == 11 && "m_iTeamNum"@.len() == 10 && "m_iType"@.len() == 7);
    assert(after_one == (start.0, -1i64, ProjectileProperties { crit: told.crit, team: Team::Other }));
    assert(after_two == (start.0, -1i64, told));
    let first = entity_after_kind(
        OtherEntityView::unknown(),
        EntityKind::DemoProjectile,
        two,
        names,
        class_name,
    );
    assert(first.entity_content == ContentView::Grenade(told));
    let resumed = ((first.position, first.rotation), -1i64, told);
    assert(seq![itype].drop_last() =~= Seq::<SendProp>::empty());
    assert(seq![itype].last() == itype);
    assert(folded::<(Placement, i64, ProjectileProperties), ProjectileProps>(
        resumed,
        Seq::<SendProp>::empty(),
        names,
    ) == resumed);
    assert(folded::<(Placement, i64, ProjectileProperties), ProjectileProps>(
        resumed,
        seq![itype],
        names,
    ) == ProjectileProps::spec_step(
        resumed,
        names[itype.identifier].0,
        names[itype.identifier].1,
        itype.value,
    ));
}

/// The scene after an entity of the kind `kind` and the class `class_name` took in the
/// update `entity`.
pub open spec fn scene_after_kind(
    scene: Scene,
    kind: EntityKind,
    entity: PacketEntity,
    names: Map<u64, NamePair>,
    class_name: Seq<char>,
) -> Scene {
    let id = entity.entity_index;
    match kind {
        EntityKind::Player => {
            let present = with_entity(scene.players, id);
            let slot = slot_of(scene.players, id);
            Scene {
                players: present.update(
                    slot,
                    folded::<PlayerEntity, ArmedPlayerProps>(present[slot], entity.props@, names),
                ),
                ..scene
            }
        },
        EntityKind::PlayerResource => Scene {
            players: players_after_resource(scene.players, entity.props@, names),
            ..scene
        },
        _ => Scene {
            others: scene.others.insert(
                id,
                entity_after_kind(
                    known_entity(scene.others, id),
                    kind,
                    entity.props@,
                    names,
                    class_name,
                ),
            ),
            ..scene
        },
    }
}

/// The scene after the update `entity` of an entity that did not leave. The name of the
/// entity's class decides its kind.
pub open spec fn scene_after_entity(
    scene: Scene,
    entity: PacketEntity,
    names: Map<u64, NamePair>,
    class_names: Seq<String>,
) -> Scene {
    scene_after_kind(
        scene,
        spec_classify(class_name_of(class_names, entity.server_class)),
        entity,
        names,
        class_name_of(class_names, entity.server_class),
    )
}

/// The scene after the entity `id` left it.
pub open spec fn scene_without(scene: Scene, id: EntityId) -> Scene {
    Scene {
        players: scene.players.filter(describes_other::<PlayerEntity>(id)),
        others: scene.others.remove(id),
    }
}

/// The scene after the updates `entities`, taken in order: an update that deletes its entity
/// removes it, any other is taken in by the entity.
pub open spec fn scene_after_entities(
    scene: Scene,
    entities: Seq<PacketEntity>,
    names: Map<u64, NamePair>,
    class_names: Seq<String>,
) -> Scene
    decreases entities.len(),
{
    if entities.len() == 0 {
        scene
    } else {
        let before = scene_after_entities(scene, entities.drop_last(), names, class_names);
        if entities.last().pvs == Pvs::Delete {
            scene_without(before, entities.last().entity_index)
        } else {
            scene_after_entity(before, entities.last(), names, class_names)
        }
    }
}

/// The scene after every entity of `removed` left it.
pub open spec fn scene_without_all(scene: Scene, removed: Seq<EntityId>) -> Scene
    decreases removed.len(),
{
    if removed.len() == 0 {
        scene
    } else {
        scene_without(scene_without_all(scene, removed.drop_last()), removed.last())
    }
}

/// An entity update keeps the players distinct.
pub proof fn lemma_scene_after_kind_distinct(
    scene: Scene,
    kind: EntityKind,
    entity: PacketEntity,
    names: Map<u64, NamePair>,
    class_name: Seq<char>,
)
    requires
        ids_distinct(scene.players),
    ensures
        ids_distinct(scene_after_kind(scene, kind, entity, names, class_name).players),
{
    let id = entity.entity_index;
    match kind {
        EntityKind::Player => {
            lemma_with_entity(scene.players, id);
            let present = with_entity(scene.players, id);
            let slot = slot_of(scene.players, id);
            lemma_armed_player_props_keep_entity(present[slot], entity.props@, names);
            let after = scene_after_kind(scene, kind, entity, names, class_name).players;
            assert(same_entities::<PlayerEntity>(present, after));
            lemma_same_entities_distinct(present, after);
        },
        EntityKind::PlayerResource => {
            lemma_resource_keeps_entities(scene.players, entity.props@, names);
            lemma_same_entities_distinct(
                scene.players,
                players_after_resource(scene.players, entity.props@, names),
            );
        },
        _ => {},
    }
}

/// The snapshot of the game world that playback shows for one instant.
#[derive(Debug, Clone, PartialEq)]
pub struct DemoAnalysis {
    pub current_tick: u32,
    pub users: UserTable,
    pub player_entities: Vec<PlayerEntity>,
    pub other_entities: BTreeMap<EntityId, OtherEntity>,
}

impl DemoAnalysis {
    /// The users' ids ascend and the player entities are distinct.
    pub open spec fn wf(&self) -> bool {
        &&& self.users.wf()
        &&& ids_distinct(self.player_entities@)
    }

    /// What playback knows of the entities that are no players, by entity.
    pub open spec fn others(&self) -> Map<EntityId, OtherEntityView> {
        self.other_entities@.map_values(|entity: OtherEntity| entity@)
    }

    /// What playback knows of the entities of the game world.
    pub open spec fn scene(&self) -> Scene {
        Scene { players: self.player_entities@, others: self.others() }
    }

    /// This snapshot with another scene.
    pub open spec fn scene_replaced(&self, after: DemoAnalysis) -> DemoAnalysis {
        DemoAnalysis {
            player_entities: after.player_entities,
            other_entities: after.other_entities,
            ..*self
        }
    }

    /// Whether this is the snapshot of a session of which nothing was seen yet: no tick was
    /// counted, and it knows no user and no entity.
    pub open spec fn is_fresh(&self) -> bool {
        &&& self.current_tick == 0
        &&& self.users@.len() == 0
        &&& self.player_entities@.len() == 0
        &&& self.others() == Map::<EntityId, OtherEntityView>::empty()
    }

    /// The snapshot of a session of which nothing was seen yet.
    pub fn new() -> (analysis: DemoAnalysis)
        ensures
            analysis.is_fresh(),
            analysis.wf(),
    {
        let analysis = DemoAnalysis {
            current_tick: 0,
            users: UserTable::new(),
            player_entities: Vec::new(),
            other_entities: BTreeMap::new(),
        };
        assert(analysis.others() =~= Map::<EntityId, OtherEntityView>::empty());
        analysis
    }

    /// The record of the player entity `entity_id`, made afresh where there was none.
    ///
    /// A record that exists is handed out as it is; a new one is added at the end. No other
    /// record moves or changes.
    pub fn get_or_create_player_entity(&mut self, entity_id: EntityId) -> (player: &mut PlayerEntity)
        ensures
            *player == with_entity(old(self).player_entities@, entity_id)[slot_of(
                old(self).player_entities@,
                entity_id,
            )],
            player.entity == entity_id,
            0 <= slot_of(old(self).player_entities@, entity_id) < with_entity(
                old(self).player_entities@,
                entity_id,
            ).len(),
            final(self).player_entities@ == with_entity(
                old(self).player_entities@,
                entity_id,
            ).update(slot_of(old(self).player_entities@, entity_id), *final(player)),
            *final(self) == (DemoAnalysis {
                player_entities: final(self).player_entities,
                ..*old(self)
            }),
    {
        let slot = slot_or_create(&mut self.player_entities, entity_id);
        &mut self.player_entities[slot]
    }
}

impl Default for DemoAnalysis {
    /// The snapshot of a session of which nothing was seen yet.
    fn default() -> (analysis: DemoAnalysis)
        ensures
            analysis.is_fresh(),
            analysis.wf(),
    {
        DemoAnalysis::new()
    }
}

/// Whether `after` is `before` with the game event `event` taken in: a spawn puts the user
/// on a team, every other event changes nothing.
pub open spec fn event_applied(
    before: DemoAnalysis,
    after: DemoAnalysis,
    event: GameEvent,
    tick: u32,
) -> bool {
    match event {
        GameEvent::PlayerSpawn(spawn) => {
            &&& after == (DemoAnalysis { users: after.users, ..before })
            &&& after.users@ == users_on_team(
                before.users@,
                Spawn::of_event(spawn, tick).user,
                Spawn::of_event(spawn, tick).team,
            )
        },
        _ => after == before,
    }
}

/// Whether `after` is `before` with `message` taken in, the tick itself left aside.
pub open spec fn message_applied(
    before: DemoAnalysis,
    after: DemoAnalysis,
    message: Message,
    tick: u32,
    names: Map<u64, NamePair>,
    class_names: Seq<String>,
) -> bool {
    match message {
        Message::GameEvent(event) => event_applied(before, after, event, tick),
        Message::PacketEntities { entities, removed_entities } => {
            &&& after == before.scene_replaced(after)
            &&& after.scene() == scene_without_all(
                scene_after_entities(before.scene(), entities@, names, class_names),
                removed_entities@,
            )
        },
        _ => after == before,
    }
}

/// The engine that keeps the snapshot of playback up to date, message by message.
#[derive(Debug, Clone, PartialEq)]
pub struct DemoAnalyzer {
    pub state: DemoAnalysis,
    pub class_names: Vec<String>,
    pub prop_names: PropNames,
    /// The tick that counts as tick 0, once a tick that is not zero was seen.
    pub tick_offset: Option<u32>,
}

impl Default for DemoAnalyzer {
    /// The engine before any message: its snapshot is fresh, no tick has fixed the offset,
    /// and it knows no class and no property by name.
    fn default() -> (analyzer: DemoAnalyzer)
        ensures
            analyzer.state.is_fresh(),
            analyzer.state.wf(),
            analyzer.tick_offset is None,
            analyzer.class_names@.len() == 0,
            analyzer.prop_names@ == Map::<u64, NamePair>::empty(),
    {
        DemoAnalyzer {
            state: DemoAnalysis::new(),
            class_names: Vec::new(),
            prop_names: PropNames::new(),
            tick_offset: None,
        }
    }
}

impl DemoAnalyzer {
    /// Whether only the scene differs between `self` and `after`.
    pub open spec fn only_scene_differs(&self, after: DemoAnalyzer) -> bool {
        after == (DemoAnalyzer { state: self.state.scene_replaced(after.state), ..*self })
    }

    /// Whether the engine can take in a message of the tick `tick`: ticks must not fall
    /// below the tick offset.
    pub open spec fn accepts(&self, tick: u32) -> bool {
        current_tick_at(self.tick_offset, tick) >= 0
    }

    /// Whether the engine can take in a message of the tick `tick`.
    pub fn can_handle(&self, tick: u32) -> (can: bool)
        ensures
            can == self.accepts(tick),
    {
        match self.tick_offset {
            Some(offset) => tick >= offset,
            None => true,
        }
    }

    /// Takes what is known of the entity `id` out of the snapshot, for it to be put back
    /// changed.
    fn take_known(&mut self, id: EntityId) -> (known: OtherEntity)
        ensures
            known@ == known_entity(old(self).state.others(), id),
            final(self).state.others() == old(self).state.others().remove(id),
            final(self).state.player_entities == old(self).state.player_entities,
            old(self).only_scene_differs(*final(self)),
    {
        let known = match self.state.other_entities.remove(&id) {
            Some(entity) => entity,
            None => OtherEntity::default(),
        };
        assert(self.state.others() =~= old(self).state.others().remove(id));
        known
    }

    /// Puts what is known of the entity `id` into the snapshot.
    fn put(&mut self, id: EntityId, entity: OtherEntity)
        ensures
            final(self).state.others() == old(self).state.others().insert(id, entity@),
            final(self).state.player_entities == old(self).state.player_entities,
            old(self).only_scene_differs(*final(self)),
    {
        self.state.other_entities.insert(id, entity);
        assert(self.state.others() =~= old(self).state.others().insert(id, entity@));
    }

    /// Takes in the update of a player entity: the record of the entity, made afresh where
    /// there was none, takes in the properties of the update in order.
    pub fn handle_player_entity(&mut self, entity: &PacketEntity)
        ensures
            final(self).state.scene() == scene_after_kind(
                old(self).state.scene(),
                EntityKind::Player,
                *entity,
                old(self).prop_names@,
                class_name_of(old(self).class_names@, entity.server_class),
            ),
            old(self).only_scene_differs(*final(self)),
    {
        let slot = slot_or_create(&mut self.state.player_entities, entity.entity_index);
        let player = fold_props::<PlayerEntity, ArmedPlayerProps>(
            self.state.player_entities[slot],
            &entity.props,
            &self.prop_names,
        );
        self.state.player_entities[slot] = player;
    }

    /// Takes in an update of the scoreboard, which tells team, class and greatest health of
    /// the players by their slot.
    pub fn handle_player_resource(&mut self, entity: &PacketEntity)
        ensures
            final(self).state.scene() == scene_after_kind(
                old(self).state.scene(),
                EntityKind::PlayerResource,
                *entity,
                old(self).prop_names@,
                class_name_of(old(self).class_names@, entity.server_class),
            ),
            old(self).only_scene_differs(*final(self)),
    {
        apply_player_resource(&mut self.state.player_entities, &entity.props, &self.prop_names);
    }

    /// Takes in the update of an entity of a class that playback does not know: the entity
    /// is shown under the name of its class, where it is.
    pub fn handle_unknown_entity(&mut self, entity: &PacketEntity, class_name: String)
        ensures
            final(self).state.scene() == scene_after_kind(
                old(self).state.scene(),
                EntityKind::Unclassified,
                *entity,
                old(self).prop_names@,
                class_name@,
            ),
            old(self).only_scene_differs(*final(self)),
    {
        let id = entity.entity_index;
        let known = self.take_known(id);
        let placement = fold_props::<Placement, PlacementProps>(
            (known.position, known.rotation),
            &entity.props,
            &self.prop_names,
        );
        self.put(
            id,
            OtherEntity {
                entity_content: EntityContent::Other { class_name },
                position: placement.0,
                rotation: placement.1,
            },
        );
        assert(self.state.others() =~= scene_after_kind(
            old(self).state.scene(),
            EntityKind::Unclassified,
            *entity,
            old(self).prop_names@,
            class_name@,
        ).others);
    }

    /// Takes in the update of a grenade, which is a pipe or a sticky by its type. Whether it
    /// is critical and whose it is may be sent before the type or after it, and is kept
    /// either way.
    pub fn handle_demo_projectile(&mut self, entity: &PacketEntity)
        ensures
            final(self).state.scene() == scene_after_kind(
                old(self).state.scene(),
                EntityKind::DemoProjectile,
                *entity,
                old(self).prop_names@,
                class_name_of(old(self).class_names@, entity.server_class),
            ),
            old(self).only_scene_differs(*final(self)),
    {
        let id = entity.entity_index;
        let known = self.take_known(id);
        let (itype, properties): (i64, ProjectileProperties) = match known.entity_content {
            EntityContent::Pipe(properties) => (0, properties),
            EntityContent::Sticky(properties) => (1, properties),
            EntityContent::Grenade(properties) => (-1, properties),
            _ => (-1, ProjectileProperties::default()),
        };
        let taken = fold_props::<(Placement, i64, ProjectileProperties), ProjectileProps>(
            ((known.position, known.rotation), itype, properties),
            &entity.props,
            &self.prop_names,
        );
        let entity_content = if taken.1 == 0 {
            EntityContent::Pipe(taken.2)
        } else if taken.1 == 1 {
            EntityContent::Sticky(taken.2)
        } else {
            EntityContent::Grenade(taken.2)
        };
        self.put(id, OtherEntity { entity_content, position: taken.0.0, rotation: taken.0.1 });
        assert(self.state.others() =~= scene_after_kind(
            old(self).state.scene(),
            EntityKind::DemoProjectile,
            *entity,
            old(self).prop_names@,
            class_name_of(old(self).class_names@, entity.server_class),
        ).others);
    }

    /// Takes in the update of a rocket.
    pub fn handle_rocket(&mut self, entity: &PacketEntity)
        ensures
            final(self).state.scene() == scene_after_kind(
                old(self).state.scene(),
                EntityKind::Rocket,
                *entity,
                old(self).prop_names@,
                class_name_of(old(self).class_names@, entity.server_class),
            ),
            old(self).only_scene_differs(*final(self)),
    {
        let id = entity.entity_index;
        let known = self.take_known(id);
        let properties = match known.entity_content {
            EntityContent::Rocket(properties) => properties,
            _ => ProjectileProperties::default(),
        };
        let taken = fold_props::<(Placement, ProjectileProperties), RocketProps>(
            ((known.position, known.rotation), properties),
            &entity.props,
            &self.prop_names,
        );
        self.put(
            id,
            OtherEntity {
                entity_content: EntityContent::Rocket(taken.1),
                position: taken.0.0,
                rotation: taken.0.1,
            },
        );
        assert(self.state.others() =~= scene_after_kind(
            old(self).state.scene(),
            EntityKind::Rocket,
            *entity,
            old(self).prop_names@,
            class_name_of(old(self).class_names@, entity.server_class),
        ).others);
    }

    /// Takes in the update of the watcher of a cart, which tells the progress of the cart.
    pub fn handle_team_train_watcher(&mut self, entity: &PacketEntity)
        ensures
            final(self).state.scene() == scene_after_kind(
                old(self).state.scene(),
                EntityKind::TeamTrainWatcher,
                *entity,
                old(self).prop_names@,
                class_name_of(old(self).class_names@, entity.server_class),
            ),
            old(self).only_scene_differs(*final(self)),
    {
        let id = entity.entity_index;
        let known = self.take_known(id);
        let progress: CartProgress = match known.entity_content {
            EntityContent::TeamTrainWatcher {
                total_progress,
                train_speed_level,
                num_cappers,
                recede_time,
            } => (total_progress, train_speed_level, num_cappers, recede_time),
            _ => (0, 0, 0, 0),
        };
        let taken = fold_props::<(Placement, CartProgress), TrainWatcherProps>(
            ((known.position, known.rotation), progress),
            &entity.props,
            &self.prop_names,
        );
        self.put(
            id,
            OtherEntity {
                entity_content: EntityContent::TeamTrainWatcher {
                    total_progress: taken.1.0,
                    train_speed_level: taken.1.1,
                    num_cappers: taken.1.2,
                    recede_time: taken.1.3,
                },
                position: taken.0.0,
                rotation: taken.0.1,
            },
        );
        assert(self.state.others() =~= scene_after_kind(
            old(self).state.scene(),
            EntityKind::TeamTrainWatcher,
            *entity,
            old(self).prop_names@,
            class_name_of(old(self).class_names@, entity.server_class),
        ).others);
    }

    /// Takes in the update of a cart.
    pub fn handle_func_track_train(&mut self, entity: &PacketEntity)
        ensures
            final(self).state.scene() == scene_after_kind(
                old(self).state.scene(),
                EntityKind::FuncTrackTrain,
                *entity,
                old(self).prop_names@,
                class_name_of(old(self).class_names@, entity.server_class),
            ),
            old(self).only_scene_differs(*final(self)),
    {
        let id = entity.entity_index;
        let known = self.take_known(id);
        let placement = fold_props::<Placement, PlacementProps>(
            (known.position, known.rotation),
            &entity.props,
            &self.prop_names,
        );
        self.put(
            id,
            OtherEntity {
                entity_content: EntityContent::Cart,
                position: placement.0,
                rotation: placement.1,
            },
        );
        assert(self.state.others() =~= scene_after_kind(
            old(self).state.scene(),
            EntityKind::FuncTrackTrain,
            *entity,
            old(self).prop_names@,
            class_name_of(old(self).class_names@, entity.server_class),
        ).others);
    }

    /// Takes in the update of a weapon. The weapon is named by its item definition index,
    /// once; while that index names none, the entity is shown under the name of its class.
    pub fn handle_weapon(&mut self, entity: &PacketEntity)
        ensures
            final(self).state.scene() == scene_after_kind(
                old(self).state.scene(),
                EntityKind::Weapon,
                *entity,
                old(self).prop_names@,
                class_name_of(old(self).class_names@, entity.server_class),
            ),
            old(self).only_scene_differs(*final(self)),
    {
        let id = entity.entity_index;
        let known = self.take_known(id);
        let (item, known_name, owner): (i32, Weapon, Option<EntityId>) = match known.entity_content {
            EntityContent::Weapon { name, id, owner } => (id, name, owner),
            _ => (-1, Weapon::Unknown, None),
        };
        let taken = fold_props::<(Placement, i32, Option<EntityId>), WeaponProps>(
            ((known.position, known.rotation), item, owner),
            &entity.props,
            &self.prop_names,
        );
        let name = if known_name == Weapon::Unknown {
            index_to_weapon(taken.1)
        } else {
            known_name
        };
        let entity_content = if name == Weapon::Unknown {
            EntityContent::Other {
                class_name: resolve_class(&self.class_names, entity.server_class).to_owned(),
            }
        } else {
            EntityContent::Weapon { name, id: taken.1, owner: taken.2 }
        };
        self.put(id, OtherEntity { entity_content, position: taken.0.0, rotation: taken.0.1 });
        assert(self.state.others() =~= scene_after_kind(
            old(self).state.scene(),
            EntityKind::Weapon,
            *entity,
            old(self).prop_names@,
            class_name_of(old(self).class_names@, entity.server_class),
        ).others);
    }

    /// Takes in the update of an entity that did not leave, as the kind of its class asks.
    pub fn handle_entity(&mut self, entity: &PacketEntity)
        ensures
            final(self).state.scene() == scene_after_entity(
                old(self).state.scene(),
                *entity,
                old(self).prop_names@,
                old(self).class_names@,
            ),
            old(self).only_scene_differs(*final(self)),
    {
        let class_name = resolve_class(&self.class_names, entity.server_class);
        match classify(class_name) {
            EntityKind::Player => self.handle_player_entity(entity),
            EntityKind::PlayerResource => self.handle_player_resource(entity),
            EntityKind::DemoProjectile => self.handle_demo_projectile(entity),
            EntityKind::Rocket => self.handle_rocket(entity),
            EntityKind::TeamTrainWatcher => self.handle_team_train_watcher(entity),
            EntityKind::FuncTrackTrain => self.handle_func_track_train(entity),
            EntityKind::Weapon => self.handle_weapon(entity),
            EntityKind::Unclassified => {
                let class_name = class_name.to_owned();
                self.handle_unknown_entity(entity, class_name);
            },
        }
    }

    /// Forgets the entity `id`, which left the visible set.
    pub fn remove_entity(&mut self, id: EntityId)
        ensures
            final(self).state.scene() == scene_without(old(self).state.scene(), id),
            old(self).only_scene_differs(*final(self)),
    {
        remove_entity(&mut self.state.player_entities, id);
        self.state.other_entities.remove(&id);
        assert(self.state.others() =~= old(self).state.others().remove(id));
    }

    /// Takes in the game event `event` of the tick `tick`: a spawn puts the user on a team.
    pub fn handle_event(&mut self, event: &GameEvent, tick: u32)
        ensures
            event_applied(old(self).state, final(self).state, *event, tick),
            *final(self) == (DemoAnalyzer { state: final(self).state, ..*old(self) }),
            old(self).state.wf() ==> final(self).state.wf(),
    {
        match event {
            GameEvent::PlayerSpawn(spawn_event) => {
                let spawn = Spawn::from_event(spawn_event, tick);
                match self.state.users.find(spawn.user) {
                    Some(user) => {
                        self.state.users.set_team_at(user, spawn.team);
                    },
                    None => {},
                }
            },
            _ => {},
        }
    }

    /// Takes in one message of the tick `tick`.
    ///
    /// The tick is noted first. Then a game event is taken in as such, and a batch of entity
    /// updates is taken in update by update, after which every entity that the batch lists
    /// as removed is forgotten. A message of any other kind only notes the tick.
    pub fn handle_message(&mut self, message: &Message, tick: u32)
        requires
            old(self).accepts(tick),
        ensures
            final(self).tick_offset == offset_after(old(self).tick_offset, tick),
            message_applied(
                DemoAnalysis {
                    current_tick: current_tick_at(old(self).tick_offset, tick) as u32,
                    ..old(self).state
                },
                final(self).state,
                *message,
                tick,
                old(self).prop_names@,
                old(self).class_names@,
            ),
            final(self).prop_names == old(self).prop_names,
            final(self).class_names == old(self).class_names,
            old(self).state.wf() ==> final(self).state.wf(),
    {
        let offset = match self.tick_offset {
            Some(offset) => offset,
            None => if tick != 0 {
                self.tick_offset = Some(tick - 1);
                tick - 1
            } else {
                0
            },
        };
        self.state.current_tick = tick - offset;
        let ghost before = self.state;
        match message {
            Message::GameEvent(event) => {
                self.handle_event(event, tick);
            },
            Message::PacketEntities { entities, removed_entities } => {
                let mut i: usize = 0;
                while i < entities.len()
                    invariant
                        i <= entities.len(),
                        self.state == before.scene_replaced(self.state),
                        self.prop_names == old(self).prop_names,
                        self.class_names == old(self).class_names,
                        self.tick_offset == offset_after(old(self).tick_offset, tick),
                        self.state.scene() == scene_after_entities(
                            before.scene(),
                            entities@.take(i as int),
                            self.prop_names@,
                            self.class_names@,
                        ),
                        ids_distinct(before.player_entities@) ==> ids_distinct(
                            self.state.player_entities@,
                        ),
                    decreases entities.len() - i,
                {
                    proof {
                        assert(entities@.take(i + 1).drop_last() =~= entities@.take(i as int));
                        if ids_distinct(self.state.player_entities@) {
                            lemma_scene_after_kind_distinct(
                                self.state.scene(),
                                spec_classify(
                                    class_name_of(
                                        self.class_names@,
                                        entities@[i as int].server_class,
                                    ),
                                ),
                                entities@[i as int],
                                self.prop_names@,
                                class_name_of(self.class_names@, entities@[i as int].server_class),
                            );
                            lemma_remove_entity(
                                self.state.player_entities@,
                                entities@[i as int].entity_index,
                            );
                        }
                    }
                    let entity = &entities[i];
                    if entity.pvs == Pvs::Delete {
                        self.remove_entity(entity.entity_index);
                    } else {
                        self.handle_entity(entity);
                    }
                    i += 1;
                }
                proof {
                    assert(entities@.take(i as int) =~= entities@);
                }
                let ghost updated = self.state.scene();
                let mut j: usize = 0;
                while j < removed_entities.len()
                    invariant
                        j <= removed_entities.len(),
                        self.state == before.scene_replaced(self.state),
                        self.prop_names == old(self).prop_names,
                        self.class_names == old(self).class_names,
                        self.tick_offset == offset_after(old(self).tick_offset, tick),
                        self.state.scene() == scene_without_all(
                            updated,
                            removed_entities@.take(j as int),
                        ),
                        ids_distinct(before.player_entities@) ==> ids_distinct(
                            self.state.player_entities@,
                        ),
                    decreases removed_entities.len() - j,
                {
                    proof {
                        assert(removed_entities@.take(j + 1).drop_last()
                            =~= removed_entities@.take(j as int));
                        if ids_distinct(self.state.player_entities@) {
                            lemma_remove_entity(
                                self.state.player_entities@,
                                removed_entities@[j as int],
                            );
                        }
                    }
                    self.remove_entity(removed_entities[j]);
                    j += 1;
                }
                proof {
                    assert(removed_entities@.take(j as int) =~= removed_entities@);
                }
            },
            _ => {},
        }
    }

    /// Takes in one entry of a string table of the stream. Only the table of users is read:
    /// its entries announce the users, as `UserTable::record_user_info` says.
    pub fn handle_string_entry(
        &mut self,
        table: &str,
        index: usize,
        text: Option<&str>,
        data: Option<&[u8]>,
    ) -> (done: Result<(), UserInfoError>)
        ensures
            *final(self) == (DemoAnalyzer {
                state: DemoAnalysis { users: final(self).state.users, ..old(self).state },
                ..*old(self)
            }),
            table@ != "userinfo"@ ==> done is Ok && final(self).state.users@ == old(
                self,
            ).state.users@,
            table@ == "userinfo"@ ==> user_info_recorded(
                old(self).state.users@,
                final(self).state.users@,
                match text {
                    Some(t) => Some(t@),
                    None => None,
                },
                match data {
                    Some(d) => Some(d@),
                    None => None,
                },
                done,
            ),
            old(self).state.wf() ==> final(self).state.wf(),
    {
        if str_eq(table, "userinfo") {
            self.state.users.record_user_info(text, data)
        } else {
            Ok(())
        }
    }

    /// Takes in the data tables of the stream: the classes give the class names by number,
    /// and every property of every table is added to the known property names.
    pub fn handle_data_tables(&mut self, tables: &Vec<SendTable>, server_classes: &Vec<String>)
        ensures
            final(self).state == old(self).state,
            final(self).tick_offset == old(self).tick_offset,
            same_names(final(self).class_names@, server_classes@),
            final(self).prop_names@ == names_with_tables(old(self).prop_names@, tables@),
    {
        let mut class_names: Vec<String> = Vec::new();
        let mut i: usize = 0;
        while i < server_classes.len()
            invariant
                i <= server_classes.len(),
                same_names(class_names@, server_classes@.take(i as int)),
            decreases server_classes.len() - i,
        {
            class_names.push(server_classes[i].clone());
            i += 1;
        }
        proof {
            assert(server_classes@.take(i as int) =~= server_classes@);
        }
        self.class_names = class_names;
        self.prop_names.add_tables(tables);
    }
}

} // verus!
