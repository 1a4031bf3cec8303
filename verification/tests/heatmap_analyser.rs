use coldmaps::heatmap_analyser::classify;
use coldmaps::heatmap_analyser::handle_to_entity_index;
use coldmaps::heatmap_analyser::ChatMessage;
use coldmaps::heatmap_analyser::Class;
use coldmaps::heatmap_analyser::Death;
use coldmaps::heatmap_analyser::EntityKind;
use coldmaps::heatmap_analyser::HeatmapAnalyser;
use coldmaps::heatmap_analyser::HeatmapAnalysis;
use coldmaps::heatmap_analyser::OtherEntity;
use coldmaps::heatmap_analyser::PlayerEntity;
use coldmaps::heatmap_analyser::PlayerState;
use coldmaps::heatmap_analyser::Round;
use coldmaps::heatmap_analyser::Spawn;
use coldmaps::heatmap_analyser::Team;
use coldmaps::heatmap_analyser::UserId;
use coldmaps::heatmap_analyser::World;
use coldmaps::protocol::ChatMessageKind;
use coldmaps::protocol::GameEvent;
use coldmaps::protocol::Message;
use coldmaps::protocol::PacketEntity;
use coldmaps::protocol::PlayerDeathEvent;
use coldmaps::protocol::PlayerSpawnEvent;
use coldmaps::protocol::PropDefinition;
use coldmaps::protocol::Pvs;
use coldmaps::protocol::SayText2Message;
use coldmaps::protocol::SendProp;
use coldmaps::protocol::SendPropValue;
use coldmaps::protocol::SendTable;
use coldmaps::protocol::TeamPlayRoundWinEvent;
use coldmaps::protocol::UserMessage;
use coldmaps::protocol::Vector;
use coldmaps::protocol::VectorXY;
use coldmaps::users::UserInfoError;
use tf_demo_parser::demo::sendprop::SendPropIdentifier;

fn id(table: &str, name: &str) -> u64 {
    u64::from(SendPropIdentifier::new(table, name))
}

fn table(name: &str, props: &[&str]) -> SendTable {
    SendTable {
        name: name.to_string(),
        props: props.iter().map(|prop| PropDefinition { name: prop.to_string(), identifier: id(name, prop) }).collect(),
    }
}

fn prop(table: &str, name: &str, value: SendPropValue) -> SendProp {
    SendProp { identifier: id(table, name), value }
}

fn bits(number: f32) -> u32 {
    number.to_bits()
}

const WORLD: u16 = 0;
const PLAYER: u16 = 1;
const RESOURCE: u16 = 2;
const SENTRY: u16 = 3;
const SENTRY_ROCKET: u16 = 4;
const CRATE: u16 = 5;

fn analyser() -> HeatmapAnalyser {
    let mut analyser = HeatmapAnalyser::default();
    let tables = vec![
        table("DT_BasePlayer", &["m_iHealth", "m_iMaxHealth", "m_lifeState"]),
        table("DT_TFLocalPlayerExclusive", &["m_vecOrigin", "m_vecOrigin[2]"]),
        table("DT_TFNonLocalPlayerExclusive", &["m_vecOrigin", "m_vecOrigin[2]", "m_angEyeAngles[0]", "m_angEyeAngles[1]"]),
        table("m_iTeam", &["005", "006", "name"]),
        table("m_iMaxHealth", &["005"]),
        table("m_iPlayerClass", &["005", "099"]),
        table("DT_WORLD", &["m_WorldMins", "m_WorldMaxs"]),
        table("DT_BaseObject", &["m_vecOrigin", "m_iHealth"]),
        table("DT_TFBaseRocket", &["m_hOwnerEntity", "m_vecOrigin"]),
    ];
    let classes = vec![
        "CWorld".to_string(),
        "CTFPlayer".to_string(),
        "CTFPlayerResource".to_string(),
        "CObjectSentrygun".to_string(),
        "CTFProjectile_SentryRocket".to_string(),
        "CItemCrate".to_string(),
    ];
    analyser.handle_data_tables(&tables, &classes);
    analyser
}

fn update(server_class: u16, entity_index: u32, props: Vec<SendProp>) -> Message {
    Message::PacketEntities {
        entities: vec![PacketEntity { server_class, entity_index, props, pvs: Pvs::Preserve }],
        removed_entities: vec![],
    }
}

fn send(analyser: &mut HeatmapAnalyser, message: &Message, tick: u32) {
    assert!(analyser.can_handle(message, tick));
    analyser.handle_message(message, tick);
}

fn user_bytes(name: &str, user_id: u32, steam_id: &str) -> Vec<u8> {
    let mut bytes = vec![0u8; 32];
    bytes[..name.len()].copy_from_slice(name.as_bytes());
    bytes.extend_from_slice(&user_id.to_le_bytes());
    bytes.extend_from_slice(steam_id.as_bytes());
    bytes.push(0);
    bytes
}

fn announce(analyser: &mut HeatmapAnalyser, slot: &str, name: &str, user_id: u32, steam_id: &str) {
    let bytes = user_bytes(name, user_id, steam_id);
    assert_eq!(analyser.handle_string_entry("userinfo", 0, Some(slot), Some(&bytes)), Ok(()));
}

fn death(user_id: u16, attacker: u16, assister: u16, victim_ent_index: u32, inflictor_ent_index: u32, weapon: &str) -> Message {
    Message::GameEvent(GameEvent::PlayerDeath(PlayerDeathEvent {
        user_id,
        victim_ent_index,
        inflictor_ent_index,
        attacker,
        weapon: weapon.to_string(),
        assister,
    }))
}

#[test]
fn team_is_read_from_its_number() {
    assert_eq!(Team::new(0u8), Team::Other);
    assert_eq!(Team::new(1i64), Team::Spectator);
    assert_eq!(Team::new(2u16), Team::Red);
    assert_eq!(Team::new(3i64), Team::Blu);
    assert_eq!(Team::new(4i64), Team::Other);
    assert_eq!(Team::new(-1i64), Team::Other);
    assert_eq!(Team::new(258i64), Team::Other);
    assert_eq!(Team::from_byte(2), Team::Red);
    assert_eq!(Team::default(), Team::Other);
}

#[test]
fn class_is_read_from_its_number() {
    let classes = [
        Class::Other,
        Class::Scout,
        Class::Sniper,
        Class::Soldier,
        Class::Demoman,
        Class::Medic,
        Class::Heavy,
        Class::Pyro,
        Class::Spy,
        Class::Engineer,
    ];
    for (number, class) in classes.iter().enumerate() {
        assert_eq!(Class::new(number as i64), *class);
        assert_eq!(class.index(), number);
    }
    assert_eq!(Class::new(10i64), Class::Other);
    assert_eq!(Class::new(-3i64), Class::Other);
    assert_eq!(Class::new(257u16), Class::Other);
    assert_eq!(Class::default(), Class::Other);
}

#[test]
fn player_state_is_read_from_its_number() {
    assert_eq!(PlayerState::new(0), PlayerState::Alive);
    assert_eq!(PlayerState::new(1), PlayerState::Dying);
    assert_eq!(PlayerState::new(2), PlayerState::Death);
    assert_eq!(PlayerState::new(3), PlayerState::Respawnable);
    assert_eq!(PlayerState::new(4), PlayerState::Alive);
    assert_eq!(PlayerState::new(-1), PlayerState::Alive);
}

#[test]
fn user_id_is_made_from_numbers() {
    assert_eq!(UserId::from(7u32), UserId(7));
    assert_eq!(UserId::from(7u16), UserId(7));
}

#[test]
fn handle_refers_to_an_entity_by_its_low_bits() {
    assert_eq!(handle_to_entity_index(0), None);
    assert_eq!(handle_to_entity_index(1), Some(1));
    assert_eq!(handle_to_entity_index(2046), Some(2046));
    assert_eq!(handle_to_entity_index(2047), None);
    assert_eq!(handle_to_entity_index(2048), None);
    assert_eq!(handle_to_entity_index(2049), Some(1));
    assert_eq!(handle_to_entity_index(0x12_3456), Some(0x456));
    assert_eq!(handle_to_entity_index(2097151), None);
    assert_eq!(handle_to_entity_index(-1), None);
    assert_eq!(handle_to_entity_index(-2), Some(2046));
    assert_eq!(handle_to_entity_index(0x1_0000_0005), Some(5));
}

#[test]
fn spawn_is_read_from_its_event() {
    let spawn = Spawn::from_event(&PlayerSpawnEvent { user_id: 12, team: 3, class: 5 }, 400);
    assert_eq!(spawn, Spawn { user: UserId(12), class: Class::Medic, team: Team::Blu, tick: 400 });
    let odd = Spawn::from_event(&PlayerSpawnEvent { user_id: 12, team: 300, class: 500 }, 1);
    assert_eq!(odd.team, Team::Other);
    assert_eq!(odd.class, Class::Other);
}

#[test]
fn round_is_read_from_its_event() {
    let round = Round::from_event(&TeamPlayRoundWinEvent { team: 2, win_reason: 1, round_time: bits(312.5) }, 9000);
    assert_eq!(round, Round { winner: Team::Red, length: bits(312.5), end_tick: 9000 });
}

#[test]
fn chat_message_is_read_from_its_message() {
    let said = SayText2Message { kind: ChatMessageKind::ChatTeam, from: Some("me".into()), text: "hi".into() };
    assert_eq!(
        ChatMessage::from_message(&said, 55),
        ChatMessage { kind: ChatMessageKind::ChatTeam, from: "me".into(), text: "hi".into(), tick: 55 }
    );
    let anonymous = SayText2Message { kind: ChatMessageKind::ChatAll, from: None, text: "hi".into() };
    assert_eq!(ChatMessage::from_message(&anonymous, 5).from, "");
}

#[test]
fn entity_classes_are_told_apart_by_name() {
    assert_eq!(classify("CTFPlayer"), EntityKind::Player);
    assert_eq!(classify("CTFPlayerResource"), EntityKind::PlayerResource);
    assert_eq!(classify("CWorld"), EntityKind::World);
    assert_eq!(classify("CObjectSentrygun"), EntityKind::Sentry);
    assert_eq!(classify("CTFProjectile_SentryRocket"), EntityKind::SentryRocket);
    assert_eq!(classify("ctfplayer"), EntityKind::Unclassified);
    assert_eq!(classify("CTFPlayer "), EntityKind::Unclassified);
    assert_eq!(classify(""), EntityKind::Unclassified);
}

#[test]
fn fresh_analysis_knows_the_world_only() {
    let analysis = HeatmapAnalysis::new();
    assert_eq!(analysis.users.len(), 1);
    let world = analysis.users.get(UserId(0)).unwrap();
    assert_eq!(world.name, "world");
    assert_eq!(world.steam_id, "");
    assert_eq!(world.entity_id, Some(0));
    assert_eq!(world.team, Team::Other);
    assert_eq!(analysis.player_entities.len(), 1);
    assert_eq!(analysis.player_entities[0].entity, 0);
    assert_eq!(analysis.player_entities[0].state, PlayerState::Alive);
    assert!(analysis.deaths.is_empty());
    assert!(analysis.rounds.is_empty());
    assert!(analysis.chat.is_empty());
    assert!(analysis.other_entities.is_empty());
    assert!(!analysis.in_round);
    assert_eq!(analysis.world, None);
    assert_eq!(analysis.current_tick, 0);
    assert_eq!(analysis.tick_offset, None);
    assert_eq!(analysis.interval_per_tick, 0);
    assert_eq!(analysis.map, "");
    assert!(analysis == HeatmapAnalysis::default());
}

#[test]
fn player_entity_is_found_or_made() {
    let mut analysis = HeatmapAnalysis::new();
    {
        let player = analysis.get_or_create_player_entity(9);
        assert_eq!(player.entity, 9);
        assert_eq!(player.health, 0);
        player.health = 70;
    }
    assert_eq!(analysis.player_entities.len(), 2);
    assert_eq!(analysis.get_or_create_player_entity(9).health, 70);
    assert_eq!(analysis.get_or_create_player_entity(0).entity, 0);
    assert_eq!(analysis.player_entities.len(), 2);
}

#[test]
fn first_tick_that_is_not_zero_counts_as_tick_one() {
    let mut analyser = analyser();
    send(&mut analyser, &Message::Other, 0);
    assert_eq!(analyser.state.current_tick, 0);
    assert_eq!(analyser.state.tick_offset, None);
    send(&mut analyser, &Message::Other, 5000);
    assert_eq!(analyser.state.tick_offset, Some(4999));
    assert_eq!(analyser.state.current_tick, 1);
    send(&mut analyser, &Message::Other, 5066);
    assert_eq!(analyser.state.current_tick, 67);
    assert!(!analyser.can_handle(&Message::Other, 4998));
    assert!(analyser.can_handle(&Message::Other, 4999));
}

#[test]
fn offset_is_fixed_by_the_first_tick_even_if_it_is_tick_one() {
    let mut analyser = analyser();
    send(&mut analyser, &Message::Other, 1);
    assert_eq!(analyser.state.tick_offset, Some(0));
    assert_eq!(analyser.state.current_tick, 1);
    send(&mut analyser, &Message::Other, 5);
    assert_eq!(analyser.state.tick_offset, Some(0));
    assert_eq!(analyser.state.current_tick, 5);
    send(&mut analyser, &Message::Other, 0);
    assert_eq!(analyser.state.current_tick, 0);
    send(&mut analyser, &Message::Other, 9);
    assert_eq!(analyser.state.current_tick, 9);
}

#[test]
fn default_engine_is_fresh() {
    let analyser = HeatmapAnalyser::default();
    assert!(analyser.state == HeatmapAnalysis::new());
    assert_eq!(analyser.state.users.len(), 1);
    assert_eq!(analyser.state.users.get(UserId(0)).unwrap().name, "world");
    assert_eq!(analyser.state.player_entities.len(), 1);
    assert!(analyser.class_names.is_empty());
    assert!(analyser.prop_names.get(0).is_none());
}

#[test]
fn server_info_sets_the_length_of_a_tick() {
    let mut analyser = analyser();
    send(&mut analyser, &Message::ServerInfo { interval_per_tick: bits(0.015) }, 1);
    assert_eq!(analyser.state.interval_per_tick, bits(0.015));
}

#[test]
fn player_update_is_taken_in() {
    let mut analyser = analyser();
    let message = update(
        PLAYER,
        5,
        vec![
            prop("DT_BasePlayer", "m_iHealth", SendPropValue::Integer(125)),
            prop("DT_BasePlayer", "m_iMaxHealth", SendPropValue::Integer(65_536 + 150)),
            prop("DT_BasePlayer", "m_lifeState", SendPropValue::Integer(2)),
            prop("DT_TFLocalPlayerExclusive", "m_vecOrigin", SendPropValue::VectorXY(VectorXY { x: bits(10.5), y: bits(-20.0) })),
            prop("DT_TFNonLocalPlayerExclusive", "m_vecOrigin[2]", SendPropValue::Float(bits(64.0))),
            prop("DT_TFNonLocalPlayerExclusive", "m_angEyeAngles[0]", SendPropValue::Float(bits(1.5))),
            prop("DT_TFNonLocalPlayerExclusive", "m_angEyeAngles[1]", SendPropValue::Float(bits(90.0))),
        ],
    );
    send(&mut analyser, &message, 10);
    assert_eq!(
        analyser.state.player_entities[1],
        PlayerEntity {
            entity: 5,
            position: Vector { x: bits(10.5), y: bits(-20.0), z: bits(64.0) },
            health: 125,
            max_health: 150,
            class: Class::Other,
            team: Team::Other,
            view_angle_horizontal: bits(90.0),
            view_angle_vertical: bits(1.5),
            state: PlayerState::Death,
        }
    );
}

#[test]
fn value_of_the_wrong_kind_counts_as_zero() {
    let mut analyser = analyser();
    send(&mut analyser, &update(PLAYER, 5, vec![prop("DT_BasePlayer", "m_iHealth", SendPropValue::Integer(125))]), 10);
    send(
        &mut analyser,
        &update(
            PLAYER,
            5,
            vec![
                prop("DT_BasePlayer", "m_iHealth", SendPropValue::Float(bits(3.0))),
                prop("DT_TFLocalPlayerExclusive", "m_vecOrigin", SendPropValue::String("x".into())),
                prop("DT_TFLocalPlayerExclusive", "m_vecOrigin[2]", SendPropValue::Array),
            ],
        ),
        11,
    );
    assert_eq!(analyser.state.player_entities[1].health, 0);
    assert_eq!(analyser.state.player_entities[1].position, Vector { x: 0, y: 0, z: 0 });
}

#[test]
fn unknown_property_or_class_is_passed_over() {
    let mut analyser = analyser();
    let before = analyser.state.clone();
    let unknown = SendProp { identifier: 12345, value: SendPropValue::Integer(1) };
    send(&mut analyser, &update(CRATE, 50, vec![prop("DT_BasePlayer", "m_iHealth", SendPropValue::Integer(9))]), 0);
    send(&mut analyser, &update(77, 51, vec![]), 0);
    assert!(analyser.state == before);
    send(&mut analyser, &update(PLAYER, 5, vec![unknown, prop("DT_BaseObject", "m_iHealth", SendPropValue::Integer(9))]), 0);
    assert_eq!(analyser.state.player_entities[1].health, 0);
    assert_eq!(analyser.state.player_entities.len(), 2);
}

#[test]
fn scoreboard_names_players_by_slot() {
    let mut analyser = analyser();
    send(&mut analyser, &update(PLAYER, 5, vec![]), 1);
    send(
        &mut analyser,
        &update(
            RESOURCE,
            40,
            vec![
                prop("m_iTeam", "005", SendPropValue::Integer(3)),
                prop("m_iMaxHealth", "005", SendPropValue::Integer(300)),
                prop("m_iPlayerClass", "005", SendPropValue::Integer(6)),
                prop("m_iTeam", "006", SendPropValue::Integer(2)),
                prop("m_iTeam", "name", SendPropValue::Integer(2)),
                prop("m_iPlayerClass", "099", SendPropValue::Integer(2)),
            ],
        ),
        1,
    );
    assert_eq!(analyser.state.player_entities.len(), 2);
    let player = analyser.state.player_entities[1];
    assert_eq!(player.team, Team::Blu);
    assert_eq!(player.max_health, 300);
    assert_eq!(player.class, Class::Heavy);
}

#[test]
fn world_update_sets_the_boundary() {
    let mut analyser = analyser();
    let mins = Vector { x: bits(-1.0), y: bits(-2.0), z: bits(-3.0) };
    let maxs = Vector { x: bits(1.0), y: bits(2.0), z: bits(3.0) };
    send(&mut analyser, &update(WORLD, 0, vec![prop("DT_WORLD", "m_WorldMins", SendPropValue::Vector(mins))]), 1);
    assert_eq!(analyser.state.world, None);
    send(
        &mut analyser,
        &update(
            WORLD,
            0,
            vec![
                prop("DT_WORLD", "m_WorldMaxs", SendPropValue::Vector(maxs)),
                prop("DT_WORLD", "m_WorldMins", SendPropValue::Vector(mins)),
            ],
        ),
        1,
    );
    assert_eq!(analyser.state.world, Some(World { boundary_min: mins, boundary_max: maxs }));
    send(
        &mut analyser,
        &update(
            WORLD,
            0,
            vec![
                prop("DT_WORLD", "m_WorldMaxs", SendPropValue::Integer(1)),
                prop("DT_WORLD", "m_WorldMins", SendPropValue::Vector(maxs)),
            ],
        ),
        1,
    );
    assert_eq!(analyser.state.world, Some(World { boundary_min: mins, boundary_max: maxs }));
}

#[test]
fn sentry_and_rocket_are_tracked() {
    let mut analyser = analyser();
    let place = Vector { x: bits(5.0), y: bits(6.0), z: bits(7.0) };
    send(&mut analyser, &update(SENTRY, 100, vec![]), 1);
    assert!(analyser.state.other_entities.is_empty());
    send(&mut analyser, &update(SENTRY, 100, vec![prop("DT_BaseObject", "m_iHealth", SendPropValue::Integer(1))]), 1);
    assert_eq!(analyser.state.other_entities.get(&100), Some(&OtherEntity::Sentry { position: None }));
    send(&mut analyser, &update(SENTRY, 100, vec![prop("DT_BaseObject", "m_vecOrigin", SendPropValue::Vector(place))]), 1);
    send(&mut analyser, &update(SENTRY, 100, vec![prop("DT_BaseObject", "m_iHealth", SendPropValue::Integer(1))]), 1);
    assert_eq!(analyser.state.other_entities.get(&100), Some(&OtherEntity::Sentry { position: Some(place) }));
    send(
        &mut analyser,
        &update(SENTRY_ROCKET, 200, vec![prop("DT_TFBaseRocket", "m_hOwnerEntity", SendPropValue::Integer(4096 + 100))]),
        1,
    );
    assert_eq!(analyser.state.other_entities.get(&200), Some(&OtherEntity::SentryRocket { sentry: Some(100) }));
    send(&mut analyser, &update(SENTRY_ROCKET, 200, vec![prop("DT_TFBaseRocket", "m_vecOrigin", SendPropValue::Vector(place))]), 1);
    assert_eq!(analyser.state.other_entities.get(&200), Some(&OtherEntity::SentryRocket { sentry: Some(100) }));
    send(&mut analyser, &update(SENTRY_ROCKET, 100, vec![prop("DT_TFBaseRocket", "m_vecOrigin", SendPropValue::Vector(place))]), 1);
    assert_eq!(analyser.state.other_entities.get(&100), Some(&OtherEntity::SentryRocket { sentry: None }));
}

#[test]
fn entity_that_leaves_is_forgotten() {
    let mut analyser = analyser();
    send(&mut analyser, &update(PLAYER, 5, vec![prop("DT_BasePlayer", "m_iHealth", SendPropValue::Integer(125))]), 1);
    send(&mut analyser, &update(PLAYER, 6, vec![prop("DT_BasePlayer", "m_iHealth", SendPropValue::Integer(80))]), 1);
    send(&mut analyser, &update(SENTRY, 100, vec![prop("DT_BaseObject", "m_iHealth", SendPropValue::Integer(1))]), 1);
    send(&mut analyser, &update(SENTRY, 101, vec![prop("DT_BaseObject", "m_iHealth", SendPropValue::Integer(1))]), 1);
    let leave = Message::PacketEntities {
        entities: vec![PacketEntity { server_class: PLAYER, entity_index: 5, props: vec![], pvs: Pvs::Delete }],
        removed_entities: vec![100, 0],
    };
    send(&mut analyser, &leave, 2);
    let entities: Vec<u32> = analyser.state.player_entities.iter().map(|player| player.entity).collect();
    assert_eq!(entities, vec![0, 6]);
    assert!(analyser.state.other_entities.get(&100).is_none());
    assert!(analyser.state.other_entities.get(&101).is_some());
}

#[test]
fn entity_that_comes_back_starts_afresh() {
    let mut analyser = analyser();
    send(
        &mut analyser,
        &update(
            PLAYER,
            5,
            vec![
                prop("DT_BasePlayer", "m_iHealth", SendPropValue::Integer(125)),
                prop("DT_BasePlayer", "m_lifeState", SendPropValue::Integer(1)),
            ],
        ),
        1,
    );
    send(&mut analyser, &Message::PacketEntities { entities: vec![], removed_entities: vec![5] }, 2);
    send(&mut analyser, &update(PLAYER, 5, vec![prop("DT_BasePlayer", "m_iMaxHealth", SendPropValue::Integer(200))]), 3);
    let records: Vec<&PlayerEntity> = analyser.state.player_entities.iter().filter(|player| player.entity == 5).collect();
    assert_eq!(records.len(), 1);
    assert_eq!(records[0].health, 0);
    assert_eq!(records[0].max_health, 200);
    assert_eq!(records[0].state, PlayerState::Alive);
}

#[test]
fn user_table_entries_announce_users() {
    let mut analyser = analyser();
    announce(&mut analyser, "3", "Soldier", 21, "[U:1:21]");
    let user = analyser.state.users.get(UserId(21)).unwrap();
    assert_eq!(user.name, "Soldier");
    assert_eq!(user.entity_id, Some(4));
    let bytes = user_bytes("Other", 22, "[U:1:22]");
    assert_eq!(analyser.handle_string_entry("modelprecache", 0, Some("x"), Some(&bytes)), Ok(()));
    assert!(analyser.state.users.get(UserId(22)).is_none());
    assert_eq!(analyser.handle_string_entry("userinfo", 0, Some("x"), Some(&bytes)), Err(UserInfoError::MalformedSlot));
    assert_eq!(analyser.handle_string_entry("userinfo", 0, Some("1"), Some(&bytes[..33])), Err(UserInfoError::Truncated));
    assert_eq!(analyser.state.users.len(), 2);
}

#[test]
fn spawn_puts_the_user_on_a_team() {
    let mut analyser = analyser();
    announce(&mut analyser, "3", "Soldier", 21, "[U:1:21]");
    send(&mut analyser, &Message::GameEvent(GameEvent::PlayerSpawn(PlayerSpawnEvent { user_id: 21, team: 2, class: 3 })), 5);
    assert_eq!(analyser.state.users.get(UserId(21)).unwrap().team, Team::Red);
    send(&mut analyser, &Message::GameEvent(GameEvent::PlayerSpawn(PlayerSpawnEvent { user_id: 99, team: 2, class: 3 })), 5);
    assert_eq!(analyser.state.users.len(), 2);
}

#[test]
fn rounds_are_opened_closed_and_recorded() {
    let mut analyser = analyser();
    send(&mut analyser, &Message::GameEvent(GameEvent::TeamPlayRoundStart), 10);
    assert!(analyser.state.in_round);
    let win = TeamPlayRoundWinEvent { team: 3, win_reason: 1, round_time: bits(100.0) };
    send(&mut analyser, &Message::GameEvent(GameEvent::TeamPlayRoundWin(win)), 500);
    assert!(!analyser.state.in_round);
    assert_eq!(analyser.state.rounds, vec![Round { winner: Team::Blu, length: bits(100.0), end_tick: 500 }]);
    send(&mut analyser, &Message::GameEvent(GameEvent::TeamPlayRoundStart), 600);
    let timeout = TeamPlayRoundWinEvent { team: 2, win_reason: 6, round_time: bits(100.0) };
    send(&mut analyser, &Message::GameEvent(GameEvent::TeamPlayRoundWin(timeout)), 900);
    assert!(!analyser.state.in_round);
    assert_eq!(analyser.state.rounds.len(), 1);
    send(&mut analyser, &Message::GameEvent(GameEvent::Other), 901);
    assert_eq!(analyser.state.rounds.len(), 1);
}

#[test]
fn chat_is_kept_and_names_are_changed() {
    let mut analyser = analyser();
    announce(&mut analyser, "3", "Old", 21, "[U:1:21]");
    let said = SayText2Message { kind: ChatMessageKind::ChatAll, from: Some("Old".into()), text: "gg".into() };
    send(&mut analyser, &Message::UserMessage(UserMessage::SayText2(said)), 77);
    assert_eq!(
        analyser.state.chat,
        vec![ChatMessage { kind: ChatMessageKind::ChatAll, from: "Old".into(), text: "gg".into(), tick: 77 }]
    );
    let renamed = SayText2Message { kind: ChatMessageKind::NameChange, from: Some("Old".into()), text: "New".into() };
    send(&mut analyser, &Message::UserMessage(UserMessage::SayText2(renamed)), 78);
    assert_eq!(analyser.state.users.get(UserId(21)).unwrap().name, "New");
    assert_eq!(analyser.state.chat.len(), 1);
    let nobody = SayText2Message { kind: ChatMessageKind::NameChange, from: None, text: "X".into() };
    send(&mut analyser, &Message::UserMessage(UserMessage::SayText2(nobody)), 79);
    send(&mut analyser, &Message::UserMessage(UserMessage::Other), 79);
    assert_eq!(analyser.state.users.get(UserId(21)).unwrap().name, "New");
    assert_eq!(analyser.state.users.get(UserId(0)).unwrap().name, "world");
}

#[test]
fn death_record_is_made_from_its_event() {
    let mut analyser = analyser();
    announce(&mut analyser, "3", "Victim", 21, "[U:1:21]");
    announce(&mut analyser, "4", "Killer", 22, "[U:1:22]");
    announce(&mut analyser, "5", "Helper", 23, "[U:1:23]");
    let event = PlayerDeathEvent {
        user_id: 21,
        victim_ent_index: 4,
        inflictor_ent_index: 5,
        attacker: 22,
        weapon: "scattergun".into(),
        assister: 23,
    };
    let death = Death::from_event(&event, 900, &analyser.state.users, 2, true);
    assert_eq!(
        death,
        Death {
            weapon: "scattergun".into(),
            victim: UserId(21),
            victim_steamid: "[U:1:21]".into(),
            victim_entity: 4,
            victim_entity_state: None,
            assister: Some(UserId(23)),
            assister_steamid: Some("[U:1:23]".into()),
            killer: UserId(22),
            killer_steamid: "[U:1:22]".into(),
            killer_entity: 5,
            killer_entity_state: None,
            tick: 900,
            round: 2,
            during_round: true,
            sentry_position: None,
        }
    );
}

#[test]
fn kill_by_the_world_is_a_suicide() {
    let mut analyser = analyser();
    announce(&mut analyser, "3", "Victim", 21, "[U:1:21]");
    let message = death(21, 0, 65535, 4, 0, "world");
    send(&mut analyser, &message, 300);
    let death = &analyser.state.deaths[0];
    assert_eq!(death.killer, death.victim);
    assert_eq!(death.killer, UserId(21));
    assert_eq!(death.killer_steamid, "[U:1:21]");
    assert_eq!(death.killer_entity, 4);
    assert_eq!(death.victim_entity, 4);
    assert_eq!(death.assister, None);
    assert_eq!(death.assister_steamid, None);
    assert_eq!(death.tick, 300);
    assert_eq!(death.round, 1);
    assert!(!death.during_round);
}

#[test]
fn kill_binds_users_to_player_slots_and_copies_bodies() {
    let mut analyser = analyser();
    announce(&mut analyser, "3", "Victim", 21, "[U:1:21]");
    announce(&mut analyser, "7", "Killer", 22, "[U:1:22]");
    send(&mut analyser, &update(PLAYER, 4, vec![prop("DT_BasePlayer", "m_iHealth", SendPropValue::Integer(1))]), 10);
    send(&mut analyser, &update(PLAYER, 8, vec![prop("DT_BasePlayer", "m_iHealth", SendPropValue::Integer(150))]), 10);
    send(&mut analyser, &Message::GameEvent(GameEvent::TeamPlayRoundStart), 11);
    send(&mut analyser, &death(21, 22, 65535, 4, 300, "tf_projectile_rocket"), 12);
    let death = analyser.state.deaths[0].clone();
    assert_eq!(death.killer, UserId(22));
    assert_eq!(death.victim, UserId(21));
    assert_eq!(death.killer_entity, 300);
    assert_eq!(death.killer_entity_state.unwrap().entity, 8);
    assert_eq!(death.killer_entity_state.unwrap().health, 150);
    assert_eq!(death.victim_entity_state.unwrap().entity, 4);
    assert_eq!(death.victim_entity_state.unwrap().health, 1);
    assert!(death.during_round);
    assert_eq!(analyser.state.users.get(UserId(22)).unwrap().entity_id, Some(8));
    send(&mut analyser, &death_with_slot(), 13);
    assert_eq!(analyser.state.users.get(UserId(22)).unwrap().entity_id, Some(12));
    let second = &analyser.state.deaths[1];
    assert_eq!(second.killer_entity_state.unwrap().entity, 12);
    assert_eq!(second.killer_entity_state.unwrap().health, 0);
    assert_eq!(analyser.state.player_entities.iter().filter(|player| player.entity == 12).count(), 1);
}

fn death_with_slot() -> Message {
    death(21, 22, 65535, 4, 12, "shotgun")
}

#[test]
fn kill_bodies_are_copies() {
    let mut analyser = analyser();
    announce(&mut analyser, "3", "Victim", 21, "[U:1:21]");
    send(&mut analyser, &update(PLAYER, 4, vec![prop("DT_BasePlayer", "m_iHealth", SendPropValue::Integer(1))]), 10);
    send(&mut analyser, &death(21, 0, 65535, 4, 0, "world"), 12);
    send(&mut analyser, &update(PLAYER, 4, vec![prop("DT_BasePlayer", "m_iHealth", SendPropValue::Integer(999))]), 13);
    assert_eq!(analyser.state.deaths[0].victim_entity_state.unwrap().health, 1);
}

#[test]
fn kill_by_an_unknown_user_is_not_accepted() {
    let mut analyser = analyser();
    announce(&mut analyser, "3", "Victim", 21, "[U:1:21]");
    assert!(!analyser.can_handle(&death(21, 22, 65535, 4, 5, "x"), 1));
    assert!(!analyser.can_handle(&death(20, 21, 65535, 4, 5, "x"), 1));
    assert!(!analyser.can_handle(&death(21, 21, 23, 4, 5, "x"), 1));
    assert!(analyser.can_handle(&death(21, 21, 16384, 4, 5, "x"), 1));
    assert!(analyser.can_handle(&death(21, 0, 0, 4, 5, "x"), 1));
}

#[test]
fn sentry_kill_finds_the_position_of_the_gun() {
    let mut analyser = analyser();
    announce(&mut analyser, "3", "Victim", 21, "[U:1:21]");
    announce(&mut analyser, "7", "Engineer", 22, "[U:1:22]");
    let place = Vector { x: bits(5.0), y: bits(6.0), z: bits(7.0) };
    send(&mut analyser, &update(SENTRY, 100, vec![prop("DT_BaseObject", "m_vecOrigin", SendPropValue::Vector(place))]), 1);
    send(
        &mut analyser,
        &update(SENTRY_ROCKET, 200, vec![prop("DT_TFBaseRocket", "m_hOwnerEntity", SendPropValue::Integer(100))]),
        1,
    );
    send(
        &mut analyser,
        &update(SENTRY_ROCKET, 201, vec![prop("DT_TFBaseRocket", "m_hOwnerEntity", SendPropValue::Integer(555))]),
        1,
    );
    for (inflictor, weapon, expected) in [
        (100, "obj_sentrygun", Some(place)),
        (100, "obj_sentrygun2", Some(place)),
        (100, "obj_sentrygun3", Some(place)),
        (100, "obj_minisentry", Some(place)),
        (200, "obj_sentrygun3", Some(place)),
        (201, "obj_sentrygun3", None),
        (300, "obj_sentrygun", None),
        (100, "shotgun", None),
    ] {
        assert_eq!(analyser.sentry_position(weapon, inflictor), expected);
        send(&mut analyser, &death(21, 22, 65535, 4, inflictor, weapon), 2);
        assert_eq!(analyser.state.deaths.last().unwrap().sentry_position, expected);
    }
    assert_eq!(analyser.state.deaths.len(), 8);
}

#[test]
fn later_definition_of_a_property_wins() {
    let mut analyser = HeatmapAnalyser::default();
    let first = SendTable { name: "A".into(), props: vec![PropDefinition { name: "x".into(), identifier: 1 }] };
    let second = SendTable {
        name: "B".into(),
        props: vec![PropDefinition { name: "y".into(), identifier: 1 }, PropDefinition { name: "z".into(), identifier: 2 }],
    };
    analyser.handle_data_tables(&vec![first, second], &vec!["C0".to_string()]);
    assert_eq!(analyser.prop_names.get(1).unwrap().table, "B");
    assert_eq!(analyser.prop_names.get(1).unwrap().name, "y");
    assert_eq!(analyser.prop_names.get(2).unwrap().name, "z");
    assert!(analyser.prop_names.get(3).is_none());
    assert_eq!(analyser.class_names, vec!["C0".to_string()]);
}
