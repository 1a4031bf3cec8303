use coldmaps::chat::format_chat_message;
use coldmaps::chat::format_chat_messages;
use coldmaps::filters::apply_all;
use coldmaps::filters::Filter;
use coldmaps::filters::FilterTrait;
use coldmaps::filters::KillerClassFilter;
use coldmaps::filters::KillerTeamFilter;
use coldmaps::filters::OrderedOperator;
use coldmaps::filters::Property;
use coldmaps::filters::PropertyFilter;
use coldmaps::filters::PropertyOperator;
use coldmaps::filters::RoundFilter;
use coldmaps::filters::VictimClassFilter;
use coldmaps::filters::VictimTeamFilter;
use coldmaps::gui_filters::FilterChoice;
use coldmaps::gui_filters::FilterType;
use coldmaps::heatmap::killer_position;
use coldmaps::heatmap::line_ends;
use coldmaps::heatmap::marked_position;
use coldmaps::heatmap::victim_position;
use coldmaps::heatmap::CoordsType;
use coldmaps::heatmap::HeatmapType;
use coldmaps::heatmap_analyser::ChatMessage;
use coldmaps::heatmap_analyser::Class;
use coldmaps::heatmap_analyser::Death;
use coldmaps::heatmap_analyser::HeatmapAnalysis;
use coldmaps::heatmap_analyser::PlayerEntity;
use coldmaps::heatmap_analyser::PlayerState;
use coldmaps::heatmap_analyser::Team;
use coldmaps::heatmap_analyser::UserId;
use coldmaps::protocol::ChatMessageKind;
use coldmaps::protocol::Vector;
use coldmaps::DemoProcessingOutput;

fn body(entity: u32, team: Team, class: Class, state: PlayerState, height: f32) -> PlayerEntity {
    PlayerEntity {
        entity,
        position: Vector { x: (entity as f32).to_bits(), y: 0, z: height.to_bits() },
        health: 100,
        max_health: 100,
        class,
        team,
        view_angle_horizontal: 0,
        view_angle_vertical: 0,
        state,
    }
}

fn death(killer: Option<PlayerEntity>, victim: Option<PlayerEntity>, round: u32) -> Death {
    Death {
        weapon: "w".into(),
        victim: UserId(1),
        victim_steamid: "v".into(),
        victim_entity: 1,
        victim_entity_state: victim,
        assister: None,
        assister_steamid: None,
        killer: UserId(2),
        killer_steamid: "k".into(),
        killer_entity: 2,
        killer_entity_state: killer,
        tick: 10,
        round,
        during_round: true,
        sentry_position: None,
    }
}

fn usual() -> Death {
    death(
        Some(body(2, Team::Red, Class::Soldier, PlayerState::Alive, 10.0)),
        Some(body(1, Team::Blu, Class::Medic, PlayerState::Alive, 0.0)),
        3,
    )
}

fn only(class: Class) -> [bool; 10] {
    let mut classes = [false; 10];
    classes[class.index()] = true;
    classes
}

#[test]
fn comparisons_compare() {
    let cases = [
        (OrderedOperator::Equal, [false, true, false]),
        (OrderedOperator::NotEqual, [true, false, true]),
        (OrderedOperator::Greater, [false, false, true]),
        (OrderedOperator::Smaller, [true, false, false]),
        (OrderedOperator::GreaterOrEqual, [false, true, true]),
        (OrderedOperator::SmallerOrEqual, [true, true, false]),
    ];
    for (operator, expected) in cases {
        assert_eq!([operator.compare(1, 2), operator.compare(2, 2), operator.compare(3, 2)], expected);
    }
    assert_eq!(OrderedOperator::all().len(), 6);
    assert_eq!(OrderedOperator::all()[0], OrderedOperator::default());
}

#[test]
fn operators_and_kinds_have_labels() {
    let signs: Vec<&str> = OrderedOperator::all().iter().map(|operator| operator.label()).collect();
    assert_eq!(signs, vec!["=", "≠", ">", "<", "≥", "≤"]);
    assert_eq!(PropertyOperator::IsPresent.label(), "present");
    assert_eq!(PropertyOperator::IsNotPresent.label(), "not present");
    assert_eq!(PropertyOperator::all(), [PropertyOperator::IsPresent, PropertyOperator::IsNotPresent]);
    assert_eq!(PropertyOperator::default(), PropertyOperator::IsPresent);
    assert_eq!(Property::Suicide.label(), "Suicide");
    assert_eq!(Property::Posthumous.label(), "Posthumous");
    assert_eq!(Property::all(), [Property::Suicide, Property::Posthumous]);
    assert_eq!(Property::default(), Property::Suicide);
    let kinds: Vec<&str> = FilterType::all().iter().map(|kind| kind.label()).collect();
    assert_eq!(
        kinds,
        vec![
            "Killer's team",
            "Victim's team",
            "Killer's class",
            "Victim's class",
            "Killer's elevation",
            "Victim's elevation",
            "2D distance",
            "3D distance",
            "Round #",
            "Death property",
        ]
    );
    assert_eq!(FilterType::default(), FilterType::KillerTeamFilter);
    assert_eq!(CoordsType::ShowPos.label(), "cl_showpos");
    assert_eq!(CoordsType::Console.label(), "Console");
    assert_eq!(CoordsType::default(), CoordsType::ShowPos);
    assert_eq!(HeatmapType::VictimPosition.label(), "Victim position");
    assert_eq!(HeatmapType::KillerPosition.label(), "Killer position");
    assert_eq!(HeatmapType::Lines.label(), "Killer -> victim lines");
    assert_eq!(HeatmapType::default(), HeatmapType::VictimPosition);
}

#[test]
fn team_filters_ask_for_a_known_body() {
    let kill = usual();
    assert!(KillerTeamFilter { team: Team::Red }.apply(&kill));
    assert!(!KillerTeamFilter { team: Team::Blu }.apply(&kill));
    assert!(VictimTeamFilter { team: Team::Blu }.apply(&kill));
    assert!(!VictimTeamFilter { team: Team::Red }.apply(&kill));
    let unknown = death(None, None, 1);
    assert!(!KillerTeamFilter { team: Team::Other }.apply(&unknown));
    assert!(!VictimTeamFilter { team: Team::Other }.apply(&unknown));
}

#[test]
fn class_filters_look_the_class_up() {
    let kill = usual();
    assert!(KillerClassFilter { classes: only(Class::Soldier) }.apply(&kill));
    assert!(!KillerClassFilter { classes: only(Class::Medic) }.apply(&kill));
    assert!(VictimClassFilter { classes: only(Class::Medic) }.apply(&kill));
    assert!(!VictimClassFilter { classes: only(Class::Soldier) }.apply(&kill));
    assert!(!KillerClassFilter { classes: [true; 10] }.apply(&death(None, None, 1)));
    assert!(!VictimClassFilter { classes: [true; 10] }.apply(&death(None, None, 1)));
}

#[test]
fn round_filter_compares_the_round() {
    let kill = usual();
    assert!(RoundFilter { op: OrderedOperator::Equal, round: 3 }.apply(&kill));
    assert!(!RoundFilter { op: OrderedOperator::Greater, round: 3 }.apply(&kill));
    assert!(RoundFilter { op: OrderedOperator::SmallerOrEqual, round: 3 }.apply(&kill));
    assert!(RoundFilter { op: OrderedOperator::NotEqual, round: 4 }.apply(&kill));
}

#[test]
fn property_filter_finds_suicides_and_posthumous_kills() {
    let present = |property| PropertyFilter { op: PropertyOperator::IsPresent, property };
    let absent = |property| PropertyFilter { op: PropertyOperator::IsNotPresent, property };
    let kill = usual();
    assert!(!present(Property::Suicide).apply(&kill));
    assert!(absent(Property::Suicide).apply(&kill));
    assert!(!present(Property::Posthumous).apply(&kill));
    let mut suicide = usual();
    suicide.killer = suicide.victim;
    assert!(present(Property::Suicide).apply(&suicide));
    assert!(!absent(Property::Suicide).apply(&suicide));
    let late = death(Some(body(2, Team::Red, Class::Soldier, PlayerState::Dying, 0.0)), None, 1);
    assert!(present(Property::Posthumous).apply(&late));
    assert!(!absent(Property::Posthumous).apply(&late));
    assert!(present(Property::Posthumous).apply(&death(None, None, 1)));
}

#[test]
fn any_filter_applies_as_the_filter_it_holds() {
    let kill = usual();
    let filters = vec![
        Filter::KillerTeamFilter(KillerTeamFilter { team: Team::Red }),
        Filter::VictimTeamFilter(VictimTeamFilter { team: Team::Blu }),
        Filter::KillerClassFilter(KillerClassFilter { classes: only(Class::Soldier) }),
        Filter::VictimClassFilter(VictimClassFilter { classes: only(Class::Medic) }),
        Filter::RoundFilter(RoundFilter { op: OrderedOperator::Greater, round: 2 }),
        Filter::PropertyFilter(PropertyFilter { op: PropertyOperator::IsNotPresent, property: Property::Suicide }),
    ];
    for filter in &filters {
        assert!(filter.apply(&kill));
    }
    assert!(apply_all(&filters, &kill));
    assert!(apply_all(&Vec::new(), &kill));
    let mut stricter = filters.clone();
    stricter.push(Filter::RoundFilter(RoundFilter { op: OrderedOperator::Smaller, round: 3 }));
    assert!(!apply_all(&stricter, &kill));
}

fn choice(selected_filter: FilterType) -> FilterChoice {
    FilterChoice {
        selected_filter,
        team_button_selected: Team::Red,
        class_buttons_selected: [false; 10],
        selected_ordered_operator: OrderedOperator::Greater,
        selected_property_operator: PropertyOperator::IsNotPresent,
        selected_property: Property::Posthumous,
        text_input: "12".to_string(),
    }
}

#[test]
fn picks_make_team_filters_for_playing_teams() {
    let mut picks = choice(FilterType::KillerTeamFilter);
    assert_eq!(picks.try_generate_filter(), Some(Filter::KillerTeamFilter(KillerTeamFilter { team: Team::Red })));
    picks.team_button_selected = Team::Blu;
    assert_eq!(picks.try_generate_filter(), Some(Filter::KillerTeamFilter(KillerTeamFilter { team: Team::Blu })));
    picks.selected_filter = FilterType::VictimTeamFilter;
    assert_eq!(picks.try_generate_filter(), Some(Filter::VictimTeamFilter(VictimTeamFilter { team: Team::Blu })));
    picks.team_button_selected = Team::Spectator;
    assert_eq!(picks.try_generate_filter(), None);
    picks.team_button_selected = Team::Other;
    picks.selected_filter = FilterType::KillerTeamFilter;
    assert_eq!(picks.try_generate_filter(), None);
}

#[test]
fn picks_make_class_filters() {
    let every = [false, true, true, true, true, true, true, true, true, true];
    let mut picks = choice(FilterType::KillerClassFilter);
    assert_eq!(picks.try_generate_filter(), Some(Filter::KillerClassFilter(KillerClassFilter { classes: every })));
    assert_eq!(picks.picked_classes(), every);
    picks.class_buttons_selected[0] = true;
    assert_eq!(
        picks.try_generate_filter(),
        Some(Filter::KillerClassFilter(KillerClassFilter { classes: only(Class::Other) }))
    );
    picks.class_buttons_selected = only(Class::Spy);
    picks.selected_filter = FilterType::VictimClassFilter;
    assert_eq!(
        picks.try_generate_filter(),
        Some(Filter::VictimClassFilter(VictimClassFilter { classes: only(Class::Spy) }))
    );
}

#[test]
fn picks_make_round_and_property_filters() {
    let mut picks = choice(FilterType::RoundFilter);
    assert_eq!(
        picks.try_generate_filter(),
        Some(Filter::RoundFilter(RoundFilter { op: OrderedOperator::Greater, round: 12 }))
    );
    picks.text_input = "1.5".to_string();
    assert_eq!(picks.try_generate_filter(), None);
    picks.text_input = String::new();
    assert_eq!(picks.try_generate_filter(), None);
    picks.selected_filter = FilterType::PropertyFilter;
    assert_eq!(
        picks.try_generate_filter(),
        Some(Filter::PropertyFilter(PropertyFilter { op: PropertyOperator::IsNotPresent, property: Property::Posthumous }))
    );
}

#[test]
fn picks_of_measured_kinds_make_no_filter_here() {
    for kind in [
        FilterType::KillerElevationFilter,
        FilterType::VictimElevationFilter,
        FilterType::Distance2DFilter,
        FilterType::Distance3DFilter,
    ] {
        assert_eq!(choice(kind).try_generate_filter(), None);
    }
}

#[test]
fn heatmap_marks_the_asked_position() {
    let mut kill = usual();
    let killer = kill.killer_entity_state.unwrap().position;
    let victim = kill.victim_entity_state.unwrap().position;
    let sentry = Vector { x: 5, y: 6, z: 7 };
    assert_eq!(victim_position(&kill), Some(victim));
    assert_eq!(killer_position(&kill, false), Some(killer));
    assert_eq!(killer_position(&kill, true), Some(killer));
    assert_eq!(marked_position(HeatmapType::VictimPosition, &kill, true), Some(victim));
    assert_eq!(marked_position(HeatmapType::KillerPosition, &kill, true), Some(killer));
    assert_eq!(marked_position(HeatmapType::Lines, &kill, true), None);
    assert_eq!(line_ends(&kill, true), Some((killer, victim)));
    kill.sentry_position = Some(sentry);
    assert_eq!(killer_position(&kill, false), Some(killer));
    assert_eq!(killer_position(&kill, true), Some(sentry));
    assert_eq!(marked_position(HeatmapType::KillerPosition, &kill, true), Some(sentry));
    assert_eq!(marked_position(HeatmapType::VictimPosition, &kill, true), Some(victim));
    assert_eq!(line_ends(&kill, true), Some((sentry, victim)));
    assert_eq!(line_ends(&kill, false), Some((killer, victim)));
    kill.killer_entity_state = None;
    assert_eq!(killer_position(&kill, false), None);
    assert_eq!(killer_position(&kill, true), Some(sentry));
    assert_eq!(line_ends(&kill, false), None);
    kill.victim_entity_state = None;
    assert_eq!(line_ends(&kill, true), None);
    assert_eq!(victim_position(&kill), None);
}

fn said(kind: ChatMessageKind, from: &str, text: &str) -> ChatMessage {
    ChatMessage { kind, from: from.to_string(), text: text.to_string(), tick: 0 }
}

#[test]
fn chat_lines_are_written_with_time_and_channel() {
    assert_eq!(
        format_chat_message(&said(ChatMessageKind::ChatAll, "a", "hello"), 0),
        Some("[00:00] a: hello".to_string())
    );
    assert_eq!(
        format_chat_message(&said(ChatMessageKind::ChatTeam, "a", "go"), 61),
        Some("[01:01] (TEAM) a: go".to_string())
    );
    assert_eq!(
        format_chat_message(&said(ChatMessageKind::ChatAllDead, "a", "x"), 599),
        Some("[09:59] *DEAD* a: x".to_string())
    );
    assert_eq!(
        format_chat_message(&said(ChatMessageKind::ChatTeamDead, "a", "x"), 600),
        Some("[10:00] *DEAD*(TEAM) a: x".to_string())
    );
    assert_eq!(
        format_chat_message(&said(ChatMessageKind::ChatAllSpec, "é", "ß: y"), 6005),
        Some("[100:05] *SPEC* é: ß: y".to_string())
    );
    assert_eq!(format_chat_message(&said(ChatMessageKind::NameChange, "a", "b"), 5), None);
    assert_eq!(format_chat_message(&said(ChatMessageKind::Empty, "a", "b"), 5), None);
    assert_eq!(
        format_chat_message(&said(ChatMessageKind::ChatAll, "", ""), u32::MAX),
        Some(format!("[{:02}:{:02}] : ", u32::MAX / 60, u32::MAX % 60))
    );
}

#[test]
fn chat_is_written_line_by_line() {
    let chat = vec![
        said(ChatMessageKind::ChatAll, "a", "one"),
        said(ChatMessageKind::NameChange, "a", "b"),
        said(ChatMessageKind::ChatTeam, "b", "two"),
        said(ChatMessageKind::Empty, "", ""),
    ];
    assert_eq!(
        format_chat_messages(&chat, &vec![1, 2, 3, 4]),
        vec!["[00:01] a: one".to_string(), "[00:03] (TEAM) b: two".to_string()]
    );
    assert!(format_chat_messages(&Vec::new(), &Vec::new()).is_empty());
}

#[test]
fn outcomes_of_processing_are_made() {
    let unreadable = DemoProcessingOutput::unreadable("a.dem".into(), "No such file".into());
    assert_eq!(unreadable.path, "a.dem");
    assert!(unreadable.heatmap_analysis.is_none());
    assert_eq!(unreadable.error, Some("No such file".to_string()));
    assert_eq!(unreadable.map, "");
    let complete = DemoProcessingOutput::complete("b.dem".into(), HeatmapAnalysis::new(), "cp_process".into());
    assert!(complete.heatmap_analysis == Some(HeatmapAnalysis::new()));
    assert_eq!(complete.error, None);
    assert_eq!(complete.map, "cp_process");
    let mut analysis = HeatmapAnalysis::new();
    analysis.current_tick = 40213;
    let corrupted = DemoProcessingOutput::corrupted("dir/c.dem".into(), analysis.clone(), "pl_upward".into());
    assert_eq!(corrupted.path, "dir/c.dem");
    assert!(corrupted.heatmap_analysis == Some(analysis));
    assert_eq!(
        corrupted.error,
        Some("dir/c.dem: Demo is corrupted, could only analyse up to tick 40213".to_string())
    );
    assert_eq!(corrupted.map, "pl_upward");
}
