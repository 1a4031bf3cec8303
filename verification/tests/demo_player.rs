use coldmaps::demo_player::BufferedPlayer;
use coldmaps::demo_player::Command;
use coldmaps::demo_player::DemoPlayerState;
use coldmaps::demo_player::PlayerAction;
use coldmaps::demo_player::Reply;
use coldmaps::demo_player::SeekError;
use coldmaps::demo_player::Session;
use coldmaps::demo_player::SECTION_SIZE;

fn frame_text(position: usize) -> String {
    format!("{{\"frame\":{}}}", position)
}

/// Stands for the decoders of a session whose frame at `position` is `frame_text(position)`.
struct Decoders {
    playback: Vec<Option<usize>>,
    advances: usize,
    duplications: usize,
}

impl Decoders {
    fn new(sections: usize) -> Decoders {
        Decoders { playback: vec![None; sections], advances: 0, duplications: 0 }
    }

    fn perform(&mut self, player: &mut BufferedPlayer, action: PlayerAction) -> bool {
        match action {
            PlayerAction::Idle => false,
            PlayerAction::StartPlayback(section) => {
                assert!(self.playback[section].is_none());
                self.playback[section] = Some(section * SECTION_SIZE);
                self.duplications += 1;
                player.playback_started(section);
                true
            }
            PlayerAction::Advance(section) => {
                let position = self.playback[section].unwrap() + 1;
                self.playback[section] = Some(position);
                self.advances += 1;
                player.frame_decoded(section, frame_text(position));
                true
            }
        }
    }

    fn seek(&mut self, player: &mut BufferedPlayer, position: usize) -> String {
        if let Some(frame) = player.get_frame(position) {
            return frame.to_string();
        }
        loop {
            let action = player.pending();
            if !self.perform(player, action) {
                break;
            }
        }
        player.get_frame(position).unwrap().to_string()
    }

    fn prefetch(&mut self, player: &mut BufferedPlayer) {
        loop {
            let action = player.prefetch();
            if !self.perform(player, action) {
                break;
            }
        }
    }

    fn evict(&mut self, player: &mut BufferedPlayer) {
        player.evict();
        for section in 0..self.playback.len() {
            if !player.has_playback(section) {
                self.playback[section] = None;
            }
        }
    }
}

fn scanned(ticks: &[u32]) -> DemoPlayerState {
    let mut state = DemoPlayerState::new();
    let mut frames = 0;
    for tick in ticks {
        let checkpoint = if state.needs_checkpoint(*tick) { Some(frame_text(frames)) } else { None };
        state.record_tick(*tick, checkpoint);
        if *tick != 0 {
            frames += 1;
        }
    }
    state
}

fn loaded(frames: usize) -> DemoPlayerState {
    let ticks: Vec<u32> = (1..=frames as u32).collect();
    let mut state = scanned(&ticks);
    state.finish(false, "{}".to_string());
    state
}

fn cached(player: &BufferedPlayer) -> usize {
    player.sections.iter().map(|section| section.cached_frames.len()).sum()
}

#[test]
fn commands_of_one_word_are_read() {
    assert_eq!(Command::from_str("analysis"), Some(Command::Analysis));
    assert_eq!(Command::from_str("frameToTick"), Some(Command::FrameToTick));
    assert_eq!(Command::from_str("tickToFrame"), Some(Command::TickToFrame));
    assert_eq!(Command::from_str("frametotick"), Some(Command::FrameToTick));
    assert_eq!(Command::from_str("ticktoframe"), Some(Command::TickToFrame));
    assert_eq!(Command::from_str("TickToFrame"), None);
    assert_eq!(Command::from_str("FRAMETOTICK"), None);
    assert_eq!(Command::from_str("tickToFrame 1"), None);
    assert_eq!(Command::from_str("Analysis"), None);
    assert_eq!(Command::from_str("analysis "), None);
    assert_eq!(Command::from_str(""), None);
    assert_eq!(Command::from_str("frame"), None);
}

#[test]
fn commands_with_an_argument_are_read() {
    assert_eq!(Command::from_str("frame 12"), Some(Command::Frame(12)));
    assert_eq!(Command::from_str("tick 0"), Some(Command::Tick(0)));
    assert_eq!(Command::from_str("frame +7"), Some(Command::Frame(7)));
    assert_eq!(Command::from_str("prefetch true"), Some(Command::Prefetch(true)));
    assert_eq!(Command::from_str("prefetch false"), Some(Command::Prefetch(false)));
    assert_eq!(Command::from_str("load /tmp/a demo.dem"), Some(Command::Load("/tmp/a demo.dem".to_string())));
    assert_eq!(Command::from_str("load "), Some(Command::Load(String::new())));
    assert_eq!(Command::from_str("load démo.dem"), Some(Command::Load("démo.dem".to_string())));
}

#[test]
fn commands_with_a_bad_argument_are_refused() {
    assert_eq!(Command::from_str("frame x"), None);
    assert_eq!(Command::from_str("frame  1"), None);
    assert_eq!(Command::from_str("frame 1 "), None);
    assert_eq!(Command::from_str("frame -1"), None);
    assert_eq!(Command::from_str("tick 99999999999999999999999"), None);
    assert_eq!(Command::from_str("prefetch yes"), None);
    assert_eq!(Command::from_str("seek 1"), None);
    assert_eq!(Command::from_str(" frame 1"), None);
    assert_eq!(Command::from_str("analysis now"), None);
}

#[test]
fn seek_errors_are_reported_in_fixed_words() {
    assert_eq!(SeekError::FrameOutOfBound.message(), "Seeking to a frame out of bound");
    assert_eq!(SeekError::TickOutOfBound.message(), "Seeking to a tick out of bound");
}

#[test]
fn scan_skips_tick_zero_and_opens_a_section_every_section_size() {
    let mut ticks = vec![0, 0, 0, 0, 0, 0];
    ticks.extend(1..=2500u32);
    let state = scanned(&ticks);
    assert_eq!(state.frame_to_tick.len(), 2500);
    assert_eq!(state.frame_to_tick[0], 1);
    assert_eq!(state.player.sections.len(), 3);
    assert_eq!(state.player.sections[0].first_frame, frame_text(0));
    assert_eq!(state.player.sections[1].first_frame, frame_text(1024));
    assert_eq!(state.player.sections[2].first_frame, frame_text(2048));
    assert!(state.player.sections.iter().all(|section| section.cached_frames.is_empty() && !section.has_playback));
}

#[test]
fn scan_of_exactly_one_section_opens_one_section() {
    assert_eq!(loaded(1024).player.sections.len(), 1);
    assert_eq!(loaded(1025).player.sections.len(), 2);
    assert_eq!(loaded(1).player.sections.len(), 1);
    assert_eq!(loaded(0).player.sections.len(), 0);
}

#[test]
fn indices_lead_back_and_forth() {
    let ticks = [3u32, 4, 7, 8, 20, 21];
    let state = scanned(&ticks);
    assert_eq!(state.frame_to_tick, ticks.to_vec());
    assert_eq!(state.tick_to_frame.len(), 22);
    for (frame, tick) in ticks.iter().enumerate() {
        assert_eq!(state.tick_to_frame[*tick as usize], frame);
    }
    assert!(state.tick_to_frame.windows(2).all(|pair| pair[0] <= pair[1]));
    assert_eq!(state.tick_to_frame[..9].to_vec(), vec![0, 0, 0, 0, 1, 1, 1, 2, 3]);
    assert_eq!(state.tick_to_frame[19], 3);
    assert_eq!(state.tick_to_frame[20], 4);
}

#[test]
fn tick_that_comes_again_is_shown_its_last_frame() {
    let state = scanned(&[1, 2, 2, 3, 3, 3, 4]);
    assert_eq!(state.frame_to_tick.len(), 7);
    assert_eq!(state.tick_to_frame, vec![0, 0, 2, 5, 6]);
    let back = scanned(&[1, 5, 3, 6]);
    assert_eq!(back.tick_to_frame, vec![0, 0, 0, 2, 2, 2, 3]);
    assert!(back.tick_to_frame.windows(2).all(|pair| pair[0] <= pair[1]));
}

#[test]
fn table_of_ticks_follows_every_tick_whatever_comes_with_it() {
    let mut state = DemoPlayerState::new();
    state.record_tick(3, None);
    assert_eq!(state.tick_to_frame, vec![0, 0, 0, 0]);
    state.record_tick(0, Some("ignored".to_string()));
    assert_eq!(state.tick_to_frame, vec![0, 0, 0, 0]);
    assert_eq!(state.frame_to_tick, vec![3]);
    assert!(state.player.sections.is_empty());
    state.record_tick(6, Some("early".to_string()));
    assert_eq!(state.tick_to_frame, vec![0, 0, 0, 0, 0, 0, 1]);
    assert_eq!(state.frame_to_tick, vec![3, 6]);
    assert_eq!(state.player.sections.len(), 1);
    state.record_tick(5, None);
    assert_eq!(state.tick_to_frame, vec![0, 0, 0, 0, 0, 2, 2]);
}

#[test]
fn corrupted_session_keeps_what_was_decoded() {
    let mut state = scanned(&[0, 0, 1, 2, 3, 9, 10]);
    state.finish(true, "{\"partial\":true}".to_string());
    assert!(state.is_corrupted);
    assert_eq!(state.frame_to_tick.len(), 5);
    assert_eq!(state.tick_to_frame.len(), 11);
    assert_eq!(state.player.last_frame, 4);
    assert_eq!(state.final_state, "{\"partial\":true}");
    assert_eq!(state.seek_frame(4), Ok(()));
    assert_eq!(state.seek_frame(5), Err(SeekError::FrameOutOfBound));
}

#[test]
fn corrupted_session_without_frames_answers_every_seek_with_an_error() {
    let mut state = scanned(&[0, 0]);
    state.finish(true, String::new());
    assert!(state.is_corrupted);
    assert_eq!(state.frame_to_tick.len(), 0);
    assert_eq!(state.player.last_frame, 0);
    assert_eq!(state.seek_frame(0), Err(SeekError::FrameOutOfBound));
    assert_eq!(state.seek_tick(0), Err(SeekError::TickOutOfBound));
    assert_eq!(state.player.pending(), PlayerAction::Idle);
    assert_eq!(state.player.prefetch(), PlayerAction::Idle);
    state.player.evict();
}

#[test]
fn tick_is_shown_the_last_frame_not_above_it() {
    let ticks: Vec<u32> = (0..40u32).map(|frame| 1 + frame * 5 / 2).collect();
    assert_eq!(ticks[19], 48);
    assert_eq!(ticks[20], 51);
    let mut state = scanned(&ticks);
    state.finish(false, String::new());
    assert_eq!(state.seek_tick(50), Ok(19));
    assert_eq!(state.player.playhead_position, 19);
    assert_eq!(state.seek_tick(51), Ok(20));
    assert_eq!(state.seek_tick(48), Ok(19));
    assert_eq!(state.seek_tick(0), Ok(0));
    assert_eq!(state.seek_tick(98), Ok(39));
    assert_eq!(state.seek_tick(99), Err(SeekError::TickOutOfBound));
    assert_eq!(state.player.playhead_position, 39);
}

#[test]
fn frame_out_of_bound_is_answered_with_the_error() {
    let ticks: Vec<u32> = (0..40u32).map(|frame| 1 + frame * 5 / 2).collect();
    let mut state = scanned(&ticks);
    state.finish(false, "{\"all\":1}".to_string());
    let mut session = Session::new();
    session.install(state);
    assert_eq!(session.respond("frame 41"), Reply::Error("Seeking to a frame out of bound".to_string()));
    assert_eq!(session.respond("frame 40"), Reply::Error("Seeking to a frame out of bound".to_string()));
    assert_eq!(session.respond("frame 39"), Reply::Frame);
    assert_eq!(session.demo.as_ref().unwrap().player.playhead_position, 39);
    assert_eq!(session.respond("tick 50"), Reply::Frame);
    assert_eq!(session.demo.as_ref().unwrap().player.playhead_position, 19);
    assert_eq!(session.respond("tick 100"), Reply::Error("Seeking to a tick out of bound".to_string()));
    assert_eq!(session.demo.as_ref().unwrap().player.playhead_position, 19);
}

#[test]
fn conversation_answers_every_command() {
    let mut session = Session::new();
    assert!(session.prefetch);
    for line in ["frame 0", "tick 0", "frametotick", "ticktoframe", "frameToTick", "tickToFrame", "analysis"] {
        assert_eq!(session.respond(line), Reply::Error("No demo loaded".to_string()));
    }
    assert_eq!(session.respond("load a b.dem"), Reply::Load("a b.dem".to_string()));
    assert!(session.demo.is_none());
    assert_eq!(session.respond("prefetch false"), Reply::Result("Prefetching disabled".to_string()));
    assert!(!session.prefetch);
    assert_eq!(session.respond("prefetch true"), Reply::Result("Prefetching enabled".to_string()));
    assert!(session.prefetch);
    assert_eq!(session.respond("jump 3"), Reply::Error("Can't parse command: \"jump 3\"".to_string()));
    assert_eq!(session.respond(""), Reply::Error("Can't parse command: \"\"".to_string()));
    session.install(loaded(10));
    assert_eq!(session.respond("frametotick"), Reply::FrameToTick);
    assert_eq!(session.respond("ticktoframe"), Reply::TickToFrame);
    assert_eq!(session.respond("frameToTick"), Reply::FrameToTick);
    assert_eq!(session.respond("tickToFrame"), Reply::TickToFrame);
    assert_eq!(session.respond("analysis"), Reply::Analysis);
    assert_eq!(session.respond("frame 3"), Reply::Frame);
    assert!(session.prefetch);
}

#[test]
fn first_frame_of_a_section_is_served_without_decoding() {
    let mut state = loaded(3000);
    let mut decoders = Decoders::new(3);
    for section in [2, 0, 1, 2] {
        let position = section * SECTION_SIZE;
        assert_eq!(state.player.get_frame(position), Some(frame_text(position).as_str()));
        assert_eq!(state.player.pending(), PlayerAction::Idle);
        assert_eq!(decoders.seek(&mut state.player, position), frame_text(position));
    }
    assert_eq!(decoders.advances, 0);
    assert_eq!(decoders.duplications, 0);
}

#[test]
fn frame_within_a_section_is_decoded_from_the_checkpoint() {
    let mut state = loaded(3000);
    let mut decoders = Decoders::new(3);
    assert_eq!(state.player.get_frame(1030), None);
    assert_eq!(state.player.playhead_position, 1030);
    assert_eq!(state.player.pending(), PlayerAction::StartPlayback(1));
    assert_eq!(decoders.seek(&mut state.player, 1030), frame_text(1030));
    assert_eq!(decoders.advances, 6);
    assert_eq!(decoders.duplications, 1);
    assert_eq!(state.player.sections[1].cached_frames.len(), 6);
    assert!(state.player.has_playback(1));
    assert_eq!(decoders.seek(&mut state.player, 1027), frame_text(1027));
    assert_eq!(decoders.advances, 6);
}

#[test]
fn seeking_twice_gives_the_same_frame() {
    let mut state = loaded(3000);
    let mut decoders = Decoders::new(3);
    for position in [5usize, 2047, 1024, 2999, 0] {
        let first = decoders.seek(&mut state.player, position);
        let advances = decoders.advances;
        let second = decoders.seek(&mut state.player, position);
        assert_eq!(first, second);
        assert_eq!(first, frame_text(position));
        assert_eq!(decoders.advances, advances);
    }
}

#[test]
fn frames_are_the_same_with_and_without_prefetch_and_evict() {
    let frames = 7 * SECTION_SIZE + 100;
    let order: Vec<usize> = vec![0, 1, 2, 1500, 1499, 1024, 1023, 7000, 3, 7267, 4096, 4095, 2047, 2048, 1, 6144, 0];
    let mut plain = loaded(frames);
    let mut plain_decoders = Decoders::new(8);
    let mut busy = loaded(frames);
    let mut busy_decoders = Decoders::new(8);
    for position in order {
        let expected = plain_decoders.seek(&mut plain.player, position);
        let served = busy_decoders.seek(&mut busy.player, position);
        busy_decoders.prefetch(&mut busy.player);
        busy_decoders.evict(&mut busy.player);
        assert_eq!(served, expected);
        assert_eq!(served, frame_text(position));
    }
}

#[test]
fn scanning_in_order_gives_every_frame() {
    let frames = 2 * SECTION_SIZE + 10;
    let mut state = loaded(frames);
    let mut decoders = Decoders::new(3);
    for position in 0..frames {
        assert_eq!(decoders.seek(&mut state.player, position), frame_text(position));
        decoders.prefetch(&mut state.player);
        decoders.evict(&mut state.player);
    }
}

#[test]
fn playing_forward_decodes_one_frame_per_step() {
    let mut state = loaded(3000);
    let mut decoders = Decoders::new(3);
    assert_eq!(decoders.seek(&mut state.player, 0), frame_text(0));
    decoders.prefetch(&mut state.player);
    assert_eq!(decoders.advances, 1);
    for position in 1..=SECTION_SIZE - 2 {
        let before = decoders.advances;
        let produced = cached(&state.player);
        assert_eq!(decoders.seek(&mut state.player, position), frame_text(position));
        assert_eq!(decoders.advances, before);
        decoders.prefetch(&mut state.player);
        assert_eq!(decoders.advances, before + 1);
        assert_eq!(cached(&state.player), produced + 1);
        decoders.evict(&mut state.player);
    }
    assert_eq!(decoders.advances, SECTION_SIZE - 1);
    assert_eq!(decoders.advances, cached(&state.player));
    assert_eq!(decoders.duplications, 1);
    assert_eq!(decoders.seek(&mut state.player, SECTION_SIZE - 1), frame_text(SECTION_SIZE - 1));
    decoders.prefetch(&mut state.player);
    assert_eq!(decoders.advances, SECTION_SIZE - 1);
}

#[test]
fn prefetch_stops_at_the_last_frame() {
    let mut state = loaded(10);
    let mut decoders = Decoders::new(1);
    assert_eq!(decoders.seek(&mut state.player, 9), frame_text(9));
    assert_eq!(state.player.prefetch(), PlayerAction::Idle);
    assert_eq!(decoders.seek(&mut state.player, 5), frame_text(5));
    assert_eq!(state.player.prefetch(), PlayerAction::Idle);
    assert_eq!(decoders.seek(&mut state.player, 9), frame_text(9));
    assert_eq!(decoders.advances, 9);
}

#[test]
fn prefetch_does_nothing_before_the_seek_is_done() {
    let mut state = loaded(3000);
    assert_eq!(state.player.get_frame(1500), None);
    assert_eq!(state.player.prefetch(), PlayerAction::Idle);
    assert_eq!(state.player.pending(), PlayerAction::StartPlayback(1));
}

#[test]
fn prefetch_looks_behind_as_far_as_the_playhead_has_come() {
    let mut state = loaded(3 * SECTION_SIZE);
    let mut decoders = Decoders::new(3);
    assert_eq!(decoders.seek(&mut state.player, 2048 + 1000), frame_text(3048));
    assert_eq!(decoders.advances, 1000);
    decoders.prefetch(&mut state.player);
    assert_eq!(state.player.sections[1].cached_frames.len(), SECTION_SIZE - 1000 - 1);
    assert_eq!(state.player.sections[2].cached_frames.len(), 1001);
    assert_eq!(decoders.seek(&mut state.player, 2048 + 999), frame_text(3047));
    let before = decoders.advances;
    decoders.prefetch(&mut state.player);
    assert_eq!(decoders.advances, before + 1);
    assert_eq!(state.player.sections[2].cached_frames.len(), 1001);
    assert_eq!(state.player.sections[1].cached_frames.len(), SECTION_SIZE - 999 - 1);
    assert_eq!(decoders.seek(&mut state.player, 2048), frame_text(2048));
    decoders.prefetch(&mut state.player);
    assert_eq!(state.player.sections[1].cached_frames.len(), SECTION_SIZE - 1);
    let before = decoders.advances;
    assert_eq!(decoders.seek(&mut state.player, 2047), frame_text(2047));
    assert_eq!(decoders.advances, before);
}

#[test]
fn far_sections_are_dropped() {
    let frames = 8 * SECTION_SIZE;
    let mut state = loaded(frames);
    let mut decoders = Decoders::new(8);
    for section in 0..8 {
        decoders.seek(&mut state.player, section * SECTION_SIZE + 3);
    }
    assert_eq!(cached(&state.player), 24);
    decoders.seek(&mut state.player, 3 * SECTION_SIZE + 3);
    decoders.evict(&mut state.player);
    let kept: Vec<usize> = state.player.sections.iter().map(|section| section.cached_frames.len()).collect();
    assert_eq!(kept, vec![0, 3, 3, 3, 3, 3, 0, 0]);
    let live: Vec<bool> = (0..8).map(|section| state.player.has_playback(section)).collect();
    assert_eq!(live, vec![false, true, true, true, true, true, false, false]);
    assert_eq!(state.player.sections[0].first_frame, frame_text(0));
    assert_eq!(decoders.seek(&mut state.player, 7), frame_text(7));
    assert_eq!(state.player.sections[0].cached_frames.len(), 7);
}

#[test]
fn far_section_without_frames_keeps_its_decoder() {
    let mut player = BufferedPlayer::new();
    for section in 0..5 {
        player.push_section(frame_text(section * SECTION_SIZE));
    }
    player.playback_started(4);
    assert_eq!(player.get_frame(0), Some(frame_text(0).as_str()));
    player.evict();
    assert!(player.has_playback(4));
    player.frame_decoded(4, frame_text(4 * SECTION_SIZE + 1));
    player.evict();
    assert!(!player.has_playback(4));
    assert!(player.sections[4].cached_frames.is_empty());
}
