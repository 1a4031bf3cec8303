//! Random access to the decoded instants of a session, and the commands that drive it.
//!
//! The frames of a session come out of one forward pass of a decoder. The pass is cut into
//! sections of `SECTION_SIZE` frames; the first frame of each section is kept, in serialized
//! form, together with a checkpoint of the decoder from which the rest of the section can be
//! decoded again. The player decides which frames are kept and what has to be decoded next;
//! whoever owns the decoders carries that out and reports back.

pub mod analyzer;
pub mod weapons;

use crate::text::first_occurrence;
use crate::text::parse_bool;
use crate::text::parse_usize;
use crate::text::spec_parse_bool;
use crate::text::spec_parse_unsigned;
use crate::text::split_at_space;
use crate::text::str_eq;
use vstd::prelude::*;

verus! {

/// The number of frames in a section.
pub const SECTION_SIZE: usize = 1024;

/// One command of the line protocol.
#[derive(Debug, Clone, PartialEq, Eq)]
pub enum Command {
    Load(String),
    Tick(usize),
    Frame(usize),
    TickToFrame,
    FrameToTick,
    Analysis,
    Prefetch(bool),
}

/// `Command` with its text as a sequence of characters.
pub enum CommandView {
    Load(Seq<char>),
    Tick(usize),
    Frame(usize),
    TickToFrame,
    FrameToTick,
    Analysis,
    Prefetch(bool),
}

impl View for Command {
    type V = CommandView;

    open spec fn view(&self) -> CommandView {
        match *self {
            Command::Load(path) => CommandView::Load(path@),
            Command::Tick(tick) => CommandView::Tick(tick),
            Command::Frame(frame) => CommandView::Frame(frame),
            Command::TickToFrame => CommandView::TickToFrame,
            Command::FrameToTick => CommandView::FrameToTick,
            Command::Analysis => CommandView::Analysis,
            Command::Prefetch(on) => CommandView::Prefetch(on),
        }
    }
}

/// The command that the word `command` and its argument `arg` write.
pub open spec fn spec_parse_with_arg(command: Seq<char>, arg: Seq<char>) -> Option<CommandView> {
    if command == "frame"@ {
        match spec_parse_unsigned(arg, usize::MAX as nat) {
            Some(frame) => Some(CommandView::Frame(frame as usize)),
            None => None,
        }
    } else if command == "tick"@ {
        match spec_parse_unsigned(arg, usize::MAX as nat) {
            Some(tick) => Some(CommandView::Tick(tick as usize)),
            None => None,
        }
    } else if command == "load"@ {
        Some(CommandView::Load(arg))
    } else if command == "prefetch"@ {
        match spec_parse_bool(arg) {
            Some(on) => Some(CommandView::Prefetch(on)),
            None => None,
        }
    } else {
        None
    }
}

/// The command that `line` writes.
///
/// Three commands are a single word; the two that ask for an index are read in either
/// spelling, `frameToTick` or `frametotick`, `tickToFrame` or `ticktoframe`. Every other
/// command is a word, one space and an argument: the argument is all that follows the
/// first space of the line.
pub open spec fn spec_parse_command(line: Seq<char>) -> Option<CommandView> {
    if line == "analysis"@ {
        Some(CommandView::Analysis)
    } else if line == "frameToTick"@ || line == "frametotick"@ {
        Some(CommandView::FrameToTick)
    } else if line == "tickToFrame"@ || line == "ticktoframe"@ {
        Some(CommandView::TickToFrame)
    } else {
        match first_occurrence(line, ' ') {
            Some(i) => spec_parse_with_arg(line.take(i), line.skip(i + 1)),
            None => None,
        }
    }
}

impl Command {
    /// Reads one line of the protocol as a command.
    pub fn from_str(line: &str) -> (command: Option<Command>)
        ensures
            match command {
                Some(c) => spec_parse_command(line@) == Some(c@),
                None => spec_parse_command(line@) is None,
            },
    {
        if str_eq(line, "analysis") {
            return Some(Command::Analysis);
        }
        if str_eq(line, "frameToTick") || str_eq(line, "frametotick") {
            return Some(Command::FrameToTick);
        }
        if str_eq(line, "tickToFrame") || str_eq(line, "ticktoframe") {
            return Some(Command::TickToFrame);
        }
        match split_at_space(line) {
            Some((command, arg)) => {
                if str_eq(command, "frame") {
                    match parse_usize(arg) {
                        Some(frame) => Some(Command::Frame(frame)),
                        None => None,
                    }
                } else if str_eq(command, "tick") {
                    match parse_usize(arg) {
                        Some(tick) => Some(Command::Tick(tick)),
                        None => None,
                    }
                } else if str_eq(command, "load") {
                    Some(Command::Load(arg.to_owned()))
                } else if str_eq(command, "prefetch") {
                    match parse_bool(arg) {
                        Some(on) => Some(Command::Prefetch(on)),
                        None => None,
                    }
                } else {
                    None
                }
            },
            None => None,
        }
    }
}

/// What the owner of the decoders has to do next.
#[derive(Debug, Clone, Copy, PartialEq, Eq)]
pub enum PlayerAction {
    /// Nothing.
    Idle,
    /// Duplicate the checkpoint of the section into a playback decoder of the section, and
    /// report `playback_started`.
    StartPlayback(usize),
    /// Advance the playback decoder of the section by one frame, and report the serialized
    /// frame with `frame_decoded`.
    Advance(usize),
}

/// One section of the session.
#[derive(Debug, Clone, PartialEq, Eq)]
pub struct BufferSection {
    /// Whether the section has a playback decoder. It stands behind the last cached frame.
    pub has_playback: bool,
    /// The frames of the section that follow its first, as far as they are decoded.
    pub cached_frames: Vec<String>,
    /// The first frame of the section.
    pub first_frame: String,
}

/// `BufferSection` with its frames as sequences of characters.
pub struct SectionView {
    pub live: bool,
    pub cached: Seq<Seq<char>>,
    pub first: Seq<char>,
}

impl View for BufferSection {
    type V = SectionView;

    open spec fn view(&self) -> SectionView {
        SectionView {
            live: self.has_playback,
            cached: self.cached_frames@.map_values(|frame: String| frame@),
            first: self.first_frame@,
        }
    }
}

/// The frames that are kept of a session, and the position of the playhead.
#[derive(Debug, Clone, PartialEq, Eq)]
pub struct BufferedPlayer {
    pub sections: Vec<BufferSection>,
    pub playhead_position: usize,
    pub last_frame: usize,
}

/// `BufferedPlayer` with its frames as sequences of characters.
pub struct PlayerView {
    pub sections: Seq<SectionView>,
    pub playhead: usize,
    pub last_frame: usize,
}

impl View for BufferedPlayer {
    type V = PlayerView;

    open spec fn view(&self) -> PlayerView {
        PlayerView {
            sections: self.sections@.map_values(|section: BufferSection| section@),
            playhead: self.playhead_position,
            last_frame: self.last_frame,
        }
    }
}

/// The section that holds the frame at `position`.
pub open spec fn section_of(position: usize) -> int {
    position as int / SECTION_SIZE as int
}

/// The place of the frame at `position` within its section.
pub open spec fn offset_of(position: usize) -> int {
    position as int % SECTION_SIZE as int
}

/// Whether the frame at `position` is kept: the first frame of a section always is, any
/// other once the cache of its section reaches it.
pub open spec fn resident(player: PlayerView, position: usize) -> bool {
    &&& section_of(position) < player.sections.len()
    &&& offset_of(position) <= player.sections[section_of(position)].cached.len()
}

/// The frame at `position`, which must be resident.
pub open spec fn frame_at(player: PlayerView, position: usize) -> Seq<char> {
    if offset_of(position) == 0 {
        player.sections[section_of(position)].first
    } else {
        player.sections[section_of(position)].cached[offset_of(position) - 1]
    }
}

/// What it takes to decode one more frame of `section`: a playback decoder first, then one
/// step of it.
pub open spec fn decode_in(player: PlayerView, section: int) -> PlayerAction {
    if player.sections[section].live {
        PlayerAction::Advance(section as usize)
    } else {
        PlayerAction::StartPlayback(section as usize)
    }
}

/// What has to be done next for the frame under the playhead to become resident.
pub open spec fn pending_action(player: PlayerView) -> PlayerAction {
    if section_of(player.playhead) >= player.sections.len() || resident(player, player.playhead) {
        PlayerAction::Idle
    } else {
        decode_in(player, section_of(player.playhead))
    }
}

/// Whether the frame that follows the playhead should be decoded ahead: it is not the end of
/// the session, it lies in the section of the playhead, and it is not cached yet.
pub open spec fn wants_next(player: PlayerView) -> bool {
    &&& player.playhead != player.last_frame
    &&& offset_of(player.playhead) + 1 < SECTION_SIZE
    &&& player.sections[section_of(player.playhead)].cached.len() < offset_of(player.playhead) + 1
}

/// Whether the section before the playhead's should be decoded further. The closer the
/// playhead is to the start of its section, the more of the section before is wanted, so
/// that its last frame is cached when the playhead steps back over the boundary.
pub open spec fn wants_previous(player: PlayerView) -> bool {
    &&& section_of(player.playhead) > 0
    &&& player.sections[section_of(player.playhead) - 1].cached.len() < SECTION_SIZE - offset_of(
        player.playhead,
    ) - 1
}

/// What has to be done next to look ahead and behind of the playhead. Nothing is, before
/// the frame under the playhead is resident.
pub open spec fn prefetch_action(player: PlayerView) -> PlayerAction {
    if !resident(player, player.playhead) {
        PlayerAction::Idle
    } else if wants_next(player) {
        decode_in(player, section_of(player.playhead))
    } else if wants_previous(player) {
        decode_in(player, section_of(player.playhead) - 1)
    } else {
        PlayerAction::Idle
    }
}

/// Whether the section `section` is more than two sections away from the playhead.
pub open spec fn is_far(player: PlayerView, section: int) -> bool {
    section < section_of(player.playhead) - 2 || section > section_of(player.playhead) + 2
}

/// `section` without its cache and its playback decoder.
pub open spec fn dropped(section: SectionView) -> SectionView {
    SectionView { live: false, cached: Seq::<Seq<char>>::empty(), first: section.first }
}

/// The player after every far section that holds cached frames dropped them.
pub open spec fn evicted(player: PlayerView) -> PlayerView {
    PlayerView {
        sections: Seq::new(
            player.sections.len(),
            |i: int|
                if is_far(player, i) && player.sections[i].cached.len() > 0 {
                    dropped(player.sections[i])
                } else {
                    player.sections[i]
                },
        ),
        ..player
    }
}

/// The player after `section` got a playback decoder.
pub open spec fn started(player: PlayerView, section: int) -> PlayerView {
    PlayerView {
        sections: player.sections.update(
            section,
            SectionView { live: true, ..player.sections[section] },
        ),
        ..player
    }
}

/// The player after `frame` was decoded in `section`.
pub open spec fn extended(player: PlayerView, section: int, frame: Seq<char>) -> PlayerView {
    PlayerView {
        sections: player.sections.update(
            section,
            SectionView {
                cached: player.sections[section].cached.push(frame),
                ..player.sections[section]
            },
        ),
        ..player
    }
}

/// Whether every frame that `player` keeps is the frame of `frames` at its position, and no
/// section caches more than it can hold.
pub open spec fn agrees(player: PlayerView, frames: Seq<Seq<char>>) -> bool {
    forall|s: int|
        0 <= s < player.sections.len() ==> {
            &&& (#[trigger] player.sections[s]).first == frames[s * SECTION_SIZE]
            &&& player.sections[s].cached.len() < SECTION_SIZE
            &&& forall|i: int|
                0 <= i < player.sections[s].cached.len() ==> #[trigger] player.sections[s].cached[i]
                    == frames[s * SECTION_SIZE + i + 1]
        }
}

/// The frame that the playback decoder of `section` yields next.
pub open spec fn next_frame_of(player: PlayerView, frames: Seq<Seq<char>>, section: int) -> Seq<
    char,
> {
    frames[section * SECTION_SIZE + player.sections[section].cached.len() + 1]
}

impl BufferedPlayer {
    /// A player without sections.
    pub fn new() -> (player: BufferedPlayer)
        ensures
            player@.sections.len() == 0,
            player@.playhead == 0,
            player@.last_frame == 0,
    {
        BufferedPlayer { sections: Vec::new(), playhead_position: 0, last_frame: 0 }
    }

    /// Adds a section, of which only the first frame is known.
    pub fn push_section(&mut self, first_frame: String)
        ensures
            final(self)@ == (PlayerView {
                sections: old(self)@.sections.push(
                    SectionView {
                        live: false,
                        cached: Seq::<Seq<char>>::empty(),
                        first: first_frame@,
                    },
                ),
                ..old(self)@
            }),
    {
        let section = BufferSection {
            has_playback: false,
            cached_frames: Vec::new(),
            first_frame,
        };
        assert(section@.cached =~= Seq::<Seq<char>>::empty());
        self.sections.push(section);
        assert(self@.sections =~= old(self)@.sections.push(section@));
    }

    /// Moves the playhead to `playhead_position` and hands out the frame there, if it is
    /// resident. No frame is ever decoded for the first frame of a section.
    ///
    /// Where the frame is not resident, `pending` says what has to be done for it to become
    /// so.
    pub fn get_frame(&mut self, playhead_position: usize) -> (frame: Option<&str>)
        requires
            section_of(playhead_position) < old(self)@.sections.len(),
        ensures
            final(self)@ == (PlayerView { playhead: playhead_position, ..old(self)@ }),
            match frame {
                Some(text) => resident(old(self)@, playhead_position) && text@ == frame_at(
                    old(self)@,
                    playhead_position,
                ),
                None => !resident(old(self)@, playhead_position),
            },
            offset_of(playhead_position) == 0 ==> frame is Some,
    {
        self.playhead_position = playhead_position;
        let section_idx = playhead_position / SECTION_SIZE;
        let frame_idx = playhead_position % SECTION_SIZE;
        let section = &self.sections[section_idx];
        if frame_idx == 0 {
            return Some(section.first_frame.as_str());
        }
        if section.cached_frames.len() < frame_idx {
            return None;
        }
        Some(section.cached_frames[frame_idx - 1].as_str())
    }

    /// What has to be done next for the frame under the playhead to become resident.
    pub fn pending(&self) -> (action: PlayerAction)
        ensures
            action == pending_action(self@),
    {
        let section_idx = self.playhead_position / SECTION_SIZE;
        let frame_idx = self.playhead_position % SECTION_SIZE;
        if section_idx >= self.sections.len() {
            return PlayerAction::Idle;
        }
        let section = &self.sections[section_idx];
        if section.cached_frames.len() >= frame_idx {
            PlayerAction::Idle
        } else if section.has_playback {
            PlayerAction::Advance(section_idx)
        } else {
            PlayerAction::StartPlayback(section_idx)
        }
    }

    /// What has to be done next to look ahead and behind of the playhead.
    ///
    /// Ahead, the one frame that follows the playhead is wanted, unless it opens the next
    /// section, where it is kept anyway. Behind, the section before the playhead's is wanted
    /// as far as the playhead has come towards it.
    pub fn prefetch(&self) -> (action: PlayerAction)
        ensures
            action == prefetch_action(self@),
    {
        let section_idx = self.playhead_position / SECTION_SIZE;
        let frame_idx = self.playhead_position % SECTION_SIZE;
        if section_idx >= self.sections.len() {
            return PlayerAction::Idle;
        }
        let section = &self.sections[section_idx];
        if section.cached_frames.len() < frame_idx {
            return PlayerAction::Idle;
        }
        if self.playhead_position != self.last_frame && frame_idx + 1 < SECTION_SIZE
            && section.cached_frames.len() < frame_idx + 1 {
            return if section.has_playback {
                PlayerAction::Advance(section_idx)
            } else {
                PlayerAction::StartPlayback(section_idx)
            };
        }
        if section_idx > 0 {
            let previous_section = &self.sections[section_idx - 1];
            if previous_section.cached_frames.len() < SECTION_SIZE - frame_idx - 1 {
                return if previous_section.has_playback {
                    PlayerAction::Advance(section_idx - 1)
                } else {
                    PlayerAction::StartPlayback(section_idx - 1)
                };
            }
        }
        PlayerAction::Idle
    }

    /// Notes that `section` has a playback decoder now.
    pub fn playback_started(&mut self, section: usize)
        requires
            section < old(self)@.sections.len(),
        ensures
            final(self)@ == started(old(self)@, section as int),
    {
        self.sections[section].has_playback = true;
        assert(self@.sections =~= started(old(self)@, section as int).sections);
    }

    /// Takes in the frame that the playback decoder of `section` yielded.
    pub fn frame_decoded(&mut self, section: usize, frame: String)
        requires
            section < old(self)@.sections.len(),
        ensures
            final(self)@ == extended(old(self)@, section as int, frame@),
    {
        self.sections[section].cached_frames.push(frame);
        assert(self.sections@[section as int]@.cached =~= old(self).sections@[section as int]@.cached.push(
            frame@,
        ));
        assert(self@.sections =~= extended(old(self)@, section as int, frame@).sections);
    }

    /// Whether `section` has a playback decoder.
    pub fn has_playback(&self, section: usize) -> (live: bool)
        requires
            section < self@.sections.len(),
        ensures
            live == self@.sections[section as int].live,
    {
        self.sections[section].has_playback
    }

    /// Drops the cached frames and the playback decoder of every section that is more than
    /// two sections away from the playhead. What is dropped can be decoded again from the
    /// checkpoint of its section.
    pub fn evict(&mut self)
        ensures
            final(self)@ == evicted(old(self)@),
    {
        let section_idx = self.playhead_position / SECTION_SIZE;
        let mut i: usize = 0;
        while i < self.sections.len()
            invariant
                i <= self.sections.len(),
                self.sections@.len() == old(self).sections@.len(),
                self.playhead_position == old(self).playhead_position,
                self.last_frame == old(self).last_frame,
                section_idx == section_of(self.playhead_position),
                forall|k: int| 0 <= k < i ==> (#[trigger] self.sections@[k])@ == evicted(old(self)@).sections[k],
                forall|k: int| i <= k < self.sections@.len() ==> #[trigger] self.sections@[k] == old(self).sections@[k],
            decreases self.sections.len() - i,
        {
            let far = (section_idx >= 2 && i < section_idx - 2) || (i >= 2 && i - 2 > section_idx);
            if far && self.sections[i].cached_frames.len() > 0 {
                self.sections[i].cached_frames = Vec::new();
                self.sections[i].has_playback = false;
                assert(self.sections@[i as int]@.cached =~= Seq::<Seq<char>>::empty());
            }
            i += 1;
        }
        assert(self@.sections =~= evicted(old(self)@).sections);
    }
}

/// The first frame of a section is always resident, so that seeking to it decodes nothing.
pub proof fn lemma_section_start_needs_no_decoding(player: PlayerView, section: usize)
    requires
        section < player.sections.len(),
        section * SECTION_SIZE <= usize::MAX,
    ensures
        resident(player, (section * SECTION_SIZE) as usize),
        frame_at(player, (section * SECTION_SIZE) as usize) == player.sections[section as int].first,
        pending_action(PlayerView { playhead: (section * SECTION_SIZE) as usize, ..player })
            == PlayerAction::Idle,
{
    assert((section * 1024) / 1024 == section && (section * 1024) % 1024 == 0) by (nonlinear_arith);
}

/// Seeking to the same position twice changes nothing the second time, and finds the same
/// frame.
pub proof fn lemma_seek_is_idempotent(player: PlayerView, position: usize)
    ensures
        ({
            let once = PlayerView { playhead: position, ..player };
            let twice = PlayerView { playhead: position, ..once };
            &&& twice == once
            &&& resident(once, position) == resident(player, position)
            &&& frame_at(once, position) == frame_at(player, position)
        }),
{
}

/// A resident frame is the frame of the session at its position, whatever was decoded or
/// dropped before.
pub proof fn lemma_resident_frame_is_true(
    player: PlayerView,
    frames: Seq<Seq<char>>,
    position: usize,
)
    requires
        agrees(player, frames),
        resident(player, position),
    ensures
        frame_at(player, position) == frames[position as int],
{
    let s = section_of(position);
    let o = offset_of(position);
    assert(s * 1024 + o == position) by (nonlinear_arith)
        requires
            s == position as int / 1024,
            o == position as int % 1024,
    ;
    assert(player.sections[s].first == frames[s * SECTION_SIZE]);
    if o > 0 {
        assert(player.sections[s].cached[o - 1] == frames[s * SECTION_SIZE + (o - 1) + 1]);
    }
}

/// Moving the playhead, starting a playback decoder, taking in the frame that a playback
/// decoder yields, and dropping far sections all keep the player in agreement with the
/// session.
pub proof fn lemma_agreement_is_kept(
    player: PlayerView,
    frames: Seq<Seq<char>>,
    position: usize,
    section: int,
)
    requires
        agrees(player, frames),
        0 <= section < player.sections.len(),
    ensures
        agrees(PlayerView { playhead: position, ..player }, frames),
        agrees(started(player, section), frames),
        player.sections[section].cached.len() + 1 < SECTION_SIZE ==> agrees(
            extended(player, section, next_frame_of(player, frames, section)),
            frames,
        ),
        agrees(evicted(player), frames),
{
    let after_start = started(player, section);
    assert forall|s: int| 0 <= s < after_start.sections.len() implies {
        &&& (#[trigger] after_start.sections[s]).first == frames[s * SECTION_SIZE]
        &&& after_start.sections[s].cached.len() < SECTION_SIZE
        &&& forall|i: int|
            0 <= i < after_start.sections[s].cached.len() ==> #[trigger] after_start.sections[s].cached[i]
                == frames[s * SECTION_SIZE + i + 1]
    } by {
        assert(player.sections[s].first == frames[s * SECTION_SIZE]);
    }
    if player.sections[section].cached.len() + 1 < SECTION_SIZE {
        let longer = extended(player, section, next_frame_of(player, frames, section));
        assert forall|s: int| 0 <= s < longer.sections.len() implies {
            &&& (#[trigger] longer.sections[s]).first == frames[s * SECTION_SIZE]
            &&& longer.sections[s].cached.len() < SECTION_SIZE
            &&& forall|i: int|
                0 <= i < longer.sections[s].cached.len() ==> #[trigger] longer.sections[s].cached[i]
                    == frames[s * SECTION_SIZE + i + 1]
        } by {
            assert(player.sections[s].first == frames[s * SECTION_SIZE]);
            assert forall|i: int| 0 <= i < longer.sections[s].cached.len() implies #[trigger] longer.sections[s].cached[i]
                == frames[s * SECTION_SIZE + i + 1] by {
                if s != section || i < player.sections[s].cached.len() {
                    assert(player.sections[s].cached[i] == frames[s * SECTION_SIZE + i + 1]);
                }
            }
        }
    }
    let after_evict = evicted(player);
    assert forall|s: int| 0 <= s < after_evict.sections.len() implies {
        &&& (#[trigger] after_evict.sections[s]).first == frames[s * SECTION_SIZE]
        &&& after_evict.sections[s].cached.len() < SECTION_SIZE
        &&& forall|i: int|
            0 <= i < after_evict.sections[s].cached.len() ==> #[trigger] after_evict.sections[s].cached[i]
                == frames[s * SECTION_SIZE + i + 1]
    } by {
        assert(player.sections[s].first == frames[s * SECTION_SIZE]);
    }
}

/// Looking ahead decodes one frame at most: once the frame that a look-ahead asked for is
/// taken in, the next look-ahead asks for nothing more in the section of the playhead.
pub proof fn lemma_look_ahead_is_one_frame(player: PlayerView, frame: Seq<char>)
    requires
        resident(player, player.playhead),
        wants_next(player),
    ensures
        !wants_next(extended(player, section_of(player.playhead), frame)),
        resident(extended(player, section_of(player.playhead), frame), player.playhead),
{
}

/// A seek decodes what is missing and no more: every frame that it asks for is one of the
/// section of the playhead, brings the cache one frame closer to the playhead, and is the
/// last one exactly when the cache reaches the playhead with it.
pub proof fn lemma_seek_decodes_what_is_missing(player: PlayerView, frame: Seq<char>)
    requires
        pending_action(player) is Advance,
    ensures
        ({
            let section = section_of(player.playhead);
            let after = extended(player, section, frame);
            &&& pending_action(player) == PlayerAction::Advance(section as usize)
            &&& player.sections[section].cached.len() < offset_of(player.playhead)
            &&& after.sections[section].cached.len() == player.sections[section].cached.len() + 1
            &&& pending_action(after) == (if after.sections[section].cached.len() == offset_of(
                player.playhead,
            ) {
                PlayerAction::Idle
            } else {
                PlayerAction::Advance(section as usize)
            })
        }),
{
}

/// Dropping far sections never drops the section of the playhead nor one of its
/// neighbours, so the frame under the playhead stays resident.
pub proof fn lemma_evict_keeps_near(player: PlayerView, section: int)
    requires
        0 <= section < player.sections.len(),
        !is_far(player, section),
    ensures
        evicted(player).sections[section] == player.sections[section],
        resident(player, player.playhead) ==> resident(evicted(player), player.playhead),
{
}

/// Why a seek was refused.
#[derive(Debug, Clone, Copy, PartialEq, Eq, Structural, Hash)]
pub enum SeekError {
    FrameOutOfBound,
    TickOutOfBound,
}

impl SeekError {
    /// The words in which the refusal is reported.
    pub open spec fn spec_message(self) -> Seq<char> {
        match self {
            SeekError::FrameOutOfBound => "Seeking to a frame out of bound"@,
            SeekError::TickOutOfBound => "Seeking to a tick out of bound"@,
        }
    }

    /// The words in which the refusal is reported.
    pub fn message(&self) -> (text: &'static str)
        ensures
            text@ == self.spec_message(),
    {
        match self {
            SeekError::FrameOutOfBound => "Seeking to a frame out of bound",
            SeekError::TickOutOfBound => "Seeking to a tick out of bound",
        }
    }
}

/// The frame to show for the tick `tick`: the last frame whose tick is not above `tick`, or
/// the first frame where `tick` is before every frame.
pub open spec fn floor_frame(ticks: Seq<u32>, tick: int) -> int
    decreases ticks.len(),
{
    if ticks.len() == 0 {
        0
    } else if ticks.last() <= tick {
        ticks.len() - 1
    } else {
        floor_frame(ticks.drop_last(), tick)
    }
}

/// The highest tick of `ticks`.
pub open spec fn highest_tick(ticks: Seq<u32>) -> int
    decreases ticks.len(),
{
    if ticks.len() == 0 {
        0
    } else if highest_tick(ticks.drop_last()) < ticks.last() {
        ticks.last() as int
    } else {
        highest_tick(ticks.drop_last())
    }
}

/// What `floor_frame` means: it is a frame of the session; no later frame has a tick that is
/// not above `tick`; and its own tick is not above `tick` unless every frame's is.
pub proof fn lemma_floor_frame(ticks: Seq<u32>, tick: int)
    requires
        ticks.len() > 0,
    ensures
        0 <= floor_frame(ticks, tick) < ticks.len(),
        forall|f: int| floor_frame(ticks, tick) < f < ticks.len() ==> #[trigger] ticks[f] > tick,
        ticks[floor_frame(ticks, tick)] <= tick || forall|f: int|
            0 <= f < ticks.len() ==> #[trigger] ticks[f] > tick,
    decreases ticks.len(),
{
    if ticks.last() > tick {
        let front = ticks.drop_last();
        if front.len() > 0 {
            lemma_floor_frame(front, tick);
            assert forall|f: int| floor_frame(ticks, tick) < f < ticks.len() implies #[trigger] ticks[f]
                > tick by {
                if f < front.len() {
                    assert(front[f] == ticks[f]);
                }
            }
            assert(front[floor_frame(front, tick)] == ticks[floor_frame(ticks, tick)]);
            if ticks[floor_frame(ticks, tick)] > tick {
                assert forall|f: int| 0 <= f < ticks.len() implies #[trigger] ticks[f] > tick by {
                    if f < front.len() {
                        assert(front[f] == ticks[f]);
                    }
                }
            }
        } else {
            assert forall|f: int| 0 <= f < ticks.len() implies #[trigger] ticks[f] > tick by {}
        }
    }
}

/// A later tick is never shown an earlier frame.
pub proof fn lemma_floor_frame_ascends(ticks: Seq<u32>, earlier: int, later: int)
    requires
        earlier <= later,
    ensures
        floor_frame(ticks, earlier) <= floor_frame(ticks, later),
    decreases ticks.len(),
{
    if ticks.len() > 0 {
        lemma_floor_frame_ascends(ticks.drop_last(), earlier, later);
        if ticks.last() <= later && ticks.last() > earlier {
            if ticks.drop_last().len() > 0 {
                lemma_floor_frame(ticks.drop_last(), earlier);
            }
        }
    }
}

/// The tick of a frame is shown that very frame, unless a later frame has a tick that is
/// not above it.
pub proof fn lemma_floor_frame_of_own_tick(ticks: Seq<u32>, frame: int)
    requires
        0 <= frame < ticks.len(),
        forall|later: int| frame < later < ticks.len() ==> #[trigger] ticks[later] > ticks[frame],
    ensures
        floor_frame(ticks, ticks[frame] as int) == frame,
    decreases ticks.len(),
{
    if frame < ticks.len() - 1 {
        let front = ticks.drop_last();
        assert(ticks.last() == ticks[ticks.len() - 1]);
        assert(front[frame] == ticks[frame]);
        assert forall|later: int| frame < later < front.len() implies #[trigger] front[later]
            > front[frame] by {
            assert(front[later] == ticks[later]);
        }
        lemma_floor_frame_of_own_tick(front, frame);
    }
}

/// No tick of `ticks` is above the highest.
pub proof fn lemma_highest_tick(ticks: Seq<u32>)
    ensures
        forall|f: int| 0 <= f < ticks.len() ==> #[trigger] ticks[f] <= highest_tick(ticks),
        0 <= highest_tick(ticks) <= u32::MAX,
    decreases ticks.len(),
{
    if ticks.len() > 0 {
        let front = ticks.drop_last();
        lemma_highest_tick(front);
        assert forall|f: int| 0 <= f < ticks.len() implies #[trigger] ticks[f] <= highest_tick(
            ticks,
        ) by {
            if f < front.len() {
                assert(front[f] == ticks[f]);
            }
        }
    }
}

/// The table of ticks once the frame `frame` was decoded at the tick `tick`, which is not
/// zero. The frame is shown for `tick` and for every tick after it; the ticks between the
/// end of the table and `tick` are shown the frame before; the ticks before that keep
/// their frame.
pub open spec fn table_with_frame(table: Seq<usize>, tick: int, frame: int) -> Seq<usize> {
    Seq::new(
        (if table.len() > tick {
            table.len()
        } else {
            (tick + 1) as nat
        }),
        |t: int|
            if t >= tick {
                frame as usize
            } else if t < table.len() {
                table[t]
            } else if frame > 0 {
                (frame - 1) as usize
            } else {
                0usize
            },
    )
}

/// The number of sections that `frames` frames fill or begin.
pub open spec fn sections_for(frames: int) -> int {
    (frames + SECTION_SIZE - 1) / SECTION_SIZE as int
}

/// The indices of a session and the frames kept of it.
#[derive(Debug, Clone, PartialEq, Eq)]
pub struct DemoPlayerState {
    /// Whether decoding ended in an error before the end of the stream.
    pub is_corrupted: bool,
    /// The tick of every frame.
    pub frame_to_tick: Vec<u32>,
    /// The frame to show for every tick up to the highest.
    pub tick_to_frame: Vec<usize>,
    /// The serialized analysis of the whole session.
    pub final_state: String,
    pub player: BufferedPlayer,
}

impl DemoPlayerState {
    /// The indices fit each other and the sections.
    ///
    /// No frame has tick 0. The table of ticks reaches up to the highest tick, and shows for
    /// every tick the last frame whose tick is not above it. There is a section for every
    /// frame and none besides.
    pub open spec fn wf(&self) -> bool {
        &&& self.indices_wf()
        &&& self.sections_wf()
    }

    /// The two indices fit each other: no frame has tick 0, and the table of ticks reaches
    /// up to the highest tick and shows for every tick the last frame whose tick is not
    /// above it.
    pub open spec fn indices_wf(&self) -> bool {
        &&& forall|f: int| 0 <= f < self.frame_to_tick@.len() ==> #[trigger] self.frame_to_tick@[f] != 0
        &&& self.tick_to_frame@.len() == (if self.frame_to_tick@.len() == 0 {
            0
        } else {
            highest_tick(self.frame_to_tick@) + 1
        })
        &&& forall|t: int|
            0 <= t < self.tick_to_frame@.len() ==> #[trigger] self.tick_to_frame@[t] == floor_frame(
                self.frame_to_tick@,
                t,
            )
    }

    /// There is a section for every frame and none besides.
    pub open spec fn sections_wf(&self) -> bool {
        self.player@.sections.len() == sections_for(self.frame_to_tick@.len() as int)
    }

    /// The indices of a session of which no frame was decoded yet.
    pub fn new() -> (state: DemoPlayerState)
        ensures
            state.wf(),
            !state.is_corrupted,
            state.frame_to_tick@.len() == 0,
            state.tick_to_frame@.len() == 0,
            state.final_state@.len() == 0,
            state.player@.sections.len() == 0,
            state.player@.playhead == 0,
            state.player@.last_frame == 0,
    {
        DemoPlayerState {
            is_corrupted: false,
            frame_to_tick: Vec::new(),
            tick_to_frame: Vec::new(),
            final_state: String::new(),
            player: BufferedPlayer::new(),
        }
    }

    /// Whether the frame that the tick `current_tick` brings opens a section, so that a
    /// checkpoint has to be taken with it. Tick 0 brings no frame.
    pub open spec fn opens_section(&self, current_tick: u32) -> bool {
        current_tick != 0 && self.frame_to_tick@.len() % SECTION_SIZE as nat == 0
    }

    /// Whether the frame that the tick `current_tick` brings opens a section.
    pub fn needs_checkpoint(&self, current_tick: u32) -> (needed: bool)
        ensures
            needed == self.opens_section(current_tick),
    {
        current_tick != 0 && self.frame_to_tick.len() % SECTION_SIZE == 0
    }

    /// Records that the decoder went through the tick `current_tick`.
    ///
    /// Tick 0, which the decoder reports while the stream sets itself up, brings no frame.
    /// Any other tick brings the next frame, which is shown for this tick and for every tick
    /// after it. A section is added for `first_frame`, which is to be given exactly where
    /// `needs_checkpoint` asks for it: it is the frame that opens the section, serialized.
    pub fn record_tick(&mut self, current_tick: u32, first_frame: Option<String>)
        ensures
            final(self).tick_to_frame@ == (if current_tick == 0 {
                old(self).tick_to_frame@
            } else {
                table_with_frame(
                    old(self).tick_to_frame@,
                    current_tick as int,
                    old(self).frame_to_tick@.len() as int,
                )
            }),
            old(self).indices_wf() ==> final(self).indices_wf(),
            old(self).sections_wf() && (first_frame is Some <==> old(self).opens_section(
                current_tick,
            )) ==> final(self).sections_wf(),
            final(self).is_corrupted == old(self).is_corrupted,
            final(self).final_state == old(self).final_state,
            final(self).frame_to_tick@ == (if current_tick == 0 {
                old(self).frame_to_tick@
            } else {
                old(self).frame_to_tick@.push(current_tick)
            }),
            final(self).player@ == (match first_frame {
                Some(first) if current_tick != 0 => PlayerView {
                    sections: old(self).player@.sections.push(
                        SectionView {
                            live: false,
                            cached: Seq::<Seq<char>>::empty(),
                            first: first@,
                        },
                    ),
                    ..old(self).player@
                },
                _ => old(self).player@,
            }),
    {
        if current_tick == 0 {
            return ;
        }
        let frame = self.frame_to_tick.len();
        let tick = current_tick as usize;
        let ghost before = self.frame_to_tick@;
        self.frame_to_tick.push(current_tick);
        let ghost after = self.frame_to_tick@;
        proof {
            assert(after.drop_last() =~= before);
            lemma_highest_tick(before);
            assert forall|t: int| 0 <= t < tick implies floor_frame(after, t) == floor_frame(
                before,
                t,
            ) by {}
            assert forall|t: int| tick <= t implies floor_frame(after, t) == frame by {}
            assert forall|t: int| highest_tick(before) < t && frame > 0 implies floor_frame(
                before,
                t,
            ) == frame - 1 by {
                assert(before.last() == before[frame - 1]);
            }
        }
        let mut t = tick;
        while t < self.tick_to_frame.len()
            invariant
                tick <= t,
                self.frame_to_tick@ == after,
                self.tick_to_frame@.len() == old(self).tick_to_frame@.len(),
                self.player == old(self).player,
                self.is_corrupted == old(self).is_corrupted,
                self.final_state == old(self).final_state,
                forall|k: int|
                    0 <= k < self.tick_to_frame@.len() && (k < tick || k >= t)
                        ==> #[trigger] self.tick_to_frame@[k] == old(self).tick_to_frame@[k],
                forall|k: int| tick <= k < t && k < self.tick_to_frame@.len() ==> #[trigger] self.tick_to_frame@[k] == frame,
            decreases self.tick_to_frame.len() - t,
        {
            self.tick_to_frame[t] = frame;
            t += 1;
        }
        let previous = if frame > 0 {
            frame - 1
        } else {
            0
        };
        while self.tick_to_frame.len() < tick
            invariant
                self.frame_to_tick@ == after,
                self.tick_to_frame@.len() >= old(self).tick_to_frame@.len(),
                self.player == old(self).player,
                self.is_corrupted == old(self).is_corrupted,
                self.final_state == old(self).final_state,
                old(self).tick_to_frame@.len() >= tick ==> self.tick_to_frame@.len() == old(
                    self,
                ).tick_to_frame@.len(),
                old(self).tick_to_frame@.len() < tick ==> self.tick_to_frame@.len() <= tick,
                forall|k: int|
                    0 <= k < old(self).tick_to_frame@.len() && k < tick ==> #[trigger] self.tick_to_frame@[k]
                        == old(self).tick_to_frame@[k],
                forall|k: int| tick <= k < self.tick_to_frame@.len() ==> #[trigger] self.tick_to_frame@[k] == frame,
                forall|k: int|
                    old(self).tick_to_frame@.len() <= k < self.tick_to_frame@.len() && k < tick
                        ==> #[trigger] self.tick_to_frame@[k] == previous,
            decreases tick - self.tick_to_frame.len(),
        {
            self.tick_to_frame.push(previous);
        }
        if self.tick_to_frame.len() == tick {
            self.tick_to_frame.push(frame);
        }
        proof {
            assert(highest_tick(after) == if highest_tick(before) < current_tick {
                current_tick as int
            } else {
                highest_tick(before)
            });
            assert(self.tick_to_frame@ =~= table_with_frame(
                old(self).tick_to_frame@,
                current_tick as int,
                frame as int,
            ));
            assert forall|k: int| old(self).indices_wf() && 0 <= k < self.tick_to_frame@.len() implies #[trigger] self.tick_to_frame@[k]
                == floor_frame(after, k) by {
                if k < tick {
                    if k < old(self).tick_to_frame@.len() {
                        assert(old(self).tick_to_frame@[k] == floor_frame(before, k));
                    } else {
                        if frame == 0 {
                            assert(before.len() == 0);
                        }
                    }
                }
            }
            assert(sections_for(frame + 1) == (if frame % SECTION_SIZE == 0 {
                sections_for(frame as int) + 1
            } else {
                sections_for(frame as int)
            })) by (nonlinear_arith)
                requires
                    frame >= 0,
            ;
        }
        match first_frame {
            Some(first) => {
                self.player.push_section(first);
            },
            None => {},
        }
    }

    /// Ends the pass over the session: `is_corrupted` says whether decoding ended in an
    /// error, `final_state` is the serialized analysis of all that was decoded. The indices
    /// stay as they are: they cover the frames that were decoded before the error.
    pub fn finish(&mut self, is_corrupted: bool, final_state: String)
        ensures
            final(self).is_corrupted == is_corrupted,
            final(self).final_state == final_state,
            final(self).frame_to_tick == old(self).frame_to_tick,
            final(self).tick_to_frame == old(self).tick_to_frame,
            final(self).player@ == (PlayerView {
                last_frame: if old(self).frame_to_tick@.len() > 0 {
                    (old(self).frame_to_tick@.len() - 1) as usize
                } else {
                    0
                },
                ..old(self).player@
            }),
            old(self).wf() ==> final(self).wf(),
    {
        self.is_corrupted = is_corrupted;
        self.final_state = final_state;
        self.player.last_frame = if self.frame_to_tick.len() > 0 {
            self.frame_to_tick.len() - 1
        } else {
            0
        };
    }

    /// Moves the playhead to the frame `frame`, which must be a frame of the session.
    pub fn seek_frame(&mut self, frame: usize) -> (found: Result<(), SeekError>)
        ensures
            found is Ok <==> frame < old(self).frame_to_tick@.len() && section_of(frame) < old(
                self,
            ).player@.sections.len(),
            old(self).wf() ==> (found is Ok <==> frame < old(self).frame_to_tick@.len()),
            found is Err ==> found == Err::<(), SeekError>(SeekError::FrameOutOfBound)
                && *final(self) == *old(self),
            found is Ok ==> *final(self) == (DemoPlayerState {
                player: final(self).player,
                ..*old(self)
            }) && final(self).player@ == (PlayerView { playhead: frame, ..old(self).player@ }),
    {
        proof {
            let frames = self.frame_to_tick@.len() as int;
            assert(frame < frames && self.player@.sections.len() == sections_for(frames)
                ==> frame as int / 1024 < self.player@.sections.len()) by (nonlinear_arith)
                requires
                    sections_for(frames) == (frames + 1024 - 1) / 1024,
            ;
        }
        if frame < self.frame_to_tick.len() && frame / SECTION_SIZE < self.player.sections.len() {
            let _ = self.player.get_frame(frame);
            Ok(())
        } else {
            Err(SeekError::FrameOutOfBound)
        }
    }

    /// Moves the playhead to the frame to show for the tick `tick`, which must not be above
    /// the highest tick of the session: the last frame whose tick is not above `tick`.
    pub fn seek_tick(&mut self, tick: usize) -> (found: Result<usize, SeekError>)
        ensures
            found is Ok <==> tick < old(self).tick_to_frame@.len() && section_of(
                old(self).tick_to_frame@[tick as int],
            ) < old(self).player@.sections.len(),
            old(self).wf() ==> (found is Ok <==> tick < old(self).tick_to_frame@.len()),
            old(self).wf() && found is Ok ==> found->Ok_0 == floor_frame(
                old(self).frame_to_tick@,
                tick as int,
            ) && found->Ok_0 < old(self).frame_to_tick@.len(),
            found is Err ==> found == Err::<usize, SeekError>(SeekError::TickOutOfBound)
                && *final(self) == *old(self),
            found matches Ok(frame) ==> frame == old(self).tick_to_frame@[tick as int]
                && *final(self) == (DemoPlayerState { player: final(self).player, ..*old(self) })
                && final(self).player@ == (PlayerView { playhead: frame, ..old(self).player@ }),
    {
        if tick < self.tick_to_frame.len() {
            let frame = self.tick_to_frame[tick];
            proof {
                if self.wf() {
                    lemma_floor_frame(self.frame_to_tick@, tick as int);
                    let frames = self.frame_to_tick@.len() as int;
                    assert(frame < frames && self.player@.sections.len() == sections_for(frames)
                        ==> frame as int / 1024 < self.player@.sections.len())
                        by (nonlinear_arith)
                        requires
                            sections_for(frames) == (frames + 1024 - 1) / 1024,
                    ;
                }
            }
            if frame / SECTION_SIZE < self.player.sections.len() {
                let _ = self.player.get_frame(frame);
                return Ok(frame);
            }
        }
        Err(SeekError::TickOutOfBound)
    }
}

/// The table of ticks of a well-formed session never steps back, and it leads from the tick
/// of a frame back to that frame wherever the ticks of all later frames are higher.
pub proof fn lemma_indices_are_consistent(state: DemoPlayerState, earlier: int, later: int, frame: int)
    requires
        state.wf(),
        0 <= earlier <= later < state.tick_to_frame@.len(),
        0 <= frame < state.frame_to_tick@.len(),
    ensures
        state.tick_to_frame@[earlier] <= state.tick_to_frame@[later],
        (state.frame_to_tick@[frame] as int) < state.tick_to_frame@.len(),
        (forall|f: int|
            frame < f < state.frame_to_tick@.len() ==> #[trigger] state.frame_to_tick@[f]
                > state.frame_to_tick@[frame]) ==> state.tick_to_frame@[state.frame_to_tick@[frame] as int]
            == frame,
{
    lemma_floor_frame_ascends(state.frame_to_tick@, earlier, later);
    lemma_highest_tick(state.frame_to_tick@);
    if forall|f: int|
        frame < f < state.frame_to_tick@.len() ==> #[trigger] state.frame_to_tick@[f]
            > state.frame_to_tick@[frame] {
        lemma_floor_frame_of_own_tick(state.frame_to_tick@, frame);
    }
}

/// One conversation over the line protocol: the session that is loaded, if any, and whether
/// the player looks ahead after a seek.
#[derive(Debug, Clone, PartialEq, Eq)]
pub struct Session {
    pub demo: Option<DemoPlayerState>,
    pub prefetch: bool,
}

/// What is to be done and written in answer to one line of the protocol.
#[derive(Debug, Clone, PartialEq, Eq)]
pub enum Reply {
    /// Read the session at this path, scan it and `install` it; write what was loaded, or
    /// why nothing was.
    Load(String),
    /// Make the frame under the playhead resident and write it; then look ahead and behind
    /// if the conversation asks for it, and evict.
    Frame,
    /// Write the tick of every frame.
    FrameToTick,
    /// Write the frame of every tick.
    TickToFrame,
    /// Write the analysis of the whole session.
    Analysis,
    /// Write this text as the result.
    Result(String),
    /// Write this text as the error.
    Error(String),
}

/// `Reply` with its text as a sequence of characters.
pub enum ReplyView {
    Load(Seq<char>),
    Frame,
    FrameToTick,
    TickToFrame,
    Analysis,
    Result(Seq<char>),
    Error(Seq<char>),
}

impl View for Reply {
    type V = ReplyView;

    open spec fn view(&self) -> ReplyView {
        match *self {
            Reply::Load(path) => ReplyView::Load(path@),
            Reply::Frame => ReplyView::Frame,
            Reply::FrameToTick => ReplyView::FrameToTick,
            Reply::TickToFrame => ReplyView::TickToFrame,
            Reply::Analysis => ReplyView::Analysis,
            Reply::Result(text) => ReplyView::Result(text@),
            Reply::Error(text) => ReplyView::Error(text@),
        }
    }
}

/// Whether the frame `frame` can be sought in `demo`.
pub open spec fn frame_in_reach(demo: DemoPlayerState, frame: usize) -> bool {
    frame < demo.frame_to_tick@.len() && section_of(frame) < demo.player@.sections.len()
}

/// Whether the tick `tick` can be sought in `demo`.
pub open spec fn tick_in_reach(demo: DemoPlayerState, tick: usize) -> bool {
    tick < demo.tick_to_frame@.len() && section_of(demo.tick_to_frame@[tick as int])
        < demo.player@.sections.len()
}

/// The answer to the line `line` in the conversation `session`.
///
/// A line that is no command, a seek out of bounds, and a question about a session while
/// none is loaded are answered with an error and change nothing.
pub open spec fn reply_to(session: Session, line: Seq<char>) -> ReplyView {
    match spec_parse_command(line) {
        None => ReplyView::Error("Can't parse command: \""@ + line + "\""@),
        Some(CommandView::Load(path)) => ReplyView::Load(path),
        Some(CommandView::Prefetch(on)) => ReplyView::Result(
            if on {
                "Prefetching enabled"@
            } else {
                "Prefetching disabled"@
            },
        ),
        Some(command) => match session.demo {
            None => ReplyView::Error("No demo loaded"@),
            Some(demo) => match command {
                CommandView::Frame(frame) => if frame_in_reach(demo, frame) {
                    ReplyView::Frame
                } else {
                    ReplyView::Error(SeekError::FrameOutOfBound.spec_message())
                },
                CommandView::Tick(tick) => if tick_in_reach(demo, tick) {
                    ReplyView::Frame
                } else {
                    ReplyView::Error(SeekError::TickOutOfBound.spec_message())
                },
                CommandView::FrameToTick => ReplyView::FrameToTick,
                CommandView::TickToFrame => ReplyView::TickToFrame,
                _ => ReplyView::Analysis,
            },
        },
    }
}

/// The position of the playhead after the line `line` in the conversation `session`, where
/// a session is loaded.
pub open spec fn playhead_after(session: Session, line: Seq<char>) -> usize {
    let demo = session.demo->0;
    match spec_parse_command(line) {
        Some(CommandView::Frame(frame)) => if frame_in_reach(demo, frame) {
            frame
        } else {
            demo.player.playhead_position
        },
        Some(CommandView::Tick(tick)) => if tick_in_reach(demo, tick) {
            demo.tick_to_frame@[tick as int]
        } else {
            demo.player.playhead_position
        },
        _ => demo.player.playhead_position,
    }
}

impl Session {
    /// A conversation in which no session is loaded yet. The player looks ahead unless told
    /// otherwise.
    pub fn new() -> (session: Session)
        ensures
            session.demo is None,
            session.prefetch,
    {
        Session { demo: None, prefetch: true }
    }

    /// Makes `demo` the loaded session, in place of the one that was.
    pub fn install(&mut self, demo: DemoPlayerState)
        ensures
            final(self).demo == Some(demo),
            final(self).prefetch == old(self).prefetch,
    {
        self.demo = Some(demo);
    }

    /// Answers one line of the protocol.
    ///
    /// A seek within bounds moves the playhead, and a `prefetch` command sets whether the
    /// player looks ahead. Nothing else changes the conversation.
    pub fn respond(&mut self, line: &str) -> (reply: Reply)
        ensures
            reply@ == reply_to(*old(self), line@),
            final(self).prefetch == (match spec_parse_command(line@) {
                Some(CommandView::Prefetch(on)) => on,
                _ => old(self).prefetch,
            }),
            final(self).demo is Some == old(self).demo is Some,
            old(self).demo matches Some(demo) ==> final(self).demo->0 == (DemoPlayerState {
                player: final(self).demo->0.player,
                ..demo
            }) && final(self).demo->0.player@ == (PlayerView {
                playhead: playhead_after(*old(self), line@),
                ..demo.player@
            }),
    {
        let command = match Command::from_str(line) {
            Some(command) => command,
            None => {
                let mut text = "Can't parse command: \"".to_owned();
                text.append(line);
                text.append("\"");
                return Reply::Error(text);
            },
        };
        match command {
            Command::Load(path) => Reply::Load(path),
            Command::Prefetch(on) => {
                self.prefetch = on;
                if on {
                    Reply::Result("Prefetching enabled".to_owned())
                } else {
                    Reply::Result("Prefetching disabled".to_owned())
                }
            },
            command => match &mut self.demo {
                None => Reply::Error("No demo loaded".to_owned()),
                Some(demo) => match command {
                    Command::Frame(frame) => match demo.seek_frame(frame) {
                        Ok(()) => Reply::Frame,
                        Err(e) => Reply::Error(e.message().to_owned()),
                    },
                    Command::Tick(tick) => match demo.seek_tick(tick) {
                        Ok(_) => Reply::Frame,
                        Err(e) => Reply::Error(e.message().to_owned()),
                    },
                    Command::FrameToTick => Reply::FrameToTick,
                    Command::TickToFrame => Reply::TickToFrame,
                    _ => Reply::Analysis,
                },
            },
        }
    }
}

} // verus!
