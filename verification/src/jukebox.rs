//! Decisions of the music substitution engine.
//!
//! One thread of the engine polls the emulated game's memory and turns each
//! change of what it reads into an event; another plays music and follows
//! the events. What is read, what is played and when the threads sleep is
//! up to them; this module decides which event a change stands for and what
//! an event does to the playback.

use vstd::prelude::*;

pub mod scenes;
pub mod tracks;
pub mod utils;

use scenes::{
    SCENE_MAIN_MENU, SCENE_TITLE_SCREEN, SCENE_TROPHY_LOTTERY, SCENE_VS_ONLINE,
    SCENE_VS_ONLINE_RANKED, SCENE_VS_ONLINE_VERSUS,
};
use tracks::TrackId;
use utils::{in_game, in_menus, is_in_game, is_in_menus};

verus! {

/// How long each thread of the engine sleeps between two looks, in
/// milliseconds.
pub const THREAD_LOOP_SLEEP_TIME_MS: u64 = 30;

/// How many threads the engine runs.
pub const CHILD_THREAD_COUNT: usize = 2;

/// The engine plays music slightly louder than the game does, so the overall
/// music volume is reduced to this many hundredths.
pub const VOLUME_REDUCTION_PERCENT: u8 = 80;

/// While the game is paused the music plays at this many hundredths of its
/// volume.
pub const PAUSE_VOLUME_PERCENT: u8 = 20;

/// Where in the emulated memory the game keeps its music volume setting.
pub const MELEE_VOLUME_OFFSET: usize = 0x45C384;

/// Where in the emulated memory the game keeps the major code of the scene.
pub const SCENE_MAJOR_OFFSET: usize = 0x479D30;

/// Where in the emulated memory the game keeps the minor code of the scene.
pub const SCENE_MINOR_OFFSET: usize = 0x479D33;

/// Where in the emulated memory the game keeps the stage id.
pub const STAGE_ID_OFFSET: usize = 0x49E753;

/// Where in the emulated memory the game keeps the state of the match: 0 in
/// game, 1 on the screen that ends it, 2 when a stage is cleared, 3 in the
/// menus.
pub const MATCH_INFO_OFFSET: usize = 0x46B6A0;

/// Where in the emulated memory the game keeps its pause flag.
pub const PAUSED_OFFSET: usize = 0x4D640F;

/// One reading of the emulated game's state.
#[derive(Copy, Clone, Debug, PartialEq, Eq, Structural)]
pub struct DolphinGameState {
    pub in_game: bool,
    pub in_menus: bool,
    pub scene_major: u8,
    pub scene_minor: u8,
    pub stage_id: u8,
    /// A code for the music volume: two readings have the same code where
    /// their volumes are equal, and only there.
    pub volume: u32,
    pub is_paused: bool,
    pub match_info: u8,
}

impl Default for DolphinGameState {
    /// The state before anything was read: the main menu, silent.
    fn default() -> (state: Self)
        ensures
            state == (DolphinGameState {
                in_game: false,
                in_menus: false,
                scene_major: SCENE_MAIN_MENU,
                scene_minor: 0,
                stage_id: 0,
                volume: 0,
                is_paused: false,
                match_info: 0,
            }),
    {
        DolphinGameState {
            in_game: false,
            in_menus: false,
            scene_major: SCENE_MAIN_MENU,
            scene_minor: 0,
            stage_id: 0,
            volume: 0,
            is_paused: false,
            match_info: 0,
        }
    }
}

/// What a change of the game's state means to the music.
#[derive(Copy, Clone, Debug, PartialEq, Eq, Structural)]
pub enum MeleeEvent {
    TitleScreenEntered,
    MenuEntered,
    LotteryEntered,
    /// A match starts on the stage with this id.
    GameStart(u8),
    GameEnd,
    RankedStageStrikeEntered,
    VsOnlineOpponent,
    Pause,
    Unpause,
    /// The volume is now the one with this code.
    SetVolume(u32),
    NoOp,
}

/// Whether the stage strike screen of ranked play was entered.
pub open spec fn entered_ranked_stage_strike(prev: DolphinGameState, state: DolphinGameState) -> bool {
    state.scene_major == SCENE_VS_ONLINE && prev.scene_minor != SCENE_VS_ONLINE_RANKED
        && state.scene_minor == SCENE_VS_ONLINE_RANKED
}

/// Whether the menus were entered.
pub open spec fn entered_menus(prev: DolphinGameState, state: DolphinGameState) -> bool {
    !prev.in_menus && state.in_menus
}

/// Whether the title screen was entered.
pub open spec fn entered_title_screen(prev: DolphinGameState, state: DolphinGameState) -> bool {
    prev.scene_major != SCENE_TITLE_SCREEN && state.scene_major == SCENE_TITLE_SCREEN
}

/// Whether the screen that shows the online opponent was entered, or was
/// left with no stage chosen yet.
pub open spec fn entered_vs_online_opponent(prev: DolphinGameState, state: DolphinGameState) -> bool {
    (state.scene_major == SCENE_VS_ONLINE && prev.scene_minor != SCENE_VS_ONLINE_VERSUS
        && state.scene_minor == SCENE_VS_ONLINE_VERSUS) || (prev.scene_minor
        == SCENE_VS_ONLINE_VERSUS && state.stage_id == 0)
}

/// Whether the trophy lottery was entered.
pub open spec fn entered_lottery(prev: DolphinGameState, state: DolphinGameState) -> bool {
    prev.scene_major != SCENE_TROPHY_LOTTERY && state.scene_major == SCENE_TROPHY_LOTTERY
}

/// Whether a match started, or the stage changed.
pub open spec fn game_started(prev: DolphinGameState, state: DolphinGameState) -> bool {
    (!prev.in_game && state.in_game) || prev.stage_id != state.stage_id
}

/// Whether the match that is being played has come to its end.
pub open spec fn game_ended(prev: DolphinGameState, state: DolphinGameState) -> bool {
    prev.in_game && state.in_game && state.match_info == 1
}

/// The event that the change from `prev` to `state` stands for: that of the
/// first condition that holds, in a fixed order of precedence.
pub open spec fn melee_event_for(prev: DolphinGameState, state: DolphinGameState) -> MeleeEvent {
    if entered_ranked_stage_strike(prev, state) {
        MeleeEvent::RankedStageStrikeEntered
    } else if entered_menus(prev, state) {
        MeleeEvent::MenuEntered
    } else if entered_title_screen(prev, state) {
        MeleeEvent::TitleScreenEntered
    } else if entered_vs_online_opponent(prev, state) {
        MeleeEvent::VsOnlineOpponent
    } else if entered_lottery(prev, state) {
        MeleeEvent::LotteryEntered
    } else if game_started(prev, state) {
        MeleeEvent::GameStart(state.stage_id)
    } else if game_ended(prev, state) {
        MeleeEvent::GameEnd
    } else if volume_changed(prev, state) {
        MeleeEvent::SetVolume(state.volume)
    } else if paused(prev, state) {
        MeleeEvent::Pause
    } else if unpaused(prev, state) {
        MeleeEvent::Unpause
    } else {
        MeleeEvent::NoOp
    }
}

/// Whether the volume changed.
pub open spec fn volume_changed(prev: DolphinGameState, state: DolphinGameState) -> bool {
    prev.volume != state.volume
}

/// Whether the game was paused.
pub open spec fn paused(prev: DolphinGameState, state: DolphinGameState) -> bool {
    !prev.is_paused && state.is_paused
}

/// Whether the game was resumed.
pub open spec fn unpaused(prev: DolphinGameState, state: DolphinGameState) -> bool {
    prev.is_paused && !state.is_paused
}

/// Returns true if the stage strike screen of ranked play was entered.
pub fn is_ranked_stage_strike_entered(prev: &DolphinGameState, state: &DolphinGameState) -> (r: bool)
    ensures
        r == entered_ranked_stage_strike(*prev, *state),
{
    state.scene_major == SCENE_VS_ONLINE && prev.scene_minor != SCENE_VS_ONLINE_RANKED
        && state.scene_minor == SCENE_VS_ONLINE_RANKED
}

/// Returns true if the menus were entered.
pub fn is_menu_entered(prev: &DolphinGameState, state: &DolphinGameState) -> (r: bool)
    ensures
        r == entered_menus(*prev, *state),
{
    !prev.in_menus && state.in_menus
}

/// Returns true if the title screen was entered.
pub fn is_title_screen_entered(prev: &DolphinGameState, state: &DolphinGameState) -> (r: bool)
    ensures
        r == entered_title_screen(*prev, *state),
{
    prev.scene_major != SCENE_TITLE_SCREEN && state.scene_major == SCENE_TITLE_SCREEN
}

/// Returns true if the screen that shows the online opponent was entered, or
/// was left with no stage chosen yet.
pub fn is_vs_online_opponent_entered(prev: &DolphinGameState, state: &DolphinGameState) -> (r: bool)
    ensures
        r == entered_vs_online_opponent(*prev, *state),
{
    let vs_screen_1 = state.scene_major == SCENE_VS_ONLINE && prev.scene_minor
        != SCENE_VS_ONLINE_VERSUS && state.scene_minor == SCENE_VS_ONLINE_VERSUS;
    let vs_screen_2 = prev.scene_minor == SCENE_VS_ONLINE_VERSUS && state.stage_id == 0;
    vs_screen_1 || vs_screen_2
}

/// Returns true if the trophy lottery was entered.
pub fn is_lottery_entered(prev: &DolphinGameState, state: &DolphinGameState) -> (r: bool)
    ensures
        r == entered_lottery(*prev, *state),
{
    prev.scene_major != SCENE_TROPHY_LOTTERY && state.scene_major == SCENE_TROPHY_LOTTERY
}

/// Returns true if a match started, or the stage changed.
pub fn is_game_start(prev: &DolphinGameState, state: &DolphinGameState) -> (r: bool)
    ensures
        r == game_started(*prev, *state),
{
    (!prev.in_game && state.in_game) || prev.stage_id != state.stage_id
}

/// Returns true if the match that is being played has come to its end.
pub fn is_game_end(prev: &DolphinGameState, state: &DolphinGameState) -> (r: bool)
    ensures
        r == game_ended(*prev, *state),
{
    prev.in_game && state.in_game && state.match_info == 1
}

/// Returns true if the volume changed.
pub fn is_volume_change(prev: &DolphinGameState, state: &DolphinGameState) -> (r: bool)
    ensures
        r == volume_changed(*prev, *state),
{
    prev.volume != state.volume
}

/// Returns true if the game was paused.
pub fn is_pause(prev: &DolphinGameState, state: &DolphinGameState) -> (r: bool)
    ensures
        r == paused(*prev, *state),
{
    !prev.is_paused && state.is_paused
}

/// Returns true if the game was resumed.
pub fn is_unpause(prev: &DolphinGameState, state: &DolphinGameState) -> (r: bool)
    ensures
        r == unpaused(*prev, *state),
{
    prev.is_paused && !state.is_paused
}

/// Given the previous state and the current state, produce an event: that of
/// the first condition that holds.
pub fn produce_melee_event(prev_state: &DolphinGameState, state: &DolphinGameState) -> (event:
    MeleeEvent)
    ensures
        event == melee_event_for(*prev_state, *state),
{
    if is_ranked_stage_strike_entered(prev_state, state) {
        MeleeEvent::RankedStageStrikeEntered
    } else if is_menu_entered(prev_state, state) {
        MeleeEvent::MenuEntered
    } else if is_title_screen_entered(prev_state, state) {
        MeleeEvent::TitleScreenEntered
    } else if is_vs_online_opponent_entered(prev_state, state) {
        MeleeEvent::VsOnlineOpponent
    } else if is_lottery_entered(prev_state, state) {
        MeleeEvent::LotteryEntered
    } else if is_game_start(prev_state, state) {
        MeleeEvent::GameStart(state.stage_id)
    } else if is_game_end(prev_state, state) {
        MeleeEvent::GameEnd
    } else if is_volume_change(prev_state, state) {
        MeleeEvent::SetVolume(state.volume)
    } else if is_pause(prev_state, state) {
        MeleeEvent::Pause
    } else if is_unpause(prev_state, state) {
        MeleeEvent::Unpause
    } else {
        MeleeEvent::NoOp
    }
}

/// Nothing is made of a change that meets none of the conditions, and only
/// of such a change.
pub proof fn lemma_no_op_means_no_condition(prev: DolphinGameState, state: DolphinGameState)
    ensures
        melee_event_for(prev, state) == MeleeEvent::NoOp <==> !(entered_ranked_stage_strike(
            prev,
            state,
        ) || entered_menus(prev, state) || entered_title_screen(prev, state)
            || entered_vs_online_opponent(prev, state) || entered_lottery(prev, state)
            || game_started(prev, state) || game_ended(prev, state) || volume_changed(prev, state)
            || paused(prev, state) || unpaused(prev, state)),
{
}

/// Create a `DolphinGameState` from what was read in the emulated memory,
/// and the code of the volume that was worked out from the host's and the
/// game's settings.
pub fn read_dolphin_game_state(
    scene_major: u8,
    scene_minor: u8,
    stage_id: u8,
    match_info: u8,
    paused: u8,
    volume: u32,
) -> (state: DolphinGameState)
    ensures
        state == (DolphinGameState {
            in_game: in_game(scene_major, scene_minor),
            in_menus: in_menus(scene_major, scene_minor),
            scene_major,
            scene_minor,
            stage_id,
            volume,
            is_paused: paused == 1,
            match_info,
        }),
{
    DolphinGameState {
        in_game: is_in_game(scene_major, scene_minor),
        in_menus: is_in_menus(scene_major, scene_minor),
        scene_major,
        scene_minor,
        volume,
        stage_id,
        is_paused: paused == 1,
        match_info,
    }
}

/// What the player thread is to do with its output after an event.
#[derive(Copy, Clone, Debug, PartialEq, Eq, Structural)]
pub enum SinkCommand {
    /// Leave the output as it is.
    Keep,
    /// Play at this many hundredths of the volume with this code.
    SetVolume { volume: u32, percent: u8 },
}

/// What an event does to the playback.
#[derive(Copy, Clone, Debug, PartialEq, Eq, Structural)]
pub struct Playback {
    /// Whether what is playing stops, and the track that is now chosen
    /// starts.
    pub restart: bool,
    pub sink: SinkCommand,
}

/// The track that is chosen after `event`, given the one chosen before and
/// the menu and tournament tracks that were drawn for this session.
pub open spec fn track_after(
    event: MeleeEvent,
    track_id: Option<TrackId>,
    random_menu_tracks: (TrackId, TrackId),
) -> Option<TrackId> {
    match event {
        MeleeEvent::TitleScreenEntered | MeleeEvent::GameEnd => None,
        MeleeEvent::MenuEntered => Some(random_menu_tracks.0),
        MeleeEvent::LotteryEntered => Some(TrackId::Lottery),
        MeleeEvent::VsOnlineOpponent => Some(TrackId::VsOpponent),
        MeleeEvent::RankedStageStrikeEntered => Some(random_menu_tracks.1),
        MeleeEvent::GameStart(stage_id) => Some(TrackId::Stage(stage_id)),
        _ => track_id,
    }
}

/// The code of the volume after `event`.
pub open spec fn volume_after(event: MeleeEvent, volume: u32) -> u32 {
    match event {
        MeleeEvent::SetVolume(received) => received,
        _ => volume,
    }
}

/// What `event` does to the playback, at the volume with the code `volume`.
/// An event that changes the track restarts the playback; the others only
/// set the volume, or do nothing.
pub open spec fn playback_after(event: MeleeEvent, volume: u32) -> Playback {
    match event {
        MeleeEvent::Pause => Playback {
            restart: false,
            sink: SinkCommand::SetVolume { volume, percent: PAUSE_VOLUME_PERCENT },
        },
        MeleeEvent::Unpause => Playback {
            restart: false,
            sink: SinkCommand::SetVolume { volume, percent: 100 },
        },
        MeleeEvent::SetVolume(received) => Playback {
            restart: false,
            sink: SinkCommand::SetVolume { volume: received, percent: 100 },
        },
        MeleeEvent::NoOp => Playback { restart: false, sink: SinkCommand::Keep },
        _ => Playback { restart: true, sink: SinkCommand::Keep },
    }
}

/// Handle an event received in the audio playback thread, by changing
/// tracks, adjusting volume etc.
pub fn handle_melee_event(
    event: MeleeEvent,
    track_id: &mut Option<TrackId>,
    volume: &mut u32,
    random_menu_tracks: &(TrackId, TrackId),
) -> (playback: Playback)
    ensures
        *final(track_id) == track_after(event, *old(track_id), *random_menu_tracks),
        *final(volume) == volume_after(event, *old(volume)),
        playback == playback_after(event, *old(volume)),
{
    match event {
        MeleeEvent::TitleScreenEntered | MeleeEvent::GameEnd => {
            *track_id = None;
        },
        MeleeEvent::MenuEntered => {
            *track_id = Some(random_menu_tracks.0);
        },
        MeleeEvent::LotteryEntered => {
            *track_id = Some(TrackId::Lottery);
        },
        MeleeEvent::VsOnlineOpponent => {
            *track_id = Some(TrackId::VsOpponent);
        },
        MeleeEvent::RankedStageStrikeEntered => {
            *track_id = Some(random_menu_tracks.1);
        },
        MeleeEvent::GameStart(stage_id) => {
            *track_id = Some(TrackId::Stage(stage_id));
        },
        MeleeEvent::Pause => {
            return Playback {
                restart: false,
                sink: SinkCommand::SetVolume { volume: *volume, percent: PAUSE_VOLUME_PERCENT },
            };
        },
        MeleeEvent::Unpause => {
            return Playback {
                restart: false,
                sink: SinkCommand::SetVolume { volume: *volume, percent: 100 },
            };
        },
        MeleeEvent::SetVolume(received_volume) => {
            *volume = received_volume;
            return Playback {
                restart: false,
                sink: SinkCommand::SetVolume { volume: received_volume, percent: 100 },
            };
        },
        MeleeEvent::NoOp => {
            return Playback { restart: false, sink: SinkCommand::Keep };
        },
    };
    Playback { restart: true, sink: SinkCommand::Keep }
}

/// The number of samples of silence that are played before a track, so that
/// two tracks that are chosen in quick succession do not blip: a quarter of
/// a second.
pub fn padding_length(channel_count: u32, sample_rate: u32) -> (samples: u32)
    requires
        channel_count * sample_rate <= u32::MAX,
    ensures
        samples == channel_count * sample_rate / 4,
{
    channel_count * sample_rate / 4
}

/// The samples of a track behind a stretch of silence.
#[derive(Debug)]
pub struct HpsAudioSource {
    /// How many samples of silence are still to be played.
    pub padding_length: u32,
}

impl HpsAudioSource {
    /// The next sample while the silence lasts, which is zero; `None` once
    /// it is over, when the samples of the track are due.
    pub fn next(&mut self) -> (sample: Option<i16>)
        ensures
            old(self).padding_length > 0 ==> sample == Some(0i16) && final(self).padding_length
                == old(self).padding_length - 1,
            old(self).padding_length == 0 ==> sample.is_none() && final(self).padding_length == 0,
    {
        if self.padding_length > 0 {
            self.padding_length = self.padding_length - 1;
            return Some(0);
        }
        None
    }
}

/// The state of the thread that watches the game: what it read last.
#[derive(Copy, Clone, Debug)]
pub struct MessageDispatcher {
    pub prev_state: DolphinGameState,
}

impl MessageDispatcher {
    /// A dispatcher that has read nothing yet.
    pub fn new() -> (dispatcher: Self)
        ensures
            dispatcher.prev_state == (DolphinGameState {
                in_game: false,
                in_menus: false,
                scene_major: SCENE_MAIN_MENU,
                scene_minor: 0,
                stage_id: 0,
                volume: 0,
                is_paused: false,
                match_info: 0,
            }),
    {
        MessageDispatcher { prev_state: DolphinGameState::default() }
    }

    /// Takes a new reading of the game's state. Where it differs from the
    /// last one, the event that the change stands for is returned, to be
    /// sent to the player thread, and the reading is kept; else nothing is
    /// to be sent.
    pub fn dispatch_messages(&mut self, state: DolphinGameState) -> (event: Option<MeleeEvent>)
        ensures
            final(self).prev_state == state,
            event == (if old(self).prev_state != state {
                Some(melee_event_for(old(self).prev_state, state))
            } else {
                None
            }),
    {
        if self.prev_state != state {
            let event = produce_melee_event(&self.prev_state, &state);
            self.prev_state = state;
            Some(event)
        } else {
            None
        }
    }
}

/// An event changes the track or the volume, never both: one that does not
/// restart the playback leaves the chosen track alone, and one that
/// restarts it leaves the volume alone.
pub proof fn lemma_volume_events_keep_the_track(
    event: MeleeEvent,
    track_id: Option<TrackId>,
    random_menu_tracks: (TrackId, TrackId),
    volume: u32,
)
    ensures
        !playback_after(event, volume).restart ==> track_after(event, track_id, random_menu_tracks)
            == track_id,
        playback_after(event, volume).restart ==> volume_after(event, volume) == volume,
{
}

} // verus!
