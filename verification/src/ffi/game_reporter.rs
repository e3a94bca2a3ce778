//! The construction of reports from what the host hands over.

use vstd::prelude::*;
use crate::game_reporter::types::{GameReport, OnlinePlayMode, PlayerReport};

verus! {

/// The play modes as the host names them. It mirrors `OnlinePlayMode`, which
/// the host cannot see.
#[derive(Copy, Clone, Debug, PartialEq, Eq, Structural)]
pub enum SlippiMatchmakingOnlinePlayMode {
    Ranked,
    Unranked,
    Direct,
    Teams,
}

impl SlippiMatchmakingOnlinePlayMode {
    /// The play mode of the reporter that this one stands for.
    pub open spec fn mode(self) -> OnlinePlayMode {
        match self {
            SlippiMatchmakingOnlinePlayMode::Ranked => OnlinePlayMode::Ranked,
            SlippiMatchmakingOnlinePlayMode::Unranked => OnlinePlayMode::Unranked,
            SlippiMatchmakingOnlinePlayMode::Direct => OnlinePlayMode::Direct,
            SlippiMatchmakingOnlinePlayMode::Teams => OnlinePlayMode::Teams,
        }
    }

    /// Returns the play mode of the reporter that this one stands for.
    pub fn to_online_play_mode(self) -> (mode: OnlinePlayMode)
        ensures
            mode == self.mode(),
    {
        match self {
            SlippiMatchmakingOnlinePlayMode::Ranked => OnlinePlayMode::Ranked,
            SlippiMatchmakingOnlinePlayMode::Unranked => OnlinePlayMode::Unranked,
            SlippiMatchmakingOnlinePlayMode::Direct => OnlinePlayMode::Direct,
            SlippiMatchmakingOnlinePlayMode::Teams => OnlinePlayMode::Teams,
        }
    }
}

/// Creates a new player report.
pub fn slprs_player_report_create(
    uid: String,
    slot_type: u8,
    damage_done: serde_json::Value,
    stocks_remaining: u8,
    character_id: u8,
    color_id: u8,
    starting_stocks: i64,
    starting_percent: i64,
) -> (report: PlayerReport)
    ensures
        report == (PlayerReport {
            uid,
            slot_type,
            damage_done,
            stocks_remaining,
            character_id,
            color_id,
            starting_stocks,
            starting_percent,
        }),
{
    PlayerReport {
        uid,
        slot_type,
        damage_done,
        stocks_remaining,
        character_id,
        color_id,
        starting_stocks,
        starting_percent,
    }
}

/// Creates a new game report: it has not been sent yet, has no players yet
/// and holds no replay data.
pub fn slprs_game_report_create(
    uid: String,
    play_key: String,
    online_mode: SlippiMatchmakingOnlinePlayMode,
    match_id: String,
    duration_frames: u32,
    game_index: u32,
    tie_break_index: u32,
    winner_index: i8,
    game_end_method: u8,
    lras_initiator: i8,
    stage_id: i32,
) -> (report: GameReport)
    ensures
        report.uid == uid,
        report.play_key == play_key,
        report.online_mode == online_mode.mode(),
        report.match_id == match_id,
        report.attempts == 0,
        report.duration_frames == duration_frames,
        report.game_index == game_index,
        report.tie_break_index == tie_break_index,
        report.winner_index == winner_index,
        report.game_end_method == game_end_method,
        report.lras_initiator == lras_initiator,
        report.stage_id == stage_id,
        report.players@ == Seq::<PlayerReport>::empty(),
        report.replay_data@ == Seq::<u8>::empty(),
{
    GameReport {
        uid,
        play_key,
        online_mode: online_mode.to_online_play_mode(),
        match_id,
        attempts: 0,
        duration_frames,
        game_index,
        tie_break_index,
        winner_index,
        game_end_method,
        lras_initiator,
        stage_id,
        players: Vec::new(),
        replay_data: Vec::new(),
    }
}

/// The report with one more player, behind the others.
pub open spec fn with_player(report: GameReport, players: Vec<PlayerReport>) -> GameReport {
    GameReport { players, ..report }
}

/// Adds the player report to the game report, behind those that it holds.
pub fn slprs_game_report_add_player_report(report: &mut GameReport, player_report: PlayerReport)
    ensures
        final(report).players@ == old(report).players@.push(player_report),
        *final(report) == with_player(*old(report), final(report).players),
{
    report.players.push(player_report);
}

} // verus!
