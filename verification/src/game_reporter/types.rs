//! The records that describe one match and its participants, and the payload
//! that is posted for them.

use vstd::prelude::*;
use crate::json::{
    item_texts, json_array, json_array_text, json_clone, json_object, json_object_text,
    json_signed, json_string, json_string_text, json_text, json_unsigned, member_texts,
};
use crate::text::{decimal, signed_decimal};

verus! {

/// The different modes that a player could be in.
#[derive(Copy, Clone, Debug, PartialEq, Eq, Structural)]
pub enum OnlinePlayMode {
    Ranked,
    Unranked,
    Direct,
    Teams,
}

impl OnlinePlayMode {
    /// The number that stands for this mode on the wire.
    pub open spec fn code(self) -> u8 {
        match self {
            OnlinePlayMode::Ranked => 0,
            OnlinePlayMode::Unranked => 1,
            OnlinePlayMode::Direct => 2,
            OnlinePlayMode::Teams => 3,
        }
    }

    /// Returns the number that stands for this mode on the wire.
    pub fn to_u8(&self) -> (r: u8)
        ensures
            r == self.code(),
    {
        match self {
            OnlinePlayMode::Ranked => 0,
            OnlinePlayMode::Unranked => 1,
            OnlinePlayMode::Direct => 2,
            OnlinePlayMode::Teams => 3,
        }
    }
}

/// Player metadata payload that's logged with game info.
#[derive(Debug)]
pub struct PlayerReport {
    pub uid: String,
    pub slot_type: u8,
    /// Cumulative damage dealt, as the JSON number that is reported.
    pub damage_done: serde_json::Value,
    pub stocks_remaining: u8,
    pub character_id: u8,
    pub color_id: u8,
    pub starting_stocks: i64,
    pub starting_percent: i64,
}

/// Describes metadata about a game that we need to log to the server.
#[derive(Debug)]
pub struct GameReport {
    pub uid: String,
    pub play_key: String,
    pub online_mode: OnlinePlayMode,
    pub match_id: String,
    /// How many times this report has been sent so far.
    pub attempts: i32,
    pub duration_frames: u32,
    pub game_index: u32,
    pub tie_break_index: u32,
    pub winner_index: i8,
    pub game_end_method: u8,
    pub lras_initiator: i8,
    pub stage_id: i32,
    pub players: Vec<PlayerReport>,
    /// Empty until the report is logged; the replay gathered up to that
    /// moment from then on.
    pub replay_data: Vec<u8>,
}

/// The core report payload that's posted to the server.
#[derive(Debug)]
pub struct GameReportRequestPayload<'a> {
    pub uid: &'a str,
    pub mode: OnlinePlayMode,
    pub players: &'a [PlayerReport],
    pub iso_hash: &'a str,
    pub match_id: &'a str,
    pub play_key: &'a str,
    pub duration_frames: u32,
    pub game_index: u32,
    pub tie_break_index: u32,
    pub winner_index: i8,
    pub game_end_method: u8,
    pub lras_initiator: i8,
    pub stage_id: i32,
}

/// The members of the JSON object that a player is reported as.
pub open spec fn player_members(player: PlayerReport) -> Seq<(Seq<char>, Seq<char>)> {
    seq![
        ("fbUid"@, json_string_text(player.uid@)),
        ("slotType"@, decimal(player.slot_type as nat)),
        ("damageDone"@, json_text(player.damage_done)),
        ("stocksRemaining"@, decimal(player.stocks_remaining as nat)),
        ("characterId"@, decimal(player.character_id as nat)),
        ("colorId"@, decimal(player.color_id as nat)),
        ("startingStocks"@, signed_decimal(player.starting_stocks as int)),
        ("startingPercent"@, signed_decimal(player.starting_percent as int)),
    ]
}

/// The compact text of the JSON object that each player is reported as.
pub open spec fn player_texts(players: Seq<PlayerReport>) -> Seq<Seq<char>> {
    Seq::new(players.len(), |i: int| json_object_text(player_members(players[i])))
}

/// The members of the JSON object that a game is reported as.
pub open spec fn payload_members(payload: GameReportRequestPayload) -> Seq<
    (Seq<char>, Seq<char>),
> {
    seq![
        ("fbUid"@, json_string_text(payload.uid@)),
        ("mode"@, decimal(payload.mode.code() as nat)),
        ("players"@, json_array_text(player_texts(payload.players@))),
        ("isoHash"@, json_string_text(payload.iso_hash@)),
        ("matchId"@, json_string_text(payload.match_id@)),
        ("playKey"@, json_string_text(payload.play_key@)),
        ("gameDurationFrames"@, decimal(payload.duration_frames as nat)),
        ("gameIndex"@, decimal(payload.game_index as nat)),
        ("tiebreakIndex"@, decimal(payload.tie_break_index as nat)),
        ("winnerIdx"@, signed_decimal(payload.winner_index as int)),
        ("gameEndMethod"@, decimal(payload.game_end_method as nat)),
        ("lrasInitiator"@, signed_decimal(payload.lras_initiator as int)),
        ("stageId"@, signed_decimal(payload.stage_id as int)),
    ]
}

impl PlayerReport {
    /// The JSON object that this player is reported as.
    pub fn to_json(&self) -> (v: serde_json::Value)
        ensures
            json_text(v) == json_object_text(player_members(*self)),
    {
        let mut entries: Vec<(String, serde_json::Value)> = Vec::new();
        entries.push((String::from_str("fbUid"), json_string(self.uid.as_str())));
        entries.push((String::from_str("slotType"), json_unsigned(self.slot_type as u64)));
        entries.push((String::from_str("damageDone"), json_clone(&self.damage_done)));
        entries.push(
            (String::from_str("stocksRemaining"), json_unsigned(self.stocks_remaining as u64)),
        );
        entries.push((String::from_str("characterId"), json_unsigned(self.character_id as u64)));
        entries.push((String::from_str("colorId"), json_unsigned(self.color_id as u64)));
        entries.push((String::from_str("startingStocks"), json_signed(self.starting_stocks)));
        entries.push((String::from_str("startingPercent"), json_signed(self.starting_percent)));
        assert(member_texts(entries@) =~= player_members(*self));
        json_object(entries)
    }
}

impl<'a> GameReportRequestPayload<'a> {
    /// Builds a report request payload that can be serialized for POSTing
    /// to the server.
    pub fn with(report: &'a GameReport, iso_hash: &'a str) -> (payload: Self)
        ensures
            payload.uid@ == report.uid@,
            payload.play_key@ == report.play_key@,
            payload.iso_hash@ == iso_hash@,
            payload.players@ == report.players@,
            payload.match_id@ == report.match_id@,
            payload.mode == report.online_mode,
            payload.duration_frames == report.duration_frames,
            payload.game_index == report.game_index,
            payload.tie_break_index == report.tie_break_index,
            payload.winner_index == report.winner_index,
            payload.game_end_method == report.game_end_method,
            payload.lras_initiator == report.lras_initiator,
            payload.stage_id == report.stage_id,
    {
        GameReportRequestPayload {
            uid: report.uid.as_str(),
            play_key: report.play_key.as_str(),
            iso_hash,
            players: report.players.as_slice(),
            match_id: report.match_id.as_str(),
            mode: report.online_mode,
            duration_frames: report.duration_frames,
            game_index: report.game_index,
            tie_break_index: report.tie_break_index,
            winner_index: report.winner_index,
            game_end_method: report.game_end_method,
            lras_initiator: report.lras_initiator,
            stage_id: report.stage_id,
        }
    }

    /// The JSON object that is posted for this payload.
    pub fn to_json(&self) -> (v: serde_json::Value)
        ensures
            json_text(v) == json_object_text(payload_members(*self)),
    {
        let mut players: Vec<serde_json::Value> = Vec::new();
        let mut i: usize = 0;
        while i < self.players.len()
            invariant
                i <= self.players@.len(),
                players@.len() == i,
                forall|k: int|
                    0 <= k < i ==> json_text(#[trigger] players@[k]) == json_object_text(
                        player_members(self.players@[k]),
                    ),
            decreases self.players@.len() - i,
        {
            players.push(self.players[i].to_json());
            i = i + 1;
        }
        assert(item_texts(players@) =~= player_texts(self.players@));

        let mut entries: Vec<(String, serde_json::Value)> = Vec::new();
        entries.push((String::from_str("fbUid"), json_string(self.uid)));
        entries.push((String::from_str("mode"), json_unsigned(self.mode.to_u8() as u64)));
        entries.push((String::from_str("players"), json_array(players)));
        entries.push((String::from_str("isoHash"), json_string(self.iso_hash)));
        entries.push((String::from_str("matchId"), json_string(self.match_id)));
        entries.push((String::from_str("playKey"), json_string(self.play_key)));
        entries.push(
            (String::from_str("gameDurationFrames"), json_unsigned(self.duration_frames as u64)),
        );
        entries.push((String::from_str("gameIndex"), json_unsigned(self.game_index as u64)));
        entries.push(
            (String::from_str("tiebreakIndex"), json_unsigned(self.tie_break_index as u64)),
        );
        entries.push((String::from_str("winnerIdx"), json_signed(self.winner_index as i64)));
        entries.push(
            (String::from_str("gameEndMethod"), json_unsigned(self.game_end_method as u64)),
        );
        entries.push((String::from_str("lrasInitiator"), json_signed(self.lras_initiator as i64)));
        entries.push((String::from_str("stageId"), json_signed(self.stage_id as i64)));
        assert(member_texts(entries@) =~= payload_members(*self));
        json_object(entries)
    }
}

} // verus!
