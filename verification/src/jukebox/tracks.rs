//! The tracks that the engine chooses between.

use vstd::prelude::*;

verus! {

/// Names a track of the game's music.
#[derive(Copy, Clone, Debug, PartialEq, Eq, Hash, Structural)]
pub enum TrackId {
    Menu1,
    Menu2,
    Lottery,
    TournamentMode1,
    TournamentMode2,
    VsOpponent,
    /// The track of the stage with this id, where the stage has one.
    Stage(u8),
}

/// The menu track and the tournament track for the rolls of two dice, one
/// with four sides and one with two: the alternate menu theme is used one
/// time in four, and each tournament theme one time in two.
pub open spec fn menu_tracks_for(menu_roll: u8, tournament_roll: u8) -> (TrackId, TrackId) {
    (
        if menu_roll == 0 {
            TrackId::Menu2
        } else {
            TrackId::Menu1
        },
        if tournament_roll == 0 {
            TrackId::TournamentMode1
        } else {
            TrackId::TournamentMode2
        },
    )
}

/// `fastrand::u8` on the range from zero to below `bound`: a number drawn
/// from that range, of which no more is known.
#[verifier::external_body]
pub(crate) fn random_below(bound: u8) -> (roll: u8)
    requires
        bound > 0,
    ensures
        roll < bound,
{
    fastrand::u8(0..bound)
}

/// Chooses the menu track and the tournament track from two rolls.
pub fn choose_menu_tracks(menu_roll: u8, tournament_roll: u8) -> (tracks: (TrackId, TrackId))
    ensures
        tracks == menu_tracks_for(menu_roll, tournament_roll),
{
    let menu_track = if menu_roll == 0 {
        TrackId::Menu2
    } else {
        TrackId::Menu1
    };
    let tournament_track = if tournament_roll == 0 {
        TrackId::TournamentMode1
    } else {
        TrackId::TournamentMode2
    };
    (menu_track, tournament_track)
}

/// Returns a tuple containing a randomly selected menu track and tournament
/// track to play.
pub fn get_random_menu_tracks() -> (tracks: (TrackId, TrackId))
    ensures
        exists|menu_roll: u8, tournament_roll: u8|
            menu_roll < 4 && tournament_roll < 2 && tracks == #[trigger] menu_tracks_for(
                menu_roll,
                tournament_roll,
            ),
{
    let menu_roll = random_below(4);
    let tournament_roll = random_below(2);
    choose_menu_tracks(menu_roll, tournament_roll)
}

} // verus!
