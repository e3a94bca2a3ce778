//! Helpers of the music engine: big-endian reads, the filesystem table of a
//! disc image, and scene classification.

use vstd::prelude::*;
use vstd::utf8::{decode_utf8, valid_utf8};
use crate::text::{copy_range, find_nul, nul_index, utf8_to_string};
use crate::jukebox::scenes;

verus! {

/// The unsigned 24 bit big-endian integer held in `bytes` at `offset`.
pub open spec fn u24_at(bytes: Seq<u8>, offset: int) -> int {
    bytes[offset] * 0x1_0000 + bytes[offset + 1] * 0x100 + bytes[offset + 2]
}

/// The unsigned 32 bit big-endian integer held in `bytes` at `offset`.
pub open spec fn u32_at(bytes: Seq<u8>, offset: int) -> int {
    bytes[offset] * 0x100_0000 + bytes[offset + 1] * 0x1_0000 + bytes[offset + 2] * 0x100
        + bytes[offset + 3]
}

/// Get an unsigned 24 bit integer from a byte slice.
pub fn read_u24(bytes: &[u8], offset: usize) -> (r: u32)
    requires
        offset + 3 <= bytes@.len(),
    ensures
        r == u24_at(bytes@, offset as int),
{
    let b0: u32 = bytes[offset] as u32;
    let b1: u32 = bytes[offset + 1] as u32;
    let b2: u32 = bytes[offset + 2] as u32;
    b0 * 0x1_0000 + b1 * 0x100 + b2
}

/// Get an unsigned 32 bit integer from a byte slice.
pub fn read_u32(bytes: &[u8], offset: usize) -> (r: u32)
    requires
        offset + 4 <= bytes@.len(),
    ensures
        r == u32_at(bytes@, offset as int),
{
    let b0: u32 = bytes[offset] as u32;
    let b1: u32 = bytes[offset + 1] as u32;
    let b2: u32 = bytes[offset + 2] as u32;
    let b3: u32 = bytes[offset + 3] as u32;
    b0 * 0x100_0000 + b1 * 0x1_0000 + b2 * 0x100 + b3
}

/// Where in the disc image the location of the filesystem table is kept.
pub const FST_LOCATION_OFFSET: u64 = 0x424;

/// Where in the disc image the size of the filesystem table is kept.
pub const FST_SIZE_OFFSET: u64 = 0x0428;

/// The size of one entry of the filesystem table: a byte that tells files
/// from directories, three bytes that say where the name starts, four that
/// say where the file starts and four that say how large it is.
pub const FST_ENTRY_SIZE: usize = 12;

/// The smallest size of a filesystem table that is taken for one.
pub const FST_MIN_SIZE: u32 = 1000;

/// The largest size of a filesystem table that is taken for one.
pub const FST_MAX_SIZE: u32 = 500000;

/// Why the tracks of a disc image could not be found.
#[derive(Copy, Clone, Debug, PartialEq, Eq, Structural)]
pub enum TrackMapError {
    /// The location of the filesystem table is not four bytes long.
    UnreadableLocation,
    /// The filesystem table is said to lie at the start of the image.
    LocationIsZero,
    /// The size of the filesystem table is not four bytes long.
    UnreadableSize,
    /// The filesystem table is smaller or larger than any that is known.
    SizeOutOfRange,
    /// The filesystem table names entries or names that lie outside of it.
    MalformedTable,
}

impl TrackMapError {
    /// A description of the error.
    pub fn message(&self) -> (text: &'static str)
        ensures
            text@ == match self {
                TrackMapError::UnreadableLocation => "Unable to read FST offset as u32"@,
                TrackMapError::LocationIsZero => "FST location is 0"@,
                TrackMapError::UnreadableSize => "Unable to read FST size as u32"@,
                TrackMapError::SizeOutOfRange => "FST size is out of range"@,
                TrackMapError::MalformedTable => "FST entries are out of bounds"@,
            },
    {
        match self {
            TrackMapError::UnreadableLocation => "Unable to read FST offset as u32",
            TrackMapError::LocationIsZero => "FST location is 0",
            TrackMapError::UnreadableSize => "Unable to read FST size as u32",
            TrackMapError::SizeOutOfRange => "FST size is out of range",
            TrackMapError::MalformedTable => "FST entries are out of bounds",
        }
    }
}

/// Reads where the filesystem table lies from the bytes that were found at
/// `FST_LOCATION_OFFSET`.
pub fn fst_location(bytes: &[u8]) -> (r: Result<u32, TrackMapError>)
    ensures
        r == (if bytes@.len() != 4 {
            Err::<u32, TrackMapError>(TrackMapError::UnreadableLocation)
        } else if u32_at(bytes@, 0) == 0 {
            Err(TrackMapError::LocationIsZero)
        } else {
            Ok(u32_at(bytes@, 0) as u32)
        }),
{
    if bytes.len() != 4 {
        return Err(TrackMapError::UnreadableLocation);
    }
    let fst_location = read_u32(bytes, 0);
    if fst_location == 0 {
        return Err(TrackMapError::LocationIsZero);
    }
    Ok(fst_location)
}

/// Reads how large the filesystem table is from the bytes that were found at
/// `FST_SIZE_OFFSET`, and checks for a sensible size.
pub fn fst_size(bytes: &[u8]) -> (r: Result<u32, TrackMapError>)
    ensures
        r == (if bytes@.len() != 4 {
            Err::<u32, TrackMapError>(TrackMapError::UnreadableSize)
        } else if u32_at(bytes@, 0) < FST_MIN_SIZE || u32_at(bytes@, 0) > FST_MAX_SIZE {
            Err(TrackMapError::SizeOutOfRange)
        } else {
            Ok(u32_at(bytes@, 0) as u32)
        }),
{
    if bytes.len() != 4 {
        return Err(TrackMapError::UnreadableSize);
    }
    let fst_size = read_u32(bytes, 0);
    if fst_size < FST_MIN_SIZE || fst_size > FST_MAX_SIZE {
        return Err(TrackMapError::SizeOutOfRange);
    }
    Ok(fst_size)
}

/// A file of the disc image that holds music.
#[derive(Debug)]
pub struct HpsFile {
    /// The name of the file.
    pub name: String,
    /// Where in the disc image the file starts.
    pub offset: u32,
    /// How many bytes the file holds.
    pub size: u32,
}

impl View for HpsFile {
    type V = (Seq<char>, u32, u32);

    open spec fn view(&self) -> (Seq<char>, u32, u32) {
        (self.name@, self.offset, self.size)
    }
}

/// What each file is, as contracts speak of it.
pub open spec fn file_views(files: Seq<HpsFile>) -> Seq<(Seq<char>, u32, u32)> {
    Seq::new(files.len(), |i: int| files[i]@)
}

/// How many bytes of the table hold entries; the names follow them. The
/// first entry says how many entries there are.
pub open spec fn string_table_offset(fst: Seq<u8>) -> int {
    u32_at(fst, 8) * 12
}

/// Where the name of the entry `k` starts.
pub open spec fn name_start(fst: Seq<u8>, k: int) -> int {
    string_table_offset(fst) + u24_at(fst, k * 12 + 1)
}

/// Whether `name` ends in `.hps`.
pub open spec fn is_hps_name(name: Seq<u8>) -> bool {
    name.len() >= 4 && name.subrange(name.len() - 4, name.len() as int) == seq![
        0x2Eu8,
        0x68,
        0x70,
        0x73,
    ]
}

/// The bytes of the name of the entry `k`: those from where it starts up to
/// the next NUL byte.
pub open spec fn entry_name(fst: Seq<u8>, k: int) -> Seq<u8> {
    fst.subrange(name_start(fst, k), nul_index(fst, name_start(fst, k)))
}

/// Whether the entry `k` is a file with music: it is a file and no
/// directory, its name ends before the table does, is valid UTF-8 and ends
/// in `.hps`.
pub open spec fn entry_is_hps(fst: Seq<u8>, k: int) -> bool {
    &&& fst[k * 12] == 0
    &&& nul_index(fst, name_start(fst, k)) < fst.len()
    &&& valid_utf8(entry_name(fst, k))
    &&& is_hps_name(entry_name(fst, k))
}

/// The files with music among the first `n` entries, in the order of the
/// table.
pub open spec fn hps_files_in(fst: Seq<u8>, n: nat) -> Seq<(Seq<char>, u32, u32)>
    decreases n,
{
    if n == 0 {
        Seq::empty()
    } else {
        let k = n - 1;
        let before = hps_files_in(fst, k as nat);
        if entry_is_hps(fst, k) {
            before.push(
                (
                    decode_utf8(entry_name(fst, k)),
                    u32_at(fst, k * 12 + 4) as u32,
                    u32_at(fst, k * 12 + 8) as u32,
                ),
            )
        } else {
            before
        }
    }
}

/// Whether the table can be read: it holds its first entry, all the entries
/// that the first entry counts, and the start of the name of each.
pub open spec fn table_is_sound(fst: Seq<u8>) -> bool {
    &&& fst.len() >= 12
    &&& string_table_offset(fst) <= fst.len()
    &&& forall|k: int| 0 <= k < u32_at(fst, 8) ==> #[trigger] name_start(fst, k) <= fst.len()
}

/// Finds the files with music in the filesystem table `fst` of a disc image,
/// with where each starts in the image and how large it is.
pub fn create_track_map(fst: &[u8]) -> (r: Result<Vec<HpsFile>, TrackMapError>)
    ensures
        r.is_ok() == table_is_sound(fst@),
        match r {
            Ok(files) => file_views(files@) == hps_files_in(fst@, u32_at(fst@, 8) as nat),
            Err(error) => error == TrackMapError::MalformedTable,
        },
{
    if fst.len() < 12 {
        return Err(TrackMapError::MalformedTable);
    }
    let entries: u64 = read_u32(fst, 0x8) as u64;
    let str_table_offset: u64 = entries * 12;
    if str_table_offset > fst.len() as u64 {
        return Err(TrackMapError::MalformedTable);
    }
    let mut files: Vec<HpsFile> = Vec::new();
    let mut k: u64 = 0;
    while k < entries
        invariant
            fst@.len() >= 12,
            entries == u32_at(fst@, 8),
            str_table_offset == string_table_offset(fst@),
            str_table_offset <= fst@.len(),
            k <= entries,
            forall|j: int| 0 <= j < k ==> #[trigger] name_start(fst@, j) <= fst@.len(),
            file_views(files@) == hps_files_in(fst@, k as nat),
        decreases entries - k,
    {
        let base: usize = (k * 12) as usize;
        let is_file = fst[base] == 0;
        let name_offset: u64 = str_table_offset + read_u24(fst, base + 1) as u64;
        let offset = read_u32(fst, base + 4);
        let size = read_u32(fst, base + 8);
        if name_offset > fst.len() as u64 {
            assert(name_start(fst@, k as int) > fst@.len());
            return Err(TrackMapError::MalformedTable);
        }
        let start: usize = name_offset as usize;
        let end = find_nul(fst, start);
        let ghost before = file_views(files@);
        if is_file && end < fst.len() && end - start >= 4 && fst[end - 4] == 0x2E && fst[end - 3]
            == 0x68 && fst[end - 2] == 0x70 && fst[end - 1] == 0x73 {
            let bytes = copy_range(fst, start, end);
            assert(bytes@ == entry_name(fst@, k as int));
            assert(bytes@.subrange(bytes@.len() - 4, bytes@.len() as int) =~= seq![
                0x2Eu8,
                0x68,
                0x70,
                0x73,
            ]);
            match utf8_to_string(bytes.as_slice()) {
                Some(name) => {
                    assert(entry_is_hps(fst@, k as int));
                    files.push(HpsFile { name, offset, size });
                    assert(file_views(files@) =~= before.push(
                        (decode_utf8(entry_name(fst@, k as int)), offset, size),
                    ));
                },
                None => {
                    assert(!entry_is_hps(fst@, k as int));
                },
            }
        } else {
            if is_file && end < fst.len() && end - start >= 4 {
                let ghost name = entry_name(fst@, k as int);
                assert(name.len() == end - start);
                assert(name.subrange(name.len() - 4, name.len() as int)[0] == fst@[end - 4]);
                assert(name.subrange(name.len() - 4, name.len() as int)[1] == fst@[end - 3]);
                assert(name.subrange(name.len() - 4, name.len() as int)[2] == fst@[end - 2]);
                assert(name.subrange(name.len() - 4, name.len() as int)[3] == fst@[end - 1]);
            }
            assert(!entry_is_hps(fst@, k as int));
        }
        k = k + 1;
    }
    Ok(files)
}

/// The minor codes of adventure mode in which a fight or a stage is played.
pub open spec fn adventure_stage(minor: u8) -> bool {
    set![
        scenes::SCENE_ADVENTURE_MUSHROOM_KINGDOM,
        scenes::SCENE_ADVENTURE_MUSHROOM_KINGDOM_BATTLE,
        scenes::SCENE_ADVENTURE_MUSHROOM_KONGO_JUNGLE_TINY_BATTLE,
        scenes::SCENE_ADVENTURE_MUSHROOM_KONGO_JUNGLE_GIANT_BATTLE,
        scenes::SCENE_ADVENTURE_UNDERGROUND_MAZE,
        scenes::SCENE_ADVENTURE_HYRULE_TEMPLE_BATTLE,
        scenes::SCENE_ADVENTURE_BRINSTAR,
        scenes::SCENE_ADVENTURE_ESCAPE_ZEBES,
        scenes::SCENE_ADVENTURE_GREEN_GREENS_KIRBY_BATTLE,
        scenes::SCENE_ADVENTURE_GREEN_GREENS_KIRBY_TEAM_BATTLE,
        scenes::SCENE_ADVENTURE_GREEN_GREENS_GIANT_KIRBY_BATTLE,
        scenes::SCENE_ADVENTURE_CORNERIA_BATTLE_1,
        scenes::SCENE_ADVENTURE_CORNERIA_BATTLE_2,
        scenes::SCENE_ADVENTURE_CORNERIA_BATTLE_3,
        scenes::SCENE_ADVENTURE_POKEMON_STADIUM_BATTLE,
        scenes::SCENE_ADVENTURE_FZERO_GRAND_PRIX_RACE,
        scenes::SCENE_ADVENTURE_FZERO_GRAND_PRIX_BATTLE,
        scenes::SCENE_ADVENTURE_ONETT_BATTLE,
        scenes::SCENE_ADVENTURE_ICICLE_MOUNTAIN_CLIMB,
        scenes::SCENE_ADVENTURE_BATTLEFIELD_BATTLE,
        scenes::SCENE_ADVENTURE_BATTLEFIELD_METAL_BATTLE,
        scenes::SCENE_ADVENTURE_FINAL_DESTINATION_BATTLE
    ].contains(minor)
}

/// The major codes whose screens are laid out like those of training mode.
pub open spec fn training_like(major: u8) -> bool {
    scenes::SCENE_TRAINING_MODE <= major <= scenes::SCENE_STAMINA_MODE || major == scenes::SCENE_FIXED_CAMERA_MODE
}

/// The major codes of the special melee modes.
pub open spec fn special_melee(major: u8) -> bool {
    scenes::SCENE_SUPER_SUDDEN_DEATH <= major <= scenes::MENU_LIGHTNING_MELEE
}

/// The major codes of the stadium modes that start at the home-run contest.
pub open spec fn stadium(major: u8) -> bool {
    scenes::SCENE_HOME_RUN_CONTEST <= major <= scenes::SCENE_CRUEL_MELEE
}

/// Whether the scene is one in which a match is being played.
///
/// Each game mode has its own minor codes for the screens on which the
/// players fight; a major code that is no game mode is never in game.
pub open spec fn in_game(major: u8, minor: u8) -> bool {
    if major == scenes::SCENE_ALL_STAR_MODE {
        minor < scenes::SCENE_ALL_STAR_CSS
    } else if major == scenes::SCENE_VS_MODE || major == scenes::SCENE_VS_ONLINE {
        minor == scenes::SCENE_VS_INGAME
    } else if training_like(major) {
        minor == scenes::SCENE_TRAINING_INGAME
    } else if major == scenes::SCENE_EVENT_MATCH {
        minor == scenes::SCENE_EVENT_MATCH_INGAME
    } else if major == scenes::SCENE_CLASSIC_MODE {
        minor < scenes::SCENE_CLASSIC_CONTINUE && minor % 2 == 1
    } else if major == scenes::SCENE_ADVENTURE_MODE {
        adventure_stage(minor)
    } else if major == scenes::SCENE_TARGET_TEST {
        minor == scenes::SCENE_TARGET_TEST_INGAME
    } else if special_melee(major) {
        minor == scenes::SCENE_SSD_INGAME
    } else if stadium(major) {
        minor == scenes::SCENE_HOME_RUN_CONTEST_INGAME
    } else if major == scenes::SCENE_TITLE_SCREEN_IDLE {
        minor == scenes::SCENE_TITLE_SCREEN_IDLE_FIGHT_1 || minor == scenes::SCENE_TITLE_SCREEN_IDLE_FIGHT_2
    } else {
        false
    }
}

/// Whether the scene is a menu, a character select screen or a stage select
/// screen.
pub open spec fn in_menus(major: u8, minor: u8) -> bool {
    if major == scenes::SCENE_MAIN_MENU {
        true
    } else if major == scenes::SCENE_VS_MODE {
        minor == scenes::SCENE_VS_CSS || minor == scenes::SCENE_VS_SSS
    } else if major == scenes::SCENE_VS_ONLINE {
        minor == scenes::SCENE_VS_ONLINE_CSS || minor == scenes::SCENE_VS_ONLINE_SSS || minor
            == scenes::SCENE_VS_ONLINE_RANKED
    } else if training_like(major) {
        minor == scenes::SCENE_TRAINING_CSS || minor == scenes::SCENE_TRAINING_SSS
    } else if major == scenes::SCENE_EVENT_MATCH {
        minor == scenes::SCENE_EVENT_MATCH_SELECT
    } else if major == scenes::SCENE_CLASSIC_MODE || major == scenes::SCENE_ADVENTURE_MODE || major
        == scenes::SCENE_ALL_STAR_MODE {
        minor == scenes::SCENE_CLASSIC_CSS
    } else if major == scenes::SCENE_TARGET_TEST {
        minor == scenes::SCENE_TARGET_TEST_CSS
    } else if special_melee(major) {
        minor == scenes::SCENE_SSD_CSS || minor == scenes::SCENE_SSD_SSS
    } else if stadium(major) {
        minor == scenes::SCENE_HOME_RUN_CONTEST_CSS
    } else {
        false
    }
}

/// Returns true if the user is in an actual match.
pub fn is_in_game(scene_major: u8, scene_minor: u8) -> (r: bool)
    ensures
        r == in_game(scene_major, scene_minor),
{
    if scene_major == scenes::SCENE_ALL_STAR_MODE && scene_minor < scenes::SCENE_ALL_STAR_CSS {
        return true;
    }
    if scene_major == scenes::SCENE_VS_MODE || scene_major == scenes::SCENE_VS_ONLINE {
        return scene_minor == scenes::SCENE_VS_INGAME;
    }
    if (scenes::SCENE_TRAINING_MODE <= scene_major && scene_major <= scenes::SCENE_STAMINA_MODE) || scene_major
        == scenes::SCENE_FIXED_CAMERA_MODE {
        return scene_minor == scenes::SCENE_TRAINING_INGAME;
    }
    if scene_major == scenes::SCENE_EVENT_MATCH {
        return scene_minor == scenes::SCENE_EVENT_MATCH_INGAME;
    }
    if scene_major == scenes::SCENE_CLASSIC_MODE && scene_minor < scenes::SCENE_CLASSIC_CONTINUE {
        return scene_minor % 2 == 1;
    }
    if scene_major == scenes::SCENE_ADVENTURE_MODE {
        return scene_minor == scenes::SCENE_ADVENTURE_MUSHROOM_KINGDOM || scene_minor
            == scenes::SCENE_ADVENTURE_MUSHROOM_KINGDOM_BATTLE || scene_minor
            == scenes::SCENE_ADVENTURE_MUSHROOM_KONGO_JUNGLE_TINY_BATTLE || scene_minor
            == scenes::SCENE_ADVENTURE_MUSHROOM_KONGO_JUNGLE_GIANT_BATTLE || scene_minor
            == scenes::SCENE_ADVENTURE_UNDERGROUND_MAZE || scene_minor
            == scenes::SCENE_ADVENTURE_HYRULE_TEMPLE_BATTLE || scene_minor == scenes::SCENE_ADVENTURE_BRINSTAR
            || scene_minor == scenes::SCENE_ADVENTURE_ESCAPE_ZEBES || scene_minor
            == scenes::SCENE_ADVENTURE_GREEN_GREENS_KIRBY_BATTLE || scene_minor
            == scenes::SCENE_ADVENTURE_GREEN_GREENS_KIRBY_TEAM_BATTLE || scene_minor
            == scenes::SCENE_ADVENTURE_GREEN_GREENS_GIANT_KIRBY_BATTLE || scene_minor
            == scenes::SCENE_ADVENTURE_CORNERIA_BATTLE_1 || scene_minor
            == scenes::SCENE_ADVENTURE_CORNERIA_BATTLE_2 || scene_minor
            == scenes::SCENE_ADVENTURE_CORNERIA_BATTLE_3 || scene_minor
            == scenes::SCENE_ADVENTURE_POKEMON_STADIUM_BATTLE || scene_minor
            == scenes::SCENE_ADVENTURE_FZERO_GRAND_PRIX_RACE || scene_minor
            == scenes::SCENE_ADVENTURE_FZERO_GRAND_PRIX_BATTLE || scene_minor
            == scenes::SCENE_ADVENTURE_ONETT_BATTLE || scene_minor
            == scenes::SCENE_ADVENTURE_ICICLE_MOUNTAIN_CLIMB || scene_minor
            == scenes::SCENE_ADVENTURE_BATTLEFIELD_BATTLE || scene_minor
            == scenes::SCENE_ADVENTURE_BATTLEFIELD_METAL_BATTLE || scene_minor
            == scenes::SCENE_ADVENTURE_FINAL_DESTINATION_BATTLE;
    }
    if scene_major == scenes::SCENE_TARGET_TEST {
        return scene_minor == scenes::SCENE_TARGET_TEST_INGAME;
    }
    if scenes::SCENE_SUPER_SUDDEN_DEATH <= scene_major && scene_major <= scenes::MENU_LIGHTNING_MELEE {
        return scene_minor == scenes::SCENE_SSD_INGAME;
    }
    if scenes::SCENE_HOME_RUN_CONTEST <= scene_major && scene_major <= scenes::SCENE_CRUEL_MELEE {
        return scene_minor == scenes::SCENE_HOME_RUN_CONTEST_INGAME;
    }
    if scene_major == scenes::SCENE_TITLE_SCREEN_IDLE {
        return scene_minor == scenes::SCENE_TITLE_SCREEN_IDLE_FIGHT_1 || scene_minor
            == scenes::SCENE_TITLE_SCREEN_IDLE_FIGHT_2;
    }
    false
}

/// Returns true if the player is navigating the menus, including the
/// character and stage select screens.
pub fn is_in_menus(scene_major: u8, scene_minor: u8) -> (r: bool)
    ensures
        r == in_menus(scene_major, scene_minor),
{
    if scene_major == scenes::SCENE_MAIN_MENU {
        return true;
    }
    if scene_major == scenes::SCENE_VS_MODE {
        return scene_minor == scenes::SCENE_VS_CSS || scene_minor == scenes::SCENE_VS_SSS;
    }
    if scene_major == scenes::SCENE_VS_ONLINE {
        return scene_minor == scenes::SCENE_VS_ONLINE_CSS || scene_minor == scenes::SCENE_VS_ONLINE_SSS
            || scene_minor == scenes::SCENE_VS_ONLINE_RANKED;
    }
    if (scenes::SCENE_TRAINING_MODE <= scene_major && scene_major <= scenes::SCENE_STAMINA_MODE) || scene_major
        == scenes::SCENE_FIXED_CAMERA_MODE {
        return scene_minor == scenes::SCENE_TRAINING_CSS || scene_minor == scenes::SCENE_TRAINING_SSS;
    }
    if scene_major == scenes::SCENE_EVENT_MATCH {
        return scene_minor == scenes::SCENE_EVENT_MATCH_SELECT;
    }
    if scene_major == scenes::SCENE_CLASSIC_MODE || scene_major == scenes::SCENE_ADVENTURE_MODE || scene_major
        == scenes::SCENE_ALL_STAR_MODE {
        return scene_minor == scenes::SCENE_CLASSIC_CSS;
    }
    if scene_major == scenes::SCENE_TARGET_TEST {
        return scene_minor == scenes::SCENE_TARGET_TEST_CSS;
    }
    if scenes::SCENE_SUPER_SUDDEN_DEATH <= scene_major && scene_major <= scenes::MENU_LIGHTNING_MELEE {
        return scene_minor == scenes::SCENE_SSD_CSS || scene_minor == scenes::SCENE_SSD_SSS;
    }
    if scenes::SCENE_HOME_RUN_CONTEST <= scene_major && scene_major <= scenes::SCENE_CRUEL_MELEE {
        return scene_minor == scenes::SCENE_HOME_RUN_CONTEST_CSS;
    }
    false
}

/// No scene is both a match and a menu.
pub proof fn lemma_in_game_excludes_menus(major: u8, minor: u8)
    ensures
        !(in_game(major, minor) && in_menus(major, minor)),
{
}

} // verus!
