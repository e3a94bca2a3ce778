//! Scene identifiers of the emulated game, as found in its memory.
//!
//! A scene is a pair of a major code (the game mode) and a minor code (the
//! screen within that mode). Only the codes that the music engine inspects
//! are named here.

use vstd::prelude::*;

verus! {

// Major codes.
pub const SCENE_TITLE_SCREEN: u8 = 0x00;
pub const SCENE_MAIN_MENU: u8 = 0x01;
pub const SCENE_VS_MODE: u8 = 0x02;
pub const SCENE_CLASSIC_MODE: u8 = 0x03;
pub const SCENE_ADVENTURE_MODE: u8 = 0x04;
pub const SCENE_ALL_STAR_MODE: u8 = 0x05;
pub const SCENE_DEBUG: u8 = 0x06;
pub const SCENE_SOUND_TEST: u8 = 0x07;
pub const SCENE_VS_ONLINE: u8 = 0x08;
pub const SCENE_CAMERA_MODE: u8 = 0x0A;
pub const SCENE_TROPHY_GALLERY: u8 = 0x0B;
pub const SCENE_TROPHY_LOTTERY: u8 = 0x0C;
pub const SCENE_TROPHY_COLLECTION: u8 = 0x0D;
pub const SCENE_START_MATCH: u8 = 0x0E;
pub const SCENE_TARGET_TEST: u8 = 0x0F;
pub const SCENE_SUPER_SUDDEN_DEATH: u8 = 0x10;
pub const MENU_INVISIBLE_MELEE: u8 = 0x11;
pub const MENU_SLOW_MO_MELEE: u8 = 0x12;
pub const MENU_LIGHTNING_MELEE: u8 = 0x13;
pub const SCENE_CHARACTER_APPROACHING: u8 = 0x14;
pub const SCENE_CLASSIC_MODE_COMPLETE: u8 = 0x15;
pub const SCENE_ADVENTURE_MODE_COMPLETE: u8 = 0x16;
pub const SCENE_ALL_STAR_COMPLETE: u8 = 0x17;
pub const SCENE_TITLE_SCREEN_IDLE: u8 = 0x18;
pub const SCENE_TOURNAMENT: u8 = 0x1B;
pub const SCENE_TRAINING_MODE: u8 = 0x1C;
pub const SCENE_TINY_MELEE: u8 = 0x1D;
pub const SCENE_GIANT_MELEE: u8 = 0x1E;
pub const SCENE_STAMINA_MODE: u8 = 0x1F;
pub const SCENE_HOME_RUN_CONTEST: u8 = 0x20;
pub const SCENE_10_MAN_MELEE: u8 = 0x21;
pub const SCENE_100_MAN_MELEE: u8 = 0x22;
pub const SCENE_3_MINUTE_MELEE: u8 = 0x23;
pub const SCENE_15_MINUTE_MELEE: u8 = 0x24;
pub const SCENE_ENDLESS_MELEE: u8 = 0x25;
pub const SCENE_CRUEL_MELEE: u8 = 0x26;
pub const SCENE_FIXED_CAMERA_MODE: u8 = 0x2A;
pub const SCENE_EVENT_MATCH: u8 = 0x2B;
pub const SCENE_SINGLE_BUTTON_MODE: u8 = 0x2C;

// Minor codes of the versus modes.
pub const SCENE_VS_CSS: u8 = 0x0;
pub const SCENE_VS_SSS: u8 = 0x1;
pub const SCENE_VS_INGAME: u8 = 0x2;
pub const SCENE_VS_POSTGAME: u8 = 0x4;

// Minor codes of online play.
pub const SCENE_VS_ONLINE_CSS: u8 = 0x00;
pub const SCENE_VS_ONLINE_SSS: u8 = 0x01;
pub const SCENE_VS_ONLINE_INGAME: u8 = 0x02;
pub const SCENE_VS_ONLINE_VERSUS: u8 = 0x04;
pub const SCENE_VS_ONLINE_RANKED: u8 = 0x05;

// Minor codes of classic mode.
pub const SCENE_CLASSIC_CONTINUE: u8 = 0x69;
pub const SCENE_CLASSIC_CSS: u8 = 0x70;

// Minor codes of adventure mode.
pub const SCENE_ADVENTURE_MUSHROOM_KINGDOM: u8 = 0x01;
pub const SCENE_ADVENTURE_MUSHROOM_KINGDOM_BATTLE: u8 = 0x03;
pub const SCENE_ADVENTURE_MUSHROOM_KONGO_JUNGLE_TINY_BATTLE: u8 = 0x09;
pub const SCENE_ADVENTURE_MUSHROOM_KONGO_JUNGLE_GIANT_BATTLE: u8 = 0x0A;
pub const SCENE_ADVENTURE_UNDERGROUND_MAZE: u8 = 0x11;
pub const SCENE_ADVENTURE_HYRULE_TEMPLE_BATTLE: u8 = 0x12;
pub const SCENE_ADVENTURE_BRINSTAR: u8 = 0x19;
pub const SCENE_ADVENTURE_ESCAPE_ZEBES: u8 = 0x1B;
pub const SCENE_ADVENTURE_GREEN_GREENS_KIRBY_BATTLE: u8 = 0x21;
pub const SCENE_ADVENTURE_GREEN_GREENS_KIRBY_TEAM_BATTLE: u8 = 0x23;
pub const SCENE_ADVENTURE_GREEN_GREENS_GIANT_KIRBY_BATTLE: u8 = 0x25;
pub const SCENE_ADVENTURE_CORNERIA_BATTLE_1: u8 = 0x29;
pub const SCENE_ADVENTURE_CORNERIA_BATTLE_2: u8 = 0x2B;
pub const SCENE_ADVENTURE_CORNERIA_BATTLE_3: u8 = 0x2C;
pub const SCENE_ADVENTURE_POKEMON_STADIUM_BATTLE: u8 = 0x31;
pub const SCENE_ADVENTURE_FZERO_GRAND_PRIX_RACE: u8 = 0x3A;
pub const SCENE_ADVENTURE_FZERO_GRAND_PRIX_BATTLE: u8 = 0x3B;
pub const SCENE_ADVENTURE_ONETT_BATTLE: u8 = 0x41;
pub const SCENE_ADVENTURE_ICICLE_MOUNTAIN_CLIMB: u8 = 0x49;
pub const SCENE_ADVENTURE_BATTLEFIELD_BATTLE: u8 = 0x51;
pub const SCENE_ADVENTURE_BATTLEFIELD_METAL_BATTLE: u8 = 0x53;
pub const SCENE_ADVENTURE_FINAL_DESTINATION_BATTLE: u8 = 0x59;
pub const SCENE_ADVENTURE_CSS: u8 = 0x70;

// Minor codes of all-star mode.
pub const SCENE_ALL_STAR_CSS: u8 = 0x70;

// Minor codes of target test.
pub const SCENE_TARGET_TEST_CSS: u8 = 0x00;
pub const SCENE_TARGET_TEST_INGAME: u8 = 0x1;

// Minor codes of the special melee modes.
pub const SCENE_SSD_CSS: u8 = 0x00;
pub const SCENE_SSD_SSS: u8 = 0x01;
pub const SCENE_SSD_INGAME: u8 = 0x02;
pub const SCENE_SSD_POSTGAME: u8 = 0x04;

// Minor codes of the idle title screen.
pub const SCENE_TITLE_SCREEN_IDLE_INTRO_VIDEO: u8 = 0x0;
pub const SCENE_TITLE_SCREEN_IDLE_FIGHT_1: u8 = 0x1;
pub const SCENE_TITLE_SCREEN_IDLE_BETWEEN_FIGHTS: u8 = 0x2;
pub const SCENE_TITLE_SCREEN_IDLE_FIGHT_2: u8 = 0x3;
pub const SCENE_TITLE_SCREEN_IDLE_HOW_TO_PLAY: u8 = 0x4;

// Minor codes of training and the modes that share its layout.
pub const SCENE_TRAINING_CSS: u8 = 0x0;
pub const SCENE_TRAINING_SSS: u8 = 0x1;
pub const SCENE_TRAINING_INGAME: u8 = 0x2;

// Minor codes of the stadium modes.
pub const SCENE_HOME_RUN_CONTEST_CSS: u8 = 0x0;
pub const SCENE_HOME_RUN_CONTEST_INGAME: u8 = 0x1;

// Minor codes of event matches.
pub const SCENE_EVENT_MATCH_SELECT: u8 = 0x0;
pub const SCENE_EVENT_MATCH_INGAME: u8 = 0x1;

} // verus!
