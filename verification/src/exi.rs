//! The device that a session of the emulated game talks to.

use vstd::prelude::*;
use crate::game_reporter::types::GameReport;
use crate::game_reporter::SlippiGameReporter;

verus! {

/// An EXI device specific to managing and interacting with the game itself.
///
/// It owns the game reporter of the session and, while music substitution is
/// enabled, the music engine, which is of the type `J`.
#[derive(Debug)]
pub struct SlippiEXIDevice<J> {
    pub iso_path: String,
    pub game_reporter: SlippiGameReporter,
    pub jukebox: Option<J>,
}

impl<J> SlippiEXIDevice<J> {
    /// Creates and returns a new `SlippiEXIDevice` with default values: no
    /// report is pending, and no music engine runs.
    pub fn new(iso_path: String) -> (device: Self)
        ensures
            device.iso_path == iso_path,
            device.jukebox.is_none(),
            device.game_reporter.queue@ == Seq::<GameReport>::empty(),
            device.game_reporter.queue.hash() == Seq::<char>::empty(),
            device.game_reporter.queue.wf(),
            device.game_reporter.replay_data@ == Seq::<u8>::empty(),
    {
        SlippiEXIDevice { iso_path, game_reporter: SlippiGameReporter::new(), jukebox: None }
    }

    /// Called by the host on a DMA write. Reserved: nothing changes.
    pub fn dma_write(&mut self, _address: usize, _size: usize)
        ensures
            *final(self) == *old(self),
    {
    }

    /// Called by the host on a DMA read. Reserved: nothing changes.
    pub fn dma_read(&mut self, _address: usize, _size: usize)
        ensures
            *final(self) == *old(self),
    {
    }

    /// Configures the music engine. Where music is disabled, the engine that
    /// ran is let go, and none is to be started. Where it is enabled,
    /// `started` is the engine that was started for it, which takes the place
    /// of the one that ran; where none could be started, the one that ran
    /// stays.
    pub fn configure_jukebox(&mut self, is_enabled: bool, started: Option<J>)
        ensures
            final(self).iso_path == old(self).iso_path,
            final(self).game_reporter == old(self).game_reporter,
            final(self).jukebox == (if !is_enabled {
                None
            } else if started.is_some() {
                started
            } else {
                old(self).jukebox
            }),
    {
        if !is_enabled {
            self.jukebox = None;
            return ;
        }
        match started {
            Some(jukebox) => {
                self.jukebox = Some(jukebox);
            },
            None => {},
        }
    }
}

} // verus!
