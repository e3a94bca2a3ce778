//! Detection of disc images that are known to cause desyncs.
//!
//! The image is hashed with MD5 as it is read, piece by piece, and the hash
//! is held against a short list of images that are known to cause trouble.

use vstd::prelude::*;
use crate::game_reporter::queue::GameReporterQueue;
use crate::osd::{Color, Duration, OsdMessage};

verus! {

/// What the player is told when the disc image is known to cause desyncs.
pub const DESYNC_WARNING: &'static str =
    "\n\nCAUTION: You are using an ISO that is known to cause desyncs";

/// How long the warning stays on screen, in milliseconds.
pub const DESYNC_WARNING_MILLIS: u32 = 20000;

#[verifier::external_type_specification]
#[verifier::external_body]
pub struct ExMd5Update(chksum::hash::md5::Update);

/// The bytes that a hash state has taken in so far, in the order in which
/// it took them.
pub uninterp spec fn md5_input(state: chksum::hash::md5::Update) -> Seq<u8>;

/// The MD5 hash of `input`, in lower-case hexadecimal.
pub uninterp spec fn md5_hex(input: Seq<u8>) -> Seq<char>;

/// The most bytes that are hashed: the length of the input must fit in a
/// `usize`, and its length in bits in 64 bits.
pub open spec fn md5_limit() -> int {
    if usize::MAX < 0x1FFF_FFFF_FFFF_FFFF {
        usize::MAX as int
    } else {
        0x1FFF_FFFF_FFFF_FFFF
    }
}

/// `chksum::hash::md5::new`: a hash state that has taken in nothing.
#[verifier::external_body]
fn md5_new() -> (state: chksum::hash::md5::Update)
    ensures
        md5_input(state) == Seq::<u8>::empty(),
{
    chksum::hash::md5::new()
}

/// `chksum::hash::md5::Update::update`: the hash state after it has taken in
/// `chunk` as well. The state counts the bytes in a `usize`, which the
/// input must not outgrow.
#[verifier::external_body]
fn md5_update(state: chksum::hash::md5::Update, chunk: &[u8]) -> (next: chksum::hash::md5::Update)
    requires
        md5_input(state).len() + chunk@.len() <= md5_limit(),
    ensures
        md5_input(next) == md5_input(state) + chunk@,
{
    state.update(chunk)
}

/// `chksum::hash::md5::Update::digest`, written with
/// `chksum::hash::md5::Digest::to_hex_lowercase`: the MD5 hash of what the
/// state has taken in. The length of the input in bits is worked out in 64
/// bits, which it must fit in.
#[verifier::external_body]
fn md5_digest_hex(state: &chksum::hash::md5::Update) -> (hash: String)
    requires
        md5_input(*state).len() <= md5_limit(),
    ensures
        hash@ == md5_hex(md5_input(*state)),
{
    state.digest().to_hex_lowercase()
}

/// Hashes a disc image as it is read.
pub struct IsoHasher {
    state: chksum::hash::md5::Update,
    taken: u64,
    too_long: bool,
}

impl IsoHasher {
    #[verifier::type_invariant]
    spec fn counted(self) -> bool {
        self.taken == md5_input(self.state).len() && self.taken <= md5_limit()
    }

    /// The bytes of the image that were taken in so far.
    pub closed spec fn input(self) -> Seq<u8> {
        md5_input(self.state)
    }

    /// Whether the image turned out to be longer than can be hashed.
    pub closed spec fn too_long(self) -> bool {
        self.too_long
    }

    /// A hasher that has taken in nothing.
    pub fn new() -> (hasher: Self)
        ensures
            hasher.input() == Seq::<u8>::empty(),
            !hasher.too_long(),
    {
        IsoHasher { state: md5_new(), taken: 0, too_long: false }
    }

    /// Takes in the next piece of the image. An image that grows beyond
    /// `md5_limit` is too long from then on, and nothing more is taken in.
    pub fn update(self, chunk: &[u8]) -> (next: Self)
        ensures
            next.too_long() == (self.too_long() || self.input().len() + chunk@.len()
                > md5_limit()),
            next.input() == (if next.too_long() {
                self.input()
            } else {
                self.input() + chunk@
            }),
    {
        proof {
            use_type_invariant(&self);
        }
        let limit: u64 = if (usize::MAX as u64) < 0x1FFF_FFFF_FFFF_FFFF {
            usize::MAX as u64
        } else {
            0x1FFF_FFFF_FFFF_FFFF
        };
        if self.too_long || chunk.len() as u64 > limit - self.taken {
            return IsoHasher { state: self.state, taken: self.taken, too_long: true };
        }
        let taken = self.taken + chunk.len() as u64;
        IsoHasher { state: md5_update(self.state, chunk), taken, too_long: false }
    }

    /// The MD5 hash of the image, in lower-case hexadecimal, once all of it
    /// was taken in; `None` where the image was too long.
    pub fn finish(self) -> (hash: Option<String>)
        ensures
            hash.is_some() == !self.too_long(),
            match hash {
                Some(hex) => hex@ == md5_hex(self.input()),
                None => true,
            },
    {
        proof {
            use_type_invariant(&self);
        }
        if self.too_long {
            None
        } else {
            Some(md5_digest_hex(&self.state))
        }
    }
}

/// Whether `hash` is the MD5 hash, in lower-case hexadecimal, of a disc image
/// that is known to cause problems.
pub open spec fn known_desync_iso(hash: Seq<char>) -> bool {
    ||| hash == "23d6baef06bd65989585096915da20f2"@
    ||| hash == "27a5668769a54cd3515af47b8d9982f3"@
    ||| hash == "5805fa9f1407aedc8804d0472346fc5f"@
    ||| hash == "9bb3e275e77bb1a160276f2330f93931"@
}

/// Returns true if `hash` is that of a disc image known to cause desyncs.
pub fn is_known_desync_iso(hash: &str) -> (r: bool)
    ensures
        r == known_desync_iso(hash@),
{
    let hash = String::from_str(hash);
    hash == String::from_str("23d6baef06bd65989585096915da20f2") || hash == String::from_str(
        "27a5668769a54cd3515af47b8d9982f3",
    ) || hash == String::from_str("5805fa9f1407aedc8804d0472346fc5f") || hash
        == String::from_str("9bb3e275e77bb1a160276f2330f93931")
}

/// Whether `message` is the warning about a disc image that causes desyncs.
pub open spec fn is_desync_warning(message: OsdMessage) -> bool {
    &&& message.color == Color::Red
    &&& message.duration == Duration::Custom(DESYNC_WARNING_MILLIS)
    &&& message.text@ == DESYNC_WARNING@
}

/// Takes the MD5 hash of the loaded disc image, in lower-case hexadecimal,
/// or `None` where the image could not be read or hashed.
///
/// A hash is written to the queue's holder, over what was there, whether or
/// not it is known; the warning is returned only for a known one. With no
/// hash the holder stays as it is, and nothing is shown.
pub fn run(queue: &mut GameReporterQueue, digest: Option<String>) -> (warning: Option<OsdMessage>)
    ensures
        final(queue)@ == old(queue)@,
        match digest {
            Some(hash) => final(queue).hash() == hash@ && warning.is_some() == known_desync_iso(
                hash@,
            ),
            None => final(queue).hash() == old(queue).hash() && warning.is_none(),
        },
        match warning {
            Some(message) => is_desync_warning(message),
            None => true,
        },
{
    match digest {
        Some(hash) => {
            let warning = if is_known_desync_iso(hash.as_str()) {
                Some(
                    OsdMessage {
                        color: Color::Red,
                        duration: Duration::Custom(DESYNC_WARNING_MILLIS),
                        text: String::from_str(DESYNC_WARNING),
                    },
                )
            } else {
                None
            };
            queue.set_iso_hash(hash);
            warning
        },
        None => None,
    }
}

/// Records the hash of the image that `hasher` has taken in, and returns the
/// warning where the image is known to cause desyncs. An image that was too
/// long to be hashed leaves the holder as it is.
pub fn record_iso_hash(queue: &mut GameReporterQueue, hasher: IsoHasher) -> (warning: Option<
    OsdMessage,
>)
    ensures
        final(queue)@ == old(queue)@,
        final(queue).hash() == (if hasher.too_long() {
            old(queue).hash()
        } else {
            md5_hex(hasher.input())
        }),
        warning.is_some() == (!hasher.too_long() && known_desync_iso(md5_hex(hasher.input()))),
        match warning {
            Some(message) => is_desync_warning(message),
            None => true,
        },
{
    run(queue, hasher.finish())
}

} // verus!
