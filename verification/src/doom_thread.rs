//! The frame hand-off between the engine thread and the renderer: the
//! engine publishes each frame it draws, the renderer swaps in the newest
//! one when it changed.

use std::sync::Arc;

use vstd::prelude::*;
use vstd::rwlock::{RwLock, RwLockPredicate};

verus! {

/// The file the engine's own output is written to.
pub const LOG_FILE: &'static str = "doom.log";

/// One engine frame: `width * height` XRGB pixels and the version that
/// orders frames (0 until the engine has drawn once).
pub struct SharedFrame {
    pub pixels: Vec<u32>,
    pub width: usize,
    pub height: usize,
    pub version: u64,
}

impl Default for SharedFrame {
    fn default() -> (frame: Self)
        ensures
            frame.pixels@.len() == 0,
            frame.width == 0,
            frame.height == 0,
            frame.version == 0,
    {
        SharedFrame { pixels: Vec::new(), width: 0, height: 0, version: 0 }
    }
}

/// `after` is `before` with the frame `pixels` of `width` by `height`
/// stored into it as the next version.
pub open spec fn stores(before: SharedFrame, after: SharedFrame, pixels: Seq<u32>, width: usize, height: usize) -> bool {
    &&& after.pixels@ == pixels
    &&& after.width == width
    &&& after.height == height
    &&& after.version == before.version + 1
}

/// What a fetch does to the shared frame `latest` and the consumer's
/// frame `destination`: whether it changed the consumer's frame, then the
/// two frames after it. When the versions differ the consumer takes the
/// newest frame, and the shared side keeps the consumer's previous pixel
/// buffer (stale content, guarded by the version); otherwise nothing moves.
pub open spec fn fetch_result(latest: SharedFrame, destination: SharedFrame) -> (bool, SharedFrame, SharedFrame) {
    if latest.version == destination.version {
        (false, latest, destination)
    } else {
        (
            true,
            SharedFrame { pixels: destination.pixels, ..latest },
            SharedFrame {
                pixels: latest.pixels,
                width: latest.width,
                height: latest.height,
                version: latest.version,
            },
        )
    }
}

impl SharedFrame {
    /// Stores a copy of `pixels` as the next frame.
    pub fn store(&mut self, pixels: &[u32], width: usize, height: usize)
        requires
            old(self).version < u64::MAX,
        ensures
            stores(*old(self), *final(self), pixels@, width, height),
    {
        self.pixels.clear();
        self.pixels.extend_from_slice(pixels);
        proof {
            assert forall|i: int| 0 <= i < self.pixels@.len() implies self.pixels@[i] == pixels@[i] by {
                assert(cloned::<u32>(pixels@[i], self.pixels@[i]));
            }
            assert(self.pixels@ =~= pixels@);
        }
        self.width = width;
        self.height = height;
        self.version = self.version + 1;
    }
}

/// Moves the newest frame from `latest` into `destination` when their
/// versions differ, swapping the pixel buffers so that no pixels are
/// copied, and reports whether it did.
pub fn exchange(latest: &mut SharedFrame, destination: &mut SharedFrame) -> (changed: bool)
    ensures
        (changed, *final(latest), *final(destination)) == fetch_result(*old(latest), *old(destination)),
{
    if latest.version == destination.version {
        return false;
    }
    std::mem::swap(&mut destination.pixels, &mut latest.pixels);
    destination.width = latest.width;
    destination.height = latest.height;
    destination.version = latest.version;
    true
}

/// The lock's invariant: the shared frame's version never falls below the
/// version the handle was made with. Stores only raise it and fetches keep
/// it, so it holds whatever the threads sharing the handle do.
struct VersionFloor {
    floor: u64,
}

impl RwLockPredicate<SharedFrame> for VersionFloor {
    closed spec fn inv(self, frame: SharedFrame) -> bool {
        frame.version >= self.floor
    }
}

/// Shared view of the latest engine frame; `version` orders frames and
/// stays 0 until the engine has drawn once.
#[derive(Clone)]
pub struct FrameHandle(Arc<RwLock<SharedFrame, VersionFloor>>);

impl FrameHandle {
    /// The version the handle was made with: the shared frame's version is
    /// never below it.
    pub closed spec fn version_floor(&self) -> u64 {
        self.0.pred().floor
    }

    /// A handle sharing `frame` as the latest frame; no frame it hands out
    /// has a version below `frame`'s.
    pub fn new(frame: SharedFrame) -> (handle: Self)
        ensures
            handle.version_floor() == frame.version,
    {
        let ghost floor = VersionFloor { floor: frame.version };
        FrameHandle(Arc::new(RwLock::new(frame, Ghost(floor))))
    }

    /// Swaps the newest frame into `destination` and reports whether it
    /// changed. The shared side keeps the consumer's previous buffer —
    /// stale content guarded by the version check — so neither thread
    /// copies pixels under the lock. Single-consumer by design.
    pub fn fetch_if_newer(&self, destination: &mut SharedFrame) -> (changed: bool)
        ensures
            exists|latest: SharedFrame|
                {
                    let outcome = #[trigger] fetch_result(latest, *old(destination));
                    &&& latest.version >= self.version_floor()
                    &&& changed == outcome.0
                    &&& *final(destination) == outcome.2
                },
    {
        let (mut latest, handle) = self.0.acquire_write();
        let ghost before = latest;
        let changed = exchange(&mut latest, destination);
        handle.release_write(latest);
        assert(fetch_result(before, *old(destination)).0 == changed);
        changed
    }

    /// Publishes a copy of `pixels` as the next frame, one version past the
    /// shared frame's, and returns that version; a frame whose version has
    /// reached `u64::MAX` is left as it is, and nothing is returned.
    pub fn publish(&self, pixels: &[u32], width: usize, height: usize) -> (stored: Option<u64>)
        ensures
            exists|before: u64|
                {
                    &&& before >= self.version_floor()
                    &&& stored == #[trigger] next_version(before)
                },
    {
        let (mut latest, handle) = self.0.acquire_write();
        let ghost before = latest.version;
        let stored = if latest.version < u64::MAX {
            latest.store(pixels, width, height);
            Some(latest.version)
        } else {
            None
        };
        handle.release_write(latest);
        assert(stored == next_version(before));
        stored
    }
}

/// The version a store gives a frame at `version`: one past it, or none
/// when it has reached its limit.
pub open spec fn next_version(version: u64) -> Option<u64> {
    if version < u64::MAX {
        Some((version + 1) as u64)
    } else {
        None
    }
}

impl Default for FrameHandle {
    fn default() -> (handle: Self)
        ensures
            handle.version_floor() == 0,
    {
        FrameHandle::new(SharedFrame::default())
    }
}

/// A frame the engine stores reaches a consumer that is not ahead of the
/// shared frame: the next fetch changes the consumer's frame to exactly
/// the stored pixels, size and version.
pub proof fn lemma_stored_frame_is_fetched(
    latest: SharedFrame,
    stored: SharedFrame,
    destination: SharedFrame,
    pixels: Seq<u32>,
    width: usize,
    height: usize,
)
    requires
        stores(latest, stored, pixels, width, height),
        destination.version <= latest.version,
    ensures
        ({
            let (changed, _, fetched) = fetch_result(stored, destination);
            &&& changed
            &&& fetched.pixels@ == pixels
            &&& fetched.width == width
            &&& fetched.height == height
            &&& fetched.version == latest.version + 1
        }),
{
}

/// A second fetch with no frame stored in between changes nothing.
pub proof fn lemma_fetch_twice_changes_nothing(latest: SharedFrame, destination: SharedFrame)
    ensures
        ({
            let (_, latest2, destination2) = fetch_result(latest, destination);
            fetch_result(latest2, destination2) == (false, latest2, destination2)
        }),
{
}

/// A fetch copies no pixels: the two pixel buffers are exchanged or left
/// in place, never duplicated or dropped.
pub proof fn lemma_fetch_exchanges_buffers(latest: SharedFrame, destination: SharedFrame)
    ensures
        ({
            let (changed, latest2, destination2) = fetch_result(latest, destination);
            &&& changed ==> latest2.pixels == destination.pixels && destination2.pixels == latest.pixels
            &&& !changed ==> latest2.pixels == latest.pixels && destination2.pixels == destination.pixels
        }),
{
}

/// The version is 0 only until the engine has drawn once: every stored
/// frame has a version of at least 1, and each store advances it.
pub proof fn lemma_stored_versions_advance(
    before: SharedFrame,
    after: SharedFrame,
    pixels: Seq<u32>,
    width: usize,
    height: usize,
)
    requires
        stores(before, after, pixels, width, height),
    ensures
        after.version >= 1,
        after.version > before.version,
{
}

} // verus!
