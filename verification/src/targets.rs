//! Which render targets changed since the camera system last ran: the ids of
//! windows that were created, resized or rescaled, and of images that were
//! added or modified.
use bevy::platform::collections::HashSet;
use crate::sets::{
    ids128, ids128_contains, ids128_insert, ids128_new, ids64, ids64_contains, ids64_insert,
    ids64_new,
};
use vstd::prelude::*;

verus! {

/// An image asset, by the id that the asset server gives it.
#[derive(Debug, Clone, Copy, PartialEq, Eq, Structural)]
pub enum ImageKey {
    /// An asset stored by index: its index and generation as one 64-bit id.
    Index(u64),
    /// An asset registered under a UUID.
    Uuid(u128),
}

/// What a camera renders to, reduced to the id by which a change of it is
/// recognised.
#[derive(Debug, Clone, Copy, PartialEq, Eq, Structural)]
pub enum RenderTargetKey {
    /// A window, by the bits of its entity.
    Window(u64),
    /// An image asset.
    Image(ImageKey),
    /// A texture view managed outside the renderer; it is never known to be
    /// unchanged.
    TextureView,
}

/// An event about an image asset.
#[derive(Debug, Clone, Copy, PartialEq, Eq, Structural)]
pub enum ImageAssetEvent {
    Added(ImageKey),
    Modified(ImageKey),
    Removed(ImageKey),
    Unused(ImageKey),
    LoadedWithDependencies(ImageKey),
}

/// The image that an event marks as changed: only additions and modifications
/// change what a camera renders to.
pub open spec fn changed_image(event: ImageAssetEvent) -> Option<ImageKey> {
    match event {
        ImageAssetEvent::Added(image) => Some(image),
        ImageAssetEvent::Modified(image) => Some(image),
        _ => None,
    }
}

/// The indices of the images that some event of `events` marks as changed.
pub open spec fn changed_image_indices(events: Seq<ImageAssetEvent>) -> Set<u64> {
    Set::new(
        |index: u64|
            exists|j: int|
                0 <= j < events.len() && #[trigger] changed_image(events[j]) == Some(
                    ImageKey::Index(index),
                ),
    )
}

/// The UUIDs of the images that some event of `events` marks as changed.
pub open spec fn changed_image_uuids(events: Seq<ImageAssetEvent>) -> Set<u128> {
    Set::new(
        |uuid: u128|
            exists|j: int|
                0 <= j < events.len() && #[trigger] changed_image(events[j]) == Some(
                    ImageKey::Uuid(uuid),
                ),
    )
}

/// The ids that a `ChangedTargets` holds.
pub struct ChangedSets {
    pub windows: Set<u64>,
    pub image_indices: Set<u64>,
    pub image_uuids: Set<u128>,
}

impl ChangedSets {
    /// Whether a camera rendering to `target` has to be updated.
    pub open spec fn marks(self, target: RenderTargetKey) -> bool {
        match target {
            RenderTargetKey::Window(window) => self.windows.contains(window),
            RenderTargetKey::Image(ImageKey::Index(index)) => self.image_indices.contains(index),
            RenderTargetKey::Image(ImageKey::Uuid(uuid)) => self.image_uuids.contains(uuid),
            RenderTargetKey::TextureView => true,
        }
    }
}

/// The render targets that changed during one frame.
pub struct ChangedTargets {
    windows: HashSet<u64>,
    image_indices: HashSet<u64>,
    image_uuids: HashSet<u128>,
}

impl View for ChangedTargets {
    type V = ChangedSets;

    closed spec fn view(&self) -> ChangedSets {
        ChangedSets {
            windows: ids64(self.windows),
            image_indices: ids64(self.image_indices),
            image_uuids: ids128(self.image_uuids),
        }
    }
}

impl ChangedTargets {
    /// No target has changed.
    pub fn new() -> (targets: Self)
        ensures
            targets@.windows == Set::<u64>::empty(),
            targets@.image_indices == Set::<u64>::empty(),
            targets@.image_uuids == Set::<u128>::empty(),
    {
        ChangedTargets { windows: ids64_new(), image_indices: ids64_new(), image_uuids: ids128_new() }
    }

    /// Records that the window `window` was created, resized or rescaled.
    pub fn record_window(&mut self, window: u64)
        ensures
            final(self)@.windows == old(self)@.windows.insert(window),
            final(self)@.image_indices == old(self)@.image_indices,
            final(self)@.image_uuids == old(self)@.image_uuids,
    {
        ids64_insert(&mut self.windows, window);
    }

    /// Records the windows of `windows`.
    pub fn record_windows(&mut self, windows: &Vec<u64>)
        ensures
            final(self)@.windows == old(self)@.windows + windows@.to_set(),
            final(self)@.image_indices == old(self)@.image_indices,
            final(self)@.image_uuids == old(self)@.image_uuids,
    {
        let ghost start = self@.windows;
        let n = windows.len();
        for i in 0..n
            invariant
                n == windows@.len(),
                self@.image_indices == old(self)@.image_indices,
                self@.image_uuids == old(self)@.image_uuids,
                start == old(self)@.windows,
                forall|w: u64|
                    #![trigger self@.windows.contains(w)]
                    self@.windows.contains(w) <==> (start.contains(w) || exists|j: int|
                        0 <= j < i && windows@[j] == w),
        {
            self.record_window(windows[i]);
        }
        assert forall|w: u64| self@.windows.contains(w) == (start + windows@.to_set()).contains(w) by {
            if windows@.contains(w) {
                let j = choose|j: int| 0 <= j < windows@.len() && windows@[j] == w;
                assert(exists|j: int| 0 <= j < n && windows@[j] == w);
            }
        }
        assert(self@.windows =~= start + windows@.to_set());
    }

    /// Records an image event: additions and modifications mark their image as
    /// changed, other events change nothing.
    pub fn record_image_event(&mut self, event: ImageAssetEvent)
        ensures
            final(self)@.windows == old(self)@.windows,
            final(self)@.image_indices == (match changed_image(event) {
                Some(ImageKey::Index(index)) => old(self)@.image_indices.insert(index),
                _ => old(self)@.image_indices,
            }),
            final(self)@.image_uuids == (match changed_image(event) {
                Some(ImageKey::Uuid(uuid)) => old(self)@.image_uuids.insert(uuid),
                _ => old(self)@.image_uuids,
            }),
            match event {
                ImageAssetEvent::Added(ImageKey::Index(index)) | ImageAssetEvent::Modified(
                    ImageKey::Index(index),
                ) => final(self)@.image_indices == old(self)@.image_indices.insert(index)
                    && final(self)@.image_uuids == old(self)@.image_uuids,
                ImageAssetEvent::Added(ImageKey::Uuid(uuid)) | ImageAssetEvent::Modified(
                    ImageKey::Uuid(uuid),
                ) => final(self)@.image_uuids == old(self)@.image_uuids.insert(uuid)
                    && final(self)@.image_indices == old(self)@.image_indices,
                _ => final(self)@.image_indices == old(self)@.image_indices && final(self)@.image_uuids
                    == old(self)@.image_uuids,
            },
    {
        let changed = match event {
            ImageAssetEvent::Added(image) => Some(image),
            ImageAssetEvent::Modified(image) => Some(image),
            _ => None,
        };
        match changed {
            Some(ImageKey::Index(index)) => ids64_insert(&mut self.image_indices, index),
            Some(ImageKey::Uuid(uuid)) => ids128_insert(&mut self.image_uuids, uuid),
            None => {},
        }
    }

    /// Collects the changes of one frame: the windows that were created,
    /// resized or had their scale factor changed, and the image events.
    pub fn collect(
        created: &Vec<u64>,
        resized: &Vec<u64>,
        scale_factor_changed: &Vec<u64>,
        image_events: &Vec<ImageAssetEvent>,
    ) -> (targets: Self)
        ensures
            targets@.windows == created@.to_set() + resized@.to_set()
                + scale_factor_changed@.to_set(),
            targets@.image_indices == changed_image_indices(image_events@),
            targets@.image_uuids == changed_image_uuids(image_events@),
            forall|index: u64|
                #![trigger targets@.image_indices.contains(index)]
                targets@.image_indices.contains(index) <==> exists|j: int|
                    0 <= j < image_events@.len() && (#[trigger] image_events@[j]
                        == ImageAssetEvent::Added(ImageKey::Index(index)) || image_events@[j]
                        == ImageAssetEvent::Modified(ImageKey::Index(index))),
            forall|uuid: u128|
                #![trigger targets@.image_uuids.contains(uuid)]
                targets@.image_uuids.contains(uuid) <==> exists|j: int|
                    0 <= j < image_events@.len() && (#[trigger] image_events@[j]
                        == ImageAssetEvent::Added(ImageKey::Uuid(uuid)) || image_events@[j]
                        == ImageAssetEvent::Modified(ImageKey::Uuid(uuid))),
    {
        let mut targets = ChangedTargets::new();
        targets.record_windows(created);
        targets.record_windows(resized);
        targets.record_windows(scale_factor_changed);
        assert(targets@.windows =~= created@.to_set() + resized@.to_set()
            + scale_factor_changed@.to_set());
        let n = image_events.len();
        for i in 0..n
            invariant
                n == image_events@.len(),
                targets@.windows == created@.to_set() + resized@.to_set()
                    + scale_factor_changed@.to_set(),
                targets@.image_indices == changed_image_indices(image_events@.take(i as int)),
                targets@.image_uuids == changed_image_uuids(image_events@.take(i as int)),
        {
            targets.record_image_event(image_events[i]);
            let ghost prefix = image_events@.take(i as int);
            let ghost next = image_events@.take(i + 1);
            assert(next =~= prefix.push(image_events@[i as int]));
            assert(targets@.image_indices =~= changed_image_indices(next)) by {
                assert forall|index: u64|
                    #[trigger] changed_image_indices(next).contains(index)
                        == targets@.image_indices.contains(index) by {
                    if changed_image(image_events@[i as int]) == Some(ImageKey::Index(index)) {
                        assert(changed_image(next[i as int]) == Some(ImageKey::Index(index)));
                    }
                    if changed_image_indices(next).contains(index) {
                        let j = choose|j: int|
                            0 <= j < next.len() && #[trigger] changed_image(next[j]) == Some(
                                ImageKey::Index(index),
                            );
                        if j < i {
                            assert(changed_image(prefix[j]) == Some(ImageKey::Index(index)));
                        }
                    }
                    if changed_image_indices(prefix).contains(index) {
                        let j = choose|j: int|
                            0 <= j < prefix.len() && #[trigger] changed_image(prefix[j]) == Some(
                                ImageKey::Index(index),
                            );
                        assert(changed_image(next[j]) == Some(ImageKey::Index(index)));
                    }
                }
            }
            assert(targets@.image_uuids =~= changed_image_uuids(next)) by {
                assert forall|uuid: u128|
                    #[trigger] changed_image_uuids(next).contains(uuid)
                        == targets@.image_uuids.contains(uuid) by {
                    if changed_image(image_events@[i as int]) == Some(ImageKey::Uuid(uuid)) {
                        assert(changed_image(next[i as int]) == Some(ImageKey::Uuid(uuid)));
                    }
                    if changed_image_uuids(next).contains(uuid) {
                        let j = choose|j: int|
                            0 <= j < next.len() && #[trigger] changed_image(next[j]) == Some(
                                ImageKey::Uuid(uuid),
                            );
                        if j < i {
                            assert(changed_image(prefix[j]) == Some(ImageKey::Uuid(uuid)));
                        }
                    }
                    if changed_image_uuids(prefix).contains(uuid) {
                        let j = choose|j: int|
                            0 <= j < prefix.len() && #[trigger] changed_image(prefix[j]) == Some(
                                ImageKey::Uuid(uuid),
                            );
                        assert(changed_image(next[j]) == Some(ImageKey::Uuid(uuid)));
                    }
                }
            }
        }
        assert(image_events@.take(n as int) =~= image_events@);
        assert forall|index: u64| #[trigger] targets@.image_indices.contains(index) <==> exists|j: int|
            0 <= j < image_events@.len() && (#[trigger] image_events@[j]
                == ImageAssetEvent::Added(ImageKey::Index(index)) || image_events@[j]
                == ImageAssetEvent::Modified(ImageKey::Index(index))) by {
            if targets@.image_indices.contains(index) {
                let j = choose|j: int|
                    0 <= j < image_events@.len() && #[trigger] changed_image(image_events@[j])
                        == Some(ImageKey::Index(index));
                assert(image_events@[j] == ImageAssetEvent::Added(ImageKey::Index(index))
                    || image_events@[j] == ImageAssetEvent::Modified(ImageKey::Index(index)));
            }
            if exists|j: int|
                0 <= j < image_events@.len() && (#[trigger] image_events@[j]
                    == ImageAssetEvent::Added(ImageKey::Index(index)) || image_events@[j]
                    == ImageAssetEvent::Modified(ImageKey::Index(index))) {
                let j = choose|j: int|
                    0 <= j < image_events@.len() && (#[trigger] image_events@[j]
                        == ImageAssetEvent::Added(ImageKey::Index(index)) || image_events@[j]
                        == ImageAssetEvent::Modified(ImageKey::Index(index)));
                assert(changed_image(image_events@[j]) == Some(ImageKey::Index(index)));
            }
        }
        assert forall|uuid: u128| #[trigger] targets@.image_uuids.contains(uuid) <==> exists|j: int|
            0 <= j < image_events@.len() && (#[trigger] image_events@[j]
                == ImageAssetEvent::Added(ImageKey::Uuid(uuid)) || image_events@[j]
                == ImageAssetEvent::Modified(ImageKey::Uuid(uuid))) by {
            if targets@.image_uuids.contains(uuid) {
                let j = choose|j: int|
                    0 <= j < image_events@.len() && #[trigger] changed_image(image_events@[j])
                        == Some(ImageKey::Uuid(uuid));
                assert(image_events@[j] == ImageAssetEvent::Added(ImageKey::Uuid(uuid))
                    || image_events@[j] == ImageAssetEvent::Modified(ImageKey::Uuid(uuid)));
            }
            if exists|j: int|
                0 <= j < image_events@.len() && (#[trigger] image_events@[j]
                    == ImageAssetEvent::Added(ImageKey::Uuid(uuid)) || image_events@[j]
                    == ImageAssetEvent::Modified(ImageKey::Uuid(uuid))) {
                let j = choose|j: int|
                    0 <= j < image_events@.len() && (#[trigger] image_events@[j]
                        == ImageAssetEvent::Added(ImageKey::Uuid(uuid)) || image_events@[j]
                        == ImageAssetEvent::Modified(ImageKey::Uuid(uuid)));
                assert(changed_image(image_events@[j]) == Some(ImageKey::Uuid(uuid)));
            }
        }
        targets
    }

    /// Whether a camera rendering to `target` has to be updated because its
    /// target changed.
    pub fn is_changed(&self, target: &RenderTargetKey) -> (changed: bool)
        ensures
            changed == self@.marks(*target),
            changed == match *target {
                RenderTargetKey::Window(window) => self@.windows.contains(window),
                RenderTargetKey::Image(ImageKey::Index(index)) => self@.image_indices.contains(index),
                RenderTargetKey::Image(ImageKey::Uuid(uuid)) => self@.image_uuids.contains(uuid),
                RenderTargetKey::TextureView => true,
            },
    {
        match target {
            RenderTargetKey::Window(window) => ids64_contains(&self.windows, *window),
            RenderTargetKey::Image(ImageKey::Index(index)) => ids64_contains(
                &self.image_indices,
                *index,
            ),
            RenderTargetKey::Image(ImageKey::Uuid(uuid)) => ids128_contains(
                &self.image_uuids,
                *uuid,
            ),
            RenderTargetKey::TextureView => true,
        }
    }
}

} // verus!
