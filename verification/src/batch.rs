//! The batch first-asset mode: for each previously captured metadata file,
//! download only the first image of its pack, as `<id>.png`. Every per-item
//! failure — a pack that did not decode, a missing first image, an unknown
//! size profile, a failed download — is isolated: it never stops the batch.

use vstd::prelude::*;
use crate::errors::RipError;
use crate::fetch::FetchFailure;
use crate::pack::{copy_values, EmojiPack};
use crate::resolve::{preferred_resolution, resolve_size};
use crate::rip::ImageDownload;
use crate::urls::{first_asset_file_name, first_asset_file_name_spec, image_url, image_url_spec};

verus! {

/// Plans the download of a pack's first image: its URL at the preferred
/// resolution and the output name `<id>.png`; fails when the pack has no
/// images, or — the first image standing — supports neither known resolution.
pub fn first_asset_plan(pack: &EmojiPack) -> (r: Result<ImageDownload, RipError>)
    requires
        pack.imgs@.len() > 0 ==> pack.imgs@[0].wf(),
    ensures
        match r {
            Ok(d) => {
                &&& pack.imgs@.len() > 0
                &&& preferred_resolution(*pack) is Some
                &&& d.url@ == image_url_spec(pack.imgs@[0].id@, preferred_resolution(*pack)->0)
                &&& d.file_name@ == first_asset_file_name_spec(pack.id)
            },
            Err(e) => match e {
                RipError::MissingFirstImage { id } => pack.imgs@.len() == 0 && id == pack.id,
                RipError::UnsupportedSize { id, sizes } => {
                    &&& pack.imgs@.len() > 0
                    &&& preferred_resolution(*pack) is None
                    &&& id == pack.id
                    &&& sizes@ == pack.supported_sizes@
                },
                RipError::DownloadFailed { .. } => false,
            },
        },
{
    if pack.imgs.len() == 0 {
        return Err(RipError::MissingFirstImage { id: pack.id });
    }
    let rez = match resolve_size(pack) {
        Ok(rez) => rez,
        Err(e) => {
            return Err(e);
        },
    };
    let url = image_url(pack.imgs[0].id.as_str(), rez);
    let file_name = first_asset_file_name(pack.id);
    Ok(ImageDownload { url, file_name })
}

/// One item of the batch: either a metadata file that did not decode, or its
/// decoded pack together with the outcome of the first-image download.
pub enum BatchInput {
    DecodeFailed,
    Item(EmojiPack, Result<Vec<u8>, FetchFailure>),
}

impl BatchInput {
    pub open spec fn wf(self) -> bool {
        match self {
            BatchInput::DecodeFailed => true,
            BatchInput::Item(pack, _) => pack.imgs@.len() > 0 ==> pack.imgs@[0].wf(),
        }
    }
}

/// What processing one item came to; every skip carries why.
pub enum BatchEvent {
    SkippedDecode,
    SkippedMissingImage { id: u32 },
    SkippedUnsupportedSize { id: u32 },
    SkippedDownload { id: u32, kind: FetchFailure },
    Wrote { name: String, bytes: Vec<u8> },
}

/// The event one item must come to: a write of `<id>.png` with exactly the
/// bytes received when the item decoded, had a first image, a known size and
/// a successful download — and the matching skip otherwise.
pub open spec fn batch_event_matches(input: BatchInput, e: BatchEvent) -> bool {
    match input {
        BatchInput::DecodeFailed => e is SkippedDecode,
        BatchInput::Item(pack, fetched) => if pack.imgs@.len() == 0 {
            e matches BatchEvent::SkippedMissingImage { id } && id == pack.id
        } else if preferred_resolution(pack) is None {
            e matches BatchEvent::SkippedUnsupportedSize { id } && id == pack.id
        } else {
            match fetched {
                Ok(bytes) => e matches BatchEvent::Wrote { name, bytes: written } && name@
                    == first_asset_file_name_spec(pack.id) && written@ == bytes@,
                Err(kind) => e matches BatchEvent::SkippedDownload { id, kind: k } && id == pack.id
                    && k == kind,
            }
        },
    }
}

/// Processes one item of the batch.
pub fn batch_step(input: &BatchInput) -> (e: BatchEvent)
    requires
        input.wf(),
    ensures
        batch_event_matches(*input, e),
{
    match input {
        BatchInput::DecodeFailed => BatchEvent::SkippedDecode,
        BatchInput::Item(pack, fetched) => match first_asset_plan(pack) {
            Err(RipError::MissingFirstImage { id }) => BatchEvent::SkippedMissingImage { id },
            Err(RipError::UnsupportedSize { id, .. }) => BatchEvent::SkippedUnsupportedSize {
                id,
            },
            Err(RipError::DownloadFailed { .. }) => BatchEvent::SkippedDecode,
            Ok(d) => match fetched {
                Result::Ok(bytes) => BatchEvent::Wrote {
                    name: d.file_name,
                    bytes: copy_values(bytes),
                },
                Result::Err(kind) => BatchEvent::SkippedDownload { id: pack.id, kind: *kind },
            },
        },
    }
}

/// The whole batch, one event per item in order: each item comes to its own
/// event, and no item's failure keeps the later items from being processed.
pub fn run_first_asset_batch(items: &Vec<BatchInput>) -> (events: Vec<BatchEvent>)
    requires
        forall|i: int| 0 <= i < items@.len() ==> (#[trigger] items@[i]).wf(),
    ensures
        events@.len() == items@.len(),
        forall|i: int|
            0 <= i < items@.len() ==> batch_event_matches(items@[i], #[trigger] events@[i]),
{
    let n = items.len();
    let mut events: Vec<BatchEvent> = Vec::new();
    let mut i: usize = 0;
    while i < n
        invariant
            i <= n,
            n == items@.len(),
            forall|k: int| 0 <= k < items@.len() ==> (#[trigger] items@[k]).wf(),
            events@.len() == i,
            forall|j: int| 0 <= j < i ==> batch_event_matches(items@[j], #[trigger] events@[j]),
        decreases n - i,
    {
        let e = batch_step(&items[i]);
        events.push(e);
        i += 1;
    }
    events
}

} // verus!
