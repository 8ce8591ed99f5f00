//! The single-pack rip mode: plan the output directory, one download per
//! image in order, then run the downloads sequentially, where any single
//! failure is fatal and aborts the remaining iteration — in contrast to the
//! skip-and-continue modes.

use vstd::prelude::*;
use vstd::string::StringExecFns;
use crate::errors::RipError;
use crate::fetch::FetchFailure;
use crate::pack::{copy_values, EmojiPack};
use crate::resolve::{preferred_resolution, resolve_size, Resolution};
use crate::urls::{dir_name, dir_name_spec, image_file_name, image_file_name_spec, image_url, image_url_spec};

verus! {

/// One planned image download: where to fetch and what to name the file.
pub struct ImageDownload {
    pub url: String,
    pub file_name: String,
}

/// Everything a rip of one pack will do, fixed before any request is issued.
pub struct RipPlan {
    pub dir_name: String,
    pub resolution: Resolution,
    pub downloads: Vec<ImageDownload>,
}

/// A file the caller is to write: its name and exactly the bytes received.
pub struct FileWrite {
    pub name: String,
    pub bytes: Vec<u8>,
}

/// The plan a pack determines: the directory `<id> - <mark>`, the preferred
/// resolution, and one download per image, in order, each URL sharded on the
/// first two characters of the asset identifier and each file named
/// `<NN>_<name>.png` with a 1-based padded index.
pub open spec fn plan_matches_pack(plan: RipPlan, pack: EmojiPack) -> bool {
    &&& Some(plan.resolution) == preferred_resolution(pack)
    &&& plan.dir_name@ == dir_name_spec(pack.id, pack.mark@)
    &&& plan.downloads@.len() == pack.imgs@.len()
    &&& forall|i: int|
        0 <= i < pack.imgs@.len() ==> (#[trigger] plan.downloads@[i]).url@ == image_url_spec(
            pack.imgs@[i].id@,
            plan.resolution,
        )
    &&& forall|i: int|
        0 <= i < pack.imgs@.len() ==> (#[trigger] plan.downloads@[i]).file_name@
            == image_file_name_spec((i + 1) as nat, pack.imgs@[i].name@)
}

/// Plans the rip of one pack, or fails — before any image download would be
/// issued — when the pack supports neither known resolution.
pub fn plan_rip(pack: &EmojiPack) -> (r: Result<RipPlan, RipError>)
    requires
        pack.imgs_wf(),
    ensures
        match r {
            Ok(plan) => plan_matches_pack(plan, *pack),
            Err(e) => {
                &&& preferred_resolution(*pack) is None
                &&& e matches RipError::UnsupportedSize { id, sizes } && id == pack.id && sizes@
                    == pack.supported_sizes@
            },
        },
{
    let resolution = match resolve_size(pack) {
        Ok(rez) => rez,
        Err(e) => {
            return Err(e);
        },
    };
    let dir = dir_name(pack.id, pack.mark.as_str());
    let n = pack.imgs.len();
    let mut downloads: Vec<ImageDownload> = Vec::new();
    let mut i: usize = 0;
    while i < n
        invariant
            i <= n,
            n == pack.imgs@.len(),
            pack.imgs_wf(),
            downloads@.len() == i,
            forall|j: int|
                0 <= j < i ==> (#[trigger] downloads@[j]).url@ == image_url_spec(
                    pack.imgs@[j].id@,
                    resolution,
                ),
            forall|j: int|
                0 <= j < i ==> (#[trigger] downloads@[j]).file_name@ == image_file_name_spec(
                    (j + 1) as nat,
                    pack.imgs@[j].name@,
                ),
        decreases n - i,
    {
        assert(pack.imgs@[i as int].wf());
        let url = image_url(pack.imgs[i].id.as_str(), resolution);
        let file_name = image_file_name((i as u64) + 1, pack.imgs[i].name.as_str());
        downloads.push(ImageDownload { url, file_name });
        i += 1;
    }
    Ok(RipPlan { dir_name: dir, resolution, downloads })
}

/// Runs a plan's downloads in order against their outcomes: every file up to
/// the first failure is written with exactly the bytes received, and the
/// first failure — if any — aborts the rest and is surfaced as final.
pub fn run_rip_downloads(plan: &RipPlan, results: &Vec<Result<Vec<u8>, FetchFailure>>) -> (r: (
    Vec<FileWrite>,
    Result<(), RipError>,
))
    requires
        results@.len() == plan.downloads@.len(),
    ensures
        r.0@.len() <= results@.len(),
        forall|i: int|
            0 <= i < r.0@.len() ==> (#[trigger] results@[i]) is Ok && r.0@[i].name@
                == plan.downloads@[i].file_name@ && r.0@[i].bytes@ == results@[i]->Ok_0@,
        r.1 is Ok <==> (forall|i: int| 0 <= i < results@.len() ==> (#[trigger] results@[i]) is Ok),
        r.1 is Ok ==> r.0@.len() == results@.len(),
        r.1 is Err ==> {
            &&& r.0@.len() < results@.len()
            &&& results@[r.0@.len() as int] is Err
            &&& r.1->Err_0 matches RipError::DownloadFailed { index, kind } && index == r.0@.len()
                && kind == results@[r.0@.len() as int]->Err_0
        },
{
    let n = results.len();
    let mut writes: Vec<FileWrite> = Vec::new();
    let mut i: usize = 0;
    while i < n
        invariant
            i <= n,
            n == results@.len(),
            results@.len() == plan.downloads@.len(),
            writes@.len() == i,
            forall|j: int|
                0 <= j < i ==> (#[trigger] results@[j]) is Ok && writes@[j].name@
                    == plan.downloads@[j].file_name@ && writes@[j].bytes@ == results@[j]->Ok_0@,
        decreases n - i,
    {
        match &results[i] {
            Result::Ok(bytes) => {
                let name = String::from_str(plan.downloads[i].file_name.as_str());
                writes.push(FileWrite { name, bytes: copy_values(bytes) });
            },
            Result::Err(kind) => {
                return (writes, Err(RipError::DownloadFailed { index: i, kind: *kind }));
            },
        }
        i += 1;
    }
    (writes, Ok(()))
}

/// The whole rip of one pack over the outcomes of its downloads, one outcome
/// per image in order. A successful rip yields the directory `<id> - <mark>`
/// and exactly one file per image, named `<NN>_<name>.png` with 1-based
/// padded indices and holding exactly the bytes received; an unsupported
/// size profile fails before any download, and a failed download is fatal.
pub fn rip_session(pack: &EmojiPack, results: &Vec<Result<Vec<u8>, FetchFailure>>) -> (r: Result<
    (String, Vec<FileWrite>),
    RipError,
>)
    requires
        pack.imgs_wf(),
        results@.len() == pack.imgs@.len(),
    ensures
        match r {
            Ok(out) => {
                &&& preferred_resolution(*pack) is Some
                &&& forall|i: int| 0 <= i < results@.len() ==> (#[trigger] results@[i]) is Ok
                &&& out.0@ == dir_name_spec(pack.id, pack.mark@)
                &&& out.1@.len() == pack.imgs@.len()
                &&& forall|i: int|
                    0 <= i < pack.imgs@.len() ==> (#[trigger] out.1@[i]).name@
                        == image_file_name_spec((i + 1) as nat, pack.imgs@[i].name@)
                &&& forall|i: int|
                    0 <= i < pack.imgs@.len() ==> (#[trigger] out.1@[i]).bytes@
                        == results@[i]->Ok_0@
            },
            Err(e) => match e {
                RipError::UnsupportedSize { id, sizes } => {
                    &&& preferred_resolution(*pack) is None
                    &&& id == pack.id
                    &&& sizes@ == pack.supported_sizes@
                },
                RipError::DownloadFailed { index, kind } => {
                    &&& preferred_resolution(*pack) is Some
                    &&& index < results@.len()
                    &&& results@[index as int] is Err
                    &&& kind == results@[index as int]->Err_0
                    &&& forall|j: int| 0 <= j < index ==> (#[trigger] results@[j]) is Ok
                },
                RipError::MissingFirstImage { .. } => false,
            },
        },
{
    let plan = match plan_rip(pack) {
        Ok(plan) => plan,
        Err(e) => {
            return Err(e);
        },
    };
    let (writes, status) = run_rip_downloads(&plan, results);
    match status {
        Ok(()) => {
            proof {
                assert forall|i: int| 0 <= i < pack.imgs@.len() implies (#[trigger] writes@[i]).name@
                    == image_file_name_spec((i + 1) as nat, pack.imgs@[i].name@) && writes@[i].bytes@
                    == results@[i]->Ok_0@ by {
                    assert(results@[i] is Ok);
                    assert(plan.downloads@[i].file_name@ == image_file_name_spec(
                        (i + 1) as nat,
                        pack.imgs@[i].name@,
                    ));
                }
            }
            Ok((plan.dir_name, writes))
        },
        Err(e) => Err(e),
    }
}

} // verus!
