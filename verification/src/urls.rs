//! Construction of the remote endpoints and of output file names: two JSON
//! metadata endpoints (primary keyed by `id mod 10` sharding, a secondary
//! mirror host), the image endpoint keyed by a two-character prefix of an
//! asset identifier plus a resolution label, and the per-mode output names.

use vstd::prelude::*;
use vstd::string::StrSliceExecFns;
use vstd::string::StringExecFns;
use crate::numeral::{dec_rep, padded_index, padded_index_string, u64_to_string};
use crate::resolve::{label_spec, resolution_label, Resolution};

verus! {

/// The primary metadata endpoint for a pack, sharded by `id mod 10`.
pub open spec fn primary_metadata_url_spec(id: u32) -> Seq<char> {
    "https://i.gtimg.cn/club/item/parcel/"@ + dec_rep((id % 10) as nat) + "/"@ + dec_rep(id as nat)
        + "_android.json"@
}

/// The secondary mirror endpoint, believed to resolve to the same backing
/// service; tried by the enumerator when the primary fails.
pub open spec fn secondary_metadata_url_spec(id: u32) -> Seq<char> {
    "https://gxh.vip.qq.com/club/item/parcel/"@ + dec_rep((id % 10) as nat) + "/"@ + dec_rep(
        id as nat,
    ) + "_android.json"@
}

/// The image endpoint: sharded by the first two characters of the asset
/// identifier, then the full identifier, then the resolution label.
pub open spec fn image_url_spec(asset_id: Seq<char>, rez: Resolution) -> Seq<char> {
    "https://i.gtimg.cn/club/item/parcel/item/"@ + asset_id.subrange(0, 2) + "/"@ + asset_id + "/"@
        + label_spec(rez) + ".png"@
}

/// The output directory of a single-pack rip: `<id> - <mark>`.
pub open spec fn dir_name_spec(id: u32, mark: Seq<char>) -> Seq<char> {
    dec_rep(id as nat) + " - "@ + mark
}

/// The output file of one ripped image: `<NN>_<name>.png`, with a 1-based
/// index padded to at least two digits.
pub open spec fn image_file_name_spec(index1: nat, name: Seq<char>) -> Seq<char> {
    padded_index(index1) + "_"@ + name + ".png"@
}

/// The output file of one enumerated metadata payload: `<id>.json`.
pub open spec fn json_file_name_spec(id: u32) -> Seq<char> {
    dec_rep(id as nat) + ".json"@
}

/// The output file of a pack's first asset: `<id>.png`.
pub open spec fn first_asset_file_name_spec(id: u32) -> Seq<char> {
    dec_rep(id as nat) + ".png"@
}

pub fn primary_metadata_url(id: u32) -> (r: String)
    ensures
        r@ == primary_metadata_url_spec(id),
{
    let mut s = String::from_str("https://i.gtimg.cn/club/item/parcel/");
    let shard = u64_to_string((id % 10) as u64);
    s.append(shard.as_str());
    s.append("/");
    let full = u64_to_string(id as u64);
    s.append(full.as_str());
    s.append("_android.json");
    proof {
        assert(s@ =~= primary_metadata_url_spec(id));
    }
    s
}

pub fn secondary_metadata_url(id: u32) -> (r: String)
    ensures
        r@ == secondary_metadata_url_spec(id),
{
    let mut s = String::from_str("https://gxh.vip.qq.com/club/item/parcel/");
    let shard = u64_to_string((id % 10) as u64);
    s.append(shard.as_str());
    s.append("/");
    let full = u64_to_string(id as u64);
    s.append(full.as_str());
    s.append("_android.json");
    proof {
        assert(s@ =~= secondary_metadata_url_spec(id));
    }
    s
}

pub fn image_url(asset_id: &str, rez: Resolution) -> (r: String)
    requires
        asset_id@.len() >= 2,
    ensures
        r@ == image_url_spec(asset_id@, rez),
{
    let mut s = String::from_str("https://i.gtimg.cn/club/item/parcel/item/");
    let prefix = asset_id.substring_char(0, 2);
    s.append(prefix);
    s.append("/");
    s.append(asset_id);
    s.append("/");
    s.append(resolution_label(rez));
    s.append(".png");
    proof {
        assert(s@ =~= image_url_spec(asset_id@, rez));
    }
    s
}

pub fn dir_name(id: u32, mark: &str) -> (r: String)
    ensures
        r@ == dir_name_spec(id, mark@),
{
    let mut s = u64_to_string(id as u64);
    s.append(" - ");
    s.append(mark);
    proof {
        assert(s@ =~= dir_name_spec(id, mark@));
    }
    s
}

pub fn image_file_name(index1: u64, name: &str) -> (r: String)
    ensures
        r@ == image_file_name_spec(index1 as nat, name@),
{
    let mut s = padded_index_string(index1);
    s.append("_");
    s.append(name);
    s.append(".png");
    proof {
        assert(s@ =~= image_file_name_spec(index1 as nat, name@));
    }
    s
}

pub fn json_file_name(id: u32) -> (r: String)
    ensures
        r@ == json_file_name_spec(id),
{
    let mut s = u64_to_string(id as u64);
    s.append(".json");
    proof {
        assert(s@ =~= json_file_name_spec(id));
    }
    s
}

pub fn first_asset_file_name(id: u32) -> (r: String)
    ensures
        r@ == first_asset_file_name_spec(id),
{
    let mut s = u64_to_string(id as u64);
    s.append(".png");
    proof {
        assert(s@ =~= first_asset_file_name_spec(id));
    }
    s
}

} // verus!
