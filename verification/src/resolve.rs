//! The size-variant resolver: which pre-rendered square resolution to request
//! for every image of a pack, with a strict fixed preference, and a loud
//! failure when neither known resolution is supported.

use vstd::prelude::*;
use crate::errors::RipError;
use crate::pack::{copy_values, EmojiPack};

verus! {

/// The two known-good square resolutions; no other is ever requested.
#[derive(Debug, Clone, Copy, PartialEq, Eq, Structural)]
pub enum Resolution {
    Square300,
    Square200,
}

/// The label a resolution takes in a download URL.
pub open spec fn label_spec(r: Resolution) -> Seq<char> {
    match r {
        Resolution::Square300 => "300x300"@,
        Resolution::Square200 => "200x200"@,
    }
}

pub fn resolution_label(r: Resolution) -> (s: &'static str)
    ensures
        s@ == label_spec(r),
{
    match r {
        Resolution::Square300 => "300x300",
        Resolution::Square200 => "200x200",
    }
}

/// The resolution the resolver must pick: 300x300 whenever it is supported,
/// else 200x200 whenever it is supported, else none.
pub open spec fn preferred_resolution(p: EmojiPack) -> Option<Resolution> {
    if p.spec_supports(300, 300) {
        Some(Resolution::Square300)
    } else if p.spec_supports(200, 200) {
        Some(Resolution::Square200)
    } else {
        None
    }
}

/// Picks the single resolution to request for every image of the pack, or
/// fails naming the pack and its supported-size list.
pub fn resolve_size(pack: &EmojiPack) -> (r: Result<Resolution, RipError>)
    ensures
        match r {
            Ok(res) => preferred_resolution(*pack) == Some(res),
            Err(e) => {
                &&& preferred_resolution(*pack) is None
                &&& e matches RipError::UnsupportedSize { id, sizes } && id == pack.id && sizes@
                    == pack.supported_sizes@
            },
        },
{
    if pack.supports_300x300() {
        Ok(Resolution::Square300)
    } else if pack.supports_200x200() {
        Ok(Resolution::Square200)
    } else {
        Err(RipError::UnsupportedSize { id: pack.id, sizes: copy_values(&pack.supported_sizes) })
    }
}

} // verus!
