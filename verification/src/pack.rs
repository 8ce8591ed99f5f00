//! The pack data model: a pack is a named bundle of images, each image an
//! asset identified by a hash-like string, together with the set of square
//! render resolutions the remote service supports for the pack.

use vstd::prelude::*;

verus! {

/// One square render resolution a pack's images are available in.
#[derive(Debug, Clone, Copy, PartialEq, Eq, Structural)]
pub struct Size {
    pub width: u16,
    pub height: u16,
}

/// One image asset within a pack.
pub struct Emoji {
    /// Display name, used to construct the output file name.
    pub name: String,
    /// Opaque hash-like asset identifier; its first two characters are a
    /// path-sharding prefix in the download URL, so it must hold at least two.
    pub id: String,
}

impl Emoji {
    pub open spec fn wf(self) -> bool {
        self.id@.len() >= 2
    }
}

/// One remote content bundle, decoded fresh from a metadata payload.
pub struct EmojiPack {
    pub id: u32,
    /// Human-readable label, used to name the output directory.
    pub mark: String,
    /// Ordered: later modes rely on "first image".
    pub imgs: Vec<Emoji>,
    pub supported_sizes: Vec<Size>,
}

impl EmojiPack {
    /// Every image's asset identifier is long enough to shard on.
    pub open spec fn imgs_wf(self) -> bool {
        forall|i: int| 0 <= i < self.imgs@.len() ==> (#[trigger] self.imgs@[i]).wf()
    }

    /// The pack advertises the given square resolution.
    pub open spec fn spec_supports(self, w: u16, h: u16) -> bool {
        exists|i: int|
            0 <= i < self.supported_sizes@.len() && (#[trigger] self.supported_sizes@[i])
                == (Size { width: w, height: h })
    }

    fn supports(&self, w: u16, h: u16) -> (r: bool)
        ensures
            r == self.spec_supports(w, h),
    {
        let n = self.supported_sizes.len();
        let mut i: usize = 0;
        while i < n
            invariant
                i <= n,
                n == self.supported_sizes@.len(),
                forall|j: int|
                    0 <= j < i ==> (#[trigger] self.supported_sizes@[j]) != (Size {
                        width: w,
                        height: h,
                    }),
            decreases n - i,
        {
            let s = self.supported_sizes[i];
            if s.width == w && s.height == h {
                return true;
            }
            i += 1;
        }
        false
    }

    pub fn supports_300x300(&self) -> (r: bool)
        ensures
            r == self.spec_supports(300, 300),
    {
        self.supports(300, 300)
    }

    pub fn supports_200x200(&self) -> (r: bool)
        ensures
            r == self.spec_supports(200, 200),
    {
        self.supports(200, 200)
    }
}

/// Copies a vector of plain values, element for element.
pub fn copy_values<T: Copy>(v: &Vec<T>) -> (r: Vec<T>)
    ensures
        r@ == v@,
{
    let mut r: Vec<T> = Vec::new();
    let n = v.len();
    let mut i: usize = 0;
    while i < n
        invariant
            i <= n,
            n == v@.len(),
            r@ == v@.take(i as int),
        decreases n - i,
    {
        r.push(v[i]);
        proof {
            assert(r@ =~= v@.take(i + 1 as int));
        }
        i += 1;
    }
    proof {
        assert(r@ =~= v@);
    }
    r
}

} // verus!
