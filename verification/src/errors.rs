//! The error taxonomy: configuration errors abort before any network
//! activity; pack-level errors say why one pack cannot be processed, each
//! with a descriptive rendering.

use vstd::prelude::*;
use vstd::string::StringExecFns;
use crate::fetch::FetchFailure;
use crate::numeral::{dec_rep, u64_to_string};
use crate::pack::Size;

verus! {

/// A fatal configuration error, raised before any network activity.
#[derive(Debug, Clone, Copy, PartialEq, Eq, Structural)]
pub enum ConfigError {
    /// An enumeration range whose start does not precede its end.
    InvalidRange,
    /// A proxy string that does not parse as a proxy address.
    InvalidProxy,
}

impl ConfigError {
    pub open spec fn text_spec(self) -> Seq<char> {
        match self {
            ConfigError::InvalidRange => "invalid range"@,
            ConfigError::InvalidProxy => "invalid proxy"@,
        }
    }

    pub fn describe(&self) -> (r: String)
        ensures
            r@ == self.text_spec(),
    {
        match self {
            ConfigError::InvalidRange => String::from_str("invalid range"),
            ConfigError::InvalidProxy => String::from_str("invalid proxy"),
        }
    }
}

/// Why one pack cannot be processed.
#[derive(Debug)]
pub enum RipError {
    /// The pack supports neither known resolution; names the pack and its
    /// supported-size list so the failure is loud and descriptive.
    UnsupportedSize { id: u32, sizes: Vec<Size> },
    /// The pack has no images where the first one is required.
    MissingFirstImage { id: u32 },
    /// Downloading the image at `index` failed; fatal to a single-pack rip.
    DownloadFailed { index: usize, kind: FetchFailure },
}

/// `<width>x<height>` for one size.
pub open spec fn size_label_spec(s: Size) -> Seq<char> {
    dec_rep(s.width as nat) + "x"@ + dec_rep(s.height as nat)
}

/// A size list rendered in order, comma-separated.
pub open spec fn size_list_spec(sizes: Seq<Size>) -> Seq<char>
    decreases sizes.len(),
{
    if sizes.len() == 0 {
        Seq::empty()
    } else if sizes.len() == 1 {
        size_label_spec(sizes[0])
    } else {
        size_list_spec(sizes.drop_last()) + ", "@ + size_label_spec(sizes.last())
    }
}

/// How each failure class reads.
pub open spec fn fetch_failure_text_spec(k: FetchFailure) -> Seq<char> {
    match k {
        FetchFailure::ConnectionFailed => "connection failed"@,
        FetchFailure::Io => "i/o failure"@,
        FetchFailure::HttpStatus(c) => "http status "@ + dec_rep(c as nat),
        FetchFailure::Other => "request failed"@,
    }
}

/// How each pack-level error reads: the unsupported-size error names the pack
/// and its whole supported-size list.
pub open spec fn rip_error_text_spec(e: RipError) -> Seq<char> {
    match e {
        RipError::UnsupportedSize { id, sizes } => "no known supported size for pack "@ + dec_rep(
            id as nat,
        ) + ": "@ + size_list_spec(sizes@),
        RipError::MissingFirstImage { id } => "missing first emoji for "@ + dec_rep(id as nat),
        RipError::DownloadFailed { index, kind } => "failed to download image "@ + dec_rep(
            index as nat,
        ) + ": "@ + fetch_failure_text_spec(kind),
    }
}

fn size_label(s: Size) -> (r: String)
    ensures
        r@ == size_label_spec(s),
{
    let mut t = u64_to_string(s.width as u64);
    t.append("x");
    let h = u64_to_string(s.height as u64);
    t.append(h.as_str());
    proof {
        assert(t@ =~= size_label_spec(s));
    }
    t
}

fn size_list(sizes: &Vec<Size>) -> (r: String)
    ensures
        r@ == size_list_spec(sizes@),
{
    let n = sizes.len();
    let mut s = String::new();
    let mut i: usize = 0;
    while i < n
        invariant
            i <= n,
            n == sizes@.len(),
            s@ == size_list_spec(sizes@.take(i as int)),
        decreases n - i,
    {
        if i > 0 {
            s.append(", ");
        }
        let lbl = size_label(sizes[i]);
        s.append(lbl.as_str());
        proof {
            assert(sizes@.take(i + 1).drop_last() =~= sizes@.take(i as int));
            assert(sizes@.take(i + 1).last() == sizes@[i as int]);
            assert(s@ =~= size_list_spec(sizes@.take(i + 1)));
        }
        i += 1;
    }
    proof {
        assert(sizes@.take(n as int) =~= sizes@);
    }
    s
}

fn fetch_failure_text(k: &FetchFailure) -> (r: String)
    ensures
        r@ == fetch_failure_text_spec(*k),
{
    match k {
        FetchFailure::ConnectionFailed => String::from_str("connection failed"),
        FetchFailure::Io => String::from_str("i/o failure"),
        FetchFailure::HttpStatus(c) => {
            let mut s = String::from_str("http status ");
            let code = u64_to_string(*c as u64);
            s.append(code.as_str());
            proof {
                assert(s@ =~= fetch_failure_text_spec(*k));
            }
            s
        },
        FetchFailure::Other => String::from_str("request failed"),
    }
}

impl RipError {
    /// Renders the error, naming the pack and — for an unknown size profile —
    /// its whole supported-size list.
    pub fn describe(&self) -> (r: String)
        ensures
            r@ == rip_error_text_spec(*self),
    {
        match self {
            RipError::UnsupportedSize { id, sizes } => {
                let mut s = String::from_str("no known supported size for pack ");
                let idt = u64_to_string(*id as u64);
                s.append(idt.as_str());
                s.append(": ");
                let list = size_list(sizes);
                s.append(list.as_str());
                proof {
                    assert(s@ =~= rip_error_text_spec(*self));
                }
                s
            },
            RipError::MissingFirstImage { id } => {
                let mut s = String::from_str("missing first emoji for ");
                let idt = u64_to_string(*id as u64);
                s.append(idt.as_str());
                proof {
                    assert(s@ =~= rip_error_text_spec(*self));
                }
                s
            },
            RipError::DownloadFailed { index, kind } => {
                let mut s = String::from_str("failed to download image ");
                let idx = u64_to_string(*index as u64);
                s.append(idx.as_str());
                s.append(": ");
                let k = fetch_failure_text(kind);
                s.append(k.as_str());
                proof {
                    assert(s@ =~= rip_error_text_spec(*self));
                }
                s
            },
        }
    }
}

} // verus!
