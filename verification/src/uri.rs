//! Which image sources this loader family supports, judged from the URI
//! and from the MIME type.
//!
//! The backing decoder reads every common raster format but no vector
//! images, so anything that looks like SVG is handed to other loaders.

use vstd::prelude::*;

verus! {

/// The URI with its trailing separators removed, as a path library
/// would ignore them when naming the final component.
pub open spec fn spec_strip_trailing(s: Seq<char>) -> Seq<char>
    decreases s.len(),
{
    if s.len() > 0 && s.last() == '/' {
        spec_strip_trailing(s.drop_last())
    } else {
        s
    }
}

/// Index of the first character of a URI's last `/`-separated segment.
pub open spec fn spec_seg_start(s: Seq<char>) -> int
    decreases s.len(),
{
    if s.len() == 0 {
        0
    } else if s.last() == '/' {
        s.len() as int
    } else {
        spec_seg_start(s.drop_last())
    }
}

/// Whether a URI names a supported image source: after trailing
/// separators are dropped, its last segment does not carry the extension
/// `svg`. A segment without an extension (no dot after its first
/// character) counts as supported, because the format is then guessed
/// from the bytes.
pub open spec fn spec_supported_uri(s: Seq<char>) -> bool {
    let t = spec_strip_trailing(s);
    let start = spec_seg_start(t);
    let n = t.len() as int;
    !(n - start >= 5 && t[n - 4] == '.' && t[n - 3] == 's' && t[n - 2] == 'v' && t[n - 1] == 'g')
}

/// Whether the URI points at something the image decoder can read.
#[verifier::loop_isolation(false)]
pub fn is_supported_uri(uri: &str) -> (r: bool)
    ensures
        r == spec_supported_uri(uri@),
{
    let n = uri.unicode_len();
    proof {
        assert(uri@.subrange(0, n as int) =~= uri@);
    }
    // Drop trailing separators.
    let mut end: usize = n;
    while end > 0 && uri.get_char(end - 1) == '/'
        invariant
            end <= n,
            spec_strip_trailing(uri@) == spec_strip_trailing(uri@.subrange(0, end as int)),
        decreases end,
    {
        proof {
            assert(uri@.subrange(0, end as int).last() == uri@[end as int - 1]);
            assert(uri@.subrange(0, end as int).drop_last() =~= uri@.subrange(0, end as int - 1));
        }
        end -= 1;
    }
    let ghost t = spec_strip_trailing(uri@);
    proof {
        assert(t == uri@.subrange(0, end as int));
    }
    // Find the last segment of what remains.
    let mut i: usize = end;
    let mut start: usize = 0;
    let mut found = false;
    while i > 0 && !found
        invariant
            i <= end <= n,
            t == uri@.subrange(0, end as int),
            !found ==> start == 0 && spec_seg_start(t) == spec_seg_start(
                uri@.subrange(0, i as int),
            ),
            found ==> spec_seg_start(t) == start && start <= end,
        decreases i,
    {
        i -= 1;
        proof {
            assert(uri@.subrange(0, i as int + 1).last() == uri@[i as int]);
            assert(uri@.subrange(0, i as int + 1).drop_last() =~= uri@.subrange(0, i as int));
        }
        if uri.get_char(i) == '/' {
            start = i + 1;
            found = true;
        }
    }
    proof {
        if !found {
            assert(uri@.subrange(0, 0) =~= Seq::<char>::empty());
        }
    }
    if end >= 5 && end - start >= 5 {
        proof {
            assert(t[end - 4] == uri@[end - 4] && t[end - 3] == uri@[end - 3] && t[end - 2]
                == uri@[end - 2] && t[end - 1] == uri@[end - 1]);
        }
        !(uri.get_char(end - 4) == '.' && uri.get_char(end - 3) == 's' && uri.get_char(end - 2)
            == 'v' && uri.get_char(end - 1) == 'g')
    } else {
        true
    }
}

/// Whether a MIME type names a format the decoder cannot read: anything
/// mentioning `svg`.
pub open spec fn spec_unsupported_mime(s: Seq<char>) -> bool {
    exists|i: int|
        0 <= i && i + 3 <= s.len() && (#[trigger] s[i]) == 's' && s[i + 1] == 'v' && s[i + 2] == 'g'
}

/// Whether the MIME type rules this decoder out.
#[verifier::loop_isolation(false)]
pub fn is_unsupported_mime(mime: &str) -> (r: bool)
    ensures
        r == spec_unsupported_mime(mime@),
{
    let n = mime.unicode_len();
    if n < 3 {
        return false;
    }
    let mut i: usize = 0;
    while i <= n - 3
        invariant
            3 <= n,
            i <= n - 2,
            forall|j: int|
                0 <= j < i ==> !((#[trigger] mime@[j]) == 's' && mime@[j + 1] == 'v' && mime@[j
                    + 2] == 'g'),
        decreases n - i,
    {
        if mime.get_char(i) == 's' && mime.get_char(i + 1) == 'v' && mime.get_char(i + 2) == 'g' {
            return true;
        }
        i += 1;
    }
    false
}

} // verus!
