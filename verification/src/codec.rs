use vstd::prelude::*;
use vstd::string::StrSliceExecFns;

verus! {

/// The fixed set of codec profiles the controller can launch.
#[derive(Clone, Copy, Debug, PartialEq, Eq, Structural)]
pub enum Codec {
    /// Lossy, broadly compatible; "slow" preset, constant quality 18,
    /// 4:2:0 chroma subsampling.
    H264,
    /// High-quality intermediate; "HQ" profile, vendor tag, 4:2:2 chroma
    /// at 10-bit depth.
    Prores,
    /// Lossless; maximum coding level, range coder with large-context
    /// modeling, 4:2:0 chroma subsampling.
    Ffv1,
}

/// The codec a selector string names. Any unrecognized selector falls back
/// to `H264`: a permissive default, not an error.
pub open spec fn codec_of(selector: Seq<char>) -> Codec {
    if selector == "prores"@ {
        Codec::Prores
    } else if selector == "ffv1"@ {
        Codec::Ffv1
    } else {
        Codec::H264
    }
}

/// Character-by-character string equality.
pub fn str_eq(a: &str, b: &str) -> (r: bool)
    ensures
        r == (a@ == b@),
{
    let alen = a.unicode_len();
    let blen = b.unicode_len();
    if alen != blen {
        return false;
    }
    let mut i: usize = 0;
    while i < alen
        invariant
            i <= alen,
            alen == a@.len(),
            alen == b@.len(),
            forall|j: int| 0 <= j < i ==> a@[j] == b@[j],
        decreases alen - i,
    {
        if a.get_char(i) != b.get_char(i) {
            return false;
        }
        i += 1;
    }
    proof {
        assert(a@ =~= b@);
    }
    true
}

/// Maps a codec selector to its profile, defaulting to `H264` for any
/// unrecognized value.
pub fn parse_codec(selector: &str) -> (c: Codec)
    ensures
        c == codec_of(selector@),
{
    if str_eq(selector, "prores") {
        Codec::Prores
    } else if str_eq(selector, "ffv1") {
        Codec::Ffv1
    } else {
        Codec::H264
    }
}

/// An unrecognized selector behaves exactly as the default profile:
/// the codec it names is the same codec that `"h264"` names.
pub proof fn lemma_unrecognized_selector_defaults(selector: Seq<char>)
    requires
        selector != "prores"@,
        selector != "ffv1"@,
    ensures
        codec_of(selector) == codec_of("h264"@),
{
    assert(codec_of(selector) == Codec::H264);
    reveal_strlit("h264");
    reveal_strlit("prores");
    reveal_strlit("ffv1");
    assert("h264"@.len() == 4);
    assert("prores"@.len() == 6);
    assert("ffv1"@[0] == 'f');
    assert("h264"@[0] == 'h');
    assert(codec_of("h264"@) == Codec::H264);
}

}
