use vstd::prelude::*;

verus! {

/// Which follow-up chain a newly decoded stream gets: an audio chain, a
/// video chain, both or neither.
#[derive(Clone, Copy, Debug, PartialEq, Eq, Structural)]
pub struct StreamKind {
    pub is_audio: bool,
    pub is_video: bool,
}

/// Whether `s` begins with `prefix`.
pub fn starts_with(s: &str, prefix: &str) -> (res: bool)
    ensures
        res == prefix@.is_prefix_of(s@),
{
    let n = prefix.unicode_len();
    let m = s.unicode_len();
    if n > m {
        return false;
    }
    let mut i: usize = 0;
    while i < n
        invariant
            n == prefix@.len(),
            m == s@.len(),
            n <= m,
            i <= n,
            forall|j: int| 0 <= j < i ==> prefix@[j] == s@[j],
        decreases n - i,
    {
        if prefix.get_char(i) != s.get_char(i) {
            assert(prefix@[i as int] != s@.subrange(0, n as int)[i as int]);
            return false;
        }
        i = i + 1;
    }
    assert(prefix@ =~= s@.subrange(0, n as int));
    true
}

/// Classifies a decoded stream by the name of its media type: names under
/// `audio/` are audio, names under `video/` are video.
pub fn classify_stream(media_type: &str) -> (res: StreamKind)
    ensures
        res.is_audio == "audio/"@.is_prefix_of(media_type@),
        res.is_video == "video/"@.is_prefix_of(media_type@),
{
    StreamKind { is_audio: starts_with(media_type, "audio/"), is_video: starts_with(media_type, "video/") }
}

} // verus!
