use vstd::prelude::*;

verus! {

/// What the provider reported for the currently playing track. The art
/// reference is an opaque locator; empty means that no art is advertised.
/// A value is immutable once constructed and superseded wholesale on each
/// poll.
pub struct NowPlayingInfo {
    pub artist: String,
    pub title: String,
    pub art_reference: String,
}

impl NowPlayingInfo {
    /// Folds the three provider answers into one value, substituting a
    /// well-defined placeholder for each query that failed: the poller
    /// tolerates an absent provider or an idle media source and never
    /// fails itself.
    pub fn from_provider_outputs(
        artist: Option<String>,
        title: Option<String>,
        art_reference: Option<String>,
    ) -> (info: NowPlayingInfo)
        ensures
            info.artist@ == (match artist {
                Some(a) => a@,
                None => "Unknown"@,
            }),
            info.title@ == (match title {
                Some(t) => t@,
                None => "No media playing"@,
            }),
            info.art_reference@ == (match art_reference {
                Some(r) => r@,
                None => Seq::<char>::empty(),
            }),
    {
        NowPlayingInfo {
            artist: match artist {
                Some(a) => a,
                None => String::from_str("Unknown"),
            },
            title: match title {
                Some(t) => t,
                None => String::from_str("No media playing"),
            },
            art_reference: match art_reference {
                Some(r) => r,
                None => String::new(),
            },
        }
    }
}

/// The whitespace that provider output is stripped of: the command's
/// answers arrive with a trailing newline.
pub open spec fn is_space(c: char) -> bool {
    c == ' ' || c == '\t' || c == '\n' || c == '\r'
}

fn is_space_exec(c: char) -> (b: bool)
    ensures
        b == is_space(c),
{
    c == ' ' || c == '\t' || c == '\n' || c == '\r'
}

/// Strips leading and trailing whitespace from a provider answer. The
/// result is the contiguous stretch of the input that remains when every
/// whitespace character at either end is removed; in particular it is
/// empty when the input is all whitespace.
pub fn trim_whitespace(s: &str) -> (r: String)
    ensures
        exists|i: int, j: int|
            #![auto]
            0 <= i <= j <= s@.len() && r@ == s@.subrange(i, j) && (forall|k: int|
                0 <= k < i ==> is_space(s@[k])) && (forall|k: int|
                j <= k < s@.len() ==> is_space(s@[k])) && (i < j ==> !is_space(s@[i])
                && !is_space(s@[j - 1])),
{
    let n = s.unicode_len();
    let mut start: usize = 0;
    while start < n && is_space_exec(s.get_char(start))
        invariant
            n == s@.len(),
            0 <= start <= n,
            forall|k: int| 0 <= k < start ==> is_space(s@[k]),
        decreases n - start,
    {
        start = start + 1;
    }
    let mut end: usize = n;
    while end > start && is_space_exec(s.get_char(end - 1))
        invariant
            n == s@.len(),
            0 <= start <= end <= n,
            forall|k: int| 0 <= k < start ==> is_space(s@[k]),
            forall|k: int| end <= k < n ==> is_space(s@[k]),
            start < n ==> !is_space(s@[start as int]),
        decreases end,
    {
        end = end - 1;
    }
    let r = String::from_str(s.substring_char(start, end));
    proof {
        let i = start as int;
        let j = end as int;
        assert(0 <= i <= j <= s@.len());
        assert(r@ == s@.subrange(i, j));
        assert(forall|k: int| 0 <= k < i ==> is_space(s@[k]));
        assert(forall|k: int| j <= k < s@.len() ==> is_space(s@[k]));
        assert(i < j ==> !is_space(s@[i]) && !is_space(s@[j - 1]));
    }
    r
}

} // verus!
