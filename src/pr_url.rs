//! Identity of one reviewable request: platform, owner, repository and id.
//!
//! Parsed from `https://github.com/<owner>/<repo>/pull/<id>` or
//! `https://gitlab.com/<owner>/<repo>/-/merge_requests/<id>`.

use vstd::prelude::*;

use crate::text::{has_prefix, same_text, starts_with_text};

verus! {

/// Supported platform for pull/merge requests.
#[derive(Debug, Clone, Copy, PartialEq, Eq, Structural)]
pub enum Platform {
    GitHub,
    GitLab,
}

/// Parsed PR (GitHub) or MR (GitLab) URL.
#[derive(Debug, Clone)]
pub struct PrUrl {
    pub platform: Platform,
    pub owner: String,
    pub repo: String,
    pub id: String,
}

/// The abstract value of a [`PrUrl`]: its platform and its three texts.
pub struct PrUrlModel {
    pub platform: Platform,
    pub owner: Seq<char>,
    pub repo: Seq<char>,
    pub id: Seq<char>,
}

impl View for PrUrl {
    type V = PrUrlModel;

    open spec fn view(&self) -> PrUrlModel {
        PrUrlModel { platform: self.platform, owner: self.owner@, repo: self.repo@, id: self.id@ }
    }
}

/// Unicode `White_Space` characters, the ones that `str::trim` removes.
pub open spec fn is_white(c: char) -> bool {
    let u = c as u32;
    ||| 0x09 <= u <= 0x0D
    ||| u == 0x20
    ||| u == 0x85
    ||| u == 0xA0
    ||| u == 0x1680
    ||| 0x2000 <= u <= 0x200A
    ||| u == 0x2028
    ||| u == 0x2029
    ||| u == 0x202F
    ||| u == 0x205F
    ||| u == 0x3000
}

/// `s` without its leading white space.
pub open spec fn trim_start_spec(s: Seq<char>) -> Seq<char>
    decreases s.len(),
{
    if s.len() > 0 && is_white(s[0]) {
        trim_start_spec(s.drop_first())
    } else {
        s
    }
}

/// `s` without its trailing white space.
pub open spec fn trim_end_spec(s: Seq<char>) -> Seq<char>
    decreases s.len(),
{
    if s.len() > 0 && is_white(s.last()) {
        trim_end_spec(s.drop_last())
    } else {
        s
    }
}

/// `s` without leading and trailing white space.
pub open spec fn trim_spec(s: Seq<char>) -> Seq<char> {
    trim_end_spec(trim_start_spec(s))
}

/// Whether `c` is white space.
fn white(c: char) -> (r: bool)
    ensures
        r == is_white(c),
{
    let u = c as u32;
    (0x09 <= u && u <= 0x0D) || u == 0x20 || u == 0x85 || u == 0xA0 || u == 0x1680 || (0x2000 <= u
        && u <= 0x200A) || u == 0x2028 || u == 0x2029 || u == 0x202F || u == 0x205F || u == 0x3000
}

proof fn lemma_trim_start(s: Seq<char>, lo: int)
    requires
        0 <= lo <= s.len(),
        forall|i: int| 0 <= i < lo ==> is_white(#[trigger] s[i]),
        lo < s.len() ==> !is_white(s[lo]),
    ensures
        trim_start_spec(s) == s.subrange(lo, s.len() as int),
    decreases lo,
{
    if lo == 0 {
        assert(s.subrange(0, s.len() as int) =~= s);
    } else {
        let t = s.drop_first();
        assert forall|i: int| 0 <= i < lo - 1 implies is_white(#[trigger] t[i]) by {
            assert(t[i] == s[i + 1]);
        }
        assert(lo - 1 < t.len() ==> t[lo - 1] == s[lo]);
        lemma_trim_start(t, lo - 1);
        assert(t.subrange(lo - 1, t.len() as int) =~= s.subrange(lo, s.len() as int));
    }
}

proof fn lemma_trim_end(t: Seq<char>, hi: int)
    requires
        0 <= hi <= t.len(),
        forall|i: int| hi <= i < t.len() ==> is_white(#[trigger] t[i]),
        hi > 0 ==> !is_white(t[hi - 1]),
    ensures
        trim_end_spec(t) == t.subrange(0, hi),
    decreases t.len() - hi,
{
    if hi == t.len() {
        assert(t.subrange(0, hi) =~= t);
    } else {
        let u = t.drop_last();
        assert forall|i: int| hi <= i < u.len() implies is_white(#[trigger] u[i]) by {
            assert(u[i] == t[i]);
        }
        assert(hi > 0 ==> u[hi - 1] == t[hi - 1]);
        lemma_trim_end(u, hi);
        assert(u.subrange(0, hi) =~= t.subrange(0, hi));
    }
}

/// `s` without leading and trailing white space.
fn trim_text(s: &str) -> (r: &str)
    ensures
        r@ == trim_spec(s@),
{
    let n = s.unicode_len();
    let mut lo: usize = 0;
    while lo < n && white(s.get_char(lo))
        invariant
            n == s@.len(),
            lo <= n,
            forall|i: int| 0 <= i < lo ==> is_white(#[trigger] s@[i]),
        decreases n - lo,
    {
        lo = lo + 1;
    }
    proof {
        lemma_trim_start(s@, lo as int);
    }
    let ghost t = s@.subrange(lo as int, n as int);
    let mut hi: usize = n;
    while hi > lo && white(s.get_char(hi - 1))
        invariant
            n == s@.len(),
            lo <= hi <= n,
            t == s@.subrange(lo as int, n as int),
            forall|i: int| hi <= i < n ==> is_white(#[trigger] s@[i]),
        decreases hi,
    {
        hi = hi - 1;
    }
    proof {
        assert forall|i: int| hi - lo <= i < t.len() implies is_white(#[trigger] t[i]) by {
            assert(t[i] == s@[lo + i]);
        }
        assert(hi > lo ==> t[hi - lo - 1] == s@[hi - 1]);
        lemma_trim_end(t, hi - lo);
        assert(t.subrange(0, hi - lo) =~= s@.subrange(lo as int, hi as int));
    }
    s.substring_char(lo, hi)
}

/// The pieces of `s` between occurrences of `/`, as `str::split('/')` gives
/// them: one more piece than there are separators.
pub open spec fn split_slash(s: Seq<char>) -> Seq<Seq<char>>
    decreases s.len(),
{
    if s.len() == 0 {
        seq![Seq::<char>::empty()]
    } else {
        let prev = split_slash(s.drop_last());
        if s.last() == '/' {
            prev.push(Seq::<char>::empty())
        } else {
            prev.update(prev.len() - 1, prev.last().push(s.last()))
        }
    }
}

proof fn lemma_split_nonempty(s: Seq<char>)
    ensures
        split_slash(s).len() >= 1,
    decreases s.len(),
{
    if s.len() > 0 {
        lemma_split_nonempty(s.drop_last());
    }
}

/// Index of the first piece equal to `x` at or after `i`, or -1.
pub open spec fn first_index_from(parts: Seq<Seq<char>>, x: Seq<char>, i: int) -> int
    decreases parts.len() - i,
{
    if i < 0 || i >= parts.len() {
        -1
    } else if parts[i] == x {
        i
    } else {
        first_index_from(parts, x, i + 1)
    }
}

pub open spec fn github_prefix() -> Seq<char> {
    "https://github.com/"@
}

pub open spec fn gitlab_prefix() -> Seq<char> {
    "https://gitlab.com/"@
}

/// The pieces after a recognised host prefix.
pub open spec fn pieces_after(t: Seq<char>, prefix: Seq<char>) -> Seq<Seq<char>> {
    split_slash(t.subrange(prefix.len() as int, t.len() as int))
}

/// The GitHub reading of a trimmed URL, if it has one.
pub open spec fn github_reading(t: Seq<char>) -> Option<PrUrlModel> {
    let parts = pieces_after(t, github_prefix());
    if has_prefix(t, github_prefix()) && parts.len() >= 4 && parts[2] == "pull"@ {
        Some(PrUrlModel { platform: Platform::GitHub, owner: parts[0], repo: parts[1], id: parts[3] })
    } else {
        None
    }
}

/// The GitLab reading of a trimmed URL, if it has one: the first `-` piece
/// must be followed by `merge_requests` and the id.
pub open spec fn gitlab_reading(t: Seq<char>) -> Option<PrUrlModel> {
    let parts = pieces_after(t, gitlab_prefix());
    let pos = first_index_from(parts, "-"@, 0);
    if has_prefix(t, gitlab_prefix()) && pos >= 0 && pos + 2 < parts.len() && parts[pos + 1]
        == "merge_requests"@ {
        Some(
            PrUrlModel {
                platform: Platform::GitLab,
                owner: parts[0],
                repo: parts[1],
                id: parts[pos + 2],
            },
        )
    } else {
        None
    }
}

/// What [`PrUrl::parse`] recognises in `url`.
pub open spec fn parse_spec(url: Seq<char>) -> Option<PrUrlModel> {
    let t = trim_spec(url);
    if github_reading(t) is Some {
        github_reading(t)
    } else {
        gitlab_reading(t)
    }
}

/// Splits `s` at every `/`.
pub fn split_pieces(s: &str) -> (r: Vec<String>)
    ensures
        r@.len() == split_slash(s@).len(),
        forall|i: int| 0 <= i < r@.len() ==> #[trigger] r@[i]@ == split_slash(s@)[i],
{
    let n = s.unicode_len();
    let mut parts: Vec<String> = Vec::new();
    let mut start: usize = 0;
    let mut i: usize = 0;
    while i < n
        invariant
            n == s@.len(),
            start <= i <= n,
            split_slash(s@.subrange(0, i as int)).len() == parts@.len() + 1,
            forall|k: int|
                0 <= k < parts@.len() ==> #[trigger] parts@[k]@ == split_slash(
                    s@.subrange(0, i as int),
                )[k],
            split_slash(s@.subrange(0, i as int)).last() == s@.subrange(start as int, i as int),
        decreases n - i,
    {
        let ghost prefix = s@.subrange(0, i as int);
        let ghost next = s@.subrange(0, i + 1);
        assert(next.drop_last() =~= prefix);
        assert(next.last() == s@[i as int]);
        proof {
            lemma_split_nonempty(prefix);
        }
        if s.get_char(i) == '/' {
            let piece = s.substring_char(start, i).to_owned();
            parts.push(piece);
            start = i + 1;
            assert(s@.subrange(start as int, i + 1) =~= Seq::<char>::empty());
        } else {
            assert(s@.subrange(start as int, i + 1) =~= s@.subrange(start as int, i as int).push(
                s@[i as int],
            ));
        }
        i = i + 1;
    }
    proof {
        lemma_split_nonempty(s@);
    }
    let last = s.substring_char(start, n).to_owned();
    parts.push(last);
    assert(s@.subrange(0, n as int) =~= s@);
    parts
}

impl PrUrl {
    /// Builds a `PrUrl` from known parts. Callers typically use `parse` from a URL string.
    pub fn new(platform: Platform, owner: String, repo: String, id: String) -> (r: Self)
        ensures
            r.platform == platform,
            r.owner == owner,
            r.repo == repo,
            r.id == id,
    {
        PrUrl { platform, owner, repo, id }
    }

    /// A copy of this identity.
    pub fn duplicate(&self) -> (r: Self)
        ensures
            r@ == self@,
    {
        PrUrl {
            platform: self.platform,
            owner: self.owner.clone(),
            repo: self.repo.clone(),
            id: self.id.clone(),
        }
    }

    /// Parses a GitHub PR or GitLab MR URL into `PrUrl`.
    /// Returns `None` if the URL format is not recognized.
    pub fn parse(url: &str) -> (r: Option<Self>)
        ensures
            match r {
                Some(p) => parse_spec(url@) == Some(p@),
                None => parse_spec(url@) is None,
            },
    {
        let t = trim_text(url);
        let gh = "https://github.com/";
        let gl = "https://gitlab.com/";
        proof {
            reveal_strlit("https://github.com/");
            reveal_strlit("https://gitlab.com/");
        }
        assert(gh@ == github_prefix());
        assert(gl@ == gitlab_prefix());
        if starts_with_text(t, gh) {
            let parts = split_pieces(t.substring_char(gh.unicode_len(), t.unicode_len()));
            assert(parts@.len() == pieces_after(t@, gh@).len());
            assert(parts@.len() >= 4 ==> parts@[2]@ == pieces_after(t@, gh@)[2]);
            if parts.len() >= 4 && same_text(parts[2].as_str(), "pull") {
                return Some(
                    PrUrl {
                        platform: Platform::GitHub,
                        owner: parts[0].clone(),
                        repo: parts[1].clone(),
                        id: parts[3].clone(),
                    },
                );
            }
        }
        if starts_with_text(t, gl) {
            let parts = split_pieces(t.substring_char(gl.unicode_len(), t.unicode_len()));
            let ghost ps = pieces_after(t@, gl@);
            let mut pos: usize = 0;
            while pos < parts.len()
                invariant
                    parts@.len() == ps.len(),
                    forall|i: int| 0 <= i < parts@.len() ==> #[trigger] parts@[i]@ == ps[i],
                    pos <= parts@.len(),
                    first_index_from(ps, "-"@, 0) == first_index_from(ps, "-"@, pos as int),
                ensures
                    pos <= parts@.len(),
                    first_index_from(ps, "-"@, 0) == first_index_from(ps, "-"@, pos as int),
                    pos < parts@.len() ==> ps[pos as int] == "-"@,
                decreases parts@.len() - pos,
            {
                if same_text(parts[pos].as_str(), "-") {
                    break;
                }
                pos = pos + 1;
            }
            assert(pos < parts@.len() ==> first_index_from(ps, "-"@, pos as int) == pos);
            assert(pos == parts@.len() ==> first_index_from(ps, "-"@, pos as int) == -1);
            if pos < parts.len() && parts.len() - pos > 2 && same_text(
                parts[pos + 1].as_str(),
                "merge_requests",
            ) {
                return Some(
                    PrUrl {
                        platform: Platform::GitLab,
                        owner: parts[0].clone(),
                        repo: parts[1].clone(),
                        id: parts[pos + 2].clone(),
                    },
                );
            }
        }
        None
    }
}

} // verus!
