//! Which changed paths matter: a path is dropped when one of its segments
//! matches an ignore rule.

use vstd::prelude::*;

verus! {

/// The byte that separates the segments of a path.
pub const SEPARATOR: u8 = 47u8;

/// One rule of an ignore set, matched against a single path segment.
#[derive(Debug)]
pub enum IgnoreRule {
    /// The segment is exactly this name.
    Name(Vec<u8>),
    /// The segment ends with these bytes.
    Suffix(Vec<u8>),
}

/// An ignore rule over mathematical byte sequences.
pub enum RuleSpec {
    Name(Seq<u8>),
    Suffix(Seq<u8>),
}

impl View for IgnoreRule {
    type V = RuleSpec;

    open spec fn view(&self) -> RuleSpec {
        match self {
            IgnoreRule::Name(name) => RuleSpec::Name(name@),
            IgnoreRule::Suffix(suffix) => RuleSpec::Suffix(suffix@),
        }
    }
}

/// `segment` ends with `suffix`.
pub open spec fn ends_with(segment: Seq<u8>, suffix: Seq<u8>) -> bool {
    suffix.len() <= segment.len() && segment.subrange(
        segment.len() - suffix.len(),
        segment.len() as int,
    ) == suffix
}

impl RuleSpec {
    /// The rule matches the segment.
    pub open spec fn matches(self, segment: Seq<u8>) -> bool {
        match self {
            RuleSpec::Name(name) => segment == name,
            RuleSpec::Suffix(suffix) => ends_with(segment, suffix),
        }
    }
}

/// Some rule of the set matches the segment.
pub open spec fn excluded_segment(rules: Seq<RuleSpec>, segment: Seq<u8>) -> bool {
    exists|i: int| 0 <= i < rules.len() && (#[trigger] rules[i]).matches(segment)
}

/// `path[start..end]` is a segment of the path: a maximal run of bytes without
/// a separator. Between two adjacent separators lies an empty segment.
pub open spec fn is_segment(path: Seq<u8>, start: int, end: int) -> bool {
    &&& 0 <= start <= end <= path.len()
    &&& (start == 0 || path[start - 1] == SEPARATOR)
    &&& (end == path.len() || path[end] == SEPARATOR)
    &&& forall|k: int| start <= k < end ==> path[k] != SEPARATOR
}

/// Some segment of the path is excluded by the rules.
pub open spec fn excluded_path(rules: Seq<RuleSpec>, path: Seq<u8>) -> bool {
    exists|start: int, end: int| #[trigger]
        is_segment(path, start, end) && excluded_segment(rules, path.subrange(start, end))
}

/// Version-control directories.
pub open spec fn git_dir() -> Seq<u8> {
    seq![46u8, 103u8, 105u8, 116u8]
}

pub open spec fn hg_dir() -> Seq<u8> {
    seq![46u8, 104u8, 103u8]
}

pub open spec fn svn_dir() -> Seq<u8> {
    seq![46u8, 115u8, 118u8, 110u8]
}

/// The directory that holds build output.
pub open spec fn target_dir() -> Seq<u8> {
    seq![116u8, 97u8, 114u8, 103u8, 101u8, 116u8]
}

/// Suffixes of the files that editors write beside the file being edited.
pub open spec fn backup_suffix() -> Seq<u8> {
    seq![126u8]
}

pub open spec fn swp_suffix() -> Seq<u8> {
    seq![46u8, 115u8, 119u8, 112u8]
}

pub open spec fn swx_suffix() -> Seq<u8> {
    seq![46u8, 115u8, 119u8, 120u8]
}

pub open spec fn tmp_suffix() -> Seq<u8> {
    seq![46u8, 116u8, 109u8, 112u8]
}

/// The rules of a filter made by `PathFilter::new`: the segments `.git`, `.hg`,
/// `.svn` and `target`, and every segment that ends with `~`, `.swp`, `.swx`
/// or `.tmp`.
pub open spec fn default_rules() -> Seq<RuleSpec> {
    seq![
        RuleSpec::Name(git_dir()),
        RuleSpec::Name(hg_dir()),
        RuleSpec::Name(svn_dir()),
        RuleSpec::Name(target_dir()),
        RuleSpec::Suffix(backup_suffix()),
        RuleSpec::Suffix(swp_suffix()),
        RuleSpec::Suffix(swx_suffix()),
        RuleSpec::Suffix(tmp_suffix()),
    ]
}

/// `path[at..at + pattern.len()]` holds the bytes of `pattern`.
fn bytes_at(path: &[u8], at: usize, pattern: &Vec<u8>) -> (same: bool)
    requires
        at + pattern.len() <= path.len(),
    ensures
        same == (path@.subrange(at as int, at + pattern.len()) == pattern@),
{
    let n: usize = pattern.len();
    let mut i: usize = 0;
    while i < n
        invariant
            i <= n,
            n == pattern.len(),
            at + n <= path.len(),
            forall|k: int| 0 <= k < i ==> path[at + k] == pattern[k],
        decreases n - i,
    {
        if path[at + i] != pattern[i] {
            proof {
                let window = path@.subrange(at as int, at + n);
                assert(window[i as int] == path[at + i]);
            }
            return false;
        }
        i += 1;
    }
    assert(path@.subrange(at as int, at + n) =~= pattern@);
    true
}

impl IgnoreRule {
    /// Whether the rule matches the segment `path[start..end]`.
    pub fn matches_segment(&self, path: &[u8], start: usize, end: usize) -> (hit: bool)
        requires
            start <= end <= path.len(),
        ensures
            hit == self@.matches(path@.subrange(start as int, end as int)),
    {
        let ghost segment = path@.subrange(start as int, end as int);
        let len: usize = end - start;
        match self {
            IgnoreRule::Name(name) => {
                if name.len() != len {
                    return false;
                }
                let same = bytes_at(path, start, name);
                same
            },
            IgnoreRule::Suffix(suffix) => {
                if suffix.len() > len {
                    return false;
                }
                let at: usize = end - suffix.len();
                let same = bytes_at(path, at, suffix);
                assert(segment.subrange(segment.len() - suffix.len(), segment.len() as int)
                    =~= path@.subrange(at as int, at + suffix.len()));
                same
            },
        }
    }
}

/// Decides which changed paths are worth a run.
#[derive(Debug)]
pub struct PathFilter {
    rules: Vec<IgnoreRule>,
}

impl View for PathFilter {
    type V = Seq<RuleSpec>;

    closed spec fn view(&self) -> Seq<RuleSpec> {
        self.rules@.map_values(|rule: IgnoreRule| rule@)
    }
}

impl PathFilter {
    /// A filter with the default rules.
    pub fn new() -> (filter: PathFilter)
        ensures
            filter@ == default_rules(),
    {
        let mut rules: Vec<IgnoreRule> = Vec::new();
        rules.push(IgnoreRule::Name(vec![46u8, 103u8, 105u8, 116u8]));
        rules.push(IgnoreRule::Name(vec![46u8, 104u8, 103u8]));
        rules.push(IgnoreRule::Name(vec![46u8, 115u8, 118u8, 110u8]));
        rules.push(IgnoreRule::Name(vec![116u8, 97u8, 114u8, 103u8, 101u8, 116u8]));
        rules.push(IgnoreRule::Suffix(vec![126u8]));
        rules.push(IgnoreRule::Suffix(vec![46u8, 115u8, 119u8, 112u8]));
        rules.push(IgnoreRule::Suffix(vec![46u8, 115u8, 119u8, 120u8]));
        rules.push(IgnoreRule::Suffix(vec![46u8, 116u8, 109u8, 112u8]));
        let filter = PathFilter { rules };
        proof {
            let got = filter@;
            let want = default_rules();
            assert(got.len() == want.len());
            assert forall|i: int| 0 <= i < got.len() implies got[i] == want[i] by {
                match filter.rules@[i] {
                    IgnoreRule::Name(name) => {
                        assert(name@ =~= want[i]->Name_0);
                    },
                    IgnoreRule::Suffix(suffix) => {
                        assert(suffix@ =~= want[i]->Suffix_0);
                    },
                }
            }
            assert(got =~= want);
        }
        filter
    }

    /// A filter with the given rules, tried in the given order.
    pub fn with_rules(rules: Vec<IgnoreRule>) -> (filter: PathFilter)
        ensures
            filter@ == rules@.map_values(|rule: IgnoreRule| rule@),
    {
        PathFilter { rules }
    }

    /// Whether some rule matches the segment `path[start..end]`.
    fn excludes_segment(&self, path: &[u8], start: usize, end: usize) -> (hit: bool)
        requires
            start <= end <= path.len(),
        ensures
            hit == excluded_segment(self@, path@.subrange(start as int, end as int)),
    {
        let ghost segment = path@.subrange(start as int, end as int);
        let mut i: usize = 0;
        while i < self.rules.len()
            invariant
                i <= self.rules.len(),
                start <= end <= path.len(),
                segment == path@.subrange(start as int, end as int),
                forall|k: int| 0 <= k < i ==> !(#[trigger] self@[k]).matches(segment),
            decreases self.rules.len() - i,
        {
            if self.rules[i].matches_segment(path, start, end) {
                assert(self@[i as int].matches(segment));
                return true;
            }
            i += 1;
        }
        false
    }

    /// Whether a change of `path` is worth a run: no segment of the path is
    /// excluded. Any byte string is a path; one without an excluded segment is
    /// relevant, whatever else it holds.
    pub fn is_relevant(&self, path: &[u8]) -> (relevant: bool)
        ensures
            relevant == !excluded_path(self@, path@),
    {
        let n: usize = path.len();
        let mut start: usize = 0;
        let mut i: usize = 0;
        while i < n
            invariant
                start <= i <= n,
                n == path.len(),
                start == 0 || path[start - 1] == SEPARATOR,
                forall|k: int| start <= k < i ==> path[k] != SEPARATOR,
                forall|s: int, e: int| #[trigger]
                    is_segment(path@, s, e) && e < start ==> !excluded_segment(
                        self@,
                        path@.subrange(s, e),
                    ),
            decreases n - i,
        {
            if path[i] == SEPARATOR {
                if self.excludes_segment(path, start, i) {
                    assert(is_segment(path@, start as int, i as int));
                    return false;
                }
                proof {
                    assert forall|s: int, e: int| #[trigger]
                        is_segment(path@, s, e) && e < i + 1 implies !excluded_segment(
                        self@,
                        path@.subrange(s, e),
                    ) by {
                        if e >= start {
                            lemma_segment_after(path@, start as int, i as int, s, e);
                        }
                    }
                }
                start = i + 1;
            }
            i += 1;
        }
        if self.excludes_segment(path, start, n) {
            assert(is_segment(path@, start as int, n as int));
            return false;
        }
        proof {
            assert forall|s: int, e: int| #[trigger]
                is_segment(path@, s, e) implies !excluded_segment(self@, path@.subrange(s, e)) by {
                if e >= start {
                    lemma_segment_after(path@, start as int, n as int, s, e);
                }
            }
        }
        true
    }
}

/// A segment that ends at or after `start`, where `start` begins a run
/// without separators that reaches `stop`, and `stop` is the end of the path
/// or a separator, is the segment from `start` to `stop`.
proof fn lemma_segment_after(path: Seq<u8>, start: int, stop: int, s: int, e: int)
    requires
        0 <= start <= stop <= path.len(),
        start == 0 || path[start - 1] == SEPARATOR,
        forall|k: int| start <= k < stop ==> path[k] != SEPARATOR,
        is_segment(path, s, e),
        start <= e <= stop,
    ensures
        s == start,
        e == stop,
{
    if s > start {
        assert(path[s - 1] == SEPARATOR);
    }
    if s < start {
        assert(path[start - 1] == SEPARATOR);
    }
    if e < stop {
        assert(path[e] == SEPARATOR);
    }
}

} // verus!
