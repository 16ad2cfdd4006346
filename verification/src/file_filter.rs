//! Which files of a directory tree go into an archive: include and exclude
//! rules, compiled as regex sets, and the walk that collects the files.

use vstd::prelude::*;
use regex::RegexSet;
use crate::error::SafetyNetError;
use crate::text::{joined, texts};

verus! {

#[verifier::external_type_specification]
#[verifier::external_body]
pub struct ExRegexSet(regex::RegexSet);

/// Whether the regular expression `pattern` matches somewhere in `haystack`
/// (the search is unanchored), as each regex of a `regex::RegexSet` is
/// documented to be tested by `RegexSet::is_match` and `RegexSet::matches`.
pub uninterp spec fn regex_matches(pattern: Seq<char>, haystack: Seq<char>) -> bool;

/// What `regex::RegexSet::new` answers for these patterns: `None` when it
/// builds a set, or the text (`to_string`) of its error when a pattern is not
/// a valid regular expression or the set grows past the crate's size limit.
pub uninterp spec fn regex_set_build_error(patterns: Seq<Seq<char>>) -> Option<Seq<char>>;

/// Some pattern matches `haystack`.
pub open spec fn any_match(patterns: Seq<Seq<char>>, haystack: Seq<char>) -> bool {
    exists|i: int| 0 <= i < patterns.len() && #[trigger] regex_matches(patterns[i], haystack)
}

/// The indices of the patterns that match `haystack`, ascending.
pub open spec fn matching_indices(patterns: Seq<Seq<char>>, haystack: Seq<char>) -> Seq<int>
    decreases patterns.len(),
{
    if patterns.len() == 0 {
        Seq::empty()
    } else {
        let rest = matching_indices(patterns.drop_last(), haystack);
        if regex_matches(patterns.last(), haystack) {
            rest.push(patterns.len() - 1)
        } else {
            rest
        }
    }
}

/// The indices as plain integers.
pub open spec fn as_ints(idx: Seq<usize>) -> Seq<int> {
    idx.map_values(|i: usize| i as int)
}

/// `matching_indices` lists, in ascending order, exactly the patterns that
/// match; it is empty exactly when no pattern matches.
pub proof fn lemma_matching_indices(patterns: Seq<Seq<char>>, haystack: Seq<char>)
    ensures
        forall|i: int| 0 <= i < matching_indices(patterns, haystack).len() ==> {
            let k = #[trigger] matching_indices(patterns, haystack)[i];
            0 <= k < patterns.len() && regex_matches(patterns[k], haystack)
        },
        forall|i: int, j: int| 0 <= i < j < matching_indices(patterns, haystack).len()
            ==> matching_indices(patterns, haystack)[i] < matching_indices(patterns, haystack)[j],
        forall|k: int| 0 <= k < patterns.len() && #[trigger] regex_matches(patterns[k], haystack)
            ==> matching_indices(patterns, haystack).contains(k),
        (matching_indices(patterns, haystack).len() == 0) == !any_match(patterns, haystack),
    decreases patterns.len(),
{
    if patterns.len() > 0 {
        let init = patterns.drop_last();
        lemma_matching_indices(init, haystack);
        let rest = matching_indices(init, haystack);
        let all = matching_indices(patterns, haystack);
        assert forall|i: int| 0 <= i < rest.len() implies #[trigger] rest[i] < patterns.len() - 1
            && regex_matches(patterns[rest[i]], haystack) by {
            assert(patterns[rest[i]] == init[rest[i]]);
        }
        assert forall|k: int| 0 <= k < patterns.len() && #[trigger] regex_matches(patterns[k], haystack)
            implies all.contains(k) by {
            if k < patterns.len() - 1 {
                assert(init[k] == patterns[k]);
                assert(rest.contains(k));
                let w = choose|w: int| 0 <= w < rest.len() && rest[w] == k;
                assert(all[w] == k);
            } else {
                assert(all[all.len() - 1] == k);
            }
        }
        if any_match(patterns, haystack) {
            let k = choose|k: int| 0 <= k < patterns.len() && #[trigger] regex_matches(patterns[k], haystack);
            assert(all.contains(k));
        }
        if any_match(init, haystack) {
            let k = choose|k: int| 0 <= k < init.len() && #[trigger] regex_matches(init[k], haystack);
            assert(regex_matches(patterns[k], haystack));
        }
    }
}

/// The pattern that matches every haystack, case-insensitively: `.` is any
/// character but a newline and `*` allows none, so it matches the empty text
/// at the start of any haystack.
pub open spec fn match_all_pattern() -> Seq<char> {
    "(?i).*"@
}

/// `regex::RegexSet::new` on `patterns`, its error turned into its text. Its
/// outcome is named by `regex_set_build_error`. Documented facts: an empty
/// list builds (`RegexSet::empty` is `new([])`, unwrapped), and so does the
/// valid pattern `(?i).*` alone.
#[verifier::external_body]
fn regex_set_new(patterns: &Vec<String>) -> (r: Result<RegexSet, String>)
    ensures
        (r is Ok) == (regex_set_build_error(texts(patterns@)) is None),
        r matches Err(msg) ==> regex_set_build_error(texts(patterns@)) == Some(msg@),
        patterns@.len() == 0 ==> r is Ok,
        texts(patterns@) == seq![match_all_pattern()] ==> r is Ok,
{
    match RegexSet::new(patterns) {
        Ok(set) => Ok(set),
        Err(e) => Err(e.to_string()),
    }
}

/// `regex::RegexSet::is_match` on the set of `reg`: documented as true
/// exactly when one of the set's regexes matches the haystack. A pattern
/// `(?i).*` matches any haystack.
#[verifier::external_body]
fn regex_set_is_match(reg: &RegexRegistry, haystack: &str) -> (r: bool)
    ensures
        r == (exists|i: int| 0 <= i < reg@.len() && #[trigger] regex_matches(reg@[i], haystack@)),
        reg@.contains(match_all_pattern()) ==> r,
{
    reg.set.is_match(haystack)
}

/// `regex::RegexSet::matches` on the set of `reg`, its indices collected in
/// the order the crate yields them: documented as the indices, in constructor
/// order, of the regexes that match, yielded in ascending order. A pattern
/// `(?i).*` matches any haystack.
#[verifier::external_body]
fn regex_set_matching(reg: &RegexRegistry, haystack: &str) -> (r: Vec<usize>)
    ensures
        as_ints(r@) == matching_indices(reg@, haystack@),
        forall|k: int| 0 <= k < reg@.len() && reg@[k] == match_all_pattern() ==> r@.contains(k as usize),
{
    reg.set.matches(haystack).into_iter().collect()
}

/// A compiled set of regex patterns, kept beside the patterns it was built
/// from. Only `compile` builds one, so the set always answers for `patterns`.
pub struct RegexRegistry {
    patterns: Vec<String>,
    set: RegexSet,
}

impl View for RegexRegistry {
    type V = Seq<Seq<char>>;

    closed spec fn view(&self) -> Seq<Seq<char>> {
        texts(self.patterns@)
    }
}

impl RegexRegistry {
    /// Compiles `patterns` into one set; fails as `RegexSet::new` does, with
    /// the regex crate's message.
    pub fn compile(patterns: Vec<String>) -> (r: Result<RegexRegistry, SafetyNetError>)
        ensures
            (r is Ok) == (regex_set_build_error(texts(patterns@)) is None),
            r matches Err(e) ==> regex_set_build_error(texts(patterns@)) == Some(e.0@),
            r matches Ok(reg) ==> reg@ == texts(patterns@),
            patterns@.len() == 0 ==> r is Ok,
            texts(patterns@) == seq![match_all_pattern()] ==> r is Ok,
    {
        match regex_set_new(&patterns) {
            Ok(set) => Ok(RegexRegistry { patterns, set }),
            Err(msg) => Err(SafetyNetError(msg)),
        }
    }

    /// The indices of the patterns that match `haystack`, ascending.
    pub open spec fn matches_of(&self, haystack: Seq<char>) -> Seq<int> {
        matching_indices(self@, haystack)
    }

    /// Whether any pattern matches `haystack`.
    pub fn is_match(&self, haystack: &str) -> (r: bool)
        ensures
            r == any_match(self@, haystack@),
            self@.contains(match_all_pattern()) ==> r,
    {
        regex_set_is_match(self, haystack)
    }

    /// The indices of the patterns that match `haystack`, ascending.
    pub fn matches(&self, haystack: &str) -> (r: Vec<usize>)
        ensures
            as_ints(r@) == self.matches_of(haystack@),
            forall|i: int| 0 <= i < r@.len() ==> r@[i] < self@.len(),
            forall|i: int, j: int| 0 <= i < j < r@.len() ==> r@[i] < r@[j],
    {
        let r = regex_set_matching(self, haystack);
        proof {
            lemma_matching_indices(self@, haystack@);
            assert forall|i: int| 0 <= i < r@.len() implies r@[i] < self@.len() by {
                assert(as_ints(r@)[i] == r@[i] as int);
            }
            assert forall|i: int, j: int| 0 <= i < j < r@.len() implies r@[i] < r@[j] by {
                assert(as_ints(r@)[i] == r@[i] as int);
                assert(as_ints(r@)[j] == r@[j] as int);
            }
        }
        r
    }

    /// The patterns of the set, in the order they were given.
    pub fn patterns(&self) -> (r: &Vec<String>)
        ensures
            texts(r@) == self@,
    {
        &self.patterns
    }
}

/// Without rules of its own, a job includes with `.*`, which the
/// case-insensitive set holds as the pattern that matches every path.
pub proof fn lemma_default_include_matches_all(rules: Option<Vec<String>>)
    requires
        rules is None,
    ensures
        case_insensitive(chosen_rules(rules, seq![".*"@])) == seq![match_all_pattern()],
        case_insensitive(chosen_rules(rules, seq![".*"@])).contains(match_all_pattern()),
{
    reveal_strlit("(?i)");
    reveal_strlit(".*");
    reveal_strlit("(?i).*");
    let got = case_insensitive(chosen_rules(rules, seq![".*"@]));
    assert("(?i)"@ + ".*"@ =~= "(?i).*"@);
    assert(got =~= seq![match_all_pattern()]);
    assert(got[0] == match_all_pattern());
}

/// Every rule made case-insensitive: `(?i)` put before it.
pub open spec fn case_insensitive(rules: Seq<Seq<char>>) -> Seq<Seq<char>> {
    rules.map_values(|r: Seq<char>| "(?i)"@ + r)
}

/// The rules a job uses: its own when it gives some, the default otherwise.
pub open spec fn chosen_rules(rules: Option<Vec<String>>, default: Seq<Seq<char>>) -> Seq<Seq<char>> {
    match rules {
        Some(v) => texts(v@),
        None => default,
    }
}

/// Compiles the job's rules (or `default` when it gives none), each made
/// case-insensitive, into one set. A rule that does not compile fails the
/// whole set, with the regex crate's message.
pub fn build_regex_registry(rules: &Option<Vec<String>>, default: Vec<String>) -> (r: Result<
    RegexRegistry,
    SafetyNetError,
>)
    ensures
        (r is Ok) == (regex_set_build_error(case_insensitive(chosen_rules(*rules, texts(default@)))) is None),
        r matches Err(e) ==> regex_set_build_error(case_insensitive(chosen_rules(*rules, texts(default@))))
            == Some(e.0@),
        r matches Ok(reg) ==> reg@ == case_insensitive(chosen_rules(*rules, texts(default@))),
        chosen_rules(*rules, texts(default@)).len() == 0 ==> r is Ok,
        case_insensitive(chosen_rules(*rules, texts(default@))) == seq![match_all_pattern()] ==> r is Ok,
{
    let chosen: &Vec<String> = match rules {
        Some(v) => v,
        None => &default,
    };
    let ghost want = case_insensitive(chosen_rules(*rules, texts(default@)));
    let mut patterns: Vec<String> = Vec::new();
    let n = chosen.len();
    let mut i: usize = 0;
    while i < n
        invariant
            i <= n,
            n == chosen@.len(),
            texts(chosen@) == chosen_rules(*rules, texts(default@)),
            want == case_insensitive(texts(chosen@)),
            patterns@.len() == i,
            forall|j: int| 0 <= j < i ==> #[trigger] patterns@[j]@ == "(?i)"@ + chosen@[j]@,
        decreases n - i,
    {
        let p = String::from_str("(?i)").concat(chosen[i].as_str());
        patterns.push(p);
        i += 1;
    }
    assert(texts(patterns@) =~= want);
    RegexRegistry::compile(patterns)
}

/// A path is kept when some include pattern matches it and no exclude
/// pattern does.
pub open spec fn path_kept(inc: Seq<Seq<char>>, exc: Seq<Seq<char>>, path: Seq<char>) -> bool {
    any_match(inc, path) && !any_match(exc, path)
}

/// Every element of `a` is one of `b`.
pub open spec fn all_within(a: Seq<Seq<char>>, b: Seq<Seq<char>>) -> bool {
    forall|i: int| 0 <= i < a.len() ==> b.contains(#[trigger] a[i])
}

/// More include patterns and fewer exclude patterns never drop a file: a
/// path kept by the first pair of lists is kept by the second.
pub proof fn lemma_wider_patterns_keep_files(
    inc1: Seq<Seq<char>>,
    exc1: Seq<Seq<char>>,
    inc2: Seq<Seq<char>>,
    exc2: Seq<Seq<char>>,
    path: Seq<char>,
)
    requires
        all_within(inc1, inc2),
        all_within(exc2, exc1),
        path_kept(inc1, exc1, path),
    ensures
        path_kept(inc2, exc2, path),
{
    let i = choose|i: int| 0 <= i < inc1.len() && #[trigger] regex_matches(inc1[i], path);
    assert(inc2.contains(inc1[i]));
    let j = choose|j: int| 0 <= j < inc2.len() && inc2[j] == inc1[i];
    assert(regex_matches(inc2[j], path));
    if any_match(exc2, path) {
        let k = choose|k: int| 0 <= k < exc2.len() && #[trigger] regex_matches(exc2[k], path);
        assert(exc1.contains(exc2[k]));
        let m = choose|m: int| 0 <= m < exc1.len() && exc1[m] == exc2[k];
        assert(regex_matches(exc1[m], path));
    }
}

/// The same for a job's rules, which are compiled case-insensitively: adding
/// include rules or removing exclude rules never drops a file.
pub proof fn lemma_wider_rules_keep_files(
    inc1: Seq<Seq<char>>,
    exc1: Seq<Seq<char>>,
    inc2: Seq<Seq<char>>,
    exc2: Seq<Seq<char>>,
    path: Seq<char>,
)
    requires
        all_within(inc1, inc2),
        all_within(exc2, exc1),
        path_kept(case_insensitive(inc1), case_insensitive(exc1), path),
    ensures
        path_kept(case_insensitive(inc2), case_insensitive(exc2), path),
{
    lemma_case_insensitive_within(inc1, inc2);
    lemma_case_insensitive_within(exc2, exc1);
    lemma_wider_patterns_keep_files(
        case_insensitive(inc1),
        case_insensitive(exc1),
        case_insensitive(inc2),
        case_insensitive(exc2),
        path,
    );
}

proof fn lemma_case_insensitive_within(a: Seq<Seq<char>>, b: Seq<Seq<char>>)
    requires
        all_within(a, b),
    ensures
        all_within(case_insensitive(a), case_insensitive(b)),
{
    assert forall|i: int| 0 <= i < case_insensitive(a).len() implies case_insensitive(b).contains(
        #[trigger] case_insensitive(a)[i],
    ) by {
        assert(b.contains(a[i]));
        let j = choose|j: int| 0 <= j < b.len() && b[j] == a[i];
        assert(case_insensitive(b)[j] == case_insensitive(a)[i]);
    }
}

/// How a file fares against the rules.
pub enum FilterOutcome {
    /// Some exclude rule matches; the message names the path and those rules.
    MatchExclude(String),
    /// No include rule matches.
    NoMatchInclude,
    /// An include rule matches and no exclude rule does.
    Valid,
}

/// The patterns at the given indices.
pub open spec fn patterns_at(patterns: Seq<Seq<char>>, idx: Seq<int>) -> Seq<Seq<char>> {
    idx.map_values(|i: int| patterns[i])
}

/// The message for a path that exclude rules match: the path, then the
/// matching patterns separated by `, `.
pub open spec fn exclusion_message(path: Seq<char>, matched: Seq<Seq<char>>) -> Seq<char> {
    path + " matched by the following exclude regexes: "@ + joined(matched, ", "@)
}

proof fn lemma_joined_push(list: Seq<Seq<char>>, sep: Seq<char>, x: Seq<char>)
    ensures
        joined(list.push(x), sep) == if list.len() == 0 { x } else { joined(list, sep) + sep + x },
{
    assert(list.push(x).drop_last() =~= list);
}

/// Judges `path`: it must match an include rule and no exclude rule. It is
/// `Valid` exactly when the path is kept.
pub fn is_valid(path: &str, include_rgx: &RegexRegistry, exclude_rgx: &RegexRegistry) -> (r: FilterOutcome)
    ensures
        (r is Valid) == path_kept(include_rgx@, exclude_rgx@, path@),
        include_rgx@.contains(match_all_pattern()) ==> !(r is NoMatchInclude),
        !any_match(include_rgx@, path@) ==> r is NoMatchInclude,
        any_match(include_rgx@, path@) && !any_match(exclude_rgx@, path@) ==> r is Valid,
        any_match(include_rgx@, path@) && any_match(exclude_rgx@, path@) ==> (r matches FilterOutcome::MatchExclude(m)
            && m@ == exclusion_message(path@, patterns_at(exclude_rgx@, exclude_rgx.matches_of(path@)))),
{
    if !include_rgx.is_match(path) {
        return FilterOutcome::NoMatchInclude;
    }
    let idx = exclude_rgx.matches(path);
    proof {
        lemma_matching_indices(exclude_rgx@, path@);
    }
    if idx.len() == 0 {
        return FilterOutcome::Valid;
    }
    let patterns = exclude_rgx.patterns();
    let ghost matched = patterns_at(exclude_rgx@, as_ints(idx@));
    let mut list = String::new();
    let n = idx.len();
    let mut k: usize = 0;
    while k < n
        invariant
            k <= n,
            n == idx@.len(),
            texts(patterns@) == exclude_rgx@,
            forall|i: int| 0 <= i < idx@.len() ==> idx@[i] < exclude_rgx@.len(),
            matched == patterns_at(exclude_rgx@, as_ints(idx@)),
            list@ == joined(matched.take(k as int), ", "@),
        decreases n - k,
    {
        let p = patterns[idx[k]].as_str();
        assert(as_ints(idx@)[k as int] == idx@[k as int] as int);
        assert(p@ == matched[k as int]);
        proof {
            lemma_joined_push(matched.take(k as int), ", "@, matched[k as int]);
            assert(matched.take(k as int).push(matched[k as int]) =~= matched.take(k + 1));
        }
        if k > 0 {
            list.append(", ");
        }
        list.append(p);
        k += 1;
    }
    assert(matched.take(n as int) =~= matched);
    let msg = String::from_str(path).concat(" matched by the following exclude regexes: ").concat(
        list.as_str(),
    );
    FilterOutcome::MatchExclude(msg)
}

/// What a directory entry is to the walk.
pub enum PathType {
    /// A directory, to be walked in turn.
    Directory,
    /// A file that goes into the archive.
    File(String),
    /// A file left out; the message says why.
    Skip(String),
}

/// Classifies a directory entry: directories are walked, files are judged by
/// the rules. `is_dir` is what the file system says of the entry. A file goes
/// into the archive exactly when the rules keep it.
pub fn identify_path(path: &str, is_dir: bool, include_rgx: &RegexRegistry, exclude_rgx: &RegexRegistry) -> (r: PathType)
    ensures
        is_dir ==> r is Directory,
        (r is File) == (!is_dir && path_kept(include_rgx@, exclude_rgx@, path@)),
        r matches PathType::File(f) ==> f@ == path@,
        !is_dir && !any_match(include_rgx@, path@) ==> (r matches PathType::Skip(m)
            && m@ == path@ + " did not match any include rule"@),
        !is_dir && any_match(include_rgx@, path@) && any_match(exclude_rgx@, path@)
            ==> (r matches PathType::Skip(m) && m@ == exclusion_message(
            path@,
            patterns_at(exclude_rgx@, exclude_rgx.matches_of(path@)),
        )),
{
    if is_dir {
        return PathType::Directory;
    }
    match is_valid(path, include_rgx, exclude_rgx) {
        FilterOutcome::MatchExclude(msg) => PathType::Skip(msg),
        FilterOutcome::NoMatchInclude => PathType::Skip(
            String::from_str(path).concat(" did not match any include rule"),
        ),
        FilterOutcome::Valid => PathType::File(String::from_str(path)),
    }
}

/// A depth-first walk of a directory tree: the directories still to read
/// (the last one found is read first) and the files kept so far. `D` is how
/// the caller names a directory.
pub struct DirectoryWalk<D> {
    pending: Vec<D>,
    files: Vec<String>,
}

impl<D> DirectoryWalk<D> {
    /// The directories still to read; the last is read next.
    pub closed spec fn pending(&self) -> Seq<D> {
        self.pending@
    }

    /// The files kept so far, in the order they were found.
    pub closed spec fn found(&self) -> Seq<Seq<char>> {
        texts(self.files@)
    }

    /// A walk that starts at `root`.
    pub fn new(root: D) -> (w: Self)
        ensures
            w.pending() == seq![root],
            w.found() == Seq::<Seq<char>>::empty(),
    {
        let mut pending = Vec::new();
        pending.push(root);
        let w = DirectoryWalk { pending, files: Vec::new() };
        assert(w.found() =~= Seq::<Seq<char>>::empty());
        w
    }

    /// The next directory to read: the one found last; `None` when the walk is done.
    pub fn next_dir(&mut self) -> (r: Option<D>)
        ensures
            old(self).pending().len() == 0 ==> r is None && final(self).pending() == old(self).pending(),
            old(self).pending().len() > 0 ==> r == Some(old(self).pending().last())
                && final(self).pending() == old(self).pending().drop_last(),
            final(self).found() == old(self).found(),
    {
        self.pending.pop()
    }

    /// Takes in one entry of the directory being read: a directory is queued,
    /// a kept file is added to the files, a skipped one is dropped.
    pub fn record(&mut self, entry: D, kind: PathType)
        ensures
            kind is Directory ==> final(self).pending() == old(self).pending().push(entry)
                && final(self).found() == old(self).found(),
            kind matches PathType::File(f) ==> final(self).pending() == old(self).pending()
                && final(self).found() == old(self).found().push(f@),
            kind is Skip ==> final(self).pending() == old(self).pending()
                && final(self).found() == old(self).found(),
    {
        match kind {
            PathType::Directory => self.pending.push(entry),
            PathType::File(f) => {
                let ghost before = self.files@;
                self.files.push(f);
                assert(texts(self.files@) =~= texts(before).push(self.files@.last()@));
            },
            PathType::Skip(_) => {},
        }
    }

    /// The files kept, in the order they were found.
    pub fn into_files(self) -> (r: Vec<String>)
        ensures
            texts(r@) == self.found(),
    {
        self.files
    }
}

} // verus!
