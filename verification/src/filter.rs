//! Glob-based include/exclude filtering.
//!
//! A `Filter` holds four compiled pattern sets — include and exclude, for
//! directories and for files — plus shared match options. A directory or
//! file path is allowed when the matching include set is empty or some
//! include pattern matches it, and no exclude pattern matches it: exclusion
//! takes precedence. Pattern compilation and matching are done by the
//! `glob` crate; their results are named by uninterpreted spec functions,
//! and everything around them is verified against those names.

use vstd::prelude::*;

use crate::def::{PatternSet, ScanError};

verus! {

#[verifier::external_type_specification]
#[verifier::external_body]
pub struct ExPattern(glob::Pattern);

#[verifier::external_type_specification]
#[verifier::external_body]
pub struct ExPatternError(glob::PatternError);

/// The source text a compiled glob pattern was built from.
pub uninterp spec fn pattern_source(p: glob::Pattern) -> Seq<char>;

/// Whether a pattern text is syntactically valid glob syntax.
pub uninterp spec fn glob_pattern_ok(text: Seq<char>) -> bool;

/// Whether a path matches a glob pattern under the given options. The
/// result is a function of the pattern text, the path and the options alone.
pub uninterp spec fn glob_match(
    pattern: Seq<char>,
    path: Seq<char>,
    case_sensitive: bool,
    require_literal_separator: bool,
    require_literal_leading_dot: bool,
) -> bool;

/// Relies on glob::Pattern::new: compiling succeeds exactly on
/// syntactically valid pattern texts, and the compiled pattern keeps the
/// text it was built from (glob exposes it again as Pattern::as_str).
#[verifier::external_body]
fn compile_pattern(text: &str) -> (r: Result<glob::Pattern, glob::PatternError>)
    ensures
        r is Ok <==> glob_pattern_ok(text@),
        r matches Ok(p) ==> pattern_source(p) == text@,
{
    glob::Pattern::new(text)
}

/// Relies on glob::Pattern::matches_with: whether a path matches is a
/// function of the pattern's source text, the path and the three match
/// options alone.
#[verifier::external_body]
fn pattern_matches(p: &glob::Pattern, path: &str, opts: MatchConfig) -> (r: bool)
    ensures
        r == glob_match(
            pattern_source(*p),
            path@,
            opts.case_sensitive,
            opts.require_literal_separator,
            opts.require_literal_leading_dot,
        ),
{
    p.matches_with(
        path,
        glob::MatchOptions {
            case_sensitive: opts.case_sensitive,
            require_literal_separator: opts.require_literal_separator,
            require_literal_leading_dot: opts.require_literal_leading_dot,
        },
    )
}

/// Options shared by all patterns of a filter, mirroring the three match
/// options of the glob crate.
#[derive(Clone, Copy, Debug, PartialEq, Eq, Structural)]
pub struct MatchConfig {
    pub case_sensitive: bool,
    pub require_literal_separator: bool,
    pub require_literal_leading_dot: bool,
}

impl MatchConfig {
    /// The defaults of glob matching: case-sensitive, with no literal
    /// requirement on separators or leading dots.
    pub open spec fn spec_default() -> MatchConfig {
        MatchConfig {
            case_sensitive: true,
            require_literal_separator: false,
            require_literal_leading_dot: false,
        }
    }

    /// The defaults of glob matching: case-sensitive, with no literal
    /// requirement on separators or leading dots.
    pub fn new() -> (r: MatchConfig)
        ensures
            r == MatchConfig::spec_default(),
    {
        MatchConfig {
            case_sensitive: true,
            require_literal_separator: false,
            require_literal_leading_dot: false,
        }
    }
}

/// The mathematical value of a `Filter`: the source texts of its four
/// pattern sets, and the match options.
pub struct FilterSpec {
    pub dir_include: Seq<Seq<char>>,
    pub dir_exclude: Seq<Seq<char>>,
    pub file_include: Seq<Seq<char>>,
    pub file_exclude: Seq<Seq<char>>,
    pub options: MatchConfig,
}

/// Whether some pattern of `pats` matches `path` under the options.
pub open spec fn any_pattern_matches(pats: Seq<Seq<char>>, path: Seq<char>, o: MatchConfig) -> bool {
    exists|i: int|
        0 <= i < pats.len() && glob_match(
            pats[i],
            path,
            o.case_sensitive,
            o.require_literal_separator,
            o.require_literal_leading_dot,
        )
}

/// Whether the filter lets a directory at `path` pass: the directory
/// include set is empty or matches, and no directory exclude pattern
/// matches. Exclusion takes precedence over inclusion.
pub open spec fn spec_allows_dir(f: FilterSpec, path: Seq<char>) -> bool {
    (f.dir_include.len() == 0 || any_pattern_matches(f.dir_include, path, f.options))
        && !any_pattern_matches(f.dir_exclude, path, f.options)
}

/// Whether the filter lets a file at `path` pass, by the rule of
/// `spec_allows_dir` over the file pattern sets.
pub open spec fn spec_allows_file(f: FilterSpec, path: Seq<char>) -> bool {
    (f.file_include.len() == 0 || any_pattern_matches(f.file_include, path, f.options))
        && !any_pattern_matches(f.file_exclude, path, f.options)
}

/// Compiled include/exclude pattern sets for directories and files,
/// immutable once compiled for a scan.
pub struct Filter {
    pub dir_include: Vec<glob::Pattern>,
    pub dir_exclude: Vec<glob::Pattern>,
    pub file_include: Vec<glob::Pattern>,
    pub file_exclude: Vec<glob::Pattern>,
    pub options: MatchConfig,
}

impl View for Filter {
    type V = FilterSpec;

    open spec fn view(&self) -> FilterSpec {
        FilterSpec {
            dir_include: self.dir_include@.map_values(|p: glob::Pattern| pattern_source(p)),
            dir_exclude: self.dir_exclude@.map_values(|p: glob::Pattern| pattern_source(p)),
            file_include: self.file_include@.map_values(|p: glob::Pattern| pattern_source(p)),
            file_exclude: self.file_exclude@.map_values(|p: glob::Pattern| pattern_source(p)),
            options: self.options,
        }
    }
}

/// Whether every pattern text of `pats` is valid glob syntax.
pub open spec fn all_patterns_ok(pats: Seq<Seq<char>>) -> bool {
    forall|i: int| 0 <= i < pats.len() ==> glob_pattern_ok(#[trigger] pats[i])
}

/// Compiles one pattern set. On success the compiled patterns carry
/// exactly the given texts, in order; otherwise the index of the first
/// invalid text is returned.
fn compile_list(pats: &Vec<String>) -> (r: Result<Vec<glob::Pattern>, usize>)
    ensures
        r is Ok <==> all_patterns_ok(pats.deep_view()),
        r matches Ok(v) ==> v@.map_values(|p: glob::Pattern| pattern_source(p))
            =~= pats.deep_view(),
        r matches Err(j) ==> j < pats.len() && !glob_pattern_ok(pats.deep_view()[j as int]),
{
    let mut out: Vec<glob::Pattern> = Vec::new();
    let n = pats.len();
    for i in 0..n
        invariant
            n == pats.len(),
            out.len() == i,
            forall|k: int| 0 <= k < i ==> glob_pattern_ok(#[trigger] pats.deep_view()[k]),
            forall|k: int|
                0 <= k < i ==> pattern_source(#[trigger] out@[k]) == pats.deep_view()[k],
    {
        match compile_pattern(pats[i].as_str()) {
            Ok(p) => {
                out.push(p);
            },
            Err(_) => {
                assert(!glob_pattern_ok(pats.deep_view()[i as int]));
                return Err(i);
            },
        }
    }
    assert(out@.map_values(|p: glob::Pattern| pattern_source(p)) =~= pats.deep_view());
    Ok(out)
}

/// Whether some pattern of `pats` matches `path`; the executable side of
/// `any_pattern_matches`.
fn any_match(pats: &Vec<glob::Pattern>, path: &str, o: MatchConfig) -> (r: bool)
    ensures
        r == any_pattern_matches(
            pats@.map_values(|p: glob::Pattern| pattern_source(p)),
            path@,
            o,
        ),
{
    let ghost sources = pats@.map_values(|p: glob::Pattern| pattern_source(p));
    let n = pats.len();
    for i in 0..n
        invariant
            n == pats.len(),
            sources == pats@.map_values(|p: glob::Pattern| pattern_source(p)),
            forall|k: int|
                0 <= k < i ==> !glob_match(
                    #[trigger] sources[k],
                    path@,
                    o.case_sensitive,
                    o.require_literal_separator,
                    o.require_literal_leading_dot,
                ),
    {
        if pattern_matches(&pats[i], path, o) {
            assert(glob_match(
                sources[i as int],
                path@,
                o.case_sensitive,
                o.require_literal_separator,
                o.require_literal_leading_dot,
            ));
            return true;
        }
    }
    false
}

impl Filter {
    /// Compiles the four pattern sets into a ready filter. Succeeds exactly
    /// when every pattern text is valid glob syntax; otherwise reports the
    /// set and index of an invalid pattern, in compilation order.
    pub fn compile(
        dir_include: &Vec<String>,
        dir_exclude: &Vec<String>,
        file_include: &Vec<String>,
        file_exclude: &Vec<String>,
        options: MatchConfig,
    ) -> (r: Result<Filter, ScanError>)
        ensures
            r is Ok <==> (all_patterns_ok(dir_include.deep_view())
                && all_patterns_ok(dir_exclude.deep_view())
                && all_patterns_ok(file_include.deep_view())
                && all_patterns_ok(file_exclude.deep_view())),
            r matches Ok(f) ==> f@ == (FilterSpec {
                dir_include: dir_include.deep_view(),
                dir_exclude: dir_exclude.deep_view(),
                file_include: file_include.deep_view(),
                file_exclude: file_exclude.deep_view(),
                options,
            }),
            r matches Err(e) ==> (e matches ScanError::InvalidPattern { set, index }
                && !glob_pattern_ok(
                    match set {
                        PatternSet::DirInclude => dir_include.deep_view(),
                        PatternSet::DirExclude => dir_exclude.deep_view(),
                        PatternSet::FileInclude => file_include.deep_view(),
                        PatternSet::FileExclude => file_exclude.deep_view(),
                    }[index as int],
                )),
    {
        let di = match compile_list(dir_include) {
            Ok(v) => v,
            Err(j) => {
                return Err(ScanError::InvalidPattern { set: PatternSet::DirInclude, index: j });
            },
        };
        let de = match compile_list(dir_exclude) {
            Ok(v) => v,
            Err(j) => {
                return Err(ScanError::InvalidPattern { set: PatternSet::DirExclude, index: j });
            },
        };
        let fi = match compile_list(file_include) {
            Ok(v) => v,
            Err(j) => {
                return Err(ScanError::InvalidPattern { set: PatternSet::FileInclude, index: j });
            },
        };
        let fe = match compile_list(file_exclude) {
            Ok(v) => v,
            Err(j) => {
                return Err(ScanError::InvalidPattern { set: PatternSet::FileExclude, index: j });
            },
        };
        Ok(Filter { dir_include: di, dir_exclude: de, file_include: fi, file_exclude: fe, options })
    }

    /// An empty filter: no patterns at all, so every path is allowed.
    pub fn empty() -> (r: Filter)
        ensures
            r@.dir_include.len() == 0,
            r@.dir_exclude.len() == 0,
            r@.file_include.len() == 0,
            r@.file_exclude.len() == 0,
            r@.options == MatchConfig::spec_default(),
            forall|p: Seq<char>| spec_allows_dir(r@, p) && spec_allows_file(r@, p),
    {
        let r = Filter {
            dir_include: Vec::new(),
            dir_exclude: Vec::new(),
            file_include: Vec::new(),
            file_exclude: Vec::new(),
            options: MatchConfig::new(),
        };
        proof {
            assert(r@.dir_include =~= Seq::<Seq<char>>::empty());
            assert(r@.dir_exclude =~= Seq::<Seq<char>>::empty());
            assert(r@.file_include =~= Seq::<Seq<char>>::empty());
            assert(r@.file_exclude =~= Seq::<Seq<char>>::empty());
        }
        r
    }

    /// True exactly when the filter lets a directory at `path` descend:
    /// see `spec_allows_dir`.
    pub fn allows_dir(&self, path: &str) -> (r: bool)
        ensures
            r == spec_allows_dir(self@, path@),
    {
        let include_ok = self.dir_include.len() == 0
            || any_match(&self.dir_include, path, self.options);
        include_ok && !any_match(&self.dir_exclude, path, self.options)
    }

    /// True exactly when the filter lets a file at `path` pass: see
    /// `spec_allows_file`.
    pub fn allows_file(&self, path: &str) -> (r: bool)
        ensures
            r == spec_allows_file(self@, path@),
    {
        let include_ok = self.file_include.len() == 0
            || any_match(&self.file_include, path, self.options);
        include_ok && !any_match(&self.file_exclude, path, self.options)
    }
}

} // verus!
