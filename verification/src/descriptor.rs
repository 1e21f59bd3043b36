//! Metadata parser: the leading comment lines of a snippet carry directives
//! (`// exemd-name: ...`, `// exemd-filename: ...`, `// exemd-deps:
//! group:artifact;version=X`) that together describe the project to scaffold.
//! Scanning stops at the first line that is not a comment; a later directive
//! of the same key wins; a malformed dependency directive (one without the
//! `;version=` delimiter) is skipped without affecting the rest.

use vstd::prelude::*;
use vstd::string::StrSliceExecFns;
use vstd::string::StringExecFns;

use crate::strutil::find_char_idx;
use crate::strutil::has_prefix;
use crate::strutil::split_lines;
use crate::strutil::split_source_lines;
use crate::strutil::str_find_char_from;
use crate::strutil::str_has_prefix;
use crate::strutil::str_suffix;
use crate::strutil::suffix_from;

verus! {

/// One declared third-party library: a coordinate (opaque to this layer, it
/// may itself contain `group:artifact` separators) and a version token.
pub struct Dependency {
    pub name: String,
    pub version: String,
}

#[verifier::ext_equal]
pub ghost struct DependencyView {
    pub name: Seq<char>,
    pub version: Seq<char>,
}

impl View for Dependency {
    type V = DependencyView;

    open spec fn view(&self) -> DependencyView {
        DependencyView { name: self.name@, version: self.version@ }
    }
}

/// The project descriptor parsed from a snippet: logical package name (empty
/// means "unnamed/default package"), base name of the emitted source file
/// (empty means "fall back to the default at render and path-derivation
/// time"), and the declared dependencies in order of appearance.
pub struct ProjectInfo {
    pub name: String,
    pub filename: String,
    pub deps: Vec<Dependency>,
}

#[verifier::ext_equal]
pub ghost struct ProjectInfoView {
    pub name: Seq<char>,
    pub filename: Seq<char>,
    pub deps: Seq<DependencyView>,
}

impl View for ProjectInfo {
    type V = ProjectInfoView;

    open spec fn view(&self) -> ProjectInfoView {
        ProjectInfoView {
            name: self.name@,
            filename: self.filename@,
            deps: self.deps@.map_values(|d: Dependency| d@),
        }
    }
}

pub open spec fn comment_marker() -> Seq<char> {
    "//"@
}

pub open spec fn name_directive_prefix() -> Seq<char> {
    "// exemd-name: "@
}

pub open spec fn filename_directive_prefix() -> Seq<char> {
    "// exemd-filename: "@
}

pub open spec fn deps_directive_prefix() -> Seq<char> {
    "// exemd-deps: "@
}

pub open spec fn version_tag() -> Seq<char> {
    "version="@
}

pub open spec fn is_comment_line(l: Seq<char>) -> bool {
    has_prefix(l, comment_marker())
}

/// The value of a directive line: everything after its key prefix.
pub open spec fn value_after(l: Seq<char>, p: Seq<char>) -> Seq<char> {
    suffix_from(l, p.len() as int)
}

/// A dependency directive's value splits at the first `;` into a coordinate
/// and a `version=`-tagged version token.
pub open spec fn dep_value_well_formed(v: Seq<char>) -> bool {
    let i = find_char_idx(v, ';');
    i < v.len() && has_prefix(suffix_from(v, i as int + 1), version_tag())
}

pub open spec fn dep_of_value(v: Seq<char>) -> DependencyView {
    let i = find_char_idx(v, ';');
    DependencyView {
        name: v.subrange(0, i as int),
        version: suffix_from(v, i as int + 1 + version_tag().len() as int),
    }
}

/// What a scanned line does to the descriptor.
pub ghost enum LineKind {
    SetName,
    SetFilename,
    PushDep,
    Skip,
}

pub open spec fn line_kind(l: Seq<char>) -> LineKind {
    if has_prefix(l, name_directive_prefix()) {
        LineKind::SetName
    } else if has_prefix(l, filename_directive_prefix()) {
        LineKind::SetFilename
    } else if has_prefix(l, deps_directive_prefix()) && dep_value_well_formed(
        value_after(l, deps_directive_prefix()),
    ) {
        LineKind::PushDep
    } else {
        LineKind::Skip
    }
}

pub open spec fn empty_descriptor() -> ProjectInfoView {
    ProjectInfoView { name: Seq::empty(), filename: Seq::empty(), deps: Seq::empty() }
}

pub open spec fn apply_line(acc: ProjectInfoView, l: Seq<char>) -> ProjectInfoView {
    match line_kind(l) {
        LineKind::SetName => ProjectInfoView { name: value_after(l, name_directive_prefix()), ..acc },
        LineKind::SetFilename => ProjectInfoView {
            filename: value_after(l, filename_directive_prefix()),
            ..acc
        },
        LineKind::PushDep => ProjectInfoView {
            deps: acc.deps.push(dep_of_value(value_after(l, deps_directive_prefix()))),
            ..acc
        },
        LineKind::Skip => acc,
    }
}

/// Left-to-right scan over the lines, stopping at the first non-comment line.
pub open spec fn parse_lines_from(lines: Seq<Seq<char>>, acc: ProjectInfoView) -> ProjectInfoView
    decreases lines.len(),
{
    if lines.len() == 0 {
        acc
    } else if !is_comment_line(lines[0]) {
        acc
    } else {
        parse_lines_from(lines.drop_first(), apply_line(acc, lines[0]))
    }
}

pub open spec fn spec_parse_lines(lines: Seq<Seq<char>>) -> ProjectInfoView {
    parse_lines_from(lines, empty_descriptor())
}

/// The descriptor of a snippet is a pure function of its text.
pub open spec fn spec_parse_code(s: Seq<char>) -> ProjectInfoView {
    spec_parse_lines(split_lines(s))
}

/// Applies one scanned line to the descriptor under construction.
fn apply_directive_line(p: &mut ProjectInfo, line: &str)
    ensures
        final(p)@ == apply_line(old(p)@, line@),
{
    if str_has_prefix(line, "// exemd-name: ") {
        let plen = "// exemd-name: ".unicode_len();
        p.name = str_suffix(line, plen);
        proof {
            assert(p@ =~= apply_line(old(p)@, line@));
        }
    } else if str_has_prefix(line, "// exemd-filename: ") {
        let plen = "// exemd-filename: ".unicode_len();
        p.filename = str_suffix(line, plen);
        proof {
            assert(p@ =~= apply_line(old(p)@, line@));
        }
    } else if str_has_prefix(line, "// exemd-deps: ") {
        let plen = "// exemd-deps: ".unicode_len();
        let v = str_suffix(line, plen);
        let vs = v.as_str();
        let vlen = vs.unicode_len();
        let semi = str_find_char_from(vs, 0, ';');
        proof {
            assert(suffix_from(v@, 0) =~= v@);
            assert(find_char_idx(v@, ';') == semi);
        }
        if semi < vlen {
            let rest = vs.substring_char(semi + 1, vlen);
            if str_has_prefix(rest, "version=") {
                let tlen = "version=".unicode_len();
                let rlen = rest.unicode_len();
                let dep_name = String::from_str(vs.substring_char(0, semi));
                let dep_version = String::from_str(rest.substring_char(tlen, rlen));
                proof {
                    assert(rest@ =~= suffix_from(v@, semi + 1));
                    assert(dep_value_well_formed(v@));
                    assert(dep_version@ =~= suffix_from(
                        v@,
                        semi + 1 + version_tag().len() as int,
                    ));
                    assert(dep_of_value(v@) =~= DependencyView {
                        name: dep_name@,
                        version: dep_version@,
                    });
                }
                let ghost pre_deps = p.deps@;
                p.deps.push(Dependency { name: dep_name, version: dep_version });
                proof {
                    assert(p.deps@.map_values(|d: Dependency| d@) =~= pre_deps.map_values(
                        |d: Dependency| d@,
                    ).push(dep_of_value(v@)));
                    assert(p@ =~= apply_line(old(p)@, line@));
                }
            } else {
                proof {
                    assert(rest@ =~= suffix_from(v@, semi + 1));
                    assert(!dep_value_well_formed(v@));
                    assert(line_kind(line@) == LineKind::Skip);
                }
            }
        } else {
            proof {
                assert(!dep_value_well_formed(v@));
                assert(line_kind(line@) == LineKind::Skip);
            }
        }
    } else {
        proof {
            assert(line_kind(line@) == LineKind::Skip);
        }
    }
}

/// Folds the scan over the given lines, stopping at the first non-comment
/// line.
fn parse_descriptor_lines(lines: &Vec<String>) -> (p: ProjectInfo)
    ensures
        p@ == spec_parse_lines(lines@.map_values(|l: String| l@)),
{
    let ghost lv = lines@.map_values(|l: String| l@);
    let mut p = ProjectInfo { name: String::new(), filename: String::new(), deps: Vec::new() };
    proof {
        assert(p@ =~= empty_descriptor());
        assert(lv.skip(0) =~= lv);
    }
    let mut k: usize = 0;
    let mut stopped = false;
    while k < lines.len() && !stopped
        invariant
            0 <= k <= lines.len(),
            lv == lines@.map_values(|l: String| l@),
            stopped ==> spec_parse_lines(lv) == p@,
            !stopped ==> spec_parse_lines(lv) == parse_lines_from(lv.skip(k as int), p@),
        decreases lines.len() - k, if stopped { 0int } else { 1int },
    {
        let line = &lines[k];
        proof {
            assert(lv.skip(k as int)[0] == lv[k as int]);
            assert(lv[k as int] == line@);
        }
        let is_c = str_has_prefix(line.as_str(), "//");
        if !is_c {
            stopped = true;
        } else {
            let ghost pre = p@;
            apply_directive_line(&mut p, line.as_str());
            proof {
                assert(lv.skip(k as int).drop_first() =~= lv.skip(k as int + 1));
                assert(parse_lines_from(lv.skip(k as int), pre) == parse_lines_from(
                    lv.skip(k as int + 1),
                    p@,
                ));
            }
            k += 1;
        }
    }
    proof {
        if !stopped {
            assert(lv.skip(k as int).len() == 0);
        }
    }
    p
}

/// The leading comment block: the longest prefix of lines that the parser
/// scans before it stops at a non-comment line.
pub open spec fn scanned(lines: Seq<Seq<char>>) -> Seq<Seq<char>>
    decreases lines.len(),
{
    if lines.len() == 0 || !is_comment_line(lines[0]) {
        Seq::empty()
    } else {
        seq![lines[0]] + scanned(lines.drop_first())
    }
}

/// The value a directive line carries, for its own kind.
pub open spec fn directive_value_of(l: Seq<char>) -> Seq<char> {
    match line_kind(l) {
        LineKind::SetName => value_after(l, name_directive_prefix()),
        LineKind::SetFilename => value_after(l, filename_directive_prefix()),
        LineKind::PushDep => value_after(l, deps_directive_prefix()),
        LineKind::Skip => Seq::empty(),
    }
}

/// The value of the last line of kind `k`, if any.
pub open spec fn last_value_of(lines: Seq<Seq<char>>, k: LineKind) -> Option<Seq<char>>
    decreases lines.len(),
{
    if lines.len() == 0 {
        None
    } else if line_kind(lines.last()) == k {
        Some(directive_value_of(lines.last()))
    } else {
        last_value_of(lines.drop_last(), k)
    }
}

/// The dependencies declared by the well-formed dependency directives, in
/// order of appearance.
pub open spec fn deps_of(lines: Seq<Seq<char>>) -> Seq<DependencyView>
    decreases lines.len(),
{
    if lines.len() == 0 {
        Seq::empty()
    } else if line_kind(lines[0]) == LineKind::PushDep {
        seq![dep_of_value(value_after(lines[0], deps_directive_prefix()))] + deps_of(
            lines.drop_first(),
        )
    } else {
        deps_of(lines.drop_first())
    }
}

proof fn lemma_last_value_prepend(l: Seq<char>, s: Seq<Seq<char>>, k: LineKind)
    ensures
        last_value_of(seq![l] + s, k) == (if last_value_of(s, k) is Some {
            last_value_of(s, k)
        } else if line_kind(l) == k {
            Some(directive_value_of(l))
        } else {
            None::<Seq<char>>
        }),
    decreases s.len(),
{
    let t = seq![l] + s;
    if s.len() == 0 {
        assert(t.len() == 1);
        assert(t.last() == l);
        assert(last_value_of(s, k) == None::<Seq<char>>);
        if line_kind(l) == k {
            assert(last_value_of(t, k) == Some(directive_value_of(l)));
        } else {
            assert(t.drop_last() =~= Seq::<Seq<char>>::empty());
            assert(last_value_of(t.drop_last(), k) == None::<Seq<char>>);
            assert(last_value_of(t, k) == None::<Seq<char>>);
        }
    } else {
        assert(t.last() == s.last());
        if line_kind(s.last()) == k {
            assert(last_value_of(t, k) == Some(directive_value_of(s.last())));
            assert(last_value_of(s, k) == Some(directive_value_of(s.last())));
        } else {
            assert(t.drop_last() =~= seq![l] + s.drop_last());
            lemma_last_value_prepend(l, s.drop_last(), k);
            assert(last_value_of(t, k) == last_value_of(seq![l] + s.drop_last(), k));
            assert(last_value_of(s, k) == last_value_of(s.drop_last(), k));
        }
    }
}

proof fn lemma_parse_from_characterization(lines: Seq<Seq<char>>, acc: ProjectInfoView)
    ensures
        parse_lines_from(lines, acc) == (ProjectInfoView {
            name: match last_value_of(scanned(lines), LineKind::SetName) {
                Some(v) => v,
                None => acc.name,
            },
            filename: match last_value_of(scanned(lines), LineKind::SetFilename) {
                Some(v) => v,
                None => acc.filename,
            },
            deps: acc.deps + deps_of(scanned(lines)),
        }),
    decreases lines.len(),
{
    if lines.len() == 0 || !is_comment_line(lines[0]) {
        assert(scanned(lines) =~= Seq::<Seq<char>>::empty());
        assert(acc.deps + deps_of(Seq::empty()) =~= acc.deps);
        assert(parse_lines_from(lines, acc) =~= (ProjectInfoView {
            name: match last_value_of(scanned(lines), LineKind::SetName) {
                Some(v) => v,
                None => acc.name,
            },
            filename: match last_value_of(scanned(lines), LineKind::SetFilename) {
                Some(v) => v,
                None => acc.filename,
            },
            deps: acc.deps + deps_of(scanned(lines)),
        }));
    } else {
        let l0 = lines[0];
        let rest = lines.drop_first();
        let acc2 = apply_line(acc, l0);
        lemma_parse_from_characterization(rest, acc2);
        assert(scanned(lines) == seq![l0] + scanned(rest));
        lemma_last_value_prepend(l0, scanned(rest), LineKind::SetName);
        lemma_last_value_prepend(l0, scanned(rest), LineKind::SetFilename);
        assert((seq![l0] + scanned(rest))[0] == l0);
        assert((seq![l0] + scanned(rest)).drop_first() =~= scanned(rest));
        if line_kind(l0) == LineKind::PushDep {
            let d = dep_of_value(value_after(l0, deps_directive_prefix()));
            assert(deps_of(scanned(lines)) == seq![d] + deps_of(scanned(rest)));
            assert(acc.deps + (seq![d] + deps_of(scanned(rest))) =~= acc2.deps + deps_of(
                scanned(rest),
            ));
        } else {
            assert(deps_of(scanned(lines)) == deps_of(scanned(rest)));
            assert(acc2.deps == acc.deps);
        }
        assert(parse_lines_from(lines, acc) =~= (ProjectInfoView {
            name: match last_value_of(scanned(lines), LineKind::SetName) {
                Some(v) => v,
                None => acc.name,
            },
            filename: match last_value_of(scanned(lines), LineKind::SetFilename) {
                Some(v) => v,
                None => acc.filename,
            },
            deps: acc.deps + deps_of(scanned(lines)),
        }));
    }
}

/// What parsing returns, stated extensionally: the name is the value of the
/// last name directive in the leading comment block (empty when there is
/// none), the filename likewise, and the dependencies are those of the
/// well-formed dependency directives in order of appearance.
pub proof fn lemma_parse_lines_characterization(lines: Seq<Seq<char>>)
    ensures
        spec_parse_lines(lines) == (ProjectInfoView {
            name: match last_value_of(scanned(lines), LineKind::SetName) {
                Some(v) => v,
                None => Seq::empty(),
            },
            filename: match last_value_of(scanned(lines), LineKind::SetFilename) {
                Some(v) => v,
                None => Seq::empty(),
            },
            deps: deps_of(scanned(lines)),
        }),
{
    lemma_parse_from_characterization(lines, empty_descriptor());
    assert(empty_descriptor().deps + deps_of(scanned(lines)) =~= deps_of(scanned(lines)));
    assert(spec_parse_lines(lines) =~= (ProjectInfoView {
        name: match last_value_of(scanned(lines), LineKind::SetName) {
            Some(v) => v,
            None => Seq::empty(),
        },
        filename: match last_value_of(scanned(lines), LineKind::SetFilename) {
            Some(v) => v,
            None => Seq::empty(),
        },
        deps: deps_of(scanned(lines)),
    }));
}

/// Directive order is irrelevant: two line sequences whose leading comment
/// blocks carry the same last name directive, the same last filename
/// directive, and the same well-formed dependency directives in the same
/// relative order parse to the same descriptor, however the directive lines
/// are interleaved.
pub proof fn lemma_parse_order_independent(a: Seq<Seq<char>>, b: Seq<Seq<char>>)
    requires
        last_value_of(scanned(a), LineKind::SetName) == last_value_of(
            scanned(b),
            LineKind::SetName,
        ),
        last_value_of(scanned(a), LineKind::SetFilename) == last_value_of(
            scanned(b),
            LineKind::SetFilename,
        ),
        deps_of(scanned(a)) == deps_of(scanned(b)),
    ensures
        spec_parse_lines(a) == spec_parse_lines(b),
{
    lemma_parse_lines_characterization(a);
    lemma_parse_lines_characterization(b);
}

proof fn lemma_skipped_line_inserted(
    pre: Seq<Seq<char>>,
    bad: Seq<char>,
    post: Seq<Seq<char>>,
    acc: ProjectInfoView,
)
    requires
        is_comment_line(bad),
        line_kind(bad) == LineKind::Skip,
    ensures
        parse_lines_from(pre + seq![bad] + post, acc) == parse_lines_from(pre + post, acc),
    decreases pre.len(),
{
    if pre.len() == 0 {
        let a = pre + seq![bad] + post;
        assert(a[0] == bad);
        assert(a.drop_first() =~= post);
        assert(pre + post =~= post);
        assert(apply_line(acc, bad) == acc);
    } else {
        let p0 = pre[0];
        let a = pre + seq![bad] + post;
        let b = pre + post;
        assert(a[0] == p0);
        assert(b[0] == p0);
        if is_comment_line(p0) {
            assert(a.drop_first() =~= pre.drop_first() + seq![bad] + post);
            assert(b.drop_first() =~= pre.drop_first() + post);
            lemma_skipped_line_inserted(pre.drop_first(), bad, post, apply_line(acc, p0));
        }
    }
}

/// A malformed dependency directive — one whose value lacks the `;version=`
/// delimiter — is skipped wherever it stands: it does not prevent the
/// directives around it from being applied.
pub proof fn lemma_malformed_dep_directive_skipped(
    pre: Seq<Seq<char>>,
    bad: Seq<char>,
    post: Seq<Seq<char>>,
)
    requires
        has_prefix(bad, deps_directive_prefix()),
        !dep_value_well_formed(value_after(bad, deps_directive_prefix())),
    ensures
        spec_parse_lines(pre + seq![bad] + post) == spec_parse_lines(pre + post),
{
    reveal_strlit("//");
    reveal_strlit("// exemd-name: ");
    reveal_strlit("// exemd-filename: ");
    reveal_strlit("// exemd-deps: ");
    assert(bad.subrange(0, deps_directive_prefix().len() as int) == deps_directive_prefix());
    assert(bad.subrange(0, deps_directive_prefix().len() as int)[9] == bad[9]);
    assert(bad[9] == 'd');
    assert(bad.subrange(0, comment_marker().len() as int) =~= comment_marker());
    if has_prefix(bad, name_directive_prefix()) {
        assert(bad.subrange(0, name_directive_prefix().len() as int)[9] == bad[9]);
        assert(bad[9] == 'n');
    }
    if has_prefix(bad, filename_directive_prefix()) {
        assert(bad.subrange(0, filename_directive_prefix().len() as int)[9] == bad[9]);
        assert(bad[9] == 'f');
    }
    assert(line_kind(bad) == LineKind::Skip);
    lemma_skipped_line_inserted(pre, bad, post, empty_descriptor());
}

impl ProjectInfo {
    /// Parses the leading comment block of a snippet into its descriptor.
    /// Missing directives are not errors: the name stays empty and the
    /// filename default is resolved later, at render and path-derivation
    /// time.
    pub fn from_code(source: String) -> (p: ProjectInfo)
        ensures
            p@ == spec_parse_code(source@),
    {
        let lines = split_source_lines(source.as_str());
        parse_descriptor_lines(&lines)
    }
}

} // verus!
