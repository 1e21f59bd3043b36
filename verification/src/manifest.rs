//! Manifest generator: renders the gradle build manifest for a descriptor.
//! The skeleton is fixed; one line per dependency is rendered as
//! `compile "<name>:<version>"`, and the entry-point line is
//! `mainClassName = '<name>.<filename>'` for a named project or
//! `mainClassName = 'main'` for an unnamed one.  Rendering is pure; writing
//! the text to disk is the caller's side of the split.

use vstd::prelude::*;
use vstd::string::StringExecFns;

use crate::descriptor::Dependency;
use crate::descriptor::DependencyView;
use crate::descriptor::ProjectInfo;
use crate::descriptor::ProjectInfoView;

verus! {

/// Everything above the dependency lines, ending just after `dependencies {`.
pub open spec fn manifest_header() -> Seq<char> {
    "apply plugin: 'java'\napply plugin: 'application'\n\nrepositories {\n    mavenCentral()\n}\n\ndependencies {\n"@
}

/// One rendered dependency declaration.
pub open spec fn dep_line(d: DependencyView) -> Seq<char> {
    "compile \""@ + d.name + ":"@ + d.version + "\""@
}

/// The dependency declarations, concatenated in order with no separator
/// beyond what each line itself carries.
pub open spec fn dep_block(deps: Seq<DependencyView>) -> Seq<char>
    decreases deps.len(),
{
    if deps.len() == 0 {
        Seq::empty()
    } else {
        dep_line(deps[0]) + dep_block(deps.drop_first())
    }
}

/// The fallback base name used when no filename directive was supplied.
pub open spec fn fallback_filename() -> Seq<char> {
    "main"@
}

pub open spec fn effective_filename(filename: Seq<char>) -> Seq<char> {
    if filename.len() == 0 {
        fallback_filename()
    } else {
        filename
    }
}

/// The entry-point declaration: named projects point at
/// `<name>.<filename>`, unnamed ones at the fixed fallback.
pub open spec fn entry_point_line(p: ProjectInfoView) -> Seq<char> {
    if p.name.len() > 0 {
        "mainClassName = '"@ + p.name + "."@ + effective_filename(p.filename) + "'\n"@
    } else {
        "mainClassName = 'main'"@
    }
}

/// The whole manifest text for a descriptor.
pub open spec fn spec_manifest(p: ProjectInfoView) -> Seq<char> {
    manifest_header() + dep_block(p.deps) + "\n}\n\n"@ + entry_point_line(p)
}

proof fn lemma_dep_block_snoc(deps: Seq<DependencyView>, d: DependencyView)
    ensures
        dep_block(deps.push(d)) == dep_block(deps) + dep_line(d),
    decreases deps.len(),
{
    if deps.len() == 0 {
        assert(deps.push(d)[0] == d);
        assert(deps.push(d).drop_first() =~= Seq::<DependencyView>::empty());
        assert(dep_line(d) + dep_block(Seq::empty()) =~= dep_block(Seq::<
            DependencyView,
        >::empty()) + dep_line(d));
    } else {
        assert(deps.push(d).drop_first() =~= deps.drop_first().push(d));
        lemma_dep_block_snoc(deps.drop_first(), d);
        assert(deps.push(d)[0] == deps[0]);
        assert(dep_line(deps[0]) + (dep_block(deps.drop_first()) + dep_line(d)) =~= (dep_line(
            deps[0],
        ) + dep_block(deps.drop_first())) + dep_line(d));
    }
}

/// Renders the build manifest for the given descriptor.  Pure: the result is
/// a function of the descriptor alone.
pub fn render_manifest(p: &ProjectInfo) -> (r: String)
    ensures
        r@ == spec_manifest(p@),
{
    let mut out = String::from_str(
        "apply plugin: 'java'\napply plugin: 'application'\n\nrepositories {\n    mavenCentral()\n}\n\ndependencies {\n",
    );
    let ghost dvs = p.deps@.map_values(|d: Dependency| d@);
    proof {
        assert(dvs.take(0) =~= Seq::<DependencyView>::empty());
        assert(out@ + dep_block(dvs.take(0)) =~= out@);
    }
    let mut i: usize = 0;
    while i < p.deps.len()
        invariant
            0 <= i <= p.deps.len(),
            dvs == p.deps@.map_values(|d: Dependency| d@),
            out@ == manifest_header() + dep_block(dvs.take(i as int)),
        decreases p.deps.len() - i,
    {
        out.append("compile \"");
        out.append(p.deps[i].name.as_str());
        out.append(":");
        out.append(p.deps[i].version.as_str());
        out.append("\"");
        proof {
            assert(dvs.take(i as int).push(dvs[i as int]) =~= dvs.take(i as int + 1));
            lemma_dep_block_snoc(dvs.take(i as int), dvs[i as int]);
            assert(out@ =~= manifest_header() + dep_block(dvs.take(i as int + 1)));
        }
        i += 1;
    }
    proof {
        assert(dvs.take(p.deps@.len() as int) =~= dvs);
    }
    out.append("\n}\n\n");
    if !p.name.as_str().is_empty() {
        out.append("mainClassName = '");
        out.append(p.name.as_str());
        out.append(".");
        if p.filename.as_str().is_empty() {
            out.append("main");
        } else {
            out.append(p.filename.as_str());
        }
        out.append("'\n");
    } else {
        out.append("mainClassName = 'main'");
    }
    proof {
        assert(out@ =~= spec_manifest(p@));
    }
    out
}

} // verus!
