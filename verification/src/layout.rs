//! Filesystem layout derivation: the scaffolded project root is
//! `<base>/<language>/<name>` (the language root itself when the project is
//! unnamed), the source file goes under the language's source-root subpath,
//! and the manifest sits at a fixed filename in the project root.  Only the
//! paths are computed here, as plain strings; creating directories and
//! writing files is the caller's side of the split.

use vstd::prelude::*;
use vstd::string::StringExecFns;

use crate::manifest::effective_filename;

verus! {

/// The fixed default base output directory under which every scaffolded
/// project is placed.
pub open spec fn default_base_dir_spec() -> Seq<char> {
    "/tmp/exemd"@
}

pub fn default_base_dir() -> (s: String)
    ensures
        s@ == default_base_dir_spec(),
{
    String::from_str("/tmp/exemd")
}

/// `<base>/<language>` for an unnamed project, `<base>/<language>/<name>`
/// otherwise: an empty project name adds no extra nesting level.
pub open spec fn spec_lang_dir(base: Seq<char>, lang: Seq<char>, name: Seq<char>) -> Seq<char> {
    if name.len() == 0 {
        base + "/"@ + lang
    } else {
        base + "/"@ + lang + "/"@ + name
    }
}

/// The directory that holds the emitted source file: the language-convention
/// source root under the project root, with one more level for a named
/// package.
pub open spec fn spec_source_dir(
    base: Seq<char>,
    lang: Seq<char>,
    source_root: Seq<char>,
    name: Seq<char>,
) -> Seq<char> {
    if name.len() == 0 {
        spec_lang_dir(base, lang, name) + "/"@ + source_root
    } else {
        spec_lang_dir(base, lang, name) + "/"@ + source_root + "/"@ + name
    }
}

/// Full path of the emitted source file: `<source-dir>/<filename>.<ext>`,
/// with the filename falling back to the fixed default when no directive
/// supplied one.
pub open spec fn spec_source_file_path(
    base: Seq<char>,
    lang: Seq<char>,
    source_root: Seq<char>,
    name: Seq<char>,
    filename: Seq<char>,
    ext: Seq<char>,
) -> Seq<char> {
    spec_source_dir(base, lang, source_root, name) + "/"@ + effective_filename(filename) + "."@
        + ext
}

/// The manifest always sits at a fixed filename in the project root.
pub open spec fn spec_manifest_path(root: Seq<char>) -> Seq<char> {
    root + "/build.gradle"@
}

/// Derives the project root directory for a language and a project name.
pub fn lang_dir_path(base: &str, lang: &str, name: &str) -> (r: String)
    ensures
        r@ == spec_lang_dir(base@, lang@, name@),
{
    let mut out = String::from_str(base);
    out.append("/");
    out.append(lang);
    if !name.is_empty() {
        out.append("/");
        out.append(name);
    }
    out
}

/// Derives the directory the source file is emitted into.
pub fn source_dir_path(base: &str, lang: &str, source_root: &str, name: &str) -> (r: String)
    ensures
        r@ == spec_source_dir(base@, lang@, source_root@, name@),
{
    let mut out = lang_dir_path(base, lang, name);
    out.append("/");
    out.append(source_root);
    if !name.is_empty() {
        out.append("/");
        out.append(name);
    }
    out
}

/// Derives the full path of the emitted source file.
pub fn source_file_path(
    base: &str,
    lang: &str,
    source_root: &str,
    name: &str,
    filename: &str,
    ext: &str,
) -> (r: String)
    ensures
        r@ == spec_source_file_path(base@, lang@, source_root@, name@, filename@, ext@),
{
    let mut out = source_dir_path(base, lang, source_root, name);
    out.append("/");
    if filename.is_empty() {
        out.append("main");
    } else {
        out.append(filename);
    }
    out.append(".");
    out.append(ext);
    out
}

/// Derives the manifest path for a project root.
pub fn manifest_file_path(root: &str) -> (r: String)
    ensures
        r@ == spec_manifest_path(root@),
{
    let mut out = String::from_str(root);
    out.append("/build.gradle");
    out
}

} // verus!
