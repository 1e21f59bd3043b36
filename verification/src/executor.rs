//! Language-executor lifecycle: building a project means deriving the layout,
//! emitting the snippet as the source file and rendering the manifest;
//! executing means building and then handing back the external build-tool
//! invocation that compiles and runs the project.  Everything here is pure
//! planning: a build is described as the files it writes (`BuildPlan`) and a
//! process as its program and arguments (`Invocation`), and the caller
//! performs the filesystem writes and spawns the process.

use vstd::prelude::*;
use vstd::string::StringExecFns;

use crate::descriptor::ProjectInfo;
use crate::descriptor::spec_parse_code;
use crate::layout::default_base_dir;
use crate::layout::default_base_dir_spec;
use crate::layout::lang_dir_path;
use crate::layout::manifest_file_path;
use crate::layout::source_dir_path;
use crate::layout::source_file_path;
use crate::layout::spec_lang_dir;
use crate::layout::spec_manifest_path;
use crate::layout::spec_source_dir;
use crate::layout::spec_source_file_path;
use crate::manifest::render_manifest;
use crate::manifest::spec_manifest;

verus! {

/// The filesystem effects of one build: which directory tree to create,
/// which two files to write, and with what contents.  Both writes overwrite
/// whatever was there: builds are not incremental.
pub struct BuildPlan {
    pub source_dir: String,
    pub source_path: String,
    pub source_content: String,
    pub manifest_path: String,
    pub manifest_content: String,
}

#[verifier::ext_equal]
pub ghost struct BuildPlanView {
    pub source_dir: Seq<char>,
    pub source_path: Seq<char>,
    pub source_content: Seq<char>,
    pub manifest_path: Seq<char>,
    pub manifest_content: Seq<char>,
}

impl View for BuildPlan {
    type V = BuildPlanView;

    open spec fn view(&self) -> BuildPlanView {
        BuildPlanView {
            source_dir: self.source_dir@,
            source_path: self.source_path@,
            source_content: self.source_content@,
            manifest_path: self.manifest_path@,
            manifest_content: self.manifest_content@,
        }
    }
}

/// A not-yet-started external process: the binary to run and its arguments.
/// Starting it, capturing its output and waiting for its exit status belong
/// to the caller.
pub struct Invocation {
    pub program: String,
    pub args: Vec<String>,
}

#[verifier::ext_equal]
pub ghost struct InvocationView {
    pub program: Seq<char>,
    pub args: Seq<Seq<char>>,
}

impl View for Invocation {
    type V = InvocationView;

    open spec fn view(&self) -> InvocationView {
        InvocationView { program: self.program@, args: self.args@.map_values(|a: String| a@) }
    }
}

/// The lifecycle contract every language backend satisfies: build the project
/// on disk, optionally install dependencies, optionally dry-run, and hand
/// back the external-process invocation that compiles and runs it.
pub trait LangExecutor: Sized {
    /// The files one build of this executor writes.
    spec fn plan(&self) -> BuildPlanView;

    /// The external invocation this executor hands back.
    spec fn invocation(&self) -> InvocationView;

    /// How `build_project` leaves the receiver.
    spec fn post_build(&self, pre: Self) -> bool;

    /// Derives the layout, the source-file write and the manifest write for
    /// this snippet.  Calling it again re-plans the same writes.
    fn build_project(&mut self) -> (plan: BuildPlan)
        ensures
            plan@ == old(self).plan(),
            final(self).post_build(*old(self)),
    ;

    /// Backend-specific dependency installation; a backend whose build tool
    /// resolves dependencies during its own run does nothing here.
    fn install_dependency(&self);

    /// Optional pre-flight validation hook; backends without a separate
    /// validation step do nothing here.
    fn try_run(&self);

    /// The composed entry point: builds the project, then hands back the
    /// invocation that compiles and runs it.  It does not start the process.
    fn execute(&mut self) -> (r: (BuildPlan, Invocation))
        ensures
            r.0@ == old(self).plan(),
            final(self).post_build(*old(self)),
            r.1@ == final(self).invocation(),
    ;
}

/// The extra capability of backends whose language needs a separate
/// build-tool invocation: produce the configured, unstarted command.
pub trait CompiledLangExecutor: LangExecutor {
    fn compile(&self) -> (c: Invocation)
        ensures
            c@ == self.invocation(),
    ;
}

/// The subpath, under the project root, that holds Java sources.
pub open spec fn java_source_root() -> Seq<char> {
    "src/main/java"@
}

/// The Java backend: scaffolds a gradle project around the snippet and runs
/// it with `gradle -p <root> run`.
pub struct JavaExec {
    pub lang: String,
    pub lang_prefix: String,
    pub source_code: String,
    pub dir: String,
    pub dir_buf: String,
    pub base_dir: String,
    pub project: ProjectInfo,
}

impl JavaExec {
    /// Parses the snippet's directives and readies an executor for it.
    pub fn new(source: String) -> (e: JavaExec)
        ensures
            e.lang@ == "java"@,
            e.lang_prefix@ == "java"@,
            e.source_code@ == source@,
            e.dir@ == Seq::<char>::empty(),
            e.dir_buf@ == Seq::<char>::empty(),
            e.base_dir@ == default_base_dir_spec(),
            e.project@ == spec_parse_code(source@),
    {
        let source_code = source.clone();
        JavaExec {
            lang: String::from_str("java"),
            lang_prefix: String::from_str("java"),
            source_code,
            dir: String::new(),
            dir_buf: String::new(),
            base_dir: default_base_dir(),
            project: ProjectInfo::from_code(source),
        }
    }

    /// Renders the gradle manifest for this snippet's descriptor.  Pure: the
    /// caller writes the returned text to the manifest path of the plan.
    pub fn create_dependency_file(&self) -> (r: String)
        ensures
            r@ == spec_manifest(self.project@),
    {
        render_manifest(&self.project)
    }
}

impl LangExecutor for JavaExec {
    open spec fn plan(&self) -> BuildPlanView {
        BuildPlanView {
            source_dir: spec_source_dir(
                self.base_dir@,
                self.lang@,
                java_source_root(),
                self.project@.name,
            ),
            source_path: spec_source_file_path(
                self.base_dir@,
                self.lang@,
                java_source_root(),
                self.project@.name,
                self.project@.filename,
                self.lang_prefix@,
            ),
            source_content: self.source_code@,
            manifest_path: spec_manifest_path(
                spec_lang_dir(self.base_dir@, self.lang@, self.project@.name),
            ),
            manifest_content: spec_manifest(self.project@),
        }
    }

    open spec fn invocation(&self) -> InvocationView {
        InvocationView { program: "gradle"@, args: seq!["-p"@, self.dir_buf@, "run"@] }
    }

    open spec fn post_build(&self, pre: Self) -> bool {
        &&& self.lang@ == pre.lang@
        &&& self.lang_prefix@ == pre.lang_prefix@
        &&& self.base_dir@ == pre.base_dir@
        &&& self.source_code@ == pre.source_code@
        &&& self.project@ == pre.project@
        &&& self.dir_buf@ == spec_lang_dir(pre.base_dir@, pre.lang@, pre.project@.name)
        &&& self.dir@ == pre.plan().source_path
    }

    fn build_project(&mut self) -> (plan: BuildPlan) {
        let root = lang_dir_path(
            self.base_dir.as_str(),
            self.lang.as_str(),
            self.project.name.as_str(),
        );
        let sdir = source_dir_path(
            self.base_dir.as_str(),
            self.lang.as_str(),
            "src/main/java",
            self.project.name.as_str(),
        );
        let spath = source_file_path(
            self.base_dir.as_str(),
            self.lang.as_str(),
            "src/main/java",
            self.project.name.as_str(),
            self.project.filename.as_str(),
            self.lang_prefix.as_str(),
        );
        let mpath = manifest_file_path(root.as_str());
        let mtext = render_manifest(&self.project);
        let content = self.source_code.clone();
        self.dir_buf = root;
        self.dir = spath.clone();
        let plan = BuildPlan {
            source_dir: sdir,
            source_path: spath,
            source_content: content,
            manifest_path: mpath,
            manifest_content: mtext,
        };
        proof {
            assert(plan@ =~= old(self).plan());
        }
        plan
    }

    fn install_dependency(&self) {
        // gradle resolves the declared dependencies during its own run:
        // nothing to install separately.
    }

    fn try_run(&self) {
        // no separate pre-flight validation step for this backend.
    }

    fn execute(&mut self) -> (r: (BuildPlan, Invocation)) {
        let plan = self.build_project();
        let child = self.compile();
        (plan, child)
    }
}

impl CompiledLangExecutor for JavaExec {
    fn compile(&self) -> (c: Invocation) {
        let mut args: Vec<String> = Vec::new();
        args.push(String::from_str("-p"));
        args.push(self.dir_buf.clone());
        args.push(String::from_str("run"));
        let c = Invocation { program: String::from_str("gradle"), args };
        proof {
            assert(c@.args =~= seq!["-p"@, self.dir_buf@, "run"@]);
            assert(c@ =~= self.invocation());
        }
        c
    }
}

/// Scaffolding is idempotent: the plan is a function of the descriptor, the
/// snippet and the language constants alone, and a build leaves all of those
/// unchanged, so a second `build_project` call plans writes with the same
/// paths and the same contents as the first.
pub proof fn lemma_build_project_idempotent(pre: JavaExec, post: JavaExec)
    requires
        post.post_build(pre),
    ensures
        post.plan() == pre.plan(),
{
    assert(post.plan() =~= pre.plan());
}

} // verus!
