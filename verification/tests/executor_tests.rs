use exemd::executor::CompiledLangExecutor;
use exemd::executor::JavaExec;
use exemd::executor::LangExecutor;

fn get_joda_code() -> &'static str {
    "// exemd-deps: joda-time:joda-time;version=2.2
// exemd-name: joda
// exemd-filename: HelloWorld
package joda;

import org.joda.time.LocalTime;

public class HelloWorld {
  public static void main(String[] args) {
    LocalTime currentTime = new LocalTime();
    System.out.println(\"The current local time is: \" + currentTime);
  }
}
"
}

#[test]
fn should_build_normal_java_dep() {
    let mut exec = JavaExec::new(String::from(get_joda_code()));
    exec.execute();
    let dep = exec.create_dependency_file();

    assert_eq!(
        "apply plugin: 'java'
apply plugin: 'application'

repositories {
    mavenCentral()
}

dependencies {
compile \"joda-time:joda-time:2.2\"
}

mainClassName = 'joda.HelloWorld'
",
        String::from(dep)
    )
}

#[test]
fn should_build_naming_file_java_deps() {
    let mut exec = JavaExec::new(String::from(
        "// exemd-name: joda
// exemd-filename: HelloWorld
// exemd-deps: joda-time:joda-time;version=2.2
package joda;

import org.joda.time.LocalTime;

public class HelloWorld {
}
",
    ));
    exec.execute();
    let dep = exec.create_dependency_file();

    assert_eq!(
        "apply plugin: 'java'
apply plugin: 'application'

repositories {
    mavenCentral()
}

dependencies {
compile \"joda-time:joda-time:2.2\"
}

mainClassName = 'joda.HelloWorld'
",
        String::from(dep)
    )
}

#[test]
fn build_plan_lays_out_named_project() {
    let mut exec = JavaExec::new(String::from(get_joda_code()));
    let plan = exec.build_project();
    assert_eq!(plan.source_dir, "/tmp/exemd/java/joda/src/main/java/joda");
    assert_eq!(plan.source_path, "/tmp/exemd/java/joda/src/main/java/joda/HelloWorld.java");
    assert_eq!(plan.manifest_path, "/tmp/exemd/java/joda/build.gradle");
    assert_eq!(plan.source_content, get_joda_code());
    assert_eq!(plan.manifest_content, exec.create_dependency_file());
}

#[test]
fn build_plan_lays_out_unnamed_project_without_extra_nesting() {
    let mut exec = JavaExec::new(String::from(
        "public class main {
    public static void main(String[] args) {
        System.out.println(\"Hello, World!\");
    }
}
",
    ));
    let plan = exec.build_project();
    assert_eq!(plan.source_dir, "/tmp/exemd/java/src/main/java");
    assert_eq!(plan.source_path, "/tmp/exemd/java/src/main/java/main.java");
    assert_eq!(plan.manifest_path, "/tmp/exemd/java/build.gradle");
}

#[test]
fn building_twice_plans_identical_writes() {
    let mut exec = JavaExec::new(String::from(get_joda_code()));
    let first = exec.build_project();
    let second = exec.build_project();
    assert_eq!(first.source_dir, second.source_dir);
    assert_eq!(first.source_path, second.source_path);
    assert_eq!(first.source_content, second.source_content);
    assert_eq!(first.manifest_path, second.manifest_path);
    assert_eq!(first.manifest_content, second.manifest_content);
}

#[test]
fn planned_source_write_carries_the_snippet_verbatim() {
    let snippet = String::from(get_joda_code());
    let mut exec = JavaExec::new(snippet.clone());
    let plan = exec.build_project();
    assert_eq!(plan.source_content, snippet);
}

#[test]
fn execute_hands_back_gradle_run_invocation() {
    let mut exec = JavaExec::new(String::from(
        "// exemd-name: hello
package hello;

public class main {
    public static void main(String[] args) {
        System.out.println(\"Hello, World!\");
    }
}
",
    ));
    let (plan, child) = exec.execute();
    assert_eq!(child.program, "gradle");
    assert_eq!(child.args.len(), 3);
    assert_eq!(child.args[0], "-p");
    assert_eq!(child.args[1], "/tmp/exemd/java/hello");
    assert_eq!(child.args[2], "run");
    assert_eq!(plan.source_path, "/tmp/exemd/java/hello/src/main/java/hello/main.java");
    assert!(plan.manifest_content.contains("mainClassName = 'hello.main'"));
}

#[test]
fn compile_points_at_the_built_project_root() {
    let mut exec = JavaExec::new(String::from(get_joda_code()));
    exec.build_project();
    exec.install_dependency();
    exec.try_run();
    let child = exec.compile();
    assert_eq!(child.program, "gradle");
    assert_eq!(
        child.args,
        vec![String::from("-p"), String::from("/tmp/exemd/java/joda"), String::from("run")]
    );
}
