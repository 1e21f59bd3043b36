use exemd::descriptor::Dependency;
use exemd::descriptor::ProjectInfo;
use exemd::manifest::render_manifest;

#[test]
fn empty_descriptor_renders_fallback_entry_point_and_empty_dep_block() {
    let p = ProjectInfo { name: String::new(), filename: String::new(), deps: Vec::new() };
    let text = render_manifest(&p);
    assert_eq!(
        "apply plugin: 'java'
apply plugin: 'application'

repositories {
    mavenCentral()
}

dependencies {

}

mainClassName = 'main'",
        text
    );
    assert!(!text.contains("compile"));
}

#[test]
fn one_dependency_and_named_project_render_exactly() {
    let p = ProjectInfo {
        name: String::from("joda"),
        filename: String::from("HelloWorld"),
        deps: vec![Dependency {
            name: String::from("joda-time:joda-time"),
            version: String::from("2.2"),
        }],
    };
    let text = render_manifest(&p);
    assert!(text.contains("compile \"joda-time:joda-time:2.2\""));
    assert!(text.contains("mainClassName = 'joda.HelloWorld'"));
    assert_eq!(text.matches("compile").count(), 1);
}

#[test]
fn named_project_without_filename_uses_fallback_class_name() {
    let p = ProjectInfo {
        name: String::from("hello"),
        filename: String::new(),
        deps: Vec::new(),
    };
    let text = render_manifest(&p);
    assert!(text.contains("mainClassName = 'hello.main'\n"));
}

#[test]
fn dependency_lines_carry_no_separator_of_their_own() {
    let p = ProjectInfo {
        name: String::new(),
        filename: String::new(),
        deps: vec![
            Dependency { name: String::from("a:b"), version: String::from("1") },
            Dependency { name: String::from("c:d"), version: String::from("2") },
        ],
    };
    let text = render_manifest(&p);
    assert!(text.contains("dependencies {\ncompile \"a:b:1\"compile \"c:d:2\"\n}\n\n"));
}
