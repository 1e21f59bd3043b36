use exemd::descriptor::ProjectInfo;

#[test]
fn parses_all_three_directive_kinds() {
    let p = ProjectInfo::from_code(String::from(
        "// exemd-deps: joda-time:joda-time;version=2.2\n// exemd-name: joda\n// exemd-filename: HelloWorld\npackage joda;\n",
    ));
    assert_eq!(p.name, "joda");
    assert_eq!(p.filename, "HelloWorld");
    assert_eq!(p.deps.len(), 1);
    assert_eq!(p.deps[0].name, "joda-time:joda-time");
    assert_eq!(p.deps[0].version, "2.2");
}

#[test]
fn directive_order_is_irrelevant() {
    let orderings = [
        "// exemd-name: joda\n// exemd-deps: joda-time:joda-time;version=2.2\n// exemd-filename: HelloWorld\ncode\n",
        "// exemd-name: joda\n// exemd-filename: HelloWorld\n// exemd-deps: joda-time:joda-time;version=2.2\ncode\n",
        "// exemd-deps: joda-time:joda-time;version=2.2\n// exemd-name: joda\n// exemd-filename: HelloWorld\ncode\n",
        "// exemd-deps: joda-time:joda-time;version=2.2\n// exemd-filename: HelloWorld\n// exemd-name: joda\ncode\n",
        "// exemd-filename: HelloWorld\n// exemd-name: joda\n// exemd-deps: joda-time:joda-time;version=2.2\ncode\n",
        "// exemd-filename: HelloWorld\n// exemd-deps: joda-time:joda-time;version=2.2\n// exemd-name: joda\ncode\n",
    ];
    for source in orderings.iter() {
        let p = ProjectInfo::from_code(String::from(*source));
        assert_eq!(p.name, "joda");
        assert_eq!(p.filename, "HelloWorld");
        assert_eq!(p.deps.len(), 1);
        assert_eq!(p.deps[0].name, "joda-time:joda-time");
        assert_eq!(p.deps[0].version, "2.2");
    }
}

#[test]
fn missing_directives_leave_defaults() {
    let p = ProjectInfo::from_code(String::from(
        "public class main {\n    public static void main(String[] args) {}\n}\n",
    ));
    assert_eq!(p.name, "");
    assert_eq!(p.filename, "");
    assert_eq!(p.deps.len(), 0);
}

#[test]
fn dependencies_accumulate_in_order() {
    let p = ProjectInfo::from_code(String::from(
        "// exemd-deps: a:b;version=1\n// exemd-deps: c:d;version=2\n// exemd-deps: a:b;version=1\ncode\n",
    ));
    assert_eq!(p.deps.len(), 3);
    assert_eq!(p.deps[0].name, "a:b");
    assert_eq!(p.deps[0].version, "1");
    assert_eq!(p.deps[1].name, "c:d");
    assert_eq!(p.deps[1].version, "2");
    assert_eq!(p.deps[2].name, "a:b");
    assert_eq!(p.deps[2].version, "1");
}

#[test]
fn malformed_dependency_directive_is_skipped() {
    let p = ProjectInfo::from_code(String::from(
        "// exemd-deps: joda-time:joda-time\n// exemd-name: joda\n// exemd-filename: HelloWorld\ncode\n",
    ));
    assert_eq!(p.name, "joda");
    assert_eq!(p.filename, "HelloWorld");
    assert_eq!(p.deps.len(), 0);
}

#[test]
fn dependency_without_version_tag_after_delimiter_is_skipped() {
    let p = ProjectInfo::from_code(String::from(
        "// exemd-deps: a:b;2.2\n// exemd-name: x\ncode\n",
    ));
    assert_eq!(p.name, "x");
    assert_eq!(p.deps.len(), 0);
}

#[test]
fn scanning_stops_at_first_non_comment_line() {
    let p = ProjectInfo::from_code(String::from(
        "// exemd-name: early\npackage early;\n// exemd-name: late\n// exemd-deps: a:b;version=1\n",
    ));
    assert_eq!(p.name, "early");
    assert_eq!(p.filename, "");
    assert_eq!(p.deps.len(), 0);
}

#[test]
fn plain_comment_lines_are_skipped_not_stopping() {
    let p = ProjectInfo::from_code(String::from(
        "// a snippet that greets\n// exemd-name: greet\n// more notes\n// exemd-filename: Greeter\ncode\n",
    ));
    assert_eq!(p.name, "greet");
    assert_eq!(p.filename, "Greeter");
}

#[test]
fn later_directive_of_the_same_key_wins() {
    let p = ProjectInfo::from_code(String::from(
        "// exemd-name: first\n// exemd-name: second\ncode\n",
    ));
    assert_eq!(p.name, "second");
}

#[test]
fn empty_source_parses_to_empty_descriptor() {
    let p = ProjectInfo::from_code(String::new());
    assert_eq!(p.name, "");
    assert_eq!(p.filename, "");
    assert_eq!(p.deps.len(), 0);
}
