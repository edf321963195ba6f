use nrr::cli::first_suggestion;
use nrr::complete::completion_scripts;
use nrr::list::{longest_name_width, render_package, render_package_checked};
use nrr::package_json::{AIndexMap, PackageJson};
use nrr::report::{load_warning, missing_script_message, no_packages_message, script_failed_message, LoadProblem};
use nrr::style::{ColorSupport, Stream};
use nrr::suggest::{pick_suggestion, suggest, SUGGESTION_THRESHOLD};

fn package(name: Option<&str>, version: Option<&str>, scripts: &[(&str, &str)]) -> PackageJson {
    let mut map: AIndexMap<String, String> = AIndexMap::default();
    for (k, v) in scripts {
        map.insert(k.to_string(), v.to_string());
    }
    PackageJson { name: name.map(String::from), version: version.map(String::from), scripts: map }
}

const PLAIN: ColorSupport = ColorSupport { stdout: false, stderr: false };
const COLOR: ColorSupport = ColorSupport { stdout: true, stderr: true };

#[test]
fn prefix_plain() {
    let p = package(Some("app"), Some("1.2.3"), &[]);
    assert_eq!(p.make_prefix(None, Stream::Stderr, PLAIN), "app@1.2.3\n");
    assert_eq!(p.make_prefix(Some("dev"), Stream::Stderr, PLAIN), "app@1.2.3 dev\n");
    let q = package(Some("app"), None, &[]);
    assert_eq!(q.make_prefix(Some("dev"), Stream::Stdout, PLAIN), "app dev\n");
    let r = package(None, Some("1.0.0"), &[]);
    assert_eq!(r.make_prefix(Some("dev"), Stream::Stderr, COLOR), "");
}

#[test]
fn prefix_colored() {
    let p = package(Some("app"), Some("1.0"), &[]);
    assert_eq!(
        p.make_prefix(Some("dev"), Stream::Stdout, ColorSupport { stdout: true, stderr: false }),
        "\x1b[35mapp\x1b[39m\x1b[2m\x1b[35m@1.0\x1b[39m\x1b[0m dev\n"
    );
    assert_eq!(
        p.make_prefix(Some("dev"), Stream::Stdout, ColorSupport { stdout: false, stderr: true }),
        "app@1.0 \x1b[36mdev\x1b[39m\n"
    );
}

#[test]
fn script_lookup() {
    let p = package(Some("app"), None, &[("build", "tsc"), ("dev", "vite")]);
    assert_eq!(p.script("dev").map(String::as_str), Some("vite"));
    assert_eq!(p.script("test"), None);
}

#[test]
fn suggestion_for_typo() {
    let p = package(Some("app"), None, &[("build", "tsc"), ("dev", "vite"), ("lint", "eslint .")]);
    assert_eq!(suggest("buils", &p), Some("build".to_string()));
    assert_eq!(suggest("zzzzzz", &p), None);
    assert_eq!(suggest("dev", &p), Some("dev".to_string()));
    let empty = package(Some("app"), None, &[]);
    assert_eq!(suggest("build", &empty), None);
}

#[test]
fn threshold_is_seven_tenths() {
    assert_eq!(f64::from_bits(SUGGESTION_THRESHOLD), 0.7);
}

#[test]
fn pick_best_score() {
    let above = 0.9f64.to_bits();
    let higher = 0.95f64.to_bits();
    let below = 0.5f64.to_bits();
    let exact = 0.7f64.to_bits();
    assert_eq!(pick_suggestion(&vec![]), None);
    assert_eq!(pick_suggestion(&vec![("a".into(), below), ("b".into(), exact)]), None);
    assert_eq!(
        pick_suggestion(&vec![("a".into(), above), ("b".into(), higher), ("c".into(), below)]),
        Some("b".to_string())
    );
    assert_eq!(pick_suggestion(&vec![("a".into(), above), ("b".into(), above)]), Some("a".to_string()));
}

#[test]
fn suggestion_from_nearest_package_that_has_one() {
    let near = package(Some("near"), None, &[("dev", "vite")]);
    let far = package(Some("far"), None, &[("build", "tsc")]);
    let farther = package(Some("farther"), None, &[("built", "x")]);
    let packages = vec![near, far, farther];
    assert_eq!(first_suggestion("buils", &packages), Some("build".to_string()));
    assert_eq!(first_suggestion("qqqqq", &packages), None);
}

#[test]
fn messages_plain() {
    assert_eq!(no_packages_message(false), "error  No packages found!\n");
    assert_eq!(missing_script_message("buils", None, false), "error  No script found with name buils.\n");
    assert_eq!(
        missing_script_message("buils", Some("build"), false),
        "error  No script found with name buils.\n       Did you mean `nrr build`?\n"
    );
    assert_eq!(script_failed_message("test", 3, false), "error  Script test exited with code 3!\n");
    assert_eq!(script_failed_message("test", -2, false), "error  Script test exited with code -2!\n");
    assert_eq!(
        load_warning(LoadProblem::Parse, "/a/package.json", "bad json", false),
        "warn   /a/package.json could not be parsed: bad json\n"
    );
    assert_eq!(
        load_warning(LoadProblem::Read, "/a/package.json", "denied", false),
        "warn   /a/package.json could not be read: denied\n"
    );
}

#[test]
fn messages_colored() {
    assert_eq!(no_packages_message(true), "\x1b[31merror\x1b[39m  No packages found!\n");
    assert_eq!(
        missing_script_message("x", Some("y"), true),
        "\x1b[31merror\x1b[39m  No script found with name \x1b[1mx\x1b[0m.\n       \x1b[2mDid you mean\x1b[0m \x1b[2m`\x1b[0m\x1b[2m\x1b[36mnrr y\x1b[39m\x1b[0m\x1b[2m`?\x1b[0m\n"
    );
    assert_eq!(
        load_warning(LoadProblem::Read, "p", "e", true),
        "\x1b[33mwarn\x1b[39m   \x1b[1mp\x1b[0m could not be read: e\n"
    );
}

#[test]
fn listing_without_terminal() {
    let p = package(Some("app"), Some("0.1.0"), &[("dev", "vite"), ("build", "tsc -b")]);
    assert_eq!(longest_name_width(&p), 5);
    assert_eq!(render_package(&p, true, None, PLAIN), "app@0.1.0\n  dev  vite\nbuild  tsc -b\n");
    assert_eq!(render_package(&p, false, None, PLAIN), "\napp@0.1.0\n  dev  vite\nbuild  tsc -b\n");
}

#[test]
fn listing_wraps_to_terminal() {
    let p = package(None, None, &[("a", "abcdefg"), ("bb", ""), ("c", "xy")]);
    // pad 2, width 7: 3 columns for commands
    assert_eq!(render_package(&p, true, Some(7), PLAIN), " a  abc\n    def\n    g\nbb   c  xy\n");
}

#[test]
fn listing_colored_names() {
    let p = package(None, None, &[("dev", "vite")]);
    assert_eq!(render_package(&p, true, None, COLOR), "\x1b[36mdev\x1b[39m  vite\n");
}

#[test]
fn listing_pads_by_display_width() {
    let p = package(None, None, &[("日本", "x"), ("a", "y")]);
    assert_eq!(longest_name_width(&p), 4);
    assert_eq!(render_package(&p, true, None, PLAIN), "  日本  x\n   a  y\n");
}

#[test]
fn completion_merges_nearest_first() {
    let near = package(Some("near"), None, &[("dev", "near-dev"), ("b", "near-b")]);
    let far = package(Some("far"), None, &[("dev", "far-dev"), ("a", "far-a"), ("c", "far-c")]);
    let merged = completion_scripts(&vec![near, far]);
    let expected: Vec<(String, String)> = vec![
        ("a".into(), "far-a".into()),
        ("b".into(), "near-b".into()),
        ("c".into(), "far-c".into()),
        ("dev".into(), "near-dev".into()),
    ];
    assert_eq!(merged, expected);
    assert!(completion_scripts(&vec![]).is_empty());
}

#[test]
fn listing_needs_room_on_narrow_terminals() {
    let p = package(None, None, &[("build", "tsc")]);
    assert_eq!(render_package_checked(&p, true, Some(7), PLAIN), None);
    assert_eq!(render_package_checked(&p, true, Some(8), PLAIN), Some("build  t\n       s\n       c\n".to_string()));
    assert_eq!(render_package_checked(&p, true, None, PLAIN), Some("build  tsc\n".to_string()));
    let empty = package(Some("app"), None, &[]);
    assert_eq!(render_package_checked(&empty, true, Some(1), PLAIN), Some("app\n".to_string()));
}

#[test]
fn packages_clone() {
    let p = package(Some("app"), Some("1.0.0"), &[("dev", "vite")]);
    let q = p.clone();
    assert_eq!(q.name.as_deref(), Some("app"));
    assert_eq!(q.script("dev").map(String::as_str), Some("vite"));
}
