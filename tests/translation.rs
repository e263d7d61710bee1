use link4wsl::classify::{classify_argument, is_output_flag, rewrite_argument, rewrite_arguments, ClassifiedArgument};
use link4wsl::translate::{translate, translate_path};

fn strings(items: &[&str]) -> Vec<String> {
    items.iter().map(|s| s.to_string()).collect()
}

#[test]
fn translate_starts_with_prefix_and_distro() {
    let a = translate("Ubuntu", "mnt/c/x.obj");
    let b = translate("Ubuntu", "mnt/c/x.obj");
    assert_eq!(a, b);
    assert!(a.starts_with(r"\\wsl.localhost\Ubuntu\"));
    assert_eq!(a, r"\\wsl.localhost\Ubuntu\mnt\c\x.obj");
}

#[test]
fn translate_without_trailing_separator() {
    let r = translate("Debian", "a/b/c");
    assert_eq!(r, r"\\wsl.localhost\Debian\a\b\c");
    assert!(!r.ends_with('\\'));
}

#[test]
fn translate_keeps_one_trailing_separator() {
    let r = translate("Debian", "a/b/c/");
    assert_eq!(r, r"\\wsl.localhost\Debian\a\b\c\");
    assert!(!r.ends_with(r"\\"));
}

#[test]
fn translate_root() {
    assert_eq!(translate("Debian", "/"), r"\\wsl.localhost\Debian\");
}

#[test]
fn translate_empty_path_is_namespace_root() {
    assert_eq!(translate("Debian", ""), r"\\wsl.localhost\Debian\");
}

#[test]
fn translate_collapses_repeated_separators() {
    assert_eq!(translate("D", "//a//b"), r"\\wsl.localhost\D\a\b");
    assert_eq!(translate("D", "a/b//"), r"\\wsl.localhost\D\a\b\");
}

#[test]
fn translate_keeps_dot_segments() {
    assert_eq!(translate("D", "a/./../b"), r"\\wsl.localhost\D\a\.\..\b");
}

#[test]
fn translate_path_appends_to_buffer() {
    let mut buffer = String::from("/OUT:");
    translate_path(&mut buffer, "Ubuntu", "/tmp/a.exe");
    assert_eq!(buffer, r"/OUT:\\wsl.localhost\Ubuntu\tmp\a.exe");
}

#[test]
fn bare_switch_passes_through() {
    assert_eq!(rewrite_argument("Ubuntu", "/NOLOGO"), "/NOLOGO");
    assert_eq!(rewrite_argument("Ubuntu", "/OUT:app.exe"), "/OUT:app.exe");
    assert_eq!(rewrite_argument("Ubuntu", "kernel32.lib"), "kernel32.lib");
    assert_eq!(rewrite_argument("Ubuntu", "obj/x.o"), "obj/x.o");
    assert_eq!(rewrite_argument("Ubuntu", ""), "");
    assert_eq!(rewrite_argument("Ubuntu", "/"), "/");
    assert_eq!(classify_argument("/NOLOGO"), ClassifiedArgument::Unmodified);
}

#[test]
fn flag_with_path_is_rewritten() {
    assert_eq!(
        rewrite_argument("Ubuntu", "/LIBPATH:/mnt/c/lib"),
        r"/LIBPATH:\\wsl.localhost\Ubuntu\mnt\c\lib"
    );
}

#[test]
fn bare_path_is_rewritten() {
    assert_eq!(
        rewrite_argument("Ubuntu", "/home/me/main.o"),
        r"\\wsl.localhost\Ubuntu\home\me\main.o"
    );
    assert_eq!(
        classify_argument("/home/me/main.o"),
        ClassifiedArgument::FlagWithPath { flag: None, path: "home/me/main.o".to_string() }
    );
}

#[test]
fn classification_splits_at_first_colon() {
    assert_eq!(
        classify_argument("/OUT:/tmp/a:b.exe"),
        ClassifiedArgument::FlagWithPath {
            flag: Some("OUT".to_string()),
            path: "/tmp/a:b.exe".to_string()
        }
    );
    assert_eq!(
        rewrite_argument("U", "/:/x/y"),
        r"/:\\wsl.localhost\U\x\y"
    );
}

#[test]
fn output_flag_is_exact() {
    assert!(is_output_flag("OUT"));
    assert!(!is_output_flag("out"));
    assert!(!is_output_flag("OUTX"));
    assert!(!is_output_flag(""));
}

#[test]
fn output_path_is_captured_before_translation() {
    let r = rewrite_arguments("Ubuntu", &strings(&["/NOLOGO", "/OUT:/mnt/c/build/app.exe", "main.o"]));
    assert_eq!(r.output_path, Some("/mnt/c/build/app.exe".to_string()));
    assert_eq!(
        r.arguments,
        strings(&["/NOLOGO", r"/OUT:\\wsl.localhost\Ubuntu\mnt\c\build\app.exe", "main.o"])
    );
}

#[test]
fn last_output_flag_wins() {
    let r = rewrite_arguments("U", &strings(&["/OUT:/a/one.exe", "/OUT:/b/two.exe", "/out:/c/three.exe"]));
    assert_eq!(r.output_path, Some("/b/two.exe".to_string()));
    assert_eq!(r.arguments.len(), 3);
}

#[test]
fn no_output_flag_captures_nothing() {
    let r = rewrite_arguments("U", &strings(&["/LIBPATH:/x/y", "/OUT:app.exe", "/DEBUG"]));
    assert_eq!(r.output_path, None);
    assert_eq!(r.arguments[0], r"/LIBPATH:\\wsl.localhost\U\x\y");
    assert_eq!(r.arguments[1], "/OUT:app.exe");
}

#[test]
fn empty_argument_list() {
    let r = rewrite_arguments("U", &Vec::new());
    assert!(r.arguments.is_empty());
    assert_eq!(r.output_path, None);
}
