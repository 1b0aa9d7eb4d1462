use srcmerge::ast::PathArguments;
use srcmerge::error::Error;
use srcmerge::list::List;
use srcmerge::utils::path::{Path, PathSegment};

fn path(parts: &[&str]) -> Path {
    let mut p = Path::new(parts[0]);
    for part in &parts[1..] {
        p = p.join(part);
    }
    p
}

fn names_of(p: &Path) -> Vec<String> {
    p.clone_names()
        .into_vec()
        .into_iter()
        .collect()
}

#[test]
fn new_and_join_hold_the_names() {
    let p = path(&["std", "path", "PathBuf"]);
    assert_eq!(names_of(&p), vec!["std", "path", "PathBuf"]);
}

#[test]
fn trim_start_structural_example() {
    let p = path(&["std", "path", "PathBuf"]);
    let prefix = path(&["std", "path"]);
    let (trimmed, removed) = p.trim_start(&prefix).unwrap();
    assert!(removed);
    assert_eq!(names_of(&trimmed), vec!["PathBuf"]);
}

#[test]
fn trim_start_single_segment_boundary() {
    let p = path(&["PathBuf"]);
    let prefix = path(&["PathBuf"]);
    let (kept, removed) = p.trim_start(&prefix).unwrap();
    assert!(!removed);
    assert_eq!(names_of(&kept), vec!["PathBuf"]);
}

#[test]
fn trim_start_mismatch_is_failure() {
    let p = path(&["alpha", "beta"]);
    let prefix = path(&["gamma"]);
    let (kept, removed) = p.trim_start(&prefix).unwrap();
    assert!(!removed);
    assert_eq!(names_of(&kept), vec!["alpha", "beta"]);
}

#[test]
fn trim_start_never_empties_a_path() {
    let p = path(&["a", "b"]);
    let prefix = path(&["a", "b"]);
    let (kept, removed) = p.trim_start(&prefix).unwrap();
    assert!(!removed);
    assert_eq!(names_of(&kept), vec!["a", "b"]);
}

#[test]
fn trim_start_reaches_nested_arguments() {
    let arg = path(&["std", "path", "PathBuf"]);
    let container = Path::new("Vec").with(arg).unwrap();
    let prefix = path(&["std", "path"]);
    let (trimmed, removed) = container.trim_start(&prefix).unwrap();
    // The container itself is a single segment, so the top level declines,
    // but the nested type-argument path is trimmed.
    assert!(!removed);
    let args = trimmed.decompose_arguments().unwrap();
    assert_eq!(args.len(), 1);
    assert_eq!(names_of(&args[0]), vec!["PathBuf"]);
}

#[test]
fn with_after_with_parameter_fails_fast() {
    let p = Path::new("Handler").with_parameter(Path::new("Input")).unwrap();
    match p.with(Path::new("Output")) {
        Err(Error::MixedArguments) => {},
        _ => panic!("mixed argument kinds must be rejected"),
    }
}

#[test]
fn with_parameter_after_with_fails_fast() {
    let p = Path::new("Wrapper").with(Path::new("Item")).unwrap();
    match p.with_parameter(Path::new("Input")) {
        Err(Error::MixedArguments) => {},
        _ => panic!("mixed argument kinds must be rejected"),
    }
}

#[test]
fn decompose_arguments_without_arguments_fails() {
    let p = path(&["plain"]);
    match p.decompose_arguments() {
        Err(Error::UnexpectedArguments) => {},
        _ => panic!("a bare segment has no arguments to decompose"),
    }
}

#[test]
fn decompose_arguments_of_empty_path_fails() {
    let p = Path { segments: List::Nil };
    match p.decompose_arguments() {
        Err(Error::EmptyPath) => {},
        _ => panic!("an empty path has no final segment"),
    }
}

#[test]
fn decompose_arguments_yields_the_type_arguments() {
    let p = Path::new("Map")
        .with(Path::new("Key"))
        .unwrap()
        .with(Path::new("Value"))
        .unwrap();
    let args = p.decompose_arguments().unwrap();
    assert_eq!(args.len(), 2);
    assert_eq!(names_of(&args[0]), vec!["Key"]);
    assert_eq!(names_of(&args[1]), vec!["Value"]);
}

#[test]
fn plain_segment_carries_no_arguments() {
    let seg = PathSegment::plain("item");
    assert_eq!(seg.arguments, PathArguments::Plain);
    assert_eq!(seg.ident, "item");
}

#[test]
fn flatten_collapses_to_the_last_segment() {
    let inner = path(&["std", "string", "String"]);
    let last_arg = Path::new("Vec").with(inner).unwrap();
    let p = Path::new("alpha").join("beta").with(last_arg).unwrap();
    let flat = p.flatten().unwrap();
    assert_eq!(names_of(&flat), vec!["beta"]);
    let args = flat.decompose_arguments().unwrap();
    assert_eq!(names_of(&args[0]), vec!["Vec"]);
    let nested = args[0].clone_names();
    assert_eq!(nested.into_vec(), vec!["Vec"]);
}

#[test]
fn flatten_of_an_empty_path_fails() {
    let p = Path { segments: List::Nil };
    match p.flatten() {
        Err(Error::EmptyPath) => {},
        _ => panic!("an empty path cannot be flattened"),
    }
}
