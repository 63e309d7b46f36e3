use std::path::Path;

use tpsecore::path_order::{components_of, path_less, Component};

fn names(path: &str) -> Vec<String> {
    components_of(path)
        .iter()
        .map(|c| match c {
            Component::RootDir => "/".to_string(),
            Component::CurDir => ".".to_string(),
            Component::ParentDir => "..".to_string(),
            Component::Normal(v) => v.iter().collect(),
        })
        .collect()
}

#[test]
fn components_of_paths() {
    assert_eq!(names("/a//b/./c/"), vec!["/", "a", "b", "c"]);
    assert_eq!(names("./x/../y"), vec![".", "x", "..", "y"]);
    assert_eq!(names("pack.zip/skin.png"), vec!["pack.zip", "skin.png"]);
    assert_eq!(names(""), Vec::<String>::new());
    assert_eq!(names(".hidden"), vec![".hidden"]);
}

#[test]
fn paths_order_by_components() {
    // Component by component, `a/b` comes before `a.b`, though `/` sorts after `.`.
    assert!(path_less("a/b", "a.b"));
    assert!(!path_less("a.b", "a/b"));
    assert!(!path_less("a//b", "a/b") && !path_less("a/b", "a//b"));
    let paths = [
        "a", "a/b", "a.b", "a/b/c", "/a", "./a", "../a", "b", "a b", "ab", "a/", "", "z/../a", "é", "e",
    ];
    for x in paths.iter() {
        for y in paths.iter() {
            assert_eq!(path_less(x, y), Path::new(x) < Path::new(y), "comparing {x:?} and {y:?}");
        }
    }
}
