use std::path::Path;

use lazytrees::path::{components, file_name, is_absolute, join, parent, path_eq, Component};

fn samples() -> Vec<String> {
    let mut all = vec![String::new()];
    let mut last = vec![String::new()];
    for _ in 0..6 {
        let mut longer = Vec::new();
        for text in &last {
            for c in ['/', '.', 'a'] {
                longer.push(format!("{text}{c}"));
            }
        }
        all.extend(longer.iter().cloned());
        last = longer;
    }
    all
}

#[test]
fn paths_are_read_as_the_system_reads_them() {
    for text in samples() {
        let path = Path::new(&text);
        assert_eq!(is_absolute(&text), path.is_absolute(), "{text:?}");
        assert_eq!(
            file_name(&text).as_deref(),
            path.file_name().and_then(|name| name.to_str()),
            "{text:?}"
        );
        assert_eq!(
            parent(&text).as_deref(),
            path.parent().and_then(|above| above.to_str()),
            "{text:?}"
        );
        let ours: Vec<String> = components(&text)
            .into_iter()
            .map(|component| match component {
                Component::RootDir => "/".to_owned(),
                Component::CurDir => ".".to_owned(),
                Component::ParentDir => "..".to_owned(),
                Component::Normal(name) => name,
            })
            .collect();
        let theirs: Vec<String> = path
            .components()
            .map(|component| component.as_os_str().to_string_lossy().into_owned())
            .collect();
        assert_eq!(ours, theirs, "{text:?}");
    }
}

#[test]
fn paths_are_compared_and_joined_as_the_system_does() {
    let short: Vec<String> = samples().into_iter().filter(|text| text.len() <= 4).collect();
    for a in &short {
        for b in &short {
            assert_eq!(path_eq(a, b), Path::new(a) == Path::new(b), "{a:?} {b:?}");
            assert_eq!(
                Some(join(a, b).as_str()),
                Path::new(a).join(b).to_str(),
                "{a:?} {b:?}"
            );
        }
    }
}

#[test]
fn path_edges() {
    assert!(path_eq("/a//b/", "/a/./b"));
    assert!(!path_eq("/a/b/..", "/a"));
    assert_eq!(join("/a", "b"), "/a/b");
    assert_eq!(join("/a/", "b"), "/a/b");
    assert_eq!(join("/a", "/b"), "/b");
    assert_eq!(join("", "b"), "b");
    assert_eq!(parent("/a"), Some("/".to_owned()));
    assert_eq!(parent("/"), None);
    assert_eq!(parent("a"), Some(String::new()));
    assert_eq!(file_name("/a/.."), None);
    assert_eq!(parent(&join("/a", "b")), Some("/a".to_owned()));
    assert_eq!(file_name(&join("/a", "b")), Some("b".to_owned()));
}
