use mss_tui::project::{find_project_root, has_entry, is_project_root};

fn names(list: &[&str]) -> Vec<String> {
    list.iter().map(|name| name.to_string()).collect()
}

#[test]
fn root_holds_both_scripts_and_the_readme() {
    assert!(is_project_root(&names(&["README.md", "train.py", "inference.py"])));
    assert!(is_project_root(&names(&["src", "train.py", "x", "inference.py", "README.md", "y"])));
    assert!(!is_project_root(&names(&["train.py", "inference.py"])));
    assert!(!is_project_root(&names(&["train.py", "README.md"])));
    assert!(!is_project_root(&names(&["inference.py", "README.md"])));
    assert!(!is_project_root(&names(&["train.py", "inference.py", "readme.md"])));
    assert!(!is_project_root(&names(&[])));
}

#[test]
fn entry_is_found_by_its_whole_name() {
    let entries = names(&["train.py", "a"]);
    assert!(has_entry(&entries, "train.py"));
    assert!(has_entry(&entries, "a"));
    assert!(!has_entry(&entries, "train"));
    assert!(!has_entry(&entries, "train.py "));
    assert!(!has_entry(&entries, ""));
}

#[test]
fn nearest_root_is_found_on_the_way_up() {
    let root = names(&["train.py", "inference.py", "README.md", "tui"]);
    let ancestors = vec![
        names(&["mss-tui"]),
        names(&["release", "debug"]),
        names(&["target", "src", "README.md"]),
        root.clone(),
        root.clone(),
        names(&["home"]),
    ];
    assert_eq!(find_project_root(&ancestors), Some(3));
    assert_eq!(find_project_root(&vec![root.clone()]), Some(0));
}

#[test]
fn no_root_on_the_way_up_is_reported() {
    let ancestors = vec![names(&["a"]), names(&["train.py", "inference.py"]), names(&[])];
    assert_eq!(find_project_root(&ancestors), None);
    assert_eq!(find_project_root(&Vec::new()), None);
}
