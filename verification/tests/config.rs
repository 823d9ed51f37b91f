use catr::Config;

fn names(v: &[&str]) -> Vec<String> {
    v.iter().map(|s| String::from(*s)).collect()
}

#[test]
fn both_numbering_flags_rejected() {
    let r = Config::new(names(&["a.txt"]), true, true);
    assert!(r.is_none());
}

#[test]
fn single_flag_accepted() {
    assert!(Config::new(names(&["a.txt"]), true, false).is_some());
    assert!(Config::new(names(&["a.txt"]), false, true).is_some());
    assert!(Config::new(names(&["a.txt"]), false, false).is_some());
}

#[test]
fn empty_file_list_defaults_to_stdin() {
    let c = Config::new(Vec::new(), false, false).unwrap();
    assert_eq!(c.files().len(), 1);
    assert_eq!(c.files()[0], "-");
}

#[test]
fn config_keeps_arguments() {
    let c = Config::new(names(&["a.txt", "-", "b.txt"]), true, false).unwrap();
    assert_eq!(c.files(), &names(&["a.txt", "-", "b.txt"]));
    assert!(c.number_lines());
    assert!(!c.number_nonblank_lines());
}
