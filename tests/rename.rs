use felix::rename::{rename_dir, rename_file};

fn set(names: &[&str]) -> Vec<String> {
    names.iter().map(|n| n.to_string()).collect()
}

#[test]
fn file_conflict_takes_first_free_counter() {
    let names = set(&["file.txt", "file_1.txt"]);
    assert_eq!(rename_file("file.txt", &names), "file_2.txt");
}

#[test]
fn no_conflict_keeps_name() {
    assert_eq!(rename_file("file.txt", &set(&[])), "file.txt");
    assert_eq!(rename_dir("docs", &set(&[])), "docs");
    assert_eq!(rename_file("a.txt", &set(&["b.txt"])), "a.txt");
}

#[test]
fn file_names_without_extension() {
    assert_eq!(rename_file("Makefile", &set(&["Makefile"])), "Makefile_1");
    assert_eq!(rename_file(".bashrc", &set(&[".bashrc"])), ".bashrc_1");
    assert_eq!(rename_file("a.tar.gz", &set(&["a.tar.gz"])), "a.tar_1.gz");
}

#[test]
fn directory_suffix_is_appended() {
    let names = set(&["docs", "docs_1", "docs_2"]);
    assert_eq!(rename_dir("docs", &names), "docs_3");
    assert_eq!(rename_dir("v1.0", &set(&["v1.0"])), "v1.0_1");
}

#[test]
fn counter_passes_nine() {
    let mut names = vec!["x.md".to_string()];
    for i in 1..10 {
        names.push(format!("x_{}.md", i));
    }
    assert_eq!(rename_file("x.md", &names), "x_10.md");
}
