use felix::contents::{list_up_contents, sort_natural};
use felix::extension::to_extension_map;

fn strings(v: &[&str]) -> Vec<String> {
    v.iter().map(|s| s.to_string()).collect()
}

#[test]
fn natural_order_sorts_numbers_by_value() {
    let v = strings(&["rfc2086.txt", "rfc822.txt", "rfc1.txt"]);
    assert_eq!(sort_natural(&v), strings(&["rfc1.txt", "rfc822.txt", "rfc2086.txt"]));
    assert!(sort_natural(&vec![]).is_empty());
}

#[test]
fn directories_come_first() {
    let items = vec![
        ("b.txt".to_string(), false),
        ("src".to_string(), true),
        ("a10".to_string(), false),
        ("a9".to_string(), false),
        ("assets".to_string(), true),
    ];
    assert_eq!(
        list_up_contents(&items),
        strings(&["assets", "src", "a9", "a10", "b.txt"])
    );
}

#[test]
fn extension_map_lowercases_extensions() {
    assert!(to_extension_map(&None).is_none());
    let config = Some(vec![
        ("feh".to_string(), strings(&["JPG", "png"])),
        ("vim".to_string(), strings(&["txt"])),
    ]);
    let pairs = to_extension_map(&config).unwrap();
    assert_eq!(
        pairs,
        vec![
            ("jpg".to_string(), "feh".to_string()),
            ("png".to_string(), "feh".to_string()),
            ("txt".to_string(), "vim".to_string()),
        ]
    );
    assert_eq!(to_extension_map(&Some(vec![])).unwrap(), vec![]);
}

#[test]
fn equal_names_keep_their_order() {
    let a = vec![("ab".to_string(), false), ("a b".to_string(), false)];
    assert_eq!(list_up_contents(&a), strings(&["ab", "a b"]));
    let b = vec![("a b".to_string(), false), ("ab".to_string(), false)];
    assert_eq!(list_up_contents(&b), strings(&["a b", "ab"]));
}
