use argon_commander::checksum::{build_manifest, create_shasum, manifests_match, FileContent};

fn file(path: &str, content: &str) -> FileContent {
    FileContent { path: path.as_bytes().to_vec(), content: content.as_bytes().to_vec() }
}

#[test]
fn single_file_checksum() {
    let r = create_shasum(&vec![file("a", "abc")]);
    assert_eq!(String::from_utf8(r).unwrap(), "620a3df236da0af638c2a61c86951463731998f91dbb3ed629f47b9fe00ad118");
}

#[test]
fn files_taken_in_path_order() {
    let r = create_shasum(&vec![file("x/b", "one"), file("x/a", "two")]);
    assert_eq!(String::from_utf8(r).unwrap(), "8367c97dc67a22797234f0ddf8ef870f9ce2a814c54b0146d56c6bea6d68dd2f");
    let swapped = create_shasum(&vec![file("x/a", "two"), file("x/b", "one")]);
    assert_eq!(String::from_utf8(swapped).unwrap(), "8367c97dc67a22797234f0ddf8ef870f9ce2a814c54b0146d56c6bea6d68dd2f");
}

#[test]
fn empty_tree_checksum() {
    let r = create_shasum(&Vec::new());
    assert_eq!(String::from_utf8(r).unwrap(), "01ba4719c80b6fe911b091a7c05124b64eeece964e09c058ef8f9805daca546b");
}

#[test]
fn manifest_lines_and_trimmed_match() {
    let m = build_manifest(&vec![
        (b"deploy".to_vec(), b"aa".to_vec()),
        (b"bot".to_vec(), b"bb".to_vec()),
    ]);
    assert_eq!(m, b"deploy aa\nbot bb".to_vec());
    assert!(manifests_match(&m, &b"deploy aa\nbot bb\n".to_vec()));
    assert!(manifests_match(&b"  x\n".to_vec(), &b"x".to_vec()));
    assert!(!manifests_match(&m, &b"deploy aa\nbot bc\n".to_vec()));
    assert!(!manifests_match(&m, &Vec::new()));
    assert!(build_manifest(&Vec::new()).is_empty());
}
