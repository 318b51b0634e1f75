use std::io::Write;

use jvm::classpath::{new_entry, ClassPath, CompositeEntry, Entry, Source, ZipEntry};

#[test]
fn option_kinds() {
    assert!(matches!(new_entry("lib/rt.jar".to_string()), Entry::Zip(z) if z.abs_path == "lib/rt.jar"));
    assert!(matches!(new_entry("a.ZIP".to_string()), Entry::Zip(_)));
    assert!(matches!(new_entry("classes".to_string()), Entry::Dir(d) if d.abs_dir == "classes"));
    assert!(matches!(new_entry("jre/lib/*".to_string()), Entry::Wildcard(d) if d == "jre/lib/"));
    match new_entry("a;b.jar;c/*".to_string()) {
        Entry::Composite(c) => {
            assert_eq!(c.entries.len(), 3);
            assert!(matches!(&c.entries[0], Entry::Dir(d) if d.abs_dir == "a"));
            assert!(matches!(&c.entries[1], Entry::Zip(z) if z.abs_path == "b.jar"));
            assert!(matches!(&c.entries[2], Entry::Wildcard(d) if d == "c/"));
        }
        other => panic!("unexpected {:?}", other),
    }
}

#[test]
fn wildcard_keeps_only_jars() {
    let names = vec!["a.jar".to_string(), "b.txt".to_string(), "C.JAR".to_string(), "d.zip".to_string()];
    let c = CompositeEntry::new_wildcard("lib".to_string(), names);
    let paths: Vec<String> = c
        .entries
        .iter()
        .map(|e| match e {
            Entry::Zip(z) => z.abs_path.clone(),
            other => panic!("unexpected {:?}", other),
        })
        .collect();
    assert_eq!(paths, vec!["lib/a.jar".to_string(), "lib/C.JAR".to_string()]);
}

#[test]
fn search_order_is_boot_ext_user() {
    let cp = ClassPath::new("jre".to_string(), String::new());
    let sources = cp.read_class("java/lang/Object");
    assert_eq!(sources.len(), 3);
    assert!(matches!(&sources[0], Source::Listing { dir } if dir == "jre/lib/"));
    assert!(matches!(&sources[1], Source::Listing { dir } if dir == "jre/lib/ext/"));
    assert!(matches!(&sources[2], Source::File(p) if p == "./java/lang/Object.class"));

    let cp = ClassPath::new("jre".to_string(), "x.jar;out".to_string());
    let sources = cp.read_class("a/B");
    assert_eq!(sources.len(), 4);
    assert!(matches!(&sources[2], Source::Member { archive, member } if archive == "x.jar" && member == "a/B.class"));
    assert!(matches!(&sources[3], Source::File(p) if p == "out/a/B.class"));
}

#[test]
fn archive_members_are_read() {
    let mut w = zip::ZipWriter::new(std::io::Cursor::new(Vec::new()));
    w.start_file("a/B.class", zip::write::SimpleFileOptions::default()).unwrap();
    w.write_all(&[0xca, 0xfe, 0xba, 0xbe]).unwrap();
    let archive = w.finish().unwrap().into_inner();
    let entry = ZipEntry::new("x.jar".to_string());
    assert_eq!(entry.read_class(&archive, "a/B.class"), Some(vec![0xca, 0xfe, 0xba, 0xbe]));
    assert_eq!(entry.read_class(&archive, "a/C.class"), None);
    assert_eq!(entry.read_class(&vec![1, 2, 3], "a/B.class"), None);
}

#[test]
fn dotted_names_become_paths() {
    assert_eq!(jvm::classpath::internal_name("java.lang.Object"), "java/lang/Object");
    assert_eq!(jvm::classpath::internal_name("Main"), "Main");
}
