use jvm::loader::Loader;

fn test_file() -> Vec<u8> {
    b"123456789".to_vec()
}

#[test]
fn test_loader_bytes() {
    let mut loader = Loader::new(test_file());
    let bytes = loader.bytes(5).unwrap();
    assert_eq!(bytes.len(), 5);
}

#[test]
fn test_loader_u1() {
    let mut loader = Loader::new(test_file());
    let byte = loader.u1().unwrap();
    assert!(byte == 0x31);
}

#[test]
fn test_loader_u2() {
    let mut loader = Loader::new(test_file());
    let word = loader.u2().unwrap();
    assert!(word == 0x3132);
}

#[test]
fn test_loader_u4() {
    let mut loader = Loader::new(test_file());
    let dword = loader.u4().unwrap();
    assert!(dword == 0x31323334);
}

#[test]
fn test_loader_u8() {
    let mut loader = Loader::new(test_file());
    let qword = loader.u8().unwrap();
    assert!(qword == 0x3132333435363738);
}

#[test]
fn test_loader_sequential_read() {
    let mut loader = Loader::new(test_file());
    let dword = loader.u4().unwrap();
    println!("dword: {:x}", dword);
    assert!(dword == 0x31323334);
    let dword = loader.u4().unwrap();
    println!("dword: {:x}", dword);
    assert!(dword == 0x35363738);
    let dword = loader.u1().unwrap();
    println!("dword: {:x}", dword);
    assert!(dword == 0x39);
}

#[test]
fn loader_reports_truncation() {
    let mut loader = Loader::new(vec![1, 2, 3]);
    assert_eq!(loader.u4(), Err(jvm::loader::ClassError::Truncated));
    assert_eq!(loader.position(), 0);
    assert_eq!(loader.u2(), Ok(0x0102));
    assert_eq!(loader.bytes(2), Err(jvm::loader::ClassError::Truncated));
}
