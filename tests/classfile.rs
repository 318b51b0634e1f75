use jvm::attribute::Attribute;
use jvm::classfile::{Const, ConstPool};
use jvm::interpreter::{interpret, Halt};
use jvm::loader::{ClassError, Loader};
use jvm::classfile::Class;

fn u2(v: &mut Vec<u8>, x: u16) {
    v.extend_from_slice(&x.to_be_bytes());
}

fn u4(v: &mut Vec<u8>, x: u32) {
    v.extend_from_slice(&x.to_be_bytes());
}

fn utf8(v: &mut Vec<u8>, s: &str) {
    v.push(1);
    u2(v, s.len() as u16);
    v.extend_from_slice(s.as_bytes());
}

/// A class `Hello` extending `java/lang/Object` with one method `main` whose code adds
/// 0 and 1 and returns.
fn hello_class() -> Vec<u8> {
    let mut v = Vec::new();
    u4(&mut v, 0xCAFEBABE);
    u2(&mut v, 3);
    u2(&mut v, 52);
    u2(&mut v, 11);
    utf8(&mut v, "Hello");
    v.push(7);
    u2(&mut v, 1);
    utf8(&mut v, "java/lang/Object");
    v.push(7);
    u2(&mut v, 3);
    utf8(&mut v, "main");
    utf8(&mut v, "()I");
    utf8(&mut v, "Code");
    v.push(5);
    u4(&mut v, 0);
    u4(&mut v, 42);
    utf8(&mut v, "Sourcé");
    u2(&mut v, 0x21);
    u2(&mut v, 2);
    u2(&mut v, 4);
    u2(&mut v, 0);
    u2(&mut v, 0);
    u2(&mut v, 1);
    u2(&mut v, 0x09);
    u2(&mut v, 5);
    u2(&mut v, 6);
    u2(&mut v, 1);
    u2(&mut v, 7);
    let code = [0x03u8, 0x04, 0x60, 0xac];
    u4(&mut v, 12 + code.len() as u32);
    u2(&mut v, 2);
    u2(&mut v, 1);
    u4(&mut v, code.len() as u32);
    v.extend_from_slice(&code);
    u2(&mut v, 0);
    u2(&mut v, 0);
    u2(&mut v, 1);
    u2(&mut v, 10);
    u4(&mut v, 3);
    v.extend_from_slice(&[1, 2, 3]);
    v
}

#[test]
fn decodes_a_class_down_to_its_code() {
    let class = Class::load(hello_class()).unwrap();
    assert_eq!(class.minor_version, 3);
    assert_eq!(class.major_version, 52);
    assert_eq!(class.flags, 0x21);
    assert_eq!(class.this_class, "Hello");
    assert_eq!(class.super_class, "java/lang/Object");
    assert_eq!(class.const_pool.len(), 10);
    assert!(matches!(class.const_pool.get(8), Some(Const::Long(42))));
    assert!(matches!(class.const_pool.get(9), Some(Const::Unusable)));
    assert_eq!(class.const_pool.resolve(10), "Sourcé");
    assert_eq!(class.methods.len(), 1);
    let main = &class.methods[0];
    assert_eq!(main.flags, 0x09);
    assert_eq!(main.name, "main");
    assert_eq!(main.descriptor, "()I");
    match main.get_code() {
        Some(Attribute::Code { max_stack, max_locals, code, .. }) => {
            assert_eq!((*max_stack, *max_locals), (2, 1));
            assert_eq!(code, &vec![0x03, 0x04, 0x60, 0xac]);
        }
        other => panic!("unexpected {:?}", other),
    }
    match &class.attributes[0] {
        Attribute::Other { name, info } => {
            assert_eq!(name, "Sourcé");
            assert_eq!(info, &vec![1, 2, 3]);
        }
        other => panic!("unexpected {:?}", other),
    }
    let (thread, halt) = interpret(main, 100).unwrap();
    assert!(matches!(halt, Halt::Returned));
    assert_eq!(thread.current_frame().operand_stack.peek(0).num, 1);
}

#[test]
fn wrong_magic_is_malformed() {
    let mut bytes = hello_class();
    bytes[3] = 0xBD;
    assert!(matches!(Class::load(bytes), Err(ClassError::BadMagic)));
}

#[test]
fn truncated_class_is_malformed() {
    let bytes = hello_class();
    for cut in [2usize, 9, 30, bytes.len() - 1] {
        assert!(matches!(Class::load(bytes[..cut].to_vec()), Err(ClassError::Truncated)));
    }
}

#[test]
fn unknown_constant_tag_fails_cleanly() {
    let mut v = Vec::new();
    u4(&mut v, 0xCAFEBABE);
    u2(&mut v, 0);
    u2(&mut v, 52);
    u2(&mut v, 2);
    v.push(2);
    assert!(matches!(Class::load(v), Err(ClassError::UnsupportedTag(2))));
}

#[test]
fn long_in_last_slot_is_rejected() {
    let mut loader = Loader::new(vec![0, 2, 5, 0, 0, 0, 0, 0, 0, 0, 1]);
    assert!(matches!(loader.cpinfo(), Err(ClassError::BadPool)));
}

#[test]
fn index_outside_pool_is_rejected() {
    let mut loader = Loader::new(vec![0, 2, 7, 0, 5]);
    assert!(matches!(loader.cpinfo(), Err(ClassError::BadPool)));
}

#[test]
fn invalid_utf8_is_rejected() {
    let mut loader = Loader::new(vec![0, 2, 1, 0, 1, 0xff]);
    assert!(matches!(loader.cpinfo(), Err(ClassError::InvalidUtf8)));
}

#[test]
fn resolve_gives_back_the_encoded_text() {
    let mut loader = Loader::new(vec![0, 4, 1, 0, 3, b'a', 0xc3, 0xa9, 3, 0, 0, 0, 9, 7, 0, 1]);
    let pool = loader.cpinfo().unwrap();
    assert_eq!(pool.resolve(1).as_bytes(), &[b'a', 0xc3, 0xa9]);
    assert_eq!(pool.resolve(2), "");
    assert_eq!(pool.resolve(0), "");
    assert_eq!(pool.resolve(4), "");
    assert_eq!(pool.class_name(3), "aé");
}

#[test]
fn attribute_with_wrong_length_is_rejected() {
    let mut pool = ConstPool::new();
    pool.push(Const::Utf8("ConstantValue".to_string()));
    let mut loader = Loader::new(vec![0, 1, 0, 0, 0, 3, 0, 1, 0]);
    assert!(matches!(loader.attr(&pool, false), Err(ClassError::AttributeLength)));
}

#[test]
fn tables_are_decoded() {
    let mut pool = ConstPool::new();
    pool.push(Const::Utf8("LineNumberTable".to_string()));
    pool.push(Const::Utf8("LocalVariableTable".to_string()));
    pool.push(Const::Utf8("Exceptions".to_string()));
    let mut bytes = vec![0, 1, 0, 0, 0, 6, 0, 1, 0, 4, 0, 9];
    bytes.extend_from_slice(&[0, 2, 0, 0, 0, 12, 0, 1, 0, 1, 0, 2, 0, 3, 0, 4, 0, 5]);
    bytes.extend_from_slice(&[0, 3, 0, 0, 0, 4, 0, 1, 0, 7]);
    let mut loader = Loader::new(bytes);
    match loader.attr(&pool, false).unwrap() {
        Attribute::LineNumberTable { line_number_table } => {
            assert_eq!(line_number_table.len(), 1);
            assert_eq!((line_number_table[0].start_pc, line_number_table[0].line_number), (4, 9));
        }
        other => panic!("unexpected {:?}", other),
    }
    match loader.attr(&pool, false).unwrap() {
        Attribute::LocalVariableTable { local_variable_table } => {
            let e = local_variable_table[0];
            assert_eq!((e.start_pc, e.length, e.name_index, e.descriptor_index, e.index), (1, 2, 3, 4, 5));
        }
        other => panic!("unexpected {:?}", other),
    }
    match loader.attr(&pool, false).unwrap() {
        Attribute::Exceptions { exception_index_table } => assert_eq!(exception_index_table, vec![7]),
        other => panic!("unexpected {:?}", other),
    }
}

#[test]
fn code_attribute_with_table_and_inner_attributes() {
    let mut pool = ConstPool::new();
    pool.push(Const::Utf8("Code".to_string()));
    pool.push(Const::Utf8("LineNumberTable".to_string()));
    // Code: max_stack 1, max_locals 2, code [b1], one handler, one inner LineNumberTable.
    let mut bytes = vec![0, 1, 0, 0, 0, 33];
    bytes.extend_from_slice(&[0, 1, 0, 2, 0, 0, 0, 1, 0xb1]);
    bytes.extend_from_slice(&[0, 1, 0, 0, 0, 1, 0, 0, 0, 3]);
    bytes.extend_from_slice(&[0, 1, 0, 2, 0, 0, 0, 6, 0, 1, 0, 0, 0, 7]);
    let mut loader = Loader::new(bytes);
    match loader.attr(&pool, false).unwrap() {
        Attribute::Code { max_stack, max_locals, code, exception_table, attributes } => {
            assert_eq!((max_stack, max_locals), (1, 2));
            assert_eq!(code, vec![0xb1]);
            assert_eq!(exception_table.len(), 1);
            assert_eq!((exception_table[0].end_pc, exception_table[0].catch_type), (1, 3));
            assert_eq!(attributes.len(), 1);
            assert!(matches!(&attributes[0], Attribute::LineNumberTable { line_number_table } if line_number_table[0].line_number == 7));
        }
        other => panic!("unexpected {:?}", other),
    }
    assert_eq!(loader.position(), 39);
}
