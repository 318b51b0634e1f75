use vstd::prelude::*;
use vstd::utf8::{decode_utf8, valid_utf8};

use crate::attribute::Attribute;

verus! {

/// An entry of a constant pool; indices name other entries of the same pool.
#[derive(Debug)]
pub enum Const {
    Utf8(String),
    Integer(i32),
    /// A float, as the bit pattern of its IEEE-754 encoding.
    Float(u32),
    Long(i64),
    /// A double, as the bit pattern of its IEEE-754 encoding.
    Double(u64),
    Class { name_index: u16 },
    String { string_index: u16 },
    FieldRef { class_index: u16, name_and_type_index: u16 },
    MethodRef { class_index: u16, name_and_type_index: u16 },
    InterfaceMethodRef { class_index: u16, name_and_type_index: u16 },
    NameAndType { name_index: u16, descriptor_index: u16 },
    MethodHandle { reference_kind: u8, reference_index: u16 },
    MethodType { descriptor_index: u16 },
    Dynamic { bootstrap_method_attr_index: u16, name_and_type_index: u16 },
    InvokeDynamic { bootstrap_method_attr_index: u16, name_and_type_index: u16 },
    Module { name_index: u16 },
    Package { name_index: u16 },
    /// The slot after a long or a double, which takes two.
    Unusable,
}

/// `i` names an entry of a pool of `n` entries.
pub open spec fn in_pool(i: u16, n: int) -> bool {
    1 <= i <= n
}

/// Every index that `c` holds names an entry of a pool of `n` entries.
pub open spec fn refs_in_pool(c: Const, n: int) -> bool {
    match c {
        Const::Class { name_index } => in_pool(name_index, n),
        Const::String { string_index } => in_pool(string_index, n),
        Const::FieldRef { class_index, name_and_type_index }
        | Const::MethodRef { class_index, name_and_type_index }
        | Const::InterfaceMethodRef { class_index, name_and_type_index } => in_pool(class_index, n)
            && in_pool(name_and_type_index, n),
        Const::NameAndType { name_index, descriptor_index } => in_pool(name_index, n) && in_pool(
            descriptor_index,
            n,
        ),
        Const::MethodHandle { reference_kind, reference_index } => in_pool(reference_index, n),
        Const::MethodType { descriptor_index } => in_pool(descriptor_index, n),
        Const::Dynamic { bootstrap_method_attr_index, name_and_type_index }
        | Const::InvokeDynamic { bootstrap_method_attr_index, name_and_type_index } => in_pool(
            name_and_type_index,
            n,
        ),
        Const::Module { name_index } | Const::Package { name_index } => in_pool(name_index, n),
        _ => true,
    }
}

/// A well-formed pool: its indices stay inside it, and a long or a double is followed by
/// the unusable slot, which follows nothing else.
pub open spec fn pool_wf(p: Seq<Const>) -> bool {
    &&& forall|i: int| 0 <= i < p.len() ==> refs_in_pool(#[trigger] p[i], p.len() as int)
    &&& forall|i: int|
        0 <= i < p.len() ==> ((#[trigger] p[i] is Long || p[i] is Double) <==> (i + 1 < p.len()
            && p[i + 1] is Unusable))
    &&& forall|i: int|
        0 <= i < p.len() && #[trigger] p[i] is Unusable ==> i > 0 && (p[i - 1] is Long || p[i
            - 1] is Double)
}

/// The text of the Utf8 entry at (1-based) `index`; empty for any other entry.
pub open spec fn utf8_at(p: Seq<Const>, index: int) -> Seq<char> {
    if 1 <= index <= p.len() {
        match p[index - 1] {
            Const::Utf8(s) => s@,
            _ => Seq::empty(),
        }
    } else {
        Seq::empty()
    }
}

/// The name of the Class entry at `index`; empty for any other entry.
pub open spec fn class_name_at(p: Seq<Const>, index: int) -> Seq<char> {
    if 1 <= index <= p.len() {
        match p[index - 1] {
            Const::Class { name_index } => utf8_at(p, name_index as int),
            _ => Seq::empty(),
        }
    } else {
        Seq::empty()
    }
}

/// Relies on `String::from_utf8`: it succeeds exactly on valid UTF-8, and the string then
/// holds the characters that the bytes encode.
#[verifier::external_body]
pub(crate) fn utf8_string(bytes: Vec<u8>) -> (r: Option<String>)
    ensures
        r is Some <==> valid_utf8(bytes@),
        r matches Some(s) ==> s@ == decode_utf8(bytes@),
{
    String::from_utf8(bytes).ok()
}

/// The constant pool of a class, indexed from 1.
#[derive(Debug)]
pub struct ConstPool {
    entries: Vec<Const>,
}

impl View for ConstPool {
    type V = Seq<Const>;

    closed spec fn view(&self) -> Seq<Const> {
        self.entries@
    }
}

impl ConstPool {
    pub fn new() -> (r: Self)
        ensures
            r@ == Seq::<Const>::empty(),
    {
        ConstPool { entries: Vec::new() }
    }

    pub fn len(&self) -> (r: usize)
        ensures
            r == self@.len(),
    {
        self.entries.len()
    }

    pub fn push(&mut self, c: Const)
        ensures
            final(self)@ == old(self)@.push(c),
    {
        self.entries.push(c);
    }

    /// The entry at position `i`, counting from 0.
    pub fn at(&self, i: usize) -> (r: &Const)
        requires
            i < self@.len(),
        ensures
            *r == self@[i as int],
    {
        &self.entries[i]
    }

    /// The entry at (1-based) `index`.
    pub fn get(&self, index: u16) -> (r: Option<&Const>)
        ensures
            1 <= index <= self@.len() ==> (r matches Some(c) && *c == self@[index - 1]),
            !(1 <= index <= self@.len()) ==> r is None,
    {
        if index >= 1 && (index as usize) <= self.entries.len() {
            Some(&self.entries[index as usize - 1])
        } else {
            None
        }
    }

    /// The text of the Utf8 entry at `index`, or the empty string for any other index.
    pub fn resolve(&self, index: u16) -> (r: String)
        ensures
            r@ == utf8_at(self@, index as int),
    {
        if index >= 1 && (index as usize) <= self.entries.len() {
            match &self.entries[index as usize - 1] {
                Const::Utf8(s) => s.clone(),
                _ => String::new(),
            }
        } else {
            String::new()
        }
    }

    /// The name of the Class entry at `index`, or the empty string for any other index.
    pub fn class_name(&self, index: u16) -> (r: String)
        ensures
            r@ == class_name_at(self@, index as int),
    {
        if index >= 1 && (index as usize) <= self.entries.len() {
            match &self.entries[index as usize - 1] {
                Const::Class { name_index } => self.resolve(*name_index),
                _ => String::new(),
            }
        } else {
            String::new()
        }
    }
}

/// A field or a method: both have flags, a name, a descriptor and attributes.
#[derive(Debug)]
pub struct Field {
    pub flags: u16,
    pub name: String,
    pub descriptor: String,
    pub attributes: Vec<Attribute>,
}

impl Field {
    pub fn new(flags: u16, name: String, descriptor: String, attributes: Vec<Attribute>) -> (r: Self)
        ensures
            r.flags == flags,
            r.name == name,
            r.descriptor == descriptor,
            r.attributes == attributes,
    {
        Field { flags, name, descriptor, attributes }
    }

    /// The first Code attribute: where a method's bytecode lives.
    pub fn get_code(&self) -> (r: Option<&Attribute>)
        ensures
            r matches Some(a) ==> (a is Code && exists|i: int|
                0 <= i < self.attributes@.len() && self.attributes@[i] == *a && forall|j: int|
                    0 <= j < i ==> !(self.attributes@[j] is Code)),
            r is None ==> forall|j: int|
                0 <= j < self.attributes@.len() ==> !(#[trigger] self.attributes@[j] is Code),
    {
        let mut i: usize = 0;
        while i < self.attributes.len()
            invariant
                i <= self.attributes@.len(),
                forall|j: int| 0 <= j < i ==> !(#[trigger] self.attributes@[j] is Code),
            decreases self.attributes@.len() - i,
        {
            if let Attribute::Code { .. } = &self.attributes[i] {
                return Some(&self.attributes[i]);
            }
            i = i + 1;
        }
        None
    }
}

/// A decoded class file.
#[derive(Debug)]
pub struct Class {
    pub major_version: u16,
    pub minor_version: u16,
    pub const_pool: ConstPool,
    pub flags: u16,
    pub this_class: String,
    pub super_class: String,
    pub interfaces: Vec<String>,
    pub fields: Vec<Field>,
    pub methods: Vec<Field>,
    pub attributes: Vec<Attribute>,
}

impl Class {
    pub fn new(
        major_version: u16,
        minor_version: u16,
        const_pool: ConstPool,
        flags: u16,
        this_class: String,
        super_class: String,
        interfaces: Vec<String>,
        fields: Vec<Field>,
        methods: Vec<Field>,
        attributes: Vec<Attribute>,
    ) -> (r: Self)
        ensures
            r.major_version == major_version,
            r.minor_version == minor_version,
            r.const_pool@ == const_pool@,
            r.flags == flags,
            r.this_class == this_class,
            r.super_class == super_class,
            r.interfaces == interfaces,
            r.fields == fields,
            r.methods == methods,
            r.attributes == attributes,
    {
        Class {
            major_version,
            minor_version,
            const_pool,
            flags,
            this_class,
            super_class,
            interfaces,
            fields,
            methods,
            attributes,
        }
    }
}

} // verus!
