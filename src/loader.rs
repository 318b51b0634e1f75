use vstd::prelude::*;
use vstd::utf8::{decode_utf8, decode_utf8_encode_utf8, encode_utf8, encode_utf8_decode_utf8, valid_utf8};

use crate::attribute::{
    Attribute, ExceptionTable, LineNumberTableEntry, LocalVariableTableEntry,
};
use crate::bytecode_reader::{be_u16, be_u32};
use crate::classfile::{
    class_name_at, pool_wf, refs_in_pool, utf8_at, utf8_string, Class, Const, ConstPool, Field,
};

verus! {

/// Why a class file could not be decoded.
#[derive(Clone, Copy, PartialEq, Eq, Structural, Debug)]
pub enum ClassError {
    /// The file does not start with 0xCAFEBABE.
    BadMagic,
    /// The file ends in the middle of an item.
    Truncated,
    UnsupportedTag(u8),
    /// A Utf8 constant that is not valid UTF-8.
    InvalidUtf8,
    /// A long or a double in the last slot of the pool, or an index outside the pool.
    BadPool,
    /// An attribute whose body does not take the length it declares.
    AttributeLength,
}

pub const MAGIC: u32 = 0xCAFE_BABE;

/// The big-endian 64-bit value of the eight bytes at `i`.
pub open spec fn be_u64(b: Seq<u8>, i: int) -> u64 {
    (be_u32(b, i) as int * 0x1_0000_0000 + be_u32(b, i + 4) as int) as u64
}

/// A sequential big-endian reader over the bytes of a class file.
pub struct Loader {
    data: Vec<u8>,
    pos: usize,
}

impl Loader {
    pub closed spec fn data(&self) -> Seq<u8> {
        self.data@
    }

    pub closed spec fn pos(&self) -> int {
        self.pos as int
    }

    pub fn new(data: Vec<u8>) -> (r: Self)
        ensures
            r.data() == data@,
            r.pos() == 0,
    {
        Loader { data, pos: 0 }
    }

    pub fn position(&self) -> (r: usize)
        ensures
            r == self.pos(),
    {
        self.pos
    }

    /// Whether `n` more bytes can be read.
    fn has(&self, n: usize) -> (r: bool)
        ensures
            r == (self.pos() + n <= self.data().len()),
    {
        self.pos <= self.data.len() && n <= self.data.len() - self.pos
    }

    pub fn bytes(&mut self, n: usize) -> (r: Result<Vec<u8>, ClassError>)
        ensures
            final(self).data() == old(self).data(),
            old(self).pos() + n <= old(self).data().len() ==> (r matches Ok(v) && v@
                == old(self).data().subrange(old(self).pos(), old(self).pos() + n)
                && final(self).pos() == old(self).pos() + n),
            old(self).pos() + n > old(self).data().len() ==> r == Err::<Vec<u8>, ClassError>(
                ClassError::Truncated,
            ),
    {
        if !self.has(n) {
            return Err(ClassError::Truncated);
        }
        let len = self.data.len();
        let mut v: Vec<u8> = Vec::new();
        let mut i: usize = 0;
        while i < n
            invariant
                i <= n,
                self.pos + n <= self.data@.len(),
                len == self.data@.len(),
                v@ == self.data@.subrange(self.pos as int, self.pos + i),
            decreases n - i,
        {
            v.push(self.data[self.pos + i]);
            i = i + 1;
            assert(v@ =~= self.data@.subrange(self.pos as int, self.pos + i));
        }
        self.pos = self.pos + n;
        Ok(v)
    }

    pub fn u1(&mut self) -> (r: Result<u8, ClassError>)
        ensures
            final(self).data() == old(self).data(),
            old(self).pos() + 1 <= old(self).data().len() ==> r == Ok::<u8, ClassError>(
                old(self).data()[old(self).pos()],
            ) && final(self).pos() == old(self).pos() + 1,
            old(self).pos() + 1 > old(self).data().len() ==> r == Err::<u8, ClassError>(
                ClassError::Truncated,
            ),
    {
        if !self.has(1) {
            return Err(ClassError::Truncated);
        }
        let len = self.data.len();
        let b = self.data[self.pos];
        self.pos = self.pos + 1;
        Ok(b)
    }

    pub fn u2(&mut self) -> (r: Result<u16, ClassError>)
        ensures
            final(self).data() == old(self).data(),
            old(self).pos() + 2 <= old(self).data().len() ==> r == Ok::<u16, ClassError>(
                be_u16(old(self).data(), old(self).pos()),
            ) && final(self).pos() == old(self).pos() + 2,
            old(self).pos() + 2 > old(self).data().len() ==> r == Err::<u16, ClassError>(
                ClassError::Truncated,
            ),
    {
        if !self.has(2) {
            return Err(ClassError::Truncated);
        }
        let len = self.data.len();
        let b0 = self.data[self.pos] as u16;
        let b1 = self.data[self.pos + 1] as u16;
        self.pos = self.pos + 2;
        Ok(b0 * 0x100 + b1)
    }

    pub fn u4(&mut self) -> (r: Result<u32, ClassError>)
        ensures
            final(self).data() == old(self).data(),
            old(self).pos() + 4 <= old(self).data().len() ==> r == Ok::<u32, ClassError>(
                be_u32(old(self).data(), old(self).pos()),
            ) && final(self).pos() == old(self).pos() + 4,
            old(self).pos() + 4 > old(self).data().len() ==> r == Err::<u32, ClassError>(
                ClassError::Truncated,
            ),
    {
        if !self.has(4) {
            return Err(ClassError::Truncated);
        }
        let len = self.data.len();
        let b0 = self.data[self.pos] as u32;
        let b1 = self.data[self.pos + 1] as u32;
        let b2 = self.data[self.pos + 2] as u32;
        let b3 = self.data[self.pos + 3] as u32;
        self.pos = self.pos + 4;
        Ok(b0 * 0x100_0000 + b1 * 0x1_0000 + b2 * 0x100 + b3)
    }

    pub fn u8(&mut self) -> (r: Result<u64, ClassError>)
        ensures
            final(self).data() == old(self).data(),
            old(self).pos() + 8 <= old(self).data().len() ==> r == Ok::<u64, ClassError>(
                be_u64(old(self).data(), old(self).pos()),
            ) && final(self).pos() == old(self).pos() + 8,
            old(self).pos() + 8 > old(self).data().len() ==> r == Err::<u64, ClassError>(
                ClassError::Truncated,
            ),
    {
        if !self.has(8) {
            return Err(ClassError::Truncated);
        }
        let len = self.data.len();
        let hi = self.u4()? as u64;
        let lo = self.u4()? as u64;
        Ok(hi * 0x1_0000_0000 + lo)
    }
}


pub open spec fn known_tag(tag: u8) -> bool {
    tag == 1 || (3 <= tag <= 12) || (15 <= tag <= 20)
}

/// How many bytes follow the tag of a constant-pool entry that starts its body at `p`.
pub open spec fn entry_len(tag: u8, data: Seq<u8>, p: int) -> int {
    if tag == 1 {
        2 + be_u16(data, p)
    } else if tag == 3 || tag == 4 {
        4
    } else if tag == 5 || tag == 6 {
        8
    } else if tag == 7 || tag == 8 || tag == 16 || tag == 19 || tag == 20 {
        2
    } else if tag == 15 {
        3
    } else {
        4
    }
}

/// The text bytes of a Utf8 entry whose body starts at `p`.
pub open spec fn utf8_body(data: Seq<u8>, p: int) -> Seq<u8> {
    data.subrange(p + 2, p + 2 + be_u16(data, p))
}

/// `c` is what the entry with `tag`, its body at `p`, says.
pub open spec fn entry_matches(c: Const, tag: u8, data: Seq<u8>, p: int) -> bool {
    let a = be_u16(data, p);
    let b = be_u16(data, p + 2);
    if tag == 1 {
        c matches Const::Utf8(s) && valid_utf8(utf8_body(data, p)) && s@ == decode_utf8(
            utf8_body(data, p),
        )
    } else if tag == 3 {
        c == Const::Integer(be_u32(data, p) as i32)
    } else if tag == 4 {
        c == Const::Float(be_u32(data, p))
    } else if tag == 5 {
        c == Const::Long(be_u64(data, p) as i64)
    } else if tag == 6 {
        c == Const::Double(be_u64(data, p))
    } else if tag == 7 {
        c == (Const::Class { name_index: a })
    } else if tag == 8 {
        c == (Const::String { string_index: a })
    } else if tag == 9 {
        c == (Const::FieldRef { class_index: a, name_and_type_index: b })
    } else if tag == 10 {
        c == (Const::MethodRef { class_index: a, name_and_type_index: b })
    } else if tag == 11 {
        c == (Const::InterfaceMethodRef { class_index: a, name_and_type_index: b })
    } else if tag == 12 {
        c == (Const::NameAndType { name_index: a, descriptor_index: b })
    } else if tag == 15 {
        c == (Const::MethodHandle { reference_kind: data[p], reference_index: be_u16(data, p + 1) })
    } else if tag == 16 {
        c == (Const::MethodType { descriptor_index: a })
    } else if tag == 17 {
        c == (Const::Dynamic { bootstrap_method_attr_index: a, name_and_type_index: b })
    } else if tag == 18 {
        c == (Const::InvokeDynamic { bootstrap_method_attr_index: a, name_and_type_index: b })
    } else if tag == 19 {
        c == (Const::Module { name_index: a })
    } else {
        c == (Const::Package { name_index: a })
    }
}

fn refs_ok(c: &Const, n: usize) -> (r: bool)
    ensures
        r == refs_in_pool(*c, n as int),
{
    let ok = |i: u16| -> (b: bool)
        ensures
            b == (1 <= i && i as int <= n as int),
        { 1 <= i && (i as usize) <= n };
    match c {
        Const::Class { name_index } => ok(*name_index),
        Const::String { string_index } => ok(*string_index),
        Const::FieldRef { class_index, name_and_type_index }
        | Const::MethodRef { class_index, name_and_type_index }
        | Const::InterfaceMethodRef { class_index, name_and_type_index } => ok(*class_index) && ok(
            *name_and_type_index,
        ),
        Const::NameAndType { name_index, descriptor_index } => ok(*name_index) && ok(
            *descriptor_index,
        ),
        Const::MethodHandle { reference_kind, reference_index } => ok(*reference_index),
        Const::MethodType { descriptor_index } => ok(*descriptor_index),
        Const::Dynamic { bootstrap_method_attr_index, name_and_type_index }
        | Const::InvokeDynamic { bootstrap_method_attr_index, name_and_type_index } => ok(
            *name_and_type_index,
        ),
        Const::Module { name_index } | Const::Package { name_index } => ok(*name_index),
        _ => true,
    }
}

impl Loader {
    /// Reads the body of a constant-pool entry whose tag has been read.
    pub fn const_entry(&mut self, tag: u8) -> (r: Result<Const, ClassError>)
        ensures
            final(self).data() == old(self).data(),
            r matches Ok(c) ==> entry_matches(c, tag, old(self).data(), old(self).pos())
                && final(self).pos() == old(self).pos() + entry_len(
                tag,
                old(self).data(),
                old(self).pos(),
            ),
            !known_tag(tag) ==> r == Err::<Const, ClassError>(ClassError::UnsupportedTag(tag)),
            known_tag(tag) && old(self).pos() + entry_len(tag, old(self).data(), old(self).pos())
                <= old(self).data().len() && (tag == 1 ==> valid_utf8(
                utf8_body(old(self).data(), old(self).pos()),
            )) ==> r is Ok,
            r matches Err(e) ==> e == ClassError::Truncated || e == ClassError::UnsupportedTag(tag)
                || (tag == 1 && e == ClassError::InvalidUtf8),
    {
        if !known_tag_exec(tag) {
            return Err(ClassError::UnsupportedTag(tag));
        }
        match tag {
            1 => {
                let n = self.u2()?;
                let body = self.bytes(n as usize)?;
                match utf8_string(body) {
                    Some(s) => Ok(Const::Utf8(s)),
                    None => Err(ClassError::InvalidUtf8),
                }
            },
            3 => Ok(Const::Integer(self.u4()? as i32)),
            4 => Ok(Const::Float(self.u4()?)),
            5 => Ok(Const::Long(self.u8()? as i64)),
            6 => Ok(Const::Double(self.u8()?)),
            7 => Ok(Const::Class { name_index: self.u2()? }),
            8 => Ok(Const::String { string_index: self.u2()? }),
            15 => {
                if !self.has(3) {
                    return Err(ClassError::Truncated);
                }
                let reference_kind = self.u1()?;
                let reference_index = self.u2()?;
                Ok(Const::MethodHandle { reference_kind, reference_index })
            },
            16 => Ok(Const::MethodType { descriptor_index: self.u2()? }),
            19 => Ok(Const::Module { name_index: self.u2()? }),
            20 => Ok(Const::Package { name_index: self.u2()? }),
            _ => {
                if !self.has(4) {
                    return Err(ClassError::Truncated);
                }
                let a = self.u2()?;
                let b = self.u2()?;
                match tag {
                    9 => Ok(Const::FieldRef { class_index: a, name_and_type_index: b }),
                    10 => Ok(Const::MethodRef { class_index: a, name_and_type_index: b }),
                    11 => Ok(Const::InterfaceMethodRef { class_index: a, name_and_type_index: b }),
                    12 => Ok(Const::NameAndType { name_index: a, descriptor_index: b }),
                    17 => Ok(Const::Dynamic { bootstrap_method_attr_index: a, name_and_type_index: b }),
                    _ => Ok(Const::InvokeDynamic { bootstrap_method_attr_index: a, name_and_type_index: b }),
                }
            },
        }
    }
}

/// The number of entries of a pool whose count field holds `count`.
pub open spec fn pool_size(count: u16) -> int {
    if count >= 1 {
        count - 1
    } else {
        0
    }
}

/// Where `n` pool slots' worth of entries, the first at `p`, end: a long or a double fills
/// two slots.
pub open spec fn entries_end(data: Seq<u8>, p: int, n: int) -> int
    decreases n,
{
    if n <= 0 {
        p
    } else {
        let tag = data[p];
        let q = p + 1 + entry_len(tag, data, p + 1);
        if (tag == 5 || tag == 6) && n >= 2 {
            entries_end(data, q, n - 2)
        } else {
            entries_end(data, q, n - 1)
        }
    }
}

/// Where the entry whose tag lies at `at` ends.
pub open spec fn entry_next(d: Seq<u8>, at: int) -> int {
    at + 1 + entry_len(d[at], d, at + 1)
}

/// `pool` is what the entries from `q` on say, entry `i` (counting from 0) starting at
/// `ps[i]`; the slot after a long or a double starts where the next entry does.
pub open spec fn pool_layout(pool: Seq<Const>, d: Seq<u8>, ps: Seq<int>, q: int) -> bool {
    &&& ps.len() == pool.len()
    &&& pool.len() > 0 ==> ps[0] == q
    &&& forall|i: int|
        0 <= i < pool.len() && !(pool[i] is Unusable) ==> entry_matches(
            #[trigger] pool[i],
            d[ps[i]],
            d,
            ps[i] + 1,
        )
    &&& forall|i: int|
        0 <= i < pool.len() - 1 ==> #[trigger] ps[i + 1] == if pool[i] is Unusable {
            ps[i]
        } else {
            entry_next(d, ps[i])
        }
}

/// The `n` slots' worth of entries from `p` on can be read: every tag is known, every body
/// lies within the data, every Utf8 body is valid UTF-8, and a long or a double has its
/// second slot.
pub open spec fn entries_ok(d: Seq<u8>, p: int, n: int) -> bool
    decreases n,
{
    if n <= 0 {
        true
    } else {
        let tag = d[p];
        &&& 0 <= p < d.len()
        &&& known_tag(tag)
        &&& entry_next(d, p) <= d.len()
        &&& (tag == 1 ==> valid_utf8(utf8_body(d, p + 1)))
        &&& if tag == 5 || tag == 6 {
            n >= 2 && entries_ok(d, entry_next(d, p), n - 2)
        } else {
            entries_ok(d, entry_next(d, p), n - 1)
        }
    }
}

/// The constant pool whose count lies at `p` can be decoded: its entries can be read, and
/// every index that they hold names an entry of the pool.
pub open spec fn pool_bytes_ok(d: Seq<u8>, p: int) -> bool {
    let size = pool_size(be_u16(d, p));
    &&& 0 <= p
    &&& p + 2 <= d.len()
    &&& entries_ok(d, p + 2, size)
    &&& forall|pool: Seq<Const>, ps: Seq<int>|
        pool.len() == size && #[trigger] pool_layout(pool, d, ps, p + 2) ==> forall|i: int|
            0 <= i < pool.len() ==> refs_in_pool(#[trigger] pool[i], size)
}

pub open spec fn two_slot_ok(p: Seq<Const>) -> bool {
    &&& forall|i: int|
        0 <= i < p.len() ==> ((#[trigger] p[i] is Long || p[i] is Double) <==> (i + 1 < p.len()
            && p[i + 1] is Unusable))
    &&& forall|i: int|
        0 <= i < p.len() && #[trigger] p[i] is Unusable ==> i > 0 && (p[i - 1] is Long || p[i
            - 1] is Double)
}

impl Loader {
    /// Reads the constant pool: its count, then its entries from index 1 on, a long or a
    /// double taking two indices.
    pub fn cpinfo(&mut self) -> (r: Result<ConstPool, ClassError>)
        ensures
            final(self).data() == old(self).data(),
            r matches Ok(p) ==> {
                let d = old(self).data();
                let q = old(self).pos() + 2;
                let size = pool_size(be_u16(d, old(self).pos()));
                &&& pool_wf(p@)
                &&& p@.len() == size
                &&& final(self).pos() == entries_end(d, q, size)
                &&& exists|ps: Seq<int>| pool_layout(p@, d, ps, q)
            },
            pool_bytes_ok(old(self).data(), old(self).pos()) ==> r is Ok,
    {
        let ghost d = self.data();
        let ghost q0 = self.pos() + 2;
        let ghost ok = pool_bytes_ok(d, self.pos());
        let count = self.u2()?;
        let ghost size = pool_size(count);
        let ghost end = entries_end(self.data(), self.pos(), size);
        let size_exec: usize = if count >= 1 {
            count as usize - 1
        } else {
            0
        };
        let mut pool = ConstPool::new();
        let ghost mut ps: Seq<int> = Seq::empty();
        while pool.len() < size_exec
            invariant
                size_exec == size,
                pool@.len() <= size,
                two_slot_ok(pool@),
                forall|i: int| 0 <= i < pool@.len() ==> !(#[trigger] pool@[i] is Long || pool@[i] is Double) || i + 1 < pool@.len(),
                self.data() == d,
                d == old(self).data(),
                q0 == old(self).pos() + 2,
                size == pool_size(be_u16(d, old(self).pos())),
                ok == pool_bytes_ok(d, old(self).pos()),
                entries_end(self.data(), self.pos(), size - pool@.len()) == end,
                ok ==> entries_ok(d, self.pos(), size - pool@.len()),
                pool_layout(pool@, d, ps, q0),
                pool@.len() == 0 ==> self.pos() == q0,
                pool@.len() > 0 ==> self.pos() == if pool@.last() is Unusable {
                    ps.last()
                } else {
                    entry_next(d, ps.last())
                },
            decreases size - pool@.len(),
        {
            let ghost at = self.pos();
            let tag = self.u1()?;
            let c = self.const_entry(tag)?;
            assert(tag == 5 || tag == 6 <==> (c is Long || c is Double));
            let wide = match c {
                Const::Long(_) | Const::Double(_) => true,
                _ => false,
            };
            let ghost before = pool@;
            let ghost ps0 = ps;
            assert(!(c is Unusable));
            pool.push(c);
            proof {
                ps = ps0.push(at);
                assert(pool_layout(pool@, d, ps, q0)) by {
                    assert forall|i: int| 0 <= i < pool@.len() && !(pool@[i] is Unusable) implies entry_matches(
                        #[trigger] pool@[i],
                        d[ps[i]],
                        d,
                        ps[i] + 1,
                    ) by {
                        if i < before.len() {
                            assert(pool@[i] == before[i]);
                        }
                    }
                    assert forall|i: int| 0 <= i < pool@.len() - 1 implies #[trigger] ps[i + 1] == if pool@[i] is Unusable {
                        ps[i]
                    } else {
                        entry_next(d, ps[i])
                    } by {
                        if i + 1 < before.len() {
                            assert(pool@[i] == before[i]);
                        } else {
                            assert(pool@[i] == before.last());
                        }
                    }
                }
            }
            if wide {
                if pool.len() >= size_exec {
                    return Err(ClassError::BadPool);
                }
                let ghost mid = pool@;
                let ghost ps1 = ps;
                pool.push(Const::Unusable);
                proof {
                    ps = ps1.push(entry_next(d, at));
                    assert(pool_layout(pool@, d, ps, q0)) by {
                        assert forall|i: int| 0 <= i < pool@.len() && !(pool@[i] is Unusable) implies entry_matches(
                            #[trigger] pool@[i],
                            d[ps[i]],
                            d,
                            ps[i] + 1,
                        ) by {
                            if i < mid.len() {
                                assert(pool@[i] == mid[i]);
                            }
                        }
                        assert forall|i: int| 0 <= i < pool@.len() - 1 implies #[trigger] ps[i + 1] == if pool@[i] is Unusable {
                            ps[i]
                        } else {
                            entry_next(d, ps[i])
                        } by {
                            if i + 1 < mid.len() {
                                assert(pool@[i] == mid[i]);
                            } else {
                                assert(pool@[i] == mid.last());
                            }
                        }
                    }
                }
                assert(pool@ == before.push(c).push(Const::Unusable));
                assert forall|i: int| 0 <= i < pool@.len() implies ((#[trigger] pool@[i] is Long || pool@[i] is Double) <==> (i + 1 < pool@.len()
                    && pool@[i + 1] is Unusable)) by {
                    if i < before.len() {
                        assert(pool@[i] == before[i]);
                    }
                }
            } else {
                assert forall|i: int| 0 <= i < pool@.len() implies ((#[trigger] pool@[i] is Long || pool@[i] is Double) <==> (i + 1 < pool@.len()
                    && pool@[i + 1] is Unusable)) by {
                    if i < before.len() {
                        assert(pool@[i] == before[i]);
                    }
                }
            }
        }
        assert(pool_layout(pool@, d, ps, q0));
        let n = pool.len();
        let mut j: usize = 0;
        while j < n
            invariant
                n == pool@.len(),
                n == size,
                j <= n,
                self.data() == d,
                d == old(self).data(),
                ok == pool_bytes_ok(d, old(self).pos()),
                q0 == old(self).pos() + 2,
                size == pool_size(be_u16(d, old(self).pos())),
                pool_layout(pool@, d, ps, q0),
                forall|i: int| 0 <= i < j ==> refs_in_pool(#[trigger] pool@[i], n as int),
            decreases n - j,
        {
            if !refs_ok(pool.at(j), n) {
                return Err(ClassError::BadPool);
            }
            j = j + 1;
        }
        Ok(pool)
    }
}

/// Whether `s` holds exactly the text `lit`.
fn text_is(s: &String, lit: &str) -> (r: bool)
    ensures
        r == (s@ == lit@),
{
    let a = s.as_str().as_bytes();
    let b = lit.as_bytes();
    proof {
        broadcast use encode_utf8_decode_utf8;

    }
    if a.len() != b.len() {
        return false;
    }
    let mut i: usize = 0;
    while i < a.len()
        invariant
            a@ == encode_utf8(s@),
            b@ == encode_utf8(lit@),
            a@.len() == b@.len(),
            i <= a@.len(),
            forall|j: int| 0 <= j < i ==> a@[j] == b@[j],
        decreases a@.len() - i,
    {
        if a[i] != b[i] {
            return false;
        }
        i = i + 1;
    }
    assert(a@ =~= b@);
    assert(s@ == decode_utf8(encode_utf8(s@)));
    assert(lit@ == decode_utf8(encode_utf8(lit@)));
    true
}

/// Where `n` attributes, the first at `p`, end: each takes 6 bytes and its length.
pub open spec fn attrs_end(d: Seq<u8>, p: int, n: nat) -> int
    decreases n,
{
    if n == 0 {
        p
    } else {
        let q = attrs_end(d, p, (n - 1) as nat);
        q + 6 + be_u32(d, q + 2)
    }
}

/// The exception table whose count lies at `e` is `t`.
pub open spec fn exceptions_match(t: Seq<ExceptionTable>, d: Seq<u8>, e: int) -> bool {
    &&& t.len() == be_u16(d, e)
    &&& forall|j: int|
        0 <= j < t.len() ==> t[j] == (ExceptionTable {
            start_pc: be_u16(d, e + 2 + 8 * j),
            end_pc: be_u16(d, e + 4 + 8 * j),
            handler_pc: be_u16(d, e + 6 + 8 * j),
            catch_type: be_u16(d, e + 8 + 8 * j),
        })
}

/// `a` is what the attribute at `p` (name index, length, body) says, its name looked up in
/// `pool`, when a Code attribute is not decoded: kept as any unknown attribute.
pub open spec fn attr_matches_plain(a: Attribute, pool: Seq<Const>, d: Seq<u8>, p: int) -> bool {
    let name = utf8_at(pool, be_u16(d, p) as int);
    let b = p + 6;
    let len = be_u32(d, p + 2) as int;
    if name == "ConstantValue"@ {
        a == Attribute::ConstantValue(be_u16(d, b))
    } else if name == "SourceFile"@ {
        a == (Attribute::SourceFile { index: be_u16(d, b) })
    } else if name == "Synthetic"@ {
        a is Synthetic
    } else if name == "Deprecated"@ {
        a is Deprecated
    } else if name == "Exceptions"@ {
        a matches Attribute::Exceptions { exception_index_table: t } && t@.len() == be_u16(d, b)
            && forall|j: int| 0 <= j < t@.len() ==> t@[j] == be_u16(d, b + 2 + 2 * j)
    } else if name == "LineNumberTable"@ {
        a matches Attribute::LineNumberTable { line_number_table: t } && t@.len() == be_u16(d, b)
            && forall|j: int|
            0 <= j < t@.len() ==> t@[j] == (LineNumberTableEntry {
                start_pc: be_u16(d, b + 2 + 4 * j),
                line_number: be_u16(d, b + 4 + 4 * j),
            })
    } else if name == "LocalVariableTable"@ {
        a matches Attribute::LocalVariableTable { local_variable_table: t } && t@.len() == be_u16(d, b)
            && forall|j: int|
            0 <= j < t@.len() ==> t@[j] == (LocalVariableTableEntry {
                start_pc: be_u16(d, b + 2 + 10 * j),
                length: be_u16(d, b + 4 + 10 * j),
                name_index: be_u16(d, b + 6 + 10 * j),
                descriptor_index: be_u16(d, b + 8 + 10 * j),
                index: be_u16(d, b + 10 + 10 * j),
            })
    } else {
        a matches Attribute::Other { name: n, info } && n@ == name && info@ == d.subrange(b, b + len)
    }
}

/// `v` is what the attribute table whose count lies at `p` says, its Code attributes not
/// decoded: one attribute after another, each at the end of the one before.
pub open spec fn attrs_match_plain(v: Seq<Attribute>, pool: Seq<Const>, d: Seq<u8>, p: int) -> bool {
    &&& v.len() == be_u16(d, p)
    &&& forall|k: int|
        0 <= k < v.len() ==> attr_matches_plain(#[trigger] v[k], pool, d, attrs_end(d, p + 2, k as nat))
}

/// Where the code of the Code attribute at `p` ends: its exception table's count lies there.
pub open spec fn code_end(d: Seq<u8>, p: int) -> int {
    p + 14 + be_u32(d, p + 10)
}

/// Where the attribute table inside the Code attribute at `p` begins.
pub open spec fn code_attrs_at(d: Seq<u8>, p: int) -> int {
    code_end(d, p) + 2 + 8 * be_u16(d, code_end(d, p))
}

/// `a` is what the attribute at `p` says; a Code attribute is decoded unless it lies inside
/// another one (`in_code`), and then its own attributes are not decoded as Code.
pub open spec fn attr_matches(a: Attribute, pool: Seq<Const>, d: Seq<u8>, p: int, in_code: bool) -> bool {
    let b = p + 6;
    if utf8_at(pool, be_u16(d, p) as int) == "Code"@ && !in_code {
        match a {
            Attribute::Code { max_stack, max_locals, code, exception_table, attributes } => {
                &&& max_stack == be_u16(d, b)
                &&& max_locals == be_u16(d, b + 2)
                &&& code@ == d.subrange(b + 8, code_end(d, p))
                &&& exceptions_match(exception_table@, d, code_end(d, p))
                &&& attrs_match_plain(attributes@, pool, d, code_attrs_at(d, p))
            },
            _ => false,
        }
    } else {
        attr_matches_plain(a, pool, d, p)
    }
}

/// `v` is what the attribute table whose count lies at `p` says.
pub open spec fn attrs_match(v: Seq<Attribute>, pool: Seq<Const>, d: Seq<u8>, p: int, in_code: bool) -> bool {
    &&& v.len() == be_u16(d, p)
    &&& forall|k: int|
        0 <= k < v.len() ==> attr_matches(#[trigger] v[k], pool, d, attrs_end(d, p + 2, k as nat), in_code)
}

/// The attribute at `p`, a Code attribute kept whole, lies within the data and its body
/// takes exactly the length it declares.
pub open spec fn attr_ok_plain(pool: Seq<Const>, d: Seq<u8>, p: int) -> bool {
    let name = utf8_at(pool, be_u16(d, p) as int);
    let b = p + 6;
    let len = be_u32(d, p + 2) as int;
    &&& 0 <= p
    &&& b + len <= d.len()
    &&& if name == "ConstantValue"@ || name == "SourceFile"@ {
        len == 2
    } else if name == "Synthetic"@ || name == "Deprecated"@ {
        len == 0
    } else if name == "Exceptions"@ {
        len >= 2 && len == 2 + 2 * be_u16(d, b)
    } else if name == "LineNumberTable"@ {
        len >= 2 && len == 2 + 4 * be_u16(d, b)
    } else if name == "LocalVariableTable"@ {
        len >= 2 && len == 2 + 10 * be_u16(d, b)
    } else {
        true
    }
}

pub open spec fn attrs_ok_plain(pool: Seq<Const>, d: Seq<u8>, p: int) -> bool {
    &&& 0 <= p
    &&& p + 2 <= d.len()
    &&& forall|k: int|
        0 <= k < be_u16(d, p) ==> #[trigger] attr_ok_plain(pool, d, attrs_end(d, p + 2, k as nat))
}

/// The attribute at `p` can be decoded.
pub open spec fn attr_ok(pool: Seq<Const>, d: Seq<u8>, p: int, in_code: bool) -> bool {
    let b = p + 6;
    let len = be_u32(d, p + 2) as int;
    if utf8_at(pool, be_u16(d, p) as int) == "Code"@ && !in_code {
        let q = code_attrs_at(d, p);
        &&& 0 <= p
        &&& b + len <= d.len()
        &&& 8 <= len
        &&& code_end(d, p) + 2 <= b + len
        &&& q + 2 <= b + len
        &&& attrs_ok_plain(pool, d, q)
        &&& attrs_end(d, q + 2, be_u16(d, q) as nat) == b + len
    } else {
        attr_ok_plain(pool, d, p)
    }
}

/// The attribute table whose count lies at `p` can be decoded.
pub open spec fn attrs_ok(pool: Seq<Const>, d: Seq<u8>, p: int, in_code: bool) -> bool {
    &&& 0 <= p
    &&& p + 2 <= d.len()
    &&& forall|k: int|
        0 <= k < be_u16(d, p) ==> #[trigger] attr_ok(pool, d, attrs_end(d, p + 2, k as nat), in_code)
}

impl Loader {
    /// Reads `count` big-endian u16 values.
    fn u2_list(&mut self, count: u16) -> (r: Result<Vec<u16>, ClassError>)
        ensures
            final(self).data() == old(self).data(),
            r matches Ok(t) ==> t@.len() == count && forall|j: int|
                0 <= j < count ==> t@[j] == be_u16(old(self).data(), old(self).pos() + 2 * j),
            r is Ok ==> final(self).pos() == old(self).pos() + 2 * count,
            old(self).pos() + 2 * count <= old(self).data().len() ==> r is Ok,
    {
        let mut t: Vec<u16> = Vec::new();
        let mut j: u16 = 0;
        while j < count
            invariant
                self.data() == old(self).data(),
                j <= count,
                self.pos() == old(self).pos() + 2 * j,
                0 <= old(self).pos(),
                t@.len() == j,
                forall|k: int| 0 <= k < j ==> t@[k] == be_u16(old(self).data(), old(self).pos() + 2 * k),
            decreases count - j,
        {
            t.push(self.u2()?);
            j = j + 1;
        }
        Ok(t)
    }

    /// Reads one attribute: its name index, its length, and a body of that length.
    pub fn attr(&mut self, pool: &ConstPool, in_code: bool) -> (r: Result<Attribute, ClassError>)
        ensures
            final(self).data() == old(self).data(),
            r matches Ok(a) ==> {
                let d = old(self).data();
                let p = old(self).pos();
                &&& final(self).pos() == p + 6 + be_u32(d, p + 2)
                &&& attr_matches(a, pool@, d, p, in_code)
            },
            attr_ok(pool@, old(self).data(), old(self).pos(), in_code) ==> r is Ok,
        decreases if in_code { 0nat } else { 2nat },
    {
        let ghost d = self.data();
        let ghost p = self.pos();
        let name_index = self.u2()?;
        let name = pool.resolve(name_index);
        let length = self.u4()? as usize;
        let start = self.pos;
        if !self.has(length) {
            return Err(ClassError::Truncated);
        }
        let total = self.data.len();
        let end = start + length;
        let a = if !in_code && text_is(&name, "Code") {
            let max_stack = self.u2()?;
            let max_locals = self.u2()?;
            let code_length = self.u4()? as usize;
            let code = self.bytes(code_length)?;
            let ghost e = self.pos();
            let table_length = self.u2()?;
            let mut exception_table: Vec<ExceptionTable> = Vec::new();
            let mut j: u16 = 0;
            while j < table_length
                invariant
                    self.data() == d,
                    d == old(self).data(),
                    p == old(self).pos(),
                    j <= table_length,
                    table_length == be_u16(d, e),
                    self.pos() == e + 2 + 8 * j,
                    exception_table@.len() == j,
                    forall|k: int|
                        0 <= k < j ==> exception_table@[k] == (ExceptionTable {
                            start_pc: be_u16(d, e + 2 + 8 * k),
                            end_pc: be_u16(d, e + 4 + 8 * k),
                            handler_pc: be_u16(d, e + 6 + 8 * k),
                            catch_type: be_u16(d, e + 8 + 8 * k),
                        }),
                    attr_ok(pool@, d, p, in_code) ==> e + 2 + 8 * table_length <= d.len(),
                decreases table_length - j,
            {
                let start_pc = self.u2()?;
                let end_pc = self.u2()?;
                let handler_pc = self.u2()?;
                let catch_type = self.u2()?;
                exception_table.push(ExceptionTable::new(start_pc, end_pc, handler_pc, catch_type));
                j = j + 1;
            }
            let attributes = self.attrs(pool, true)?;
            Attribute::Code { max_stack, max_locals, code, exception_table, attributes }
        } else if text_is(&name, "ConstantValue") {
            Attribute::ConstantValue(self.u2()?)
        } else if text_is(&name, "SourceFile") {
            Attribute::SourceFile { index: self.u2()? }
        } else if text_is(&name, "Synthetic") {
            Attribute::Synthetic
        } else if text_is(&name, "Deprecated") {
            Attribute::Deprecated
        } else if text_is(&name, "Exceptions") {
            let n = self.u2()?;
            Attribute::Exceptions { exception_index_table: self.u2_list(n)? }
        } else if text_is(&name, "LineNumberTable") {
            let n = self.u2()?;
            let ghost q = self.pos();
            let mut line_number_table: Vec<LineNumberTableEntry> = Vec::new();
            let mut j: u16 = 0;
            while j < n
                invariant
                    self.data() == d,
                    d == old(self).data(),
                    p == old(self).pos(),
                    j <= n,
                    self.pos() == q + 4 * j,
                    line_number_table@.len() == j,
                    forall|k: int|
                        0 <= k < j ==> line_number_table@[k] == (LineNumberTableEntry {
                            start_pc: be_u16(d, q + 4 * k),
                            line_number: be_u16(d, q + 2 + 4 * k),
                        }),
                    attr_ok(pool@, d, p, in_code) ==> q + 4 * n <= d.len(),
                    n == be_u16(d, q - 2),
                decreases n - j,
            {
                let start_pc = self.u2()?;
                let line_number = self.u2()?;
                line_number_table.push(LineNumberTableEntry::new(start_pc, line_number));
                j = j + 1;
            }
            Attribute::LineNumberTable { line_number_table }
        } else if text_is(&name, "LocalVariableTable") {
            let n = self.u2()?;
            let ghost q = self.pos();
            let mut local_variable_table: Vec<LocalVariableTableEntry> = Vec::new();
            let mut j: u16 = 0;
            while j < n
                invariant
                    self.data() == d,
                    d == old(self).data(),
                    p == old(self).pos(),
                    j <= n,
                    self.pos() == q + 10 * j,
                    local_variable_table@.len() == j,
                    forall|k: int|
                        0 <= k < j ==> local_variable_table@[k] == (LocalVariableTableEntry {
                            start_pc: be_u16(d, q + 10 * k),
                            length: be_u16(d, q + 2 + 10 * k),
                            name_index: be_u16(d, q + 4 + 10 * k),
                            descriptor_index: be_u16(d, q + 6 + 10 * k),
                            index: be_u16(d, q + 8 + 10 * k),
                        }),
                    attr_ok(pool@, d, p, in_code) ==> q + 10 * n <= d.len(),
                    n == be_u16(d, q - 2),
                decreases n - j,
            {
                let start_pc = self.u2()?;
                let length = self.u2()?;
                let name_index = self.u2()?;
                let descriptor_index = self.u2()?;
                let index = self.u2()?;
                local_variable_table.push(
                    LocalVariableTableEntry::new(start_pc, length, name_index, descriptor_index, index),
                );
                j = j + 1;
            }
            Attribute::LocalVariableTable { local_variable_table }
        } else {
            Attribute::Other { name, info: self.bytes(length)? }
        };
        if self.pos != end {
            return Err(ClassError::AttributeLength);
        }
        Ok(a)
    }

    /// Reads an attribute count and that many attributes, one after another.
    pub fn attrs(&mut self, pool: &ConstPool, in_code: bool) -> (r: Result<Vec<Attribute>, ClassError>)
        ensures
            final(self).data() == old(self).data(),
            r matches Ok(v) ==> {
                let d = old(self).data();
                let p = old(self).pos();
                &&& attrs_match(v@, pool@, d, p, in_code)
                &&& final(self).pos() == attrs_end(d, p + 2, be_u16(d, p) as nat)
            },
            attrs_ok(pool@, old(self).data(), old(self).pos(), in_code) ==> r is Ok,
        decreases if in_code { 1nat } else { 3nat },
    {
        let ghost d = self.data();
        let ghost p = self.pos();
        let count = self.u2()?;
        assert(attrs_ok(pool@, d, p, in_code) ==> p + 2 <= d.len());
        proof {
            if attrs_ok(pool@, d, p, in_code) {
                assert forall|k: int| 0 <= k < count implies #[trigger] attr_ok(
                    pool@,
                    d,
                    attrs_end(d, p + 2, k as nat),
                    in_code,
                ) by {
                    assert(0 <= k < be_u16(d, p));
                }
            }
        }
        let mut attrs: Vec<Attribute> = Vec::new();
        let mut j: u16 = 0;
        while j < count
            invariant
                self.data() == d,
                d == old(self).data(),
                p == old(self).pos(),
                j <= count,
                count == be_u16(d, p),
                attrs@.len() == j,
                self.pos() == attrs_end(d, p + 2, j as nat),
                forall|k: int|
                    0 <= k < j ==> attr_matches(#[trigger] attrs@[k], pool@, d, attrs_end(d, p + 2, k as nat), in_code),
                attrs_ok(pool@, d, p, in_code) ==> forall|k: int|
                    0 <= k < count ==> #[trigger] attr_ok(pool@, d, attrs_end(d, p + 2, k as nat), in_code),
            decreases count - j,
        {
            let ghost jj = j as int;
            assert(attrs_ok(pool@, d, p, in_code) ==> attr_ok(pool@, d, attrs_end(d, p + 2, jj as nat), in_code));
            let a = self.attr(pool, in_code)?;
            attrs.push(a);
            j = j + 1;
        }
        Ok(attrs)
    }
}

/// `f` is what the field or method at `p` says: flags, name, descriptor, attributes.
pub open spec fn member_matches(f: Field, pool: Seq<Const>, d: Seq<u8>, p: int) -> bool {
    &&& f.flags == be_u16(d, p)
    &&& f.name@ == utf8_at(pool, be_u16(d, p + 2) as int)
    &&& f.descriptor@ == utf8_at(pool, be_u16(d, p + 4) as int)
    &&& attrs_match(f.attributes@, pool, d, p + 6, false)
}

/// Where the field or method at `p` ends.
pub open spec fn member_end(d: Seq<u8>, p: int) -> int {
    attrs_end(d, p + 8, be_u16(d, p + 6) as nat)
}

/// The field or method at `p` can be decoded.
pub open spec fn member_ok(pool: Seq<Const>, d: Seq<u8>, p: int) -> bool {
    &&& 0 <= p
    &&& p + 8 <= d.len()
    &&& attrs_ok(pool, d, p + 6, false)
}

/// Where the `k`-th of the members from `q` on starts.
pub open spec fn members_pos(d: Seq<u8>, q: int, k: nat) -> int
    decreases k,
{
    if k == 0 {
        q
    } else {
        member_end(d, members_pos(d, q, (k - 1) as nat))
    }
}

/// The member table whose count lies at `p` can be decoded.
pub open spec fn members_ok(pool: Seq<Const>, d: Seq<u8>, p: int) -> bool {
    &&& 0 <= p
    &&& p + 2 <= d.len()
    &&& forall|k: int|
        0 <= k < be_u16(d, p) ==> #[trigger] member_ok(pool, d, members_pos(d, p + 2, k as nat))
}

impl Loader {
    /// Reads the interface count and the names of the interfaces.
    pub fn interfaces(&mut self, pool: &ConstPool) -> (r: Result<Vec<String>, ClassError>)
        ensures
            final(self).data() == old(self).data(),
            r matches Ok(v) ==> {
                let d = old(self).data();
                let p = old(self).pos();
                &&& v@.len() == be_u16(d, p)
                &&& forall|j: int|
                    0 <= j < v@.len() ==> (#[trigger] v@[j])@ == class_name_at(
                        pool@,
                        be_u16(d, p + 2 + 2 * j) as int,
                    )
                &&& final(self).pos() == p + 2 + 2 * be_u16(d, p)
            },
            0 <= old(self).pos() && old(self).pos() + 2 <= old(self).data().len() && old(self).pos()
                + 2 + 2 * be_u16(old(self).data(), old(self).pos()) <= old(self).data().len() ==> r is Ok,
    {
        let count = self.u2()?;
        let ghost p = self.pos();
        let mut names: Vec<String> = Vec::new();
        let mut j: u16 = 0;
        while j < count
            invariant
                self.data() == old(self).data(),
                p == old(self).pos() + 2,
                count == be_u16(self.data(), old(self).pos()),
                j <= count,
                self.pos() == p + 2 * j,
                names@.len() == j,
                forall|k: int|
                    0 <= k < j ==> (#[trigger] names@[k])@ == class_name_at(
                        pool@,
                        be_u16(self.data(), p + 2 * k) as int,
                    ),
            decreases count - j,
        {
            let index = self.u2()?;
            names.push(pool.class_name(index));
            j = j + 1;
        }
        Ok(names)
    }

    /// Reads a field or a method: flags, name, descriptor and attributes.
    pub fn member(&mut self, pool: &ConstPool) -> (r: Result<Field, ClassError>)
        ensures
            final(self).data() == old(self).data(),
            r matches Ok(f) ==> member_matches(f, pool@, old(self).data(), old(self).pos())
                && final(self).pos() == member_end(old(self).data(), old(self).pos()),
            member_ok(pool@, old(self).data(), old(self).pos()) ==> r is Ok,
    {
        let flags = self.u2()?;
        let name = pool.resolve(self.u2()?);
        let descriptor = pool.resolve(self.u2()?);
        let attributes = self.attrs(pool, false)?;
        Ok(Field::new(flags, name, descriptor, attributes))
    }

    /// Reads a member count and that many fields or methods.
    pub fn fields(&mut self, pool: &ConstPool) -> (r: Result<Vec<Field>, ClassError>)
        ensures
            final(self).data() == old(self).data(),
            r matches Ok(v) ==> {
                let d = old(self).data();
                let p = old(self).pos();
                &&& v@.len() == be_u16(d, p)
                &&& forall|k: int|
                    0 <= k < v@.len() ==> member_matches(#[trigger] v@[k], pool@, d, members_pos(d, p + 2, k as nat))
                &&& final(self).pos() == members_pos(d, p + 2, be_u16(d, p) as nat)
            },
            members_ok(pool@, old(self).data(), old(self).pos()) ==> r is Ok,
    {
        let ghost d = self.data();
        let ghost p = self.pos();
        let count = self.u2()?;
        let mut members: Vec<Field> = Vec::new();
        let mut j: u16 = 0;
        while j < count
            invariant
                self.data() == d,
                d == old(self).data(),
                p == old(self).pos(),
                count == be_u16(d, p),
                j <= count,
                members@.len() == j,
                self.pos() == members_pos(d, p + 2, j as nat),
                forall|k: int|
                    0 <= k < j ==> member_matches(#[trigger] members@[k], pool@, d, members_pos(d, p + 2, k as nat)),
                members_ok(pool@, d, p) ==> forall|k: int|
                    0 <= k < count ==> #[trigger] member_ok(pool@, d, members_pos(d, p + 2, k as nat)),
            decreases count - j,
        {
            let ghost jj = j as int;
            assert(members_ok(pool@, d, p) ==> member_ok(pool@, d, members_pos(d, p + 2, jj as nat)));
            members.push(self.member(pool)?);
            j = j + 1;
        }
        Ok(members)
    }
}

/// The class file `d` can be decoded: magic, versions, a pool that can be read, and then
/// interfaces, fields, methods and attributes that lie within the data and take the lengths
/// they declare.
pub open spec fn class_file_ok(d: Seq<u8>) -> bool {
    let size = pool_size(be_u16(d, 8));
    let e = entries_end(d, 10, size);
    let f = e + 8 + 2 * be_u16(d, e + 6);
    &&& d.len() >= 10
    &&& be_u32(d, 0) == MAGIC
    &&& pool_bytes_ok(d, 8)
    &&& e + 8 <= d.len()
    &&& f <= d.len()
    &&& forall|pool: Seq<Const>, ps: Seq<int>|
        pool.len() == size && #[trigger] pool_layout(pool, d, ps, 10) ==> {
            let m = members_pos(d, f + 2, be_u16(d, f) as nat);
            &&& members_ok(pool, d, f)
            &&& members_ok(pool, d, m)
            &&& attrs_ok(pool, d, members_pos(d, m + 2, be_u16(d, m) as nat), false)
        }
}

/// What a class file that can be decoded says of the parts after its pool.
proof fn lemma_class_file_parts(d: Seq<u8>, pool: Seq<Const>, ps: Seq<int>)
    requires
        class_file_ok(d),
        pool.len() == pool_size(be_u16(d, 8)),
        pool_layout(pool, d, ps, 10),
    ensures
        ({
            let size = pool_size(be_u16(d, 8));
            let e = entries_end(d, 10, size);
            let f = e + 8 + 2 * be_u16(d, e + 6);
            let m = members_pos(d, f + 2, be_u16(d, f) as nat);
            &&& members_ok(pool, d, f)
            &&& members_ok(pool, d, m)
            &&& attrs_ok(pool, d, members_pos(d, m + 2, be_u16(d, m) as nat), false)
        }),
{
}

/// Resolving a Utf8 entry of a decoded pool gives back exactly the bytes of its text.
pub proof fn lemma_resolve_gives_encoded_bytes(pool: Seq<Const>, d: Seq<u8>, ps: Seq<int>, q: int, index: int)
    requires
        pool_layout(pool, d, ps, q),
        1 <= index <= pool.len(),
        pool[index - 1] is Utf8,
    ensures
        encode_utf8(utf8_at(pool, index)) == utf8_body(d, ps[index - 1] + 1),
{
    let c = pool[index - 1];
    assert(entry_matches(c, d[ps[index - 1]], d, ps[index - 1] + 1));
    decode_utf8_encode_utf8(utf8_body(d, ps[index - 1] + 1));
}

impl Class {
    /// Decodes a class file: magic, versions, constant pool, flags, this and super class,
    /// interfaces, fields, methods and attributes.
    #[verifier::rlimit(100)]
    #[verifier::spinoff_prover]
    pub fn load(data: Vec<u8>) -> (r: Result<Class, ClassError>)
        ensures
            data@.len() < 4 ==> r == Err::<Class, ClassError>(ClassError::Truncated),
            data@.len() >= 4 && be_u32(data@, 0) != MAGIC ==> r == Err::<Class, ClassError>(
                ClassError::BadMagic,
            ),
            class_file_ok(data@) ==> r is Ok,
            r matches Ok(c) ==> {
                let d = data@;
                let size = pool_size(be_u16(d, 8));
                let e = entries_end(d, 10, size);
                let f = e + 8 + 2 * be_u16(d, e + 6);
                let m = members_pos(d, f + 2, be_u16(d, f) as nat);
                let pool = c.const_pool@;
                &&& be_u32(d, 0) == MAGIC
                &&& c.minor_version == be_u16(d, 4)
                &&& c.major_version == be_u16(d, 6)
                &&& pool_wf(pool)
                &&& pool.len() == size
                &&& exists|ps: Seq<int>| pool_layout(pool, d, ps, 10)
                &&& c.flags == be_u16(d, e)
                &&& c.this_class@ == class_name_at(pool, be_u16(d, e + 2) as int)
                &&& c.super_class@ == class_name_at(pool, be_u16(d, e + 4) as int)
                &&& c.interfaces@.len() == be_u16(d, e + 6)
                &&& forall|j: int|
                    0 <= j < c.interfaces@.len() ==> (#[trigger] c.interfaces@[j])@ == class_name_at(
                        pool,
                        be_u16(d, e + 8 + 2 * j) as int,
                    )
                &&& c.fields@.len() == be_u16(d, f)
                &&& forall|k: int|
                    0 <= k < c.fields@.len() ==> member_matches(#[trigger] c.fields@[k], pool, d, members_pos(d, f + 2, k as nat))
                &&& c.methods@.len() == be_u16(d, m)
                &&& forall|k: int|
                    0 <= k < c.methods@.len() ==> member_matches(#[trigger] c.methods@[k], pool, d, members_pos(d, m + 2, k as nat))
                &&& attrs_match(c.attributes@, pool, d, members_pos(d, m + 2, be_u16(d, m) as nat), false)
            },
    {
        let ghost d = data@;
        let mut loader = Loader::new(data);
        let magic = loader.u4()?;
        if magic != MAGIC {
            return Err(ClassError::BadMagic);
        }
        let minor_version = loader.u2()?;
        let major_version = loader.u2()?;
        let const_pool = loader.cpinfo()?;
        proof {
            if class_file_ok(d) {
                let ps = choose|ps: Seq<int>| pool_layout(const_pool@, d, ps, 10);
                lemma_class_file_parts(d, const_pool@, ps);
            }
        }
        let flags = loader.u2()?;
        let this_class = const_pool.class_name(loader.u2()?);
        let super_class = const_pool.class_name(loader.u2()?);
        let interfaces = loader.interfaces(&const_pool)?;
        let fields = loader.fields(&const_pool)?;
        let methods = loader.fields(&const_pool)?;
        let attributes = loader.attrs(&const_pool, false)?;
        Ok(
            Class::new(
                major_version,
                minor_version,
                const_pool,
                flags,
                this_class,
                super_class,
                interfaces,
                fields,
                methods,
                attributes,
            ),
        )
    }
}

fn known_tag_exec(tag: u8) -> (r: bool)
    ensures
        r == known_tag(tag),
{
    tag == 1 || (3 <= tag && tag <= 12) || (15 <= tag && tag <= 20)
}

} // verus!
