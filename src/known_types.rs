use vstd::prelude::*;

use crate::text::{owned, str_eq};

verus! {

/// How a built-in type behaves at the language boundary.
#[derive(Debug, Clone, Copy, PartialEq, Eq, Structural)]
pub enum KnownKind {
    /// A primitive that may be held by value on both sides.
    Pod,
    /// A library type that exists on both sides but must stay behind indirection.
    NonPod,
    /// A generic owning container (smart pointer, vector) with one type argument.
    Container,
    /// `void`: only meaningful behind a pointer or as a return type.
    Void,
    /// A built-in type the bridge cannot represent at all.
    Unsupported,
}

/// One row of the built-in types table: the qualified name under which the
/// type is referred to (segments joined by `::`), its C++ spelling, its path
/// on the Rust side of the bridge, and its kind.
pub struct KnownType {
    pub key: String,
    pub cpp_name: String,
    pub rust_path: String,
    pub kind: KnownKind,
}

pub type KnownTypeView = (Seq<char>, Seq<char>, Seq<char>, KnownKind);

impl View for KnownType {
    type V = KnownTypeView;

    open spec fn view(&self) -> KnownTypeView {
        (self.key@, self.cpp_name@, self.rust_path@, self.kind)
    }
}

/// The table of built-in types.
pub open spec fn known_table() -> Seq<KnownTypeView> {
    seq![
        ("i8"@, "int8_t"@, "i8"@, KnownKind::Pod),
        ("u8"@, "uint8_t"@, "u8"@, KnownKind::Pod),
        ("i16"@, "int16_t"@, "i16"@, KnownKind::Pod),
        ("u16"@, "uint16_t"@, "u16"@, KnownKind::Pod),
        ("i32"@, "int32_t"@, "i32"@, KnownKind::Pod),
        ("u32"@, "uint32_t"@, "u32"@, KnownKind::Pod),
        ("i64"@, "int64_t"@, "i64"@, KnownKind::Pod),
        ("u64"@, "uint64_t"@, "u64"@, KnownKind::Pod),
        ("isize"@, "intptr_t"@, "isize"@, KnownKind::Pod),
        ("usize"@, "uintptr_t"@, "usize"@, KnownKind::Pod),
        ("bool"@, "bool"@, "bool"@, KnownKind::Pod),
        ("i128"@, "__int128"@, "i128"@, KnownKind::Unsupported),
        ("u128"@, "unsigned __int128"@, "u128"@, KnownKind::Unsupported),
        ("std::os::raw::c_char"@, "char"@, "std::os::raw::c_char"@, KnownKind::Pod),
        ("std::os::raw::c_schar"@, "signed char"@, "std::os::raw::c_schar"@, KnownKind::Pod),
        ("std::os::raw::c_uchar"@, "unsigned char"@, "std::os::raw::c_uchar"@, KnownKind::Pod),
        ("std::os::raw::c_short"@, "short"@, "std::os::raw::c_short"@, KnownKind::Pod),
        ("std::os::raw::c_ushort"@, "unsigned short"@, "std::os::raw::c_ushort"@, KnownKind::Pod),
        ("std::os::raw::c_int"@, "int"@, "std::os::raw::c_int"@, KnownKind::Pod),
        ("std::os::raw::c_uint"@, "unsigned int"@, "std::os::raw::c_uint"@, KnownKind::Pod),
        ("std::os::raw::c_long"@, "long"@, "std::os::raw::c_long"@, KnownKind::Pod),
        ("std::os::raw::c_ulong"@, "unsigned long"@, "std::os::raw::c_ulong"@, KnownKind::Pod),
        ("std::os::raw::c_longlong"@, "long long"@, "std::os::raw::c_longlong"@, KnownKind::Pod),
        ("std::os::raw::c_ulonglong"@, "unsigned long long"@, "std::os::raw::c_ulonglong"@, KnownKind::Pod),
        ("std::os::raw::c_void"@, "void"@, "std::os::raw::c_void"@, KnownKind::Void),
        ("std::string"@, "std::string"@, "cxx::CxxString"@, KnownKind::NonPod),
        ("std::unique_ptr"@, "std::unique_ptr"@, "cxx::UniquePtr"@, KnownKind::Container),
        ("std::shared_ptr"@, "std::shared_ptr"@, "cxx::SharedPtr"@, KnownKind::Container),
        ("std::vector"@, "std::vector"@, "cxx::CxxVector"@, KnownKind::Container),
    ]
}

/// The first row at or after `i` whose key is `key`.
pub open spec fn find_known_from(key: Seq<char>, i: int) -> Option<int>
    decreases known_table().len() - i,
{
    if i < 0 || i >= known_table().len() {
        None
    } else if known_table()[i].0 == key {
        Some(i)
    } else {
        find_known_from(key, i + 1)
    }
}

/// The row of the table whose key is `key`, if any.
pub open spec fn find_known(key: Seq<char>) -> Option<KnownTypeView> {
    match find_known_from(key, 0) {
        Some(i) => Some(known_table()[i]),
        None => None,
    }
}

fn row(key: &str, cpp_name: &str, rust_path: &str, kind: KnownKind) -> (r: KnownType)
    ensures
        r@ == (key@, cpp_name@, rust_path@, kind),
{
    KnownType { key: owned(key), cpp_name: owned(cpp_name), rust_path: owned(rust_path), kind }
}

/// The table of built-in types, as values.
pub fn known_types() -> (r: Vec<KnownType>)
    ensures
        r@.map_values(|k: KnownType| k@) == known_table(),
{
    let r = vec![
        row("i8", "int8_t", "i8", KnownKind::Pod),
        row("u8", "uint8_t", "u8", KnownKind::Pod),
        row("i16", "int16_t", "i16", KnownKind::Pod),
        row("u16", "uint16_t", "u16", KnownKind::Pod),
        row("i32", "int32_t", "i32", KnownKind::Pod),
        row("u32", "uint32_t", "u32", KnownKind::Pod),
        row("i64", "int64_t", "i64", KnownKind::Pod),
        row("u64", "uint64_t", "u64", KnownKind::Pod),
        row("isize", "intptr_t", "isize", KnownKind::Pod),
        row("usize", "uintptr_t", "usize", KnownKind::Pod),
        row("bool", "bool", "bool", KnownKind::Pod),
        row("i128", "__int128", "i128", KnownKind::Unsupported),
        row("u128", "unsigned __int128", "u128", KnownKind::Unsupported),
        row("std::os::raw::c_char", "char", "std::os::raw::c_char", KnownKind::Pod),
        row("std::os::raw::c_schar", "signed char", "std::os::raw::c_schar", KnownKind::Pod),
        row("std::os::raw::c_uchar", "unsigned char", "std::os::raw::c_uchar", KnownKind::Pod),
        row("std::os::raw::c_short", "short", "std::os::raw::c_short", KnownKind::Pod),
        row("std::os::raw::c_ushort", "unsigned short", "std::os::raw::c_ushort", KnownKind::Pod),
        row("std::os::raw::c_int", "int", "std::os::raw::c_int", KnownKind::Pod),
        row("std::os::raw::c_uint", "unsigned int", "std::os::raw::c_uint", KnownKind::Pod),
        row("std::os::raw::c_long", "long", "std::os::raw::c_long", KnownKind::Pod),
        row("std::os::raw::c_ulong", "unsigned long", "std::os::raw::c_ulong", KnownKind::Pod),
        row("std::os::raw::c_longlong", "long long", "std::os::raw::c_longlong", KnownKind::Pod),
        row(
            "std::os::raw::c_ulonglong",
            "unsigned long long",
            "std::os::raw::c_ulonglong",
            KnownKind::Pod,
        ),
        row("std::os::raw::c_void", "void", "std::os::raw::c_void", KnownKind::Void),
        row("std::string", "std::string", "cxx::CxxString", KnownKind::NonPod),
        row("std::unique_ptr", "std::unique_ptr", "cxx::UniquePtr", KnownKind::Container),
        row("std::shared_ptr", "std::shared_ptr", "cxx::SharedPtr", KnownKind::Container),
        row("std::vector", "std::vector", "cxx::CxxVector", KnownKind::Container),
    ];
    assert(r@.map_values(|k: KnownType| k@) =~= known_table());
    r
}

/// Looks up the built-in type whose key is `key`.
pub fn lookup_known(key: &str) -> (r: Option<KnownType>)
    ensures
        match r {
            Some(k) => find_known(key@) == Some(k@),
            None => find_known(key@) is None,
        },
{
    let mut table = known_types();
    let ghost t = table@.map_values(|k: KnownType| k@);
    let n = table.len();
    let mut i: usize = 0;
    while i < n
        invariant
            n == table.len(),
            t == table@.map_values(|k: KnownType| k@),
            t == known_table(),
            i <= n,
            find_known_from(key@, 0) == find_known_from(key@, i as int),
        decreases n - i,
    {
        if str_eq(table[i].key.as_str(), key) {
            let k = table.swap_remove(i);
            assert(k@ == t[i as int]);
            return Some(k);
        }
        i = i + 1;
    }
    None
}

} // verus!
