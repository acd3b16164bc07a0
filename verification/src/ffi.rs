//! The decisions of the native function interface: type names, the calling
//! shape of a symbol, the conversion of raw results, and the table of open
//! library handles.

use vstd::prelude::*;
use crate::assoc::{assoc_map, keys_distinct, lemma_assoc_absent, lemma_assoc_lookup, lemma_assoc_push, lemma_assoc_remove};
use crate::text::owned;

verus! {

/// The primitive types a native function can take or return.
#[derive(Clone, Copy, Debug, PartialEq, Eq, Structural)]
pub enum FFIType {
    Void,
    Bool,
    I8,
    U8,
    I16,
    U16,
    I32,
    U32,
    I64,
    U64,
    F32,
    F64,
    Ptr,
    CString,
}

/// The ASCII lowercase form of a character.
pub open spec fn lower_char(c: char) -> char {
    if 'A' <= c && c <= 'Z' {
        ((c as u32) + 32) as char
    } else {
        c
    }
}

/// The ASCII lowercase form of a text (`str::to_ascii_lowercase`).
pub open spec fn lower(s: Seq<char>) -> Seq<char> {
    s.map_values(|c: char| lower_char(c))
}

/// The ASCII lowercase form of `s`.
pub fn ascii_lowercase(s: &str) -> (r: String)
    ensures
        r@ == lower(s@),
{
    let chars = crate::text::chars_of(s);
    let mut out = String::new();
    let mut i: usize = 0;
    while i < chars.len()
        invariant
            i <= chars@.len(),
            chars@ == s@,
            out@ == lower(s@.take(i as int)),
        decreases chars@.len() - i,
    {
        let c = chars[i];
        let l = if 'A' <= c && c <= 'Z' {
            let code: u8 = ((c as u32) + 32) as u8;
            code as char
        } else {
            c
        };
        crate::text::push_char(&mut out, l);
        assert(lower(s@.take(i as int + 1)) =~= lower(s@.take(i as int)).push(lower_char(c)));
        i = i + 1;
    }
    assert(s@.take(s@.len() as int) =~= s@);
    out
}

/// The type a lowercase type name stands for.
pub open spec fn type_of_name(name: Seq<char>) -> Option<FFIType> {
    if name == "void"@ {
        Some(FFIType::Void)
    } else if name == "bool"@ || name == "boolean"@ {
        Some(FFIType::Bool)
    } else if name == "i8"@ || name == "int8"@ {
        Some(FFIType::I8)
    } else if name == "u8"@ || name == "uint8"@ {
        Some(FFIType::U8)
    } else if name == "i16"@ || name == "int16"@ {
        Some(FFIType::I16)
    } else if name == "u16"@ || name == "uint16"@ {
        Some(FFIType::U16)
    } else if name == "i32"@ || name == "int32"@ || name == "int"@ {
        Some(FFIType::I32)
    } else if name == "u32"@ || name == "uint32"@ || name == "uint"@ {
        Some(FFIType::U32)
    } else if name == "i64"@ || name == "int64"@ {
        Some(FFIType::I64)
    } else if name == "u64"@ || name == "uint64"@ || name == "usize"@ {
        Some(FFIType::U64)
    } else if name == "f32"@ || name == "float"@ {
        Some(FFIType::F32)
    } else if name == "f64"@ || name == "double"@ {
        Some(FFIType::F64)
    } else if name == "ptr"@ || name == "pointer"@ {
        Some(FFIType::Ptr)
    } else if name == "cstring"@ || name == "string"@ {
        Some(FFIType::CString)
    } else {
        None
    }
}

/// The message of an unsupported type name.
pub open spec fn unsupported_type_text(name: Seq<char>) -> Seq<char> {
    "Unsupported FFI type: "@ + name
}

fn is(a: &str, b: &str) -> (r: bool)
    ensures
        r == (a@ == b@),
{
    crate::text::str_eq(a, b)
}

impl FFIType {
    /// The type named `s`, in any ASCII case.
    pub fn from_str(s: &str) -> (r: Result<FFIType, String>)
        ensures
            match type_of_name(lower(s@)) {
                Some(t) => r == Ok::<FFIType, String>(t),
                None => r matches Err(m) && m@ == unsupported_type_text(s@),
            },
    {
        let l = ascii_lowercase(s);
        let n = l.as_str();
        if is(n, "void") {
            Ok(FFIType::Void)
        } else if is(n, "bool") || is(n, "boolean") {
            Ok(FFIType::Bool)
        } else if is(n, "i8") || is(n, "int8") {
            Ok(FFIType::I8)
        } else if is(n, "u8") || is(n, "uint8") {
            Ok(FFIType::U8)
        } else if is(n, "i16") || is(n, "int16") {
            Ok(FFIType::I16)
        } else if is(n, "u16") || is(n, "uint16") {
            Ok(FFIType::U16)
        } else if is(n, "i32") || is(n, "int32") || is(n, "int") {
            Ok(FFIType::I32)
        } else if is(n, "u32") || is(n, "uint32") || is(n, "uint") {
            Ok(FFIType::U32)
        } else if is(n, "i64") || is(n, "int64") {
            Ok(FFIType::I64)
        } else if is(n, "u64") || is(n, "uint64") || is(n, "usize") {
            Ok(FFIType::U64)
        } else if is(n, "f32") || is(n, "float") {
            Ok(FFIType::F32)
        } else if is(n, "f64") || is(n, "double") {
            Ok(FFIType::F64)
        } else if is(n, "ptr") || is(n, "pointer") {
            Ok(FFIType::Ptr)
        } else if is(n, "cstring") || is(n, "string") {
            Ok(FFIType::CString)
        } else {
            Err(owned("Unsupported FFI type: ").concat(s))
        }
    }
}

/// The signature of a native symbol.
#[derive(Clone, Debug)]
pub struct SymbolDef {
    pub name: String,
    pub args: Vec<FFIType>,
    pub return_type: FFIType,
}

/// The types of a list of type names, the unsupported names left out.
pub open spec fn parsed_types(names: Seq<Seq<char>>) -> Seq<FFIType>
    decreases names.len(),
{
    if names.len() == 0 {
        Seq::empty()
    } else {
        let init = parsed_types(names.drop_last());
        match type_of_name(lower(names.last())) {
            Some(t) => init.push(t),
            None => init,
        }
    }
}

/// The argument types of a call, from their names; unsupported names are
/// skipped.
pub fn parse_arg_types(names: &Vec<String>) -> (r: Vec<FFIType>)
    ensures
        r@ == parsed_types(names@.map_values(|s: String| s@)),
{
    let mut r: Vec<FFIType> = Vec::new();
    let mut i: usize = 0;
    while i < names.len()
        invariant
            i <= names@.len(),
            r@ == parsed_types(names@.take(i as int).map_values(|s: String| s@)),
        decreases names@.len() - i,
    {
        proof {
            let t = names@.take(i as int + 1).map_values(|s: String| s@);
            assert(t.drop_last() =~= names@.take(i as int).map_values(|s: String| s@));
            assert(t.last() == names@[i as int]@);
        }
        match FFIType::from_str(names[i].as_str()) {
            Ok(t) => r.push(t),
            Err(_) => {},
        }
        i = i + 1;
    }
    assert(names@.take(names@.len() as int) =~= names@);
    r
}

/// How a symbol is called, by its argument and return types.
#[derive(Clone, Copy, Debug, PartialEq, Eq, Structural)]
pub enum CallShape {
    /// `fn()`
    NoArgsVoid,
    /// `fn() -> i32`
    NoArgsI32,
    /// `fn() -> u32`
    NoArgsU32,
    /// `fn() -> f64`
    NoArgsF64,
    /// `fn(f64) -> f64`
    F64ToF64,
    /// `fn(f32) -> f32`
    F32ToF32,
    /// `fn(i32) -> i32`
    I32ToI32,
    /// `fn(*const c_char) -> usize`, from a string or a pointer
    TextToSize,
    /// `fn(*mut c_void)`
    PtrToVoid,
    /// `fn(f64, f64) -> f64`
    F64F64ToF64,
    /// `fn(i32, i32) -> i32`
    I32I32ToI32,
    /// `fn(*const c_char, *const c_char) -> i32`
    TextTextToI32,
    /// `fn(*mut c_void, c_int, usize) -> *mut c_void`
    PtrI32SizeToPtr,
    /// Six integer-register arguments, one integer-register result.
    Registers,
}

/// The calling shape of a symbol: the first pattern that matches.
pub open spec fn call_shape(args: Seq<FFIType>, return_type: FFIType) -> CallShape {
    if args.len() == 0 && return_type == FFIType::Void {
        CallShape::NoArgsVoid
    } else if args.len() == 0 && return_type == FFIType::I32 {
        CallShape::NoArgsI32
    } else if args.len() == 0 && return_type == FFIType::U32 {
        CallShape::NoArgsU32
    } else if args.len() == 0 && return_type == FFIType::F64 {
        CallShape::NoArgsF64
    } else if args.len() == 1 && return_type == FFIType::F64 && args[0] == FFIType::F64 {
        CallShape::F64ToF64
    } else if args.len() == 1 && return_type == FFIType::F32 && args[0] == FFIType::F32 {
        CallShape::F32ToF32
    } else if args.len() == 1 && return_type == FFIType::I32 && args[0] == FFIType::I32 {
        CallShape::I32ToI32
    } else if args.len() == 1 && return_type == FFIType::U64 && (args[0] == FFIType::CString || args[0] == FFIType::Ptr) {
        CallShape::TextToSize
    } else if args.len() == 1 && return_type == FFIType::Void && args[0] == FFIType::Ptr {
        CallShape::PtrToVoid
    } else if args.len() == 2 && return_type == FFIType::F64 && args[0] == FFIType::F64 && args[1] == FFIType::F64 {
        CallShape::F64F64ToF64
    } else if args.len() == 2 && return_type == FFIType::I32 && args[0] == FFIType::I32 && args[1] == FFIType::I32 {
        CallShape::I32I32ToI32
    } else if args.len() == 2 && return_type == FFIType::I32 && args[0] == FFIType::CString && args[1] == FFIType::CString {
        CallShape::TextTextToI32
    } else if args.len() == 3 && return_type == FFIType::Ptr && args[0] == FFIType::Ptr && args[1] == FFIType::I32 {
        CallShape::PtrI32SizeToPtr
    } else {
        CallShape::Registers
    }
}

/// The calling shape of a symbol with these argument and return types.
pub fn classify_call(args: &Vec<FFIType>, return_type: FFIType) -> (s: CallShape)
    ensures
        s == call_shape(args@, return_type),
{
    let n = args.len();
    if n == 0 && return_type == FFIType::Void {
        CallShape::NoArgsVoid
    } else if n == 0 && return_type == FFIType::I32 {
        CallShape::NoArgsI32
    } else if n == 0 && return_type == FFIType::U32 {
        CallShape::NoArgsU32
    } else if n == 0 && return_type == FFIType::F64 {
        CallShape::NoArgsF64
    } else if n == 1 && return_type == FFIType::F64 && args[0] == FFIType::F64 {
        CallShape::F64ToF64
    } else if n == 1 && return_type == FFIType::F32 && args[0] == FFIType::F32 {
        CallShape::F32ToF32
    } else if n == 1 && return_type == FFIType::I32 && args[0] == FFIType::I32 {
        CallShape::I32ToI32
    } else if n == 1 && return_type == FFIType::U64 && (args[0] == FFIType::CString || args[0] == FFIType::Ptr) {
        CallShape::TextToSize
    } else if n == 1 && return_type == FFIType::Void && args[0] == FFIType::Ptr {
        CallShape::PtrToVoid
    } else if n == 2 && return_type == FFIType::F64 && args[0] == FFIType::F64 && args[1] == FFIType::F64 {
        CallShape::F64F64ToF64
    } else if n == 2 && return_type == FFIType::I32 && args[0] == FFIType::I32 && args[1] == FFIType::I32 {
        CallShape::I32I32ToI32
    } else if n == 2 && return_type == FFIType::I32 && args[0] == FFIType::CString && args[1] == FFIType::CString {
        CallShape::TextTextToI32
    } else if n == 3 && return_type == FFIType::Ptr && args[0] == FFIType::Ptr && args[1] == FFIType::I32 {
        CallShape::PtrI32SizeToPtr
    } else {
        CallShape::Registers
    }
}

/// How many call arguments go into registers: those past the fixed four, at
/// most six.
pub fn register_arg_count(total_args: i32) -> (n: usize)
    ensures
        total_args <= 4 ==> n == 0,
        total_args > 4 ==> n as int == if total_args - 4 > 6 { 6 } else { total_args - 4 },
{
    if total_args > 4 {
        let extra = total_args - 4;
        if extra > 6 { 6 } else { extra as usize }
    } else {
        0
    }
}

/// A raw register result, converted by the declared return type.
#[derive(Clone, Copy, Debug, PartialEq, Eq, Structural)]
pub enum ReturnValue {
    Undefined,
    Boolean(bool),
    Integer(i32),
    Unsigned(u32),
    BigInt(i64),
    BigUint(u64),
    /// The raw value read as a single-precision number.
    Float32(usize),
    /// The raw value read as a double-precision number.
    Float64(usize),
    /// A pointer to a NUL-terminated string, or null.
    Text(usize),
}

/// The conversion of a raw result by its declared type: integers are cut to
/// the declared width, as the `as` casts of the call path do.
pub open spec fn convert_spec(res: usize, ty: FFIType) -> ReturnValue {
    match ty {
        FFIType::Void => ReturnValue::Undefined,
        FFIType::Bool => ReturnValue::Boolean(res != 0),
        FFIType::I8 => ReturnValue::Integer((res as i8) as i32),
        FFIType::U8 => ReturnValue::Integer((res as u8) as i32),
        FFIType::I16 => ReturnValue::Integer((res as i16) as i32),
        FFIType::U16 => ReturnValue::Integer((res as u16) as i32),
        FFIType::I32 => ReturnValue::Integer(res as i32),
        FFIType::U32 => ReturnValue::Unsigned(res as u32),
        FFIType::I64 => ReturnValue::BigInt(res as i64),
        FFIType::U64 | FFIType::Ptr => ReturnValue::BigUint(res as u64),
        FFIType::F32 => ReturnValue::Float32(res),
        FFIType::F64 => ReturnValue::Float64(res),
        FFIType::CString => ReturnValue::Text(res),
    }
}

/// Converts a raw register result by its declared type.
pub fn convert_return(res: usize, ty: FFIType) -> (r: ReturnValue)
    ensures
        r == convert_spec(res, ty),
{
    match ty {
        FFIType::Void => ReturnValue::Undefined,
        FFIType::Bool => ReturnValue::Boolean(res != 0),
        FFIType::I8 => ReturnValue::Integer((res as i8) as i32),
        FFIType::U8 => ReturnValue::Integer((res as u8) as i32),
        FFIType::I16 => ReturnValue::Integer((res as i16) as i32),
        FFIType::U16 => ReturnValue::Integer((res as u16) as i32),
        FFIType::I32 => ReturnValue::Integer(res as i32),
        FFIType::U32 => ReturnValue::Unsigned(res as u32),
        FFIType::I64 => ReturnValue::BigInt(res as i64),
        FFIType::U64 | FFIType::Ptr => ReturnValue::BigUint(res as u64),
        FFIType::F32 => ReturnValue::Float32(res),
        FFIType::F64 => ReturnValue::Float64(res),
        FFIType::CString => ReturnValue::Text(res),
    }
}

/// The kinds of value a memory read or write handles.
#[derive(Clone, Copy, Debug, PartialEq, Eq, Structural)]
pub enum MemoryKind {
    I8,
    U8,
    I16,
    U16,
    I32,
    U32,
    I64,
    U64,
    F32,
    F64,
}

/// The memory kind of a lowercase type name (`ptr` reads as `u64`).
pub open spec fn memory_kind_of(name: Seq<char>) -> Option<MemoryKind> {
    if name == "i8"@ {
        Some(MemoryKind::I8)
    } else if name == "u8"@ {
        Some(MemoryKind::U8)
    } else if name == "i16"@ {
        Some(MemoryKind::I16)
    } else if name == "u16"@ {
        Some(MemoryKind::U16)
    } else if name == "i32"@ {
        Some(MemoryKind::I32)
    } else if name == "u32"@ {
        Some(MemoryKind::U32)
    } else if name == "i64"@ {
        Some(MemoryKind::I64)
    } else if name == "u64"@ || name == "ptr"@ {
        Some(MemoryKind::U64)
    } else if name == "f32"@ {
        Some(MemoryKind::F32)
    } else if name == "f64"@ {
        Some(MemoryKind::F64)
    } else {
        None
    }
}

/// The memory kind named `s`, in any ASCII case.
pub fn memory_kind(s: &str) -> (r: Option<MemoryKind>)
    ensures
        r == memory_kind_of(lower(s@)),
{
    let l = ascii_lowercase(s);
    let n = l.as_str();
    if is(n, "i8") {
        Some(MemoryKind::I8)
    } else if is(n, "u8") {
        Some(MemoryKind::U8)
    } else if is(n, "i16") {
        Some(MemoryKind::I16)
    } else if is(n, "u16") {
        Some(MemoryKind::U16)
    } else if is(n, "i32") {
        Some(MemoryKind::I32)
    } else if is(n, "u32") {
        Some(MemoryKind::U32)
    } else if is(n, "i64") {
        Some(MemoryKind::I64)
    } else if is(n, "u64") || is(n, "ptr") {
        Some(MemoryKind::U64)
    } else if is(n, "f32") {
        Some(MemoryKind::F32)
    } else if is(n, "f64") {
        Some(MemoryKind::F64)
    } else {
        None
    }
}

/// The open libraries, by handle id; ids count up from 1 and are never
/// reused.
pub struct HandleTable<T> {
    next_id: usize,
    entries: Vec<(usize, T)>,
}

impl<T> HandleTable<T> {
    #[verifier::type_invariant]
    closed spec fn inv(self) -> bool {
        &&& keys_distinct(self.entries@)
        &&& self.next_id >= 1
        &&& forall|i: int| 0 <= i < self.entries@.len() ==> 1 <= #[trigger] self.entries@[i].0 < self.next_id
    }

    /// The open handles by id.
    pub closed spec fn handles(&self) -> Map<usize, T> {
        assoc_map(self.entries@)
    }

    /// The id the next opened handle gets.
    pub closed spec fn next(&self) -> usize {
        self.next_id
    }

    /// No handles; the first id is 1.
    pub fn new() -> (t: HandleTable<T>)
        ensures
            t.handles() == Map::<usize, T>::empty(),
            t.next() == 1,
    {
        let t = HandleTable { next_id: 1, entries: Vec::new() };
        proof {
            crate::assoc::lemma_assoc_empty(t.entries@);
        }
        t
    }

    /// The id the next opened handle gets.
    pub fn upcoming_id(&self) -> (n: usize)
        ensures
            n == self.next(),
    {
        self.next_id
    }

    /// Files `value` under a fresh id and returns the id.
    pub fn open(&mut self, value: T) -> (id: usize)
        requires
            old(self).next() < usize::MAX,
        ensures
            id == old(self).next(),
            !old(self).handles().contains_key(id),
            final(self).handles() == old(self).handles().insert(id, value),
            final(self).next() == id + 1,
    {
        proof {
            use_type_invariant(&*self);
        }
        let id = self.next_id;
        let mut entries: Vec<(usize, T)> = Vec::new();
        std::mem::swap(&mut entries, &mut self.entries);
        proof {
            assert forall|i: int| 0 <= i < entries@.len() implies entries@[i].0@ != id@ by {
                assert(entries@[i].0 < id);
            }
            lemma_assoc_absent(entries@, id);
            lemma_assoc_push(entries@, id, value);
        }
        let ghost before = entries@;
        entries.push((id, value));
        proof {
            assert forall|i: int| 0 <= i < entries@.len() implies 1 <= #[trigger] entries@[i].0 < id + 1 by {
                if i < before.len() {
                    assert(entries@[i] == before[i]);
                }
            }
        }
        self.next_id = id + 1;
        self.entries = entries;
        id
    }

    /// The handle `id`, if open.
    pub fn get(&self, id: usize) -> (r: Option<&T>)
        ensures
            match r {
                Some(v) => self.handles().contains_key(id) && self.handles()[id] == *v,
                None => !self.handles().contains_key(id),
            },
    {
        proof {
            use_type_invariant(self);
        }
        let mut i: usize = 0;
        while i < self.entries.len()
            invariant
                i <= self.entries@.len(),
                keys_distinct(self.entries@),
                forall|k: int| 0 <= k < i ==> self.entries@[k].0 != id,
            decreases self.entries@.len() - i,
        {
            if self.entries[i].0 == id {
                proof {
                    lemma_assoc_lookup(self.entries@, i as int);
                }
                return Some(&self.entries[i].1);
            }
            i = i + 1;
        }
        proof {
            lemma_assoc_absent(self.entries@, id);
        }
        None
    }

    /// Closes the handle `id`: whether it was open; it is gone afterwards.
    pub fn close(&mut self, id: usize) -> (r: Option<T>)
        ensures
            r is Some == old(self).handles().contains_key(id),
            r matches Some(v) ==> v == old(self).handles()[id],
            final(self).handles() == old(self).handles().remove(id),
            final(self).next() == old(self).next(),
    {
        proof {
            use_type_invariant(&*self);
        }
        let mut pos: Option<usize> = None;
        let mut i: usize = 0;
        while i < self.entries.len()
            invariant_except_break
                pos is None,
            invariant
                i <= self.entries@.len(),
                forall|k: int| 0 <= k < i ==> self.entries@[k].0 != id,
            ensures
                match pos {
                    Some(p) => p < self.entries@.len() && self.entries@[p as int].0 == id,
                    None => forall|k: int| 0 <= k < self.entries@.len() ==> self.entries@[k].0 != id,
                },
            decreases self.entries@.len() - i,
        {
            if self.entries[i].0 == id {
                pos = Some(i);
                break;
            }
            i = i + 1;
        }
        match pos {
            Some(p) => {
                proof {
                    lemma_assoc_lookup(self.entries@, p as int);
                }
                let mut entries: Vec<(usize, T)> = Vec::new();
                std::mem::swap(&mut entries, &mut self.entries);
                proof {
                    lemma_assoc_remove(entries@, p as int);
                }
                let ghost before = entries@;
                let (_, v) = entries.remove(p);
                proof {
                    assert forall|k: int| 0 <= k < entries@.len() implies 1 <= #[trigger] entries@[k].0 < self.next_id by {
                        if k < p {
                            assert(entries@[k] == before[k]);
                        } else {
                            assert(entries@[k] == before[k + 1]);
                        }
                    }
                }
                self.entries = entries;
                Some(v)
            },
            None => {
                proof {
                    lemma_assoc_absent(self.entries@, id);
                    assert(self.handles().remove(id) =~= self.handles());
                }
                None
            },
        }
    }
}

/// Ids are never reused: an id handed out is below every later one.
pub proof fn law_handle_ids_increase<T>(before: Map<usize, T>, next: usize, id: usize, value: T)
    requires
        id == next,
        forall|k: usize| before.contains_key(k) ==> k < next,
    ensures
        !before.contains_key(id),
        forall|k: usize| before.insert(id, value).contains_key(k) ==> k < next + 1,
{
}

/// A result declared signed comes back as a signed value whose bits, read at
/// the declared width, are the low bits of the raw register; one declared
/// unsigned comes back as a non-negative value with those bits. So `-5` in an
/// `i64` register (all ones but the last bits) is `BigInt(-5)`.
pub proof fn law_return_values_keep_register_bits(res: usize)
    ensures
        convert_spec(res, FFIType::I64) matches ReturnValue::BigInt(v) && v as u64 == res as u64,
        convert_spec(res, FFIType::U64) matches ReturnValue::BigUint(v) && v == res as u64,
        convert_spec(res, FFIType::Ptr) matches ReturnValue::BigUint(v) && v == res as u64,
        convert_spec(res, FFIType::I32) matches ReturnValue::Integer(v) && v as u32 == res as u32,
        convert_spec(res, FFIType::U32) matches ReturnValue::Unsigned(v) && v == res as u32,
        convert_spec(res, FFIType::I16) matches ReturnValue::Integer(v) && -0x8000 <= v < 0x8000 && v as u16 == res as u16,
        convert_spec(res, FFIType::U16) matches ReturnValue::Integer(v) && 0 <= v < 0x10000 && v as u16 == res as u16,
        convert_spec(res, FFIType::I8) matches ReturnValue::Integer(v) && -0x80 <= v < 0x80 && v as u8 == res as u8,
        convert_spec(res, FFIType::U8) matches ReturnValue::Integer(v) && 0 <= v < 0x100 && v as u8 == res as u8,
        convert_spec(res, FFIType::Bool) == ReturnValue::Boolean(res != 0),
{
    assert(((res as i64) as u64) == (res as u64)) by (bit_vector);
    assert(((res as i32) as u32) == (res as u32)) by (bit_vector);
    assert((((res as i16) as i32) as u16) == (res as u16)) by (bit_vector);
    assert(-0x8000 <= ((res as i16) as i32) < 0x8000) by (bit_vector);
    assert((((res as u16) as i32) as u16) == (res as u16)) by (bit_vector);
    assert(0 <= ((res as u16) as i32) < 0x10000) by (bit_vector);
    assert((((res as i8) as i32) as u8) == (res as u8)) by (bit_vector);
    assert(-0x80 <= ((res as i8) as i32) < 0x80) by (bit_vector);
    assert((((res as u8) as i32) as u8) == (res as u8)) by (bit_vector);
    assert(0 <= ((res as u8) as i32) < 0x100) by (bit_vector);
}

/// Parsing argument type names keeps their order and skips the unsupported
/// ones: the types of two lists of names one after the other are those of each
/// list, one after the other.
pub proof fn law_parsed_types_concat(a: Seq<Seq<char>>, b: Seq<Seq<char>>)
    ensures
        parsed_types(a + b) == parsed_types(a) + parsed_types(b),
    decreases b.len(),
{
    if b.len() == 0 {
        assert(a + b =~= a);
        assert(parsed_types(a) + parsed_types(b) =~= parsed_types(a));
    } else {
        law_parsed_types_concat(a, b.drop_last());
        assert((a + b).drop_last() =~= a + b.drop_last());
        assert((a + b).last() == b.last());
        match type_of_name(lower(b.last())) {
            Some(t) => {
                assert(parsed_types(a) + parsed_types(b.drop_last()).push(t) =~= (parsed_types(a) + parsed_types(b.drop_last())).push(t));
            },
            None => {},
        }
    }
}

} // verus!
