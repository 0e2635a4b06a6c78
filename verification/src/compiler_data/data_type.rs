//! Type handles and the per-compilation registry that maps them to descriptors.

use std::collections::HashMap;
use vstd::prelude::*;

verus! {

broadcast use vstd::std_specs::hash::group_hash_axioms;

/// Opaque handle of a data type. The wrapped number is the handle itself;
/// the associated constants are the numbers of the built-in types.
#[derive(Clone, Copy, Debug, PartialEq, Eq, Structural, PartialOrd, Ord, Hash)]
pub struct TypeId(pub u32);

impl TypeId {
    pub const VOID: u32 = 0;

    pub const INT8: u32 = 1;

    pub const UINT8: u32 = 2;

    pub const INT16: u32 = 3;

    pub const UINT16: u32 = 4;

    pub const INT32: u32 = 5;

    pub const UINT32: u32 = 6;

    pub const INT64: u32 = 7;

    pub const UINT64: u32 = 8;

    pub const INT128: u32 = 9;

    pub const UINT128: u32 = 10;

    pub const FLOAT32: u32 = 11;

    pub const FLOAT64: u32 = 12;

    /// The largest built-in handle; fresh handles are allocated above it.
    pub const BUILTIN_MAX: u32 = 12;

    /// A signed integer type of any width.
    pub open spec fn spec_is_signed_integer(self) -> bool {
        self.0 == Self::INT8 || self.0 == Self::INT16 || self.0 == Self::INT32 || self.0
            == Self::INT64 || self.0 == Self::INT128
    }

    /// An unsigned integer type of any width.
    pub open spec fn spec_is_unsigned_integer(self) -> bool {
        self.0 == Self::UINT8 || self.0 == Self::UINT16 || self.0 == Self::UINT32 || self.0
            == Self::UINT64 || self.0 == Self::UINT128
    }

    /// An integer type, signed or unsigned.
    pub open spec fn spec_is_integer(self) -> bool {
        self.is_signed_integer() || self.is_unsigned_integer()
    }

    /// A floating-point type.
    pub open spec fn spec_is_float(self) -> bool {
        self.0 == Self::FLOAT32 || self.0 == Self::FLOAT64
    }

    /// One of the twelve built-in numeric types.
    pub open spec fn is_numeric(self) -> bool {
        self.is_integer() || self.is_float()
    }

    /// A 128-bit integer type, which the backend cannot pass as an immediate.
    pub open spec fn spec_is_wide(self) -> bool {
        self.0 == Self::INT128 || self.0 == Self::UINT128
    }

    /// Whether this is a signed integer type of any width.
    #[verifier::when_used_as_spec(spec_is_signed_integer)]
    pub fn is_signed_integer(self) -> (answer: bool)
        ensures
            answer == self.spec_is_signed_integer(),
    {
        self.0 == Self::INT8 || self.0 == Self::INT16 || self.0 == Self::INT32 || self.0
            == Self::INT64 || self.0 == Self::INT128
    }

    /// Whether this is an unsigned integer type of any width.
    #[verifier::when_used_as_spec(spec_is_unsigned_integer)]
    pub fn is_unsigned_integer(self) -> (answer: bool)
        ensures
            answer == self.spec_is_unsigned_integer(),
    {
        self.0 == Self::UINT8 || self.0 == Self::UINT16 || self.0 == Self::UINT32 || self.0
            == Self::UINT64 || self.0 == Self::UINT128
    }

    /// Whether this is an integer type, signed or unsigned.
    #[verifier::when_used_as_spec(spec_is_integer)]
    pub fn is_integer(self) -> (answer: bool)
        ensures
            answer == self.spec_is_integer(),
    {
        self.is_signed_integer() || self.is_unsigned_integer()
    }

    /// Whether this is a floating-point type.
    #[verifier::when_used_as_spec(spec_is_float)]
    pub fn is_float(self) -> (answer: bool)
        ensures
            answer == self.spec_is_float(),
    {
        self.0 == Self::FLOAT32 || self.0 == Self::FLOAT64
    }

    /// Whether this is a 128-bit integer type.
    #[verifier::when_used_as_spec(spec_is_wide)]
    pub fn is_wide(self) -> (answer: bool)
        ensures
            answer == self.spec_is_wide(),
    {
        self.0 == Self::INT128 || self.0 == Self::UINT128
    }

    /// The width in bits of a built-in numeric type, 0 for any other handle.
    pub open spec fn spec_bit_width(self) -> u32 {
        if self.0 == Self::INT8 || self.0 == Self::UINT8 {
            8
        } else if self.0 == Self::INT16 || self.0 == Self::UINT16 {
            16
        } else if self.0 == Self::INT32 || self.0 == Self::UINT32 || self.0 == Self::FLOAT32 {
            32
        } else if self.0 == Self::INT64 || self.0 == Self::UINT64 || self.0 == Self::FLOAT64 {
            64
        } else if self.0 == Self::INT128 || self.0 == Self::UINT128 {
            128
        } else {
            0
        }
    }

    /// The width in bits of a built-in numeric type, 0 for any other handle.
    #[verifier::when_used_as_spec(spec_bit_width)]
    pub fn bit_width(self) -> (bits: u32)
        ensures
            bits == self.spec_bit_width(),
    {
        if self.0 == Self::INT8 || self.0 == Self::UINT8 {
            8
        } else if self.0 == Self::INT16 || self.0 == Self::UINT16 {
            16
        } else if self.0 == Self::INT32 || self.0 == Self::UINT32 || self.0 == Self::FLOAT32 {
            32
        } else if self.0 == Self::INT64 || self.0 == Self::UINT64 || self.0 == Self::FLOAT64 {
            64
        } else if self.0 == Self::INT128 || self.0 == Self::UINT128 {
            128
        } else {
            0
        }
    }
}

/// Classification of a data type.
#[derive(Clone, Copy, Debug, PartialEq, Eq, Structural)]
pub enum TypeDesc {
    Raw,
    Struct,
    Enum,
}

/// Descriptor behind a type handle: the type's name and its classification.
#[derive(Clone, Debug, PartialEq, Eq)]
pub struct DataType {
    pub name: String,
    pub desc: TypeDesc,
}

impl DataType {
    /// The descriptor's name as text.
    #[must_use]
    pub fn to_string(&self) -> (text: String)
        ensures
            text@ == self.name@,
    {
        self.name.clone()
    }
}

/// The name under which a built-in handle is registered.
pub open spec fn builtin_name(raw: u32) -> Seq<char> {
    if raw == TypeId::VOID {
        "void"@
    } else if raw == TypeId::INT8 {
        "int8"@
    } else if raw == TypeId::UINT8 {
        "uint8"@
    } else if raw == TypeId::INT16 {
        "int16"@
    } else if raw == TypeId::UINT16 {
        "uint16"@
    } else if raw == TypeId::INT32 {
        "int32"@
    } else if raw == TypeId::UINT32 {
        "uint32"@
    } else if raw == TypeId::INT64 {
        "int64"@
    } else if raw == TypeId::UINT64 {
        "uint64"@
    } else if raw == TypeId::INT128 {
        "int128"@
    } else if raw == TypeId::UINT128 {
        "uint128"@
    } else if raw == TypeId::FLOAT32 {
        "float32"@
    } else {
        "float64"@
    }
}

/// Registry of the data types of one compilation. Handles are allocated
/// monotonically: the built-in ones at creation, fresh ones above them.
pub struct TypeInterner {
    type_cnt: u32,
    to_data_type: HashMap<u32, DataType>,
}

impl View for TypeInterner {
    type V = Map<u32, DataType>;

    /// The registered descriptors, keyed by handle number.
    closed spec fn view(&self) -> Map<u32, DataType> {
        self.to_data_type@
    }
}

impl TypeInterner {
    /// The number of the handle allocated last.
    pub closed spec fn last_handle(&self) -> u32 {
        self.type_cnt
    }

    /// The registry holds exactly the handles allocated so far, and the
    /// built-in ones still carry their names.
    pub open spec fn wf(&self) -> bool {
        &&& self.last_handle() >= TypeId::BUILTIN_MAX
        &&& forall|raw: u32| self@.contains_key(raw) <==> raw <= self.last_handle()
        &&& forall|raw: u32|
            raw <= TypeId::BUILTIN_MAX ==> (#[trigger] self@[raw]).name@ == builtin_name(raw)
                && self@[raw].desc == TypeDesc::Raw
    }

    fn register(&mut self, raw: u32, name: &str)
        ensures
            final(self)@ == old(self)@.insert(raw, DataType { name: final(self)@[raw].name, desc: TypeDesc::Raw }),
            final(self)@[raw].name@ == name@,
            final(self).last_handle() == old(self).last_handle(),
    {
        self.to_data_type.insert(raw, DataType { name: name.to_owned(), desc: TypeDesc::Raw });
    }

    /// A registry that holds the built-in types and nothing else.
    #[must_use]
    pub fn create() -> (interner: TypeInterner)
        ensures
            interner.wf(),
            interner.last_handle() == TypeId::BUILTIN_MAX,
    {
        let mut interner = TypeInterner { type_cnt: TypeId::BUILTIN_MAX, to_data_type: HashMap::new() };
        interner.register(TypeId::VOID, "void");
        interner.register(TypeId::INT8, "int8");
        interner.register(TypeId::UINT8, "uint8");
        interner.register(TypeId::INT16, "int16");
        interner.register(TypeId::UINT16, "uint16");
        interner.register(TypeId::INT32, "int32");
        interner.register(TypeId::UINT32, "uint32");
        interner.register(TypeId::INT64, "int64");
        interner.register(TypeId::UINT64, "uint64");
        interner.register(TypeId::INT128, "int128");
        interner.register(TypeId::UINT128, "uint128");
        interner.register(TypeId::FLOAT32, "float32");
        interner.register(TypeId::FLOAT64, "float64");
        interner
    }

    /// Registers `data_type` under a fresh handle, the successor of the last one.
    #[must_use]
    pub fn new_type(&mut self, data_type: DataType) -> (id: TypeId)
        requires
            old(self).wf(),
            old(self).last_handle() < u32::MAX,
        ensures
            final(self).wf(),
            id.0 == old(self).last_handle() + 1,
            final(self).last_handle() == id.0,
            final(self)@ == old(self)@.insert(id.0, data_type),
    {
        self.type_cnt += 1;
        let new_id = TypeId(self.type_cnt);
        self.to_data_type.insert(self.type_cnt, data_type);
        new_id
    }

    /// The descriptor registered under `id`, if the handle was allocated.
    pub fn get(&self, id: TypeId) -> (found: Option<&DataType>)
        ensures
            found == (if self@.contains_key(id.0) {
                Some(&self@[id.0])
            } else {
                None
            }),
    {
        self.to_data_type.get(&id.0)
    }
}

} // verus!
