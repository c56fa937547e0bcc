//! The view-instance contract and the accessor address semantics.
//!
//! A view instance wraps exactly one base-address word and owns nothing: it
//! is plain data, freely duplicable, and its identity is its address value
//! alone. The accessors compute addresses from the base and a validated
//! field descriptor; what the addressed memory holds is the caller's
//! responsibility and is modeled separately (see [`crate::access`]).

use vstd::prelude::*;

use crate::schema::AccessMode;
use crate::schema::FieldDescriptor;

verus! {

/// The runtime value a schema binds to a base address: a single untyped
/// machine word. It never owns the memory it addresses, so duplication and
/// disposal have no resource effects.
#[derive(Clone, Copy, Debug)]
pub struct ViewInstance {
    base: usize,
}

impl View for ViewInstance {
    type V = usize;

    /// A view instance is, semantically, its base address and nothing more.
    closed spec fn view(&self) -> usize {
        self.base
    }
}

impl ViewInstance {
    /// The address a field's accessor computes: base plus the field's byte
    /// offset.
    pub open spec fn spec_field_addr(self, offset: int) -> int {
        self@ + offset
    }

    /// The indexed array accessor's result: the element address for an
    /// index within bounds, absent otherwise. The per-element stride is the
    /// declared array size itself, not an element width — the arithmetic
    /// the accessors are specified to perform.
    pub open spec fn spec_array_elem(self, offset: int, size: int, index: int) -> Option<int> {
        if 0 <= index < size {
            Some(self@ + offset + index * size)
        } else {
            None
        }
    }

    /// Whether the base address is the zero sentinel.
    pub open spec fn spec_is_null(self) -> bool {
        self@ == 0
    }
}

/// An optional machine-word address, widened to the mathematical integers.
pub open spec fn addr_option_as_int(r: Option<usize>) -> Option<int> {
    match r {
        Some(a) => Some(a as int),
        None => None,
    }
}

impl ViewInstance {
    /// Binds a view to a raw base address. The caller asserts the address
    /// stays valid for as long as the view is used.
    pub fn from_addr(addr: usize) -> (v: ViewInstance)
        ensures
            v@ == addr,
    {
        ViewInstance { base: addr }
    }

    /// Whether the base address is the zero sentinel.
    pub fn is_null(&self) -> (r: bool)
        ensures
            r == self.spec_is_null(),
    {
        self.base == 0
    }

    /// The raw base address word.
    pub fn addr(&self) -> (r: usize)
        ensures
            r == self@,
    {
        self.base
    }

    /// Address of a field: base plus its declared byte offset. No alignment
    /// precondition is imposed on either.
    pub fn field_addr(&self, d: &FieldDescriptor) -> (r: usize)
        requires
            self@ + d.offset <= usize::MAX,
        ensures
            r == self.spec_field_addr(d.offset as int),
    {
        self.base + d.offset
    }

    /// Reinterpret-mode accessor: the computed address itself is the
    /// returned pointer value, independent of the bytes stored there —
    /// nothing is read through the address.
    pub fn reinterpret_addr(&self, d: &FieldDescriptor) -> (r: usize)
        requires
            d.mode is Reinterpret,
            self@ + d.offset <= usize::MAX,
        ensures
            r == self.spec_field_addr(d.offset as int),
    {
        self.base + d.offset
    }

    /// Array-mode base accessor: the address of element zero, as a pointer
    /// value. The renderer keeps this accessor non-public; callers reach
    /// elements only through the bounds-checked [`Self::array_elem_addr`].
    pub fn array_base_addr(&self, d: &FieldDescriptor) -> (r: usize)
        requires
            d.mode is Array,
            self@ + d.offset <= usize::MAX,
        ensures
            r == self.spec_field_addr(d.offset as int),
    {
        self.base + d.offset
    }

    /// Indexed array accessor: absent for an index at or past the declared
    /// size, otherwise the pointer value at base address plus offset plus
    /// `index` times the declared size. The stride is deliberately the
    /// declared array length, reproducing the specified accessor arithmetic
    /// exactly rather than an element width.
    pub fn array_elem_addr(&self, d: &FieldDescriptor, index: usize) -> (r: Option<usize>)
        requires
            d.mode is Array,
            index < d.mode->size ==> self@ + d.offset + index * d.mode->size <= usize::MAX,
        ensures
            addr_option_as_int(r) == self.spec_array_elem(
                d.offset as int,
                d.mode->size as int,
                index as int,
            ),
    {
        match d.mode {
            AccessMode::Array { size } => {
                if index >= size {
                    None
                } else {
                    let element_base = self.base + d.offset;
                    Some(element_base + index * size)
                }
            },
            _ => None,
        }
    }
}

/// Law: a duplicated view instance behaves exactly like its original. The
/// copy carries the address word only, and every accessor result — null
/// check, raw address, field address, reinterpreted pointer value, indexed
/// array element — is a function of that word, so original and copy agree
/// on all of them for every field and index. Direct-mode loads read the
/// bytes at the computed field address, so address agreement carries over
/// to them as well.
pub proof fn lemma_duplicate_accessors_agree(original: ViewInstance, copy: ViewInstance)
    requires
        copy@ == original@,
    ensures
        copy.spec_is_null() == original.spec_is_null(),
        forall|offset: int| copy.spec_field_addr(offset) == original.spec_field_addr(offset),
        forall|offset: int, size: int, index: int|
            copy.spec_array_elem(offset, size, index) == original.spec_array_elem(
                offset,
                size,
                index,
            ),
{
}

} // verus!
