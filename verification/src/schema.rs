//! Field descriptors, their validation rules, and schema construction.
//!
//! A raw declaration carries, per field, a byte offset and the optional
//! `array` / `reinterpret` modifiers. Validation resolves each declaration
//! into an access mode or rejects the whole schema with a field-attributed
//! error; partial schemas are never produced.

use vstd::prelude::*;

verus! {

/// Raw offset annotation of one field, before validation: the byte offset
/// from the view's base address and the two optional modifiers.
#[derive(Clone, Copy, Debug)]
pub struct OffsetAttr {
    /// Byte offset from the base address; explicit, never inferred.
    pub offset: usize,
    /// Declared array size, when the field is an array of pointers.
    pub array: Option<usize>,
    /// Reinterpret the computed address itself as the field's pointer value.
    pub reinterpret: bool,
}

/// Access mode a validated field resolves to.
#[derive(Clone, Copy, Debug, PartialEq, Eq, Structural)]
pub enum AccessMode {
    /// Unaligned load of the field's bytes at base + offset, returned by copy.
    Direct,
    /// The computed address base + offset, returned as the pointer value.
    Reinterpret,
    /// Bounds-checked indexed access over `size` elements.
    Array { size: usize },
}

/// The reasons schema construction can fail.
#[derive(Clone, Copy, Debug, PartialEq, Eq, Structural)]
pub enum ErrorKind {
    /// A field carries no recognized access-mode annotation at all.
    MissingModeAnnotation,
    /// Both `array` and `reinterpret` were requested on one field.
    ConflictingModifiers,
    /// The declared array size is zero.
    InvalidArraySize,
    /// Two fields within one schema share a name.
    DuplicateFieldName,
    /// Schema-level structural restrictions violated (unnamed fields,
    /// generic parameters).
    UnsupportedShape,
}

/// A construction-time error, attributed to the offending field where one
/// exists. All such errors are fatal to building that one schema.
#[derive(Clone, Debug)]
pub struct SchemaError {
    pub kind: ErrorKind,
    /// Name of the offending field; absent for schema-level shape errors.
    pub field: Option<String>,
}

/// One field as declared: its name and its offset annotation, if any.
#[derive(Clone, Debug)]
pub struct RawField {
    pub name: String,
    pub attr: Option<OffsetAttr>,
}

/// A whole raw declaration: the schema name, the structural facts validation
/// needs, and the fields in declaration order.
#[derive(Clone, Debug)]
pub struct SchemaDecl {
    pub name: String,
    /// Whether the declaration uses named fields (tuple shapes are rejected).
    pub named_fields: bool,
    /// Whether the declaration carries generic parameters (rejected).
    pub has_generics: bool,
    pub fields: Vec<RawField>,
}

/// A validated field: name, byte offset, and resolved access mode. Immutable
/// once built.
#[derive(Clone, Debug)]
pub struct FieldDescriptor {
    pub name: String,
    pub offset: usize,
    pub mode: AccessMode,
}

/// A validated schema: the named, ordered collection of field descriptors.
#[derive(Clone, Debug)]
pub struct Schema {
    pub name: String,
    pub fields: Vec<FieldDescriptor>,
}

impl OffsetAttr {
    /// Both modifiers at once: the modes are mutually exclusive.
    pub open spec fn conflicting(self) -> bool {
        self.array is Some && self.reinterpret
    }

    /// An `array` modifier with size zero: a validation failure, not a
    /// degenerate empty array.
    pub open spec fn zero_array(self) -> bool {
        self.array == Some(0usize)
    }

    /// The annotation passes both per-field validation rules.
    pub open spec fn valid(self) -> bool {
        !self.conflicting() && !self.zero_array()
    }

    /// The access mode a valid annotation resolves to: `array` wins over
    /// `reinterpret` wins over the default direct load.
    pub open spec fn spec_mode(self) -> AccessMode {
        if self.array is Some {
            AccessMode::Array { size: self.array->0 }
        } else if self.reinterpret {
            AccessMode::Reinterpret
        } else {
            AccessMode::Direct
        }
    }

    /// Whether the field is declared as an array.
    pub fn is_array(&self) -> (r: bool)
        ensures
            r == (self.array is Some),
    {
        self.array.is_some()
    }

    /// Whether the annotation passes validation: no conflicting modifiers
    /// and no zero array size.
    pub fn is_valid(&self) -> (r: bool)
        ensures
            r == self.valid(),
    {
        let conflict = self.array.is_some() && self.reinterpret;
        let zero = match self.array {
            Some(s) => s == 0,
            None => false,
        };
        !conflict && !zero
    }
}

/// The result rejects the named field for the given reason.
pub open spec fn is_field_error<T>(r: Result<T, SchemaError>, kind: ErrorKind, field: Seq<char>) -> bool {
    &&& r matches Err(e)
    &&& e.kind == kind
    &&& e.field matches Some(f)
    &&& f@ == field
}

impl OffsetAttr {
    /// Resolves the annotation into an access mode, or rejects it: a
    /// modifier conflict is reported first, a zero array size second.
    pub fn resolve_mode(&self, field: &str) -> (r: Result<AccessMode, SchemaError>)
        ensures
            self.conflicting() ==> is_field_error(r, ErrorKind::ConflictingModifiers, field@),
            !self.conflicting() && self.zero_array() ==> is_field_error(
                r,
                ErrorKind::InvalidArraySize,
                field@,
            ),
            self.valid() ==> r == Ok::<AccessMode, SchemaError>(self.spec_mode()),
    {
        if self.array.is_some() && self.reinterpret {
            return Err(
                SchemaError { kind: ErrorKind::ConflictingModifiers, field: Some(field.to_owned()) },
            );
        }
        match self.array {
            Some(size) => {
                if size == 0 {
                    Err(
                        SchemaError {
                            kind: ErrorKind::InvalidArraySize,
                            field: Some(field.to_owned()),
                        },
                    )
                } else {
                    Ok(AccessMode::Array { size })
                }
            },
            None => {
                if self.reinterpret {
                    Ok(AccessMode::Reinterpret)
                } else {
                    Ok(AccessMode::Direct)
                }
            },
        }
    }
}

/// Why a field is rejected on its own, whatever stands around it: a missing
/// annotation, a modifier conflict, or a zero array size.
pub open spec fn field_error_kind(f: RawField) -> Option<ErrorKind> {
    if f.attr is None {
        Some(ErrorKind::MissingModeAnnotation)
    } else if f.attr->0.conflicting() {
        Some(ErrorKind::ConflictingModifiers)
    } else if f.attr->0.zero_array() {
        Some(ErrorKind::InvalidArraySize)
    } else {
        None
    }
}

/// The field at index `i` repeats the name of an earlier field.
pub open spec fn duplicates_earlier(fields: Seq<RawField>, i: int) -> bool {
    exists|j: int| 0 <= j < i && fields[j].name@ == fields[i].name@
}

/// The field at index `i` passes validation in declaration order.
pub open spec fn field_accepted(fields: Seq<RawField>, i: int) -> bool {
    field_error_kind(fields[i]) is None && !duplicates_earlier(fields, i)
}

/// Index of the first rejected field at or after `i`, or the length when
/// every remaining field is accepted.
pub open spec fn first_rejected_from(fields: Seq<RawField>, i: int) -> int
    decreases fields.len() - i,
{
    if i < 0 || i >= fields.len() {
        fields.len() as int
    } else if !field_accepted(fields, i) {
        i
    } else {
        first_rejected_from(fields, i + 1)
    }
}

/// Index of the first rejected field, or the length when all are accepted.
pub open spec fn first_rejected(fields: Seq<RawField>) -> int {
    first_rejected_from(fields, 0)
}

/// The error kind the field at index `i` is rejected with: its own problem
/// where it has one, a duplicated name otherwise.
pub open spec fn rejection_kind(fields: Seq<RawField>, i: int) -> ErrorKind {
    match field_error_kind(fields[i]) {
        Some(k) => k,
        None => ErrorKind::DuplicateFieldName,
    }
}

impl SchemaDecl {
    /// Structural restrictions: named fields only, no generic parameters.
    pub open spec fn shape_ok(self) -> bool {
        self.named_fields && !self.has_generics
    }

    /// The whole declaration validates: acceptable shape, every field
    /// carries a valid annotation, and no field name repeats.
    pub open spec fn valid(self) -> bool {
        self.shape_ok() && first_rejected(self.fields@) == self.fields@.len()
    }
}

impl FieldDescriptor {
    /// A validated descriptor never carries a zero array size.
    pub open spec fn mode_valid(self) -> bool {
        match self.mode {
            AccessMode::Array { size } => size > 0,
            _ => true,
        }
    }
}

/// Descriptor `d` is exactly what the raw field `f` resolves to.
pub open spec fn descriptor_matches(d: FieldDescriptor, f: RawField) -> bool {
    &&& d.name@ == f.name@
    &&& f.attr matches Some(a) && d.offset == a.offset && d.mode == a.spec_mode()
}

impl Schema {
    /// Invariant of every schema that construction hands out: field names
    /// are unique and every access mode is valid.
    pub open spec fn wf(self) -> bool {
        &&& forall|i: int, j: int|
            0 <= i < j < self.fields@.len() ==> self.fields@[i].name@ != self.fields@[j].name@
        &&& forall|i: int| 0 <= i < self.fields@.len() ==> self.fields@[i].mode_valid()
    }
}

proof fn lemma_first_rejected_pins(fields: Seq<RawField>, k: int, i: int)
    requires
        0 <= k <= i < fields.len(),
        forall|j: int| k <= j < i ==> field_accepted(fields, j),
        !field_accepted(fields, i),
    ensures
        first_rejected_from(fields, k) == i,
    decreases i - k,
{
    if k < i {
        lemma_first_rejected_pins(fields, k + 1, i);
    }
}

proof fn lemma_first_rejected_all(fields: Seq<RawField>, k: int)
    requires
        0 <= k <= fields.len(),
        forall|j: int| k <= j < fields.len() ==> field_accepted(fields, j),
    ensures
        first_rejected_from(fields, k) == fields.len(),
    decreases fields.len() - k,
{
    if k < fields.len() {
        lemma_first_rejected_all(fields, k + 1);
    }
}

proof fn lemma_first_rejected_le(fields: Seq<RawField>, k: int, i: int)
    requires
        0 <= k <= i < fields.len(),
        !field_accepted(fields, i),
    ensures
        first_rejected_from(fields, k) <= i,
    decreases i - k,
{
    if k < i && field_accepted(fields, k) {
        lemma_first_rejected_le(fields, k + 1, i);
    }
}

/// Law: a declaration holding any field whose own annotation is invalid — a
/// missing annotation, both modifiers at once, or a zero array size — never
/// builds, whatever the rest of the declaration looks like. Which error is
/// reported is decided by declaration order; see [`build_schema`].
pub proof fn lemma_invalid_field_never_builds(decl: SchemaDecl, i: int)
    requires
        0 <= i < decl.fields@.len(),
        field_error_kind(decl.fields@[i]) is Some,
    ensures
        !decl.valid(),
{
    lemma_first_rejected_le(decl.fields@, 0, i);
}

/// Law: a field declaring both `array` and `reinterpret` always makes schema
/// construction fail with `ConflictingModifiers`, whatever offset or size it
/// carries and whatever follows it in the declaration; only a problem in an
/// earlier field takes precedence. The two modifiers are independent flags of
/// the annotation, so no argument order can influence the outcome.
///
/// Together with the contract of [`build_schema`], this pins the result:
/// construction returns exactly that error, attributed to the field.
pub proof fn lemma_conflicting_modifiers_rejected(decl: SchemaDecl, i: int)
    requires
        decl.shape_ok(),
        0 <= i < decl.fields@.len(),
        forall|j: int| 0 <= j < i ==> field_accepted(decl.fields@, j),
        decl.fields@[i].attr matches Some(a) && a.conflicting(),
    ensures
        !decl.valid(),
        first_rejected(decl.fields@) == i,
        rejection_kind(decl.fields@, i) == ErrorKind::ConflictingModifiers,
{
    lemma_first_rejected_pins(decl.fields@, 0, i);
}

/// Law: a field declaring `array(0)` (without a conflicting `reinterpret`)
/// always makes schema construction fail with `InvalidArraySize`; only a
/// problem in an earlier field takes precedence. The size check comes after
/// conflict resolution: a field cannot be both array and reinterpret in the
/// first place.
///
/// Together with the contract of [`build_schema`], this pins the result:
/// construction returns exactly that error, attributed to the field.
pub proof fn lemma_zero_array_size_rejected(decl: SchemaDecl, i: int)
    requires
        decl.shape_ok(),
        0 <= i < decl.fields@.len(),
        forall|j: int| 0 <= j < i ==> field_accepted(decl.fields@, j),
        decl.fields@[i].attr matches Some(a) && !a.conflicting() && a.zero_array(),
    ensures
        !decl.valid(),
        first_rejected(decl.fields@) == i,
        rejection_kind(decl.fields@, i) == ErrorKind::InvalidArraySize,
{
    lemma_first_rejected_pins(decl.fields@, 0, i);
}

/// Builds a validated schema from a raw declaration, or fails with the first
/// error in declaration order. Partial schemas are never produced: on any
/// error the whole construction is rejected.
///
/// Shape problems are reported before field problems; within one field, a
/// missing annotation, a modifier conflict and a zero array size are
/// reported in that order, and a duplicated name only for a field whose own
/// annotation is valid.
#[verifier::loop_isolation(false)]
pub fn build_schema(decl: &SchemaDecl) -> (r: Result<Schema, SchemaError>)
    ensures
        r is Ok <==> decl.valid(),
        r matches Ok(s) ==> {
            &&& s.wf()
            &&& s.name@ == decl.name@
            &&& s.fields@.len() == decl.fields@.len()
            &&& forall|i: int|
                0 <= i < decl.fields@.len() ==> descriptor_matches(s.fields@[i], decl.fields@[i])
        },
        !decl.shape_ok() ==> (r matches Err(e) && e.kind == ErrorKind::UnsupportedShape
            && e.field is None),
        decl.shape_ok() && !decl.valid() ==> is_field_error(
            r,
            rejection_kind(decl.fields@, first_rejected(decl.fields@)),
            decl.fields@[first_rejected(decl.fields@)].name@,
        ),
{
    if !decl.named_fields || decl.has_generics {
        return Err(SchemaError { kind: ErrorKind::UnsupportedShape, field: None });
    }
    let n = decl.fields.len();
    let mut fields: Vec<FieldDescriptor> = Vec::new();
    let mut i: usize = 0;
    while i < n
        invariant
            n == decl.fields@.len(),
            i <= n,
            fields@.len() == i,
            forall|j: int| 0 <= j < i ==> field_accepted(decl.fields@, j),
            forall|j: int| 0 <= j < i ==> descriptor_matches(#[trigger] fields@[j], decl.fields@[j]),
        decreases n - i,
    {
        let f = &decl.fields[i];
        let (mode, offset) = match &f.attr {
            None => {
                proof {
                    lemma_first_rejected_pins(decl.fields@, 0, i as int);
                }
                return Err(
                    SchemaError {
                        kind: ErrorKind::MissingModeAnnotation,
                        field: Some(f.name.clone()),
                    },
                );
            },
            Some(a) => {
                match a.resolve_mode(f.name.as_str()) {
                    Ok(m) => (m, a.offset),
                    Err(e) => {
                        proof {
                            lemma_first_rejected_pins(decl.fields@, 0, i as int);
                        }
                        return Err(e);
                    },
                }
            },
        };
        let mut j: usize = 0;
        while j < i
            invariant
                n == decl.fields@.len(),
                i < n,
                fields@.len() == i,
                j <= i,
                forall|k: int| 0 <= k < i ==> field_accepted(decl.fields@, k),
                forall|k: int|
                    0 <= k < i ==> descriptor_matches(#[trigger] fields@[k], decl.fields@[k]),
                forall|k: int| 0 <= k < j ==> decl.fields@[k].name@ != decl.fields@[i as int].name@,
            decreases i - j,
        {
            proof {
                assert(descriptor_matches(fields@[j as int], decl.fields@[j as int]));
            }
            if fields[j].name == f.name {
                proof {
                    assert(decl.fields@[j as int].name@ == decl.fields@[i as int].name@);
                    assert(duplicates_earlier(decl.fields@, i as int));
                    lemma_first_rejected_pins(decl.fields@, 0, i as int);
                }
                return Err(
                    SchemaError { kind: ErrorKind::DuplicateFieldName, field: Some(f.name.clone()) },
                );
            }
            j += 1;
        }
        fields.push(FieldDescriptor { name: f.name.clone(), offset, mode });
        i += 1;
    }
    proof {
        lemma_first_rejected_all(decl.fields@, 0);
        assert forall|a: int, b: int|
            0 <= a < b < fields@.len() implies fields@[a].name@ != fields@[b].name@ by {
            assert(field_accepted(decl.fields@, b));
            assert(descriptor_matches(fields@[a], decl.fields@[a]));
            assert(descriptor_matches(fields@[b], decl.fields@[b]));
            assert(!duplicates_earlier(decl.fields@, b));
            if decl.fields@[a].name@ == decl.fields@[b].name@ {
                assert(duplicates_earlier(decl.fields@, b));
            }
        };
        assert forall|a: int| 0 <= a < fields@.len() implies fields@[a].mode_valid() by {
            assert(field_accepted(decl.fields@, a));
            assert(descriptor_matches(fields@[a], decl.fields@[a]));
        };
    }
    Ok(Schema { name: decl.name.clone(), fields })
}

} // verus!
