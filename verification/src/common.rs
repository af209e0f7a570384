//! Shared value types of the IR: names, property accessors, variables and
//! typed constants, together with the error taxonomy and the plain-value
//! argument shapes that the boundary adapter fills in.

use vstd::prelude::*;

verus! {

/// Where in the source text an expression failed to parse, and how.
#[derive(Debug, Clone, Copy, PartialEq, Eq, Structural)]
pub enum ParseErrorKind {
    /// The text holds no token at all.
    EmptyInput,
    /// A byte that starts no token of the grammar.
    UnknownToken,
    /// A token that starts well but is incomplete or out of range:
    /// an unterminated string, a bare `&`, a number too large, a `@` with no tag.
    MalformedToken,
    /// A `(` without its `)`, or a stray `)` where an operand was expected.
    UnbalancedParen,
    /// A binary operator where an operand was expected.
    UnexpectedToken,
    /// The text ended where an operand was expected.
    UnexpectedEnd,
    /// A complete expression was parsed but tokens remain.
    TrailingInput,
}

/// A failed expression compilation, carrying the byte position at fault.
#[derive(Debug, Clone, Copy, PartialEq, Eq, Structural)]
pub struct ParseError {
    pub pos: usize,
    pub kind: ParseErrorKind,
}

/// The error taxonomy of every construction operation.
#[derive(Debug, Clone, Copy, PartialEq, Eq, Structural)]
pub enum IrError {
    /// A required sub-field was never set, e.g. a name built with no variant selected.
    NotExist,
    /// A negative or non-monotonic range.
    InvalidRange,
    /// A typed-constant builder was given an unrecognized type tag.
    UnknownType,
    /// A text argument that is malformed before parsing even begins.
    InvalidInputString,
    /// A parent id that is not yet in the plan.
    ParentNotFound,
    /// A parent list whose length does not match the operator's arity.
    ArityMismatch,
    /// The expression compiler rejected a predicate or projection string.
    Parse(ParseError),
}

/// A tag or schema name: either a textual name (UTF-8 bytes) or an integer id.
#[derive(Debug, PartialEq, Eq)]
pub enum NameOrId {
    Name(Vec<u8>),
    Id(i32),
}

impl Clone for NameOrId {
    fn clone(&self) -> (r: Self)
        ensures
            r@ == self@,
    {
        match self {
            NameOrId::Name(v) => NameOrId::Name(vstd::slice::slice_to_vec(v.as_slice())),
            NameOrId::Id(i) => NameOrId::Id(*i),
        }
    }
}

/// Mathematical model of a `NameOrId`.
pub enum SpecNameOrId {
    Name(Seq<u8>),
    Id(i32),
}

impl View for NameOrId {
    type V = SpecNameOrId;

    open spec fn view(&self) -> SpecNameOrId {
        match self {
            NameOrId::Name(n) => SpecNameOrId::Name(n@),
            NameOrId::Id(i) => SpecNameOrId::Id(*i),
        }
    }
}

impl DeepView for NameOrId {
    type V = SpecNameOrId;

    open spec fn deep_view(&self) -> SpecNameOrId {
        self.view()
    }
}

/// A property accessor of a bound alias: its id, its label, or a keyed property.
#[derive(Debug, PartialEq, Eq)]
pub enum Property {
    Id,
    Label,
    Key(NameOrId),
}

impl Clone for Property {
    fn clone(&self) -> (r: Self)
        ensures
            r@ == self@,
    {
        match self {
            Property::Id => Property::Id,
            Property::Label => Property::Label,
            Property::Key(k) => Property::Key(k.clone()),
        }
    }
}

/// Mathematical model of a `Property`.
pub enum SpecProperty {
    Id,
    Label,
    Key(SpecNameOrId),
}

impl View for Property {
    type V = SpecProperty;

    open spec fn view(&self) -> SpecProperty {
        match self {
            Property::Id => SpecProperty::Id,
            Property::Label => SpecProperty::Label,
            Property::Key(k) => SpecProperty::Key(k@),
        }
    }
}

impl DeepView for Property {
    type V = SpecProperty;

    open spec fn deep_view(&self) -> SpecProperty {
        self.view()
    }
}

/// A (tag, optional property accessor) pair naming a data field.
#[derive(Debug, PartialEq, Eq)]
pub struct Variable {
    pub tag: NameOrId,
    pub property: Option<Property>,
}

impl Clone for Variable {
    fn clone(&self) -> (r: Self)
        ensures
            r@ == self@,
    {
        Variable {
            tag: self.tag.clone(),
            property: match &self.property {
                Option::Some(p) => Option::Some(p.clone()),
                Option::None => Option::None,
            },
        }
    }
}

/// Mathematical model of a `Variable`.
pub struct SpecVariable {
    pub tag: SpecNameOrId,
    pub property: Option<SpecProperty>,
}

impl View for Variable {
    type V = SpecVariable;

    open spec fn view(&self) -> SpecVariable {
        SpecVariable {
            tag: self.tag@,
            property: match &self.property {
                Option::Some(p) => Option::Some(p@),
                Option::None => Option::None,
            },
        }
    }
}

impl DeepView for Variable {
    type V = SpecVariable;

    open spec fn deep_view(&self) -> SpecVariable {
        self.view()
    }
}

/// A 64-bit float carried exactly as a decimal: the value `mantissa * 10^exp10`.
/// Every finite double converts exactly through its shortest round-trip decimal,
/// which the boundary adapter computes; the core never does float arithmetic.
#[derive(Debug, Clone, Copy, PartialEq, Eq, Structural)]
pub struct DecimalF64 {
    pub mantissa: i64,
    pub exp10: i32,
}

/// A typed constant operand.
#[derive(Debug, PartialEq, Eq)]
pub enum Const {
    Boolean(bool),
    I32(i32),
    I64(i64),
    F64(DecimalF64),
    Str(Vec<u8>),
}

impl Clone for Const {
    fn clone(&self) -> (r: Self)
        ensures
            r@ == self@,
    {
        match self {
            Const::Boolean(b) => Const::Boolean(*b),
            Const::I32(i) => Const::I32(*i),
            Const::I64(i) => Const::I64(*i),
            Const::F64(d) => Const::F64(*d),
            Const::Str(s) => Const::Str(vstd::slice::slice_to_vec(s.as_slice())),
        }
    }
}

/// Mathematical model of a `Const`.
pub enum SpecConst {
    Boolean(bool),
    I32(i32),
    I64(i64),
    F64(DecimalF64),
    Str(Seq<u8>),
}

impl View for Const {
    type V = SpecConst;

    open spec fn view(&self) -> SpecConst {
        match self {
            Const::Boolean(b) => SpecConst::Boolean(*b),
            Const::I32(i) => SpecConst::I32(*i),
            Const::I64(i) => SpecConst::I64(*i),
            Const::F64(d) => SpecConst::F64(*d),
            Const::Str(s) => SpecConst::Str(s@),
        }
    }
}

impl DeepView for Const {
    type V = SpecConst;

    open spec fn deep_view(&self) -> SpecConst {
        self.view()
    }
}

/// Which variant of a name-or-id argument the boundary selected.
#[derive(Debug, Clone, Copy, PartialEq, Eq, Structural)]
pub enum FfiNameIdOpt {
    Unset,
    Name,
    Id,
}

impl Default for FfiNameIdOpt {
    fn default() -> (r: Self)
        ensures
            r == FfiNameIdOpt::Unset,
    {
        FfiNameIdOpt::Unset
    }
}

/// A name-or-id argument as the boundary hands it in: a selector plus both
/// possible payloads, of which the selector picks one.
#[derive(Debug, PartialEq, Eq)]
pub struct FfiNameOrId {
    pub opt: FfiNameIdOpt,
    pub name: Vec<u8>,
    pub name_id: i32,
}

impl Clone for FfiNameOrId {
    fn clone(&self) -> (r: Self)
        ensures
            r.opt == self.opt,
            r.name@ == self.name@,
            r.name_id == self.name_id,
    {
        FfiNameOrId {
            opt: self.opt,
            name: vstd::slice::slice_to_vec(self.name.as_slice()),
            name_id: self.name_id,
        }
    }
}

impl Default for FfiNameOrId {
    fn default() -> (r: Self)
        ensures
            r.opt == FfiNameIdOpt::Unset,
            r.name@ == Seq::<u8>::empty(),
            r.name_id == 0,
    {
        FfiNameOrId { opt: FfiNameIdOpt::Unset, name: Vec::new(), name_id: 0 }
    }
}

/// Which property accessor a boundary property argument selected.
#[derive(Debug, Clone, Copy, PartialEq, Eq, Structural)]
pub enum FfiPropertyOpt {
    Unset,
    Id,
    Label,
    Key,
}

impl Default for FfiPropertyOpt {
    fn default() -> (r: Self)
        ensures
            r == FfiPropertyOpt::Unset,
    {
        FfiPropertyOpt::Unset
    }
}

/// A property argument as the boundary hands it in.
#[derive(Debug, PartialEq, Eq)]
pub struct FfiProperty {
    pub opt: FfiPropertyOpt,
    pub key: FfiNameOrId,
}

impl Clone for FfiProperty {
    fn clone(&self) -> (r: Self)
        ensures
            r.opt == self.opt,
            r.key.opt == self.key.opt,
            r.key.name@ == self.key.name@,
            r.key.name_id == self.key.name_id,
    {
        FfiProperty { opt: self.opt, key: self.key.clone() }
    }
}

impl Default for FfiProperty {
    fn default() -> (r: Self)
        ensures
            r.opt == FfiPropertyOpt::Unset,
            r.key.opt == FfiNameIdOpt::Unset,
            r.key.name@ == Seq::<u8>::empty(),
            r.key.name_id == 0,
    {
        FfiProperty { opt: FfiPropertyOpt::Unset, key: FfiNameOrId::default() }
    }
}

/// A variable argument as the boundary hands it in.
#[derive(Debug, PartialEq, Eq)]
pub struct FfiVariable {
    pub tag: FfiNameOrId,
    pub property: FfiProperty,
}

impl Clone for FfiVariable {
    fn clone(&self) -> (r: Self)
        ensures
            ffi_variable_ok(r) == ffi_variable_ok(*self),
            spec_variable_of(r) == spec_variable_of(*self),
    {
        FfiVariable { tag: self.tag.clone(), property: self.property.clone() }
    }
}

/// The type tag of a boundary constant.
#[derive(Debug, Clone, Copy, PartialEq, Eq, Structural)]
pub enum FfiDataType {
    Unknown,
    Boolean,
    I32,
    I64,
    F64,
    Str,
}

/// A typed constant as the boundary hands it in: a tag plus every payload slot.
#[derive(Debug, Clone, PartialEq, Eq)]
pub struct FfiConst {
    pub data_type: FfiDataType,
    pub boolean: bool,
    pub int32: i32,
    pub int64: i64,
    pub float64: DecimalF64,
    pub bytes: Vec<u8>,
}

impl Default for FfiConst {
    fn default() -> (r: Self)
        ensures
            r.data_type == FfiDataType::Unknown,
            r.boolean == false,
            r.int32 == 0,
            r.int64 == 0,
            r.float64 == (DecimalF64 { mantissa: 0, exp10: 0 }),
            r.bytes@ == Seq::<u8>::empty(),
    {
        FfiConst {
            data_type: FfiDataType::Unknown,
            boolean: false,
            int32: 0,
            int64: 0,
            float64: DecimalF64 { mantissa: 0, exp10: 0 },
            bytes: Vec::new(),
        }
    }
}

// ---------------------------------------------------------------------------
// What each boundary argument shape stands for
// ---------------------------------------------------------------------------

/// A name-or-id argument is usable when a variant was selected.
pub open spec fn ffi_name_ok(ffi: FfiNameOrId) -> bool {
    ffi.opt != FfiNameIdOpt::Unset
}

/// The name or id a usable name-or-id argument selects.
pub open spec fn spec_name_or_id_of(ffi: FfiNameOrId) -> SpecNameOrId {
    match ffi.opt {
        FfiNameIdOpt::Name => SpecNameOrId::Name(ffi.name@),
        _ => SpecNameOrId::Id(ffi.name_id),
    }
}

/// A property argument is usable unless it selects a keyed accessor whose key
/// has no variant.
pub open spec fn ffi_property_ok(ffi: FfiProperty) -> bool {
    ffi.opt != FfiPropertyOpt::Key || ffi.key.opt != FfiNameIdOpt::Unset
}

/// The accessor a usable property argument selects; an unset selector means
/// "no accessor".
pub open spec fn spec_property_of(ffi: FfiProperty) -> Option<SpecProperty> {
    match ffi.opt {
        FfiPropertyOpt::Unset => Option::None,
        FfiPropertyOpt::Id => Option::Some(SpecProperty::Id),
        FfiPropertyOpt::Label => Option::Some(SpecProperty::Label),
        FfiPropertyOpt::Key => Option::Some(SpecProperty::Key(spec_name_or_id_of(ffi.key))),
    }
}

/// A variable argument is usable when its tag is and its accessor is.
pub open spec fn ffi_variable_ok(ffi: FfiVariable) -> bool {
    ffi_name_ok(ffi.tag) && ffi_property_ok(ffi.property)
}

/// The variable a usable variable argument selects.
pub open spec fn spec_variable_of(ffi: FfiVariable) -> SpecVariable {
    SpecVariable { tag: spec_name_or_id_of(ffi.tag), property: spec_property_of(ffi.property) }
}

/// A constant argument is usable when its type tag is recognized.
pub open spec fn ffi_const_ok(ffi: FfiConst) -> bool {
    ffi.data_type != FfiDataType::Unknown
}

/// The constant a usable constant argument selects.
pub open spec fn spec_const_of(ffi: FfiConst) -> SpecConst {
    match ffi.data_type {
        FfiDataType::Boolean => SpecConst::Boolean(ffi.boolean),
        FfiDataType::I32 => SpecConst::I32(ffi.int32),
        FfiDataType::I64 => SpecConst::I64(ffi.int64),
        FfiDataType::F64 => SpecConst::F64(ffi.float64),
        _ => SpecConst::Str(ffi.bytes@),
    }
}

/// The view of an optional name.
pub open spec fn opt_name_view(x: Option<NameOrId>) -> Option<SpecNameOrId> {
    match x {
        Option::Some(n) => Option::Some(n@),
        Option::None => Option::None,
    }
}

/// The view of an optional property accessor.
pub open spec fn opt_prop_view(x: Option<Property>) -> Option<SpecProperty> {
    match x {
        Option::Some(p) => Option::Some(p@),
        Option::None => Option::None,
    }
}

/// Wrap a textual name as a name-or-id argument.
pub fn name_as_name_or_id(name: Vec<u8>) -> (r: FfiNameOrId)
    ensures
        r.opt == FfiNameIdOpt::Name,
        r.name == name,
        r.name_id == 0,
{
    FfiNameOrId { opt: FfiNameIdOpt::Name, name, name_id: 0 }
}

/// Wrap an integer as a name-or-id argument.
pub fn int_as_name_or_id(integer: i32) -> (r: FfiNameOrId)
    ensures
        r.opt == FfiNameIdOpt::Id,
        r.name@ == Seq::<u8>::empty(),
        r.name_id == integer,
{
    FfiNameOrId { opt: FfiNameIdOpt::Id, name: Vec::new(), name_id: integer }
}

/// Build an id-accessor property argument.
pub fn as_id_key() -> (r: FfiProperty)
    ensures
        r.opt == FfiPropertyOpt::Id,
        r.key.opt == FfiNameIdOpt::Unset,
{
    FfiProperty { opt: FfiPropertyOpt::Id, key: FfiNameOrId::default() }
}

/// Build a label-accessor property argument.
pub fn as_label_key() -> (r: FfiProperty)
    ensures
        r.opt == FfiPropertyOpt::Label,
        r.key.opt == FfiNameIdOpt::Unset,
{
    FfiProperty { opt: FfiPropertyOpt::Label, key: FfiNameOrId::default() }
}

/// Build a keyed-property argument from a given key.
pub fn as_property_key(key: FfiNameOrId) -> (r: FfiProperty)
    ensures
        r.opt == FfiPropertyOpt::Key,
        r.key == key,
{
    FfiProperty { opt: FfiPropertyOpt::Key, key }
}

/// Build a variable argument with no property accessor.
pub fn as_var(tag: FfiNameOrId) -> (r: FfiVariable)
    ensures
        r.tag == tag,
        r.property.opt == FfiPropertyOpt::Unset,
{
    FfiVariable { tag, property: FfiProperty::default() }
}

/// Build a variable argument with a property accessor.
pub fn as_var_ppt(tag: FfiNameOrId, property: FfiProperty) -> (r: FfiVariable)
    ensures
        r.tag == tag,
        r.property == property,
{
    FfiVariable { tag, property }
}

/// Build a boolean constant argument.
pub fn boolean_as_const(boolean: bool) -> (r: FfiConst)
    ensures
        r.data_type == FfiDataType::Boolean,
        r.boolean == boolean,
{
    let mut ffi = FfiConst::default();
    ffi.data_type = FfiDataType::Boolean;
    ffi.boolean = boolean;
    ffi
}

/// Build a 32-bit integer constant argument.
pub fn int32_as_const(int32: i32) -> (r: FfiConst)
    ensures
        r.data_type == FfiDataType::I32,
        r.int32 == int32,
{
    let mut ffi = FfiConst::default();
    ffi.data_type = FfiDataType::I32;
    ffi.int32 = int32;
    ffi
}

/// Build a 64-bit integer constant argument.
pub fn int64_as_const(int64: i64) -> (r: FfiConst)
    ensures
        r.data_type == FfiDataType::I64,
        r.int64 == int64,
{
    let mut ffi = FfiConst::default();
    ffi.data_type = FfiDataType::I64;
    ffi.int64 = int64;
    ffi
}

/// Build a 64-bit float constant argument from its exact decimal form.
pub fn f64_as_const(float64: DecimalF64) -> (r: FfiConst)
    ensures
        r.data_type == FfiDataType::F64,
        r.float64 == float64,
{
    let mut ffi = FfiConst::default();
    ffi.data_type = FfiDataType::F64;
    ffi.float64 = float64;
    ffi
}

/// Build a textual constant argument.
pub fn text_as_const(bytes: Vec<u8>) -> (r: FfiConst)
    ensures
        r.data_type == FfiDataType::Str,
        r.bytes == bytes,
{
    let mut ffi = FfiConst::default();
    ffi.data_type = FfiDataType::Str;
    ffi.bytes = bytes;
    ffi
}

impl NameOrId {
    /// Convert a boundary name-or-id argument, rejecting one with no variant selected.
    pub fn from_ffi(ffi: FfiNameOrId) -> (r: Result<NameOrId, IrError>)
        ensures
            match r {
                Result::Ok(n) => ffi_name_ok(ffi) && n@ == spec_name_or_id_of(ffi),
                Result::Err(e) => !ffi_name_ok(ffi) && e == IrError::NotExist,
            },
    {
        match ffi.opt {
            FfiNameIdOpt::Unset => Result::Err(IrError::NotExist),
            FfiNameIdOpt::Name => Result::Ok(NameOrId::Name(ffi.name)),
            FfiNameIdOpt::Id => Result::Ok(NameOrId::Id(ffi.name_id)),
        }
    }
}

impl Property {
    /// Convert a boundary property argument. An unset selector means "no
    /// accessor", which is a valid outcome, not an error; a keyed accessor
    /// fails if its key has no variant selected.
    pub fn opt_from_ffi(ffi: FfiProperty) -> (r: Result<Option<Property>, IrError>)
        ensures
            match r {
                Result::Ok(p) => ffi_property_ok(ffi) && opt_prop_view(p) == spec_property_of(ffi),
                Result::Err(e) => !ffi_property_ok(ffi) && e == IrError::NotExist,
            },
    {
        match ffi.opt {
            FfiPropertyOpt::Unset => Result::Ok(Option::None),
            FfiPropertyOpt::Id => Result::Ok(Option::Some(Property::Id)),
            FfiPropertyOpt::Label => Result::Ok(Option::Some(Property::Label)),
            FfiPropertyOpt::Key => match NameOrId::from_ffi(ffi.key) {
                Result::Ok(k) => Result::Ok(Option::Some(Property::Key(k))),
                Result::Err(e) => Result::Err(e),
            },
        }
    }
}

impl Variable {
    /// Convert a boundary variable argument: its tag must have a variant
    /// selected; its property accessor may be unset.
    pub fn from_ffi(ffi: FfiVariable) -> (r: Result<Variable, IrError>)
        ensures
            match r {
                Result::Ok(v) => ffi_variable_ok(ffi) && v@ == spec_variable_of(ffi),
                Result::Err(e) => !ffi_variable_ok(ffi) && e == IrError::NotExist,
            },
    {
        let tag = match NameOrId::from_ffi(ffi.tag) {
            Result::Ok(t) => t,
            Result::Err(e) => {
                return Result::Err(e);
            },
        };
        match Property::opt_from_ffi(ffi.property) {
            Result::Ok(p) => Result::Ok(Variable { tag, property: p }),
            Result::Err(e) => Result::Err(e),
        }
    }
}

impl Const {
    /// Convert a boundary constant argument, rejecting an unknown type tag.
    pub fn from_ffi(ffi: FfiConst) -> (r: Result<Const, IrError>)
        ensures
            match r {
                Result::Ok(c) => ffi_const_ok(ffi) && c@ == spec_const_of(ffi),
                Result::Err(e) => !ffi_const_ok(ffi) && e == IrError::UnknownType,
            },
    {
        match ffi.data_type {
            FfiDataType::Unknown => Result::Err(IrError::UnknownType),
            FfiDataType::Boolean => Result::Ok(Const::Boolean(ffi.boolean)),
            FfiDataType::I32 => Result::Ok(Const::I32(ffi.int32)),
            FfiDataType::I64 => Result::Ok(Const::I64(ffi.int64)),
            FfiDataType::F64 => Result::Ok(Const::F64(ffi.float64)),
            FfiDataType::Str => Result::Ok(Const::Str(ffi.bytes)),
        }
    }
}

} // verus!
