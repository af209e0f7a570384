//! The operator catalog: the payload shape of every operator of the plan,
//! built field by field through setters that validate in isolation and
//! return a result instead of aborting. A failed setter leaves the payload
//! exactly as it was.

use vstd::prelude::*;
use crate::common::{
    ffi_const_ok, ffi_name_ok, ffi_property_ok, ffi_variable_ok, opt_name_view, opt_prop_view,
    spec_const_of, spec_name_or_id_of, spec_property_of, spec_variable_of, Const, FfiConst,
    FfiNameOrId, FfiProperty, FfiVariable, IrError, NameOrId, Property, Variable,
};
use crate::expr::{opt_expr_view, SpecExprToken, SuffixExpr};
use crate::parser::{compile, spec_compile};

verus! {

// ---------------------------------------------------------------------------
// Row-count and hop-count ranges
// ---------------------------------------------------------------------------

/// An inclusive-lower row-count or hop-count range, validated on entry:
/// both ends non-negative and the upper end at least the lower.
#[derive(Debug, Clone, Copy, PartialEq, Eq, Structural)]
pub struct Range {
    pub lower: i32,
    pub upper: i32,
}

/// Whether a pair of ends makes a valid range.
pub open spec fn range_ok(lower: i32, upper: i32) -> bool {
    0 <= lower && 0 <= upper && lower <= upper
}

/// Store a validated range in a payload's range slot. Fails with
/// `InvalidRange` on a negative end or a non-monotonic pair, leaving the
/// slot unchanged.
pub fn set_range(slot: &mut Option<Range>, lower: i32, upper: i32) -> (r: Result<(), IrError>)
    ensures
        match r {
            Result::Ok(()) => range_ok(lower, upper) && *final(slot) == Option::Some(
                Range { lower, upper },
            ),
            Result::Err(e) => !range_ok(lower, upper) && e == IrError::InvalidRange && *final(slot)
                == *old(slot),
        },
{
    if lower < 0 || upper < 0 || upper < lower {
        Result::Err(IrError::InvalidRange)
    } else {
        *slot = Option::Some(Range { lower, upper });
        Result::Ok(())
    }
}

// ---------------------------------------------------------------------------
// Scan and indexed scan
// ---------------------------------------------------------------------------

/// What a scan reads: vertices, edges, or a relational table.
#[derive(Debug, Clone, Copy, PartialEq, Eq, Structural)]
pub enum FfiScanOpt {
    Vertex,
    Edge,
    Table,
}

/// A full scan of one schema object, with optional field aliases and a
/// row-count range.
#[derive(Debug, Clone, PartialEq, Eq)]
pub struct Scan {
    pub scan_opt: FfiScanOpt,
    pub schema_name: Vec<u8>,
    pub fields: Vec<NameOrId>,
    pub limit: Option<Range>,
}

impl Scan {
    /// An empty scan payload: no schema name, no fields, no range.
    pub fn new(scan_opt: FfiScanOpt) -> (r: Scan)
        ensures
            r.scan_opt == scan_opt,
            r.schema_name@ == Seq::<u8>::empty(),
            r.fields@ == Seq::<NameOrId>::empty(),
            r.limit is None,
    {
        Scan { scan_opt, schema_name: Vec::new(), fields: Vec::new(), limit: Option::None }
    }

    /// Set the row-count range.
    pub fn set_limit(&mut self, lower: i32, upper: i32) -> (r: Result<(), IrError>)
        ensures
            match r {
                Result::Ok(()) => range_ok(lower, upper) && final(self).limit == Option::Some(
                    Range { lower, upper },
                ),
                Result::Err(e) => !range_ok(lower, upper) && e == IrError::InvalidRange && *final(self) == *old(self),
            },
            final(self).scan_opt == old(self).scan_opt,
            final(self).schema_name == old(self).schema_name,
            final(self).fields == old(self).fields,
    {
        set_range(&mut self.limit, lower, upper)
    }

    /// Set the schema object's name.
    pub fn set_schema_name(&mut self, name: Vec<u8>)
        ensures
            final(self).schema_name == name,
            final(self).scan_opt == old(self).scan_opt,
            final(self).fields == old(self).fields,
            final(self).limit == old(self).limit,
    {
        self.schema_name = name;
    }

    /// Append one data-field alias.
    pub fn add_data_field(&mut self, field_name: FfiNameOrId) -> (r: Result<(), IrError>)
        ensures
            match r {
                Result::Ok(()) => ffi_name_ok(field_name) && final(self).fields@ == old(self).fields@.push(final(self).fields@.last()) && final(self).fields@.last()@
                    == spec_name_or_id_of(field_name),
                Result::Err(e) => !ffi_name_ok(field_name) && e == IrError::NotExist && *final(self) == *old(self),
            },
            final(self).scan_opt == old(self).scan_opt,
            final(self).schema_name == old(self).schema_name,
            final(self).limit == old(self).limit,
    {
        match NameOrId::from_ffi(field_name) {
            Result::Ok(n) => {
                self.fields.push(n);
                Result::Ok(())
            },
            Result::Err(e) => Result::Err(e),
        }
    }
}

/// One (property, constant) equality to probe an index with.
#[derive(Debug, Clone, PartialEq, Eq)]
pub struct KvEquivPair {
    pub key: Option<Property>,
    pub value: Const,
}

/// A conjunction of equality pairs: every pair must hold.
#[derive(Debug, Clone, PartialEq, Eq)]
pub struct KvEquivPairs {
    pub pairs: Vec<KvEquivPair>,
}

impl KvEquivPairs {
    /// An empty conjunction.
    pub fn new() -> (r: KvEquivPairs)
        ensures
            r.pairs@ == Seq::<KvEquivPair>::empty(),
    {
        KvEquivPairs { pairs: Vec::new() }
    }

    /// And one more (property, constant) equality into the conjunction.
    pub fn and_pair(&mut self, key: FfiProperty, value: FfiConst) -> (r: Result<(), IrError>)
        ensures
            match r {
                Result::Ok(()) => ffi_property_ok(key) && ffi_const_ok(value) && final(self).pairs@
                    == old(self).pairs@.push(final(self).pairs@.last()) && opt_prop_view(
                    final(self).pairs@.last().key,
                ) == spec_property_of(key) && final(self).pairs@.last().value@ == spec_const_of(
                    value,
                ),
                Result::Err(e) => *final(self) == *old(self) && (if !ffi_property_ok(key) {
                    e == IrError::NotExist
                } else {
                    !ffi_const_ok(value) && e == IrError::UnknownType
                }),
            },
    {
        let k = match Property::opt_from_ffi(key) {
            Result::Ok(k) => k,
            Result::Err(e) => {
                return Result::Err(e);
            },
        };
        match Const::from_ffi(value) {
            Result::Ok(v) => {
                self.pairs.push(KvEquivPair { key: k, value: v });
                Result::Ok(())
            },
            Result::Err(e) => Result::Err(e),
        }
    }
}

/// An index probe wrapped around a completed scan: a disjunction of
/// conjunctions of (property, constant) equalities. An empty disjunction
/// means "no index condition".
#[derive(Debug, Clone, PartialEq, Eq)]
pub struct IndexedScan {
    pub scan: Scan,
    pub or_kv_equiv_pairs: Vec<KvEquivPairs>,
}

impl IndexedScan {
    /// Wrap a completed scan with no index condition yet.
    pub fn new(scan: Scan) -> (r: IndexedScan)
        ensures
            r.scan == scan,
            r.or_kv_equiv_pairs@ == Seq::<KvEquivPairs>::empty(),
    {
        IndexedScan { scan, or_kv_equiv_pairs: Vec::new() }
    }

    /// Or one more conjunction into the index condition.
    pub fn add_kv_equiv_pairs(&mut self, pairs: KvEquivPairs)
        ensures
            final(self).or_kv_equiv_pairs@ == old(self).or_kv_equiv_pairs@.push(pairs),
            final(self).scan == old(self).scan,
    {
        self.or_kv_equiv_pairs.push(pairs);
    }
}

// ---------------------------------------------------------------------------
// Select, project, limit
// ---------------------------------------------------------------------------

/// A row filter: one compiled predicate.
#[derive(Debug, Clone, PartialEq, Eq)]
pub struct Select {
    pub predicate: Option<SuffixExpr>,
}

impl Select {
    /// An empty filter with no predicate yet.
    pub fn new() -> (r: Select)
        ensures
            r.predicate is None,
    {
        Select { predicate: Option::None }
    }

    /// Compile a predicate text and store it, propagating the compiler's
    /// error and leaving the payload unchanged on failure.
    pub fn set_predicate(&mut self, text: &[u8]) -> (r: Result<(), IrError>)
        ensures
            match r {
                Result::Ok(()) => spec_compile(text@) matches Result::Ok(toks)
                    && opt_expr_view(final(self).predicate) == Option::Some(toks),
                Result::Err(e) => spec_compile(text@) == Result::<Seq<SpecExprToken>, IrError>::Err(
                    e,
                ) && *final(self) == *old(self),
            },
    {
        match compile(text) {
            Result::Ok(e) => {
                self.predicate = Option::Some(e);
                Result::Ok(())
            },
            Result::Err(e) => Result::Err(e),
        }
    }
}

/// One projection mapping: a compiled expression, the alias it is bound to,
/// and whether the alias was given by the query text itself.
#[derive(Debug, Clone, PartialEq, Eq)]
pub struct ExprAlias {
    pub expr: SuffixExpr,
    pub alias: NameOrId,
    pub is_query_given: bool,
}

/// A projection: an ordered list of mappings, and whether they append to or
/// replace the incoming columns.
#[derive(Debug, Clone, PartialEq, Eq)]
pub struct Project {
    pub mappings: Vec<ExprAlias>,
    pub is_append: bool,
}

impl Project {
    /// An empty projection.
    pub fn new(is_append: bool) -> (r: Project)
        ensures
            r.mappings@ == Seq::<ExprAlias>::empty(),
            r.is_append == is_append,
    {
        Project { mappings: Vec::new(), is_append }
    }

    /// Compile an expression text and append it as one mapping. The
    /// compiler's error wins over a missing alias; a failed call leaves the
    /// payload unchanged.
    pub fn add_mapping(&mut self, expr_text: &[u8], alias: FfiNameOrId, is_query_given: bool) -> (r:
        Result<(), IrError>)
        ensures
            match r {
                Result::Ok(()) => spec_compile(expr_text@) matches Result::Ok(toks) && ffi_name_ok(
                    alias,
                ) && final(self).mappings@ == old(self).mappings@.push(
                    final(self).mappings@.last(),
                ) && final(self).mappings@.last().expr@ == toks && final(self).mappings@.last().alias@ == spec_name_or_id_of(alias) && final(self).mappings@.last().is_query_given == is_query_given,
                Result::Err(e) => *final(self) == *old(self) && (match spec_compile(expr_text@) {
                    Result::Err(ce) => e == ce,
                    Result::Ok(_) => !ffi_name_ok(alias) && e == IrError::NotExist,
                }),
            },
            final(self).is_append == old(self).is_append,
    {
        let expr = match compile(expr_text) {
            Result::Ok(e) => e,
            Result::Err(e) => {
                return Result::Err(e);
            },
        };
        match NameOrId::from_ffi(alias) {
            Result::Ok(a) => {
                self.mappings.push(ExprAlias { expr, alias: a, is_query_given });
                Result::Ok(())
            },
            Result::Err(e) => Result::Err(e),
        }
    }
}

/// A row-count cut-off, optionally keeping the best rows rather than the
/// first ones.
#[derive(Debug, Clone, PartialEq, Eq)]
pub struct Limit {
    pub range: Option<Range>,
    pub is_topk: bool,
}

impl Limit {
    /// An empty cut-off with no range yet.
    pub fn new(is_topk: bool) -> (r: Limit)
        ensures
            r.range is None,
            r.is_topk == is_topk,
    {
        Limit { range: Option::None, is_topk }
    }

    /// Set the row-count range.
    pub fn set_range(&mut self, lower: i32, upper: i32) -> (r: Result<(), IrError>)
        ensures
            match r {
                Result::Ok(()) => range_ok(lower, upper) && final(self).range == Option::Some(
                    Range { lower, upper },
                ),
                Result::Err(e) => !range_ok(lower, upper) && e == IrError::InvalidRange && *final(self) == *old(self),
            },
            final(self).is_topk == old(self).is_topk,
    {
        set_range(&mut self.range, lower, upper)
    }
}

// ---------------------------------------------------------------------------
// Graph traversal operators
// ---------------------------------------------------------------------------

/// Which way an expansion walks an edge.
#[derive(Debug, Clone, Copy, PartialEq, Eq, Structural)]
pub enum FfiDirection {
    Out,
    In,
    Both,
}

/// The query parameters shared by the traversal operators: label and
/// property filters, a size range, and a predicate.
#[derive(Debug, Clone, PartialEq, Eq)]
pub struct GQueryParams {
    pub labels: Vec<NameOrId>,
    pub properties: Vec<NameOrId>,
    pub limit: Option<Range>,
    pub predicate: Option<SuffixExpr>,
}

impl GQueryParams {
    /// Empty parameters: no filters, no range, no predicate.
    pub fn new() -> (r: GQueryParams)
        ensures
            r.labels@ == Seq::<NameOrId>::empty(),
            r.properties@ == Seq::<NameOrId>::empty(),
            r.limit is None,
            r.predicate is None,
    {
        GQueryParams {
            labels: Vec::new(),
            properties: Vec::new(),
            limit: Option::None,
            predicate: Option::None,
        }
    }

    /// Append one label filter.
    pub fn add_label(&mut self, label: FfiNameOrId) -> (r: Result<(), IrError>)
        ensures
            match r {
                Result::Ok(()) => ffi_name_ok(label) && final(self).labels@ == old(self).labels@.push(final(self).labels@.last()) && final(self).labels@.last()@
                    == spec_name_or_id_of(label),
                Result::Err(e) => !ffi_name_ok(label) && e == IrError::NotExist && *final(self)
                    == *old(self),
            },
            final(self).properties == old(self).properties,
            final(self).limit == old(self).limit,
            final(self).predicate == old(self).predicate,
    {
        match NameOrId::from_ffi(label) {
            Result::Ok(n) => {
                self.labels.push(n);
                Result::Ok(())
            },
            Result::Err(e) => Result::Err(e),
        }
    }

    /// Append one property filter.
    pub fn add_property(&mut self, property: FfiNameOrId) -> (r: Result<(), IrError>)
        ensures
            match r {
                Result::Ok(()) => ffi_name_ok(property) && final(self).properties@ == old(self).properties@.push(final(self).properties@.last()) && final(self).properties@.last()@ == spec_name_or_id_of(property),
                Result::Err(e) => !ffi_name_ok(property) && e == IrError::NotExist && *final(self)
                    == *old(self),
            },
            final(self).labels == old(self).labels,
            final(self).limit == old(self).limit,
            final(self).predicate == old(self).predicate,
    {
        match NameOrId::from_ffi(property) {
            Result::Ok(n) => {
                self.properties.push(n);
                Result::Ok(())
            },
            Result::Err(e) => Result::Err(e),
        }
    }

    /// Set the size range.
    pub fn set_limit(&mut self, lower: i32, upper: i32) -> (r: Result<(), IrError>)
        ensures
            match r {
                Result::Ok(()) => range_ok(lower, upper) && final(self).limit == Option::Some(
                    Range { lower, upper },
                ),
                Result::Err(e) => !range_ok(lower, upper) && e == IrError::InvalidRange && *final(self) == *old(self),
            },
            final(self).labels == old(self).labels,
            final(self).properties == old(self).properties,
            final(self).predicate == old(self).predicate,
    {
        set_range(&mut self.limit, lower, upper)
    }

    /// Compile a predicate text and store it.
    pub fn set_predicate(&mut self, text: &[u8]) -> (r: Result<(), IrError>)
        ensures
            match r {
                Result::Ok(()) => spec_compile(text@) matches Result::Ok(toks)
                    && opt_expr_view(final(self).predicate) == Option::Some(toks),
                Result::Err(e) => spec_compile(text@) == Result::<Seq<SpecExprToken>, IrError>::Err(
                    e,
                ) && *final(self) == *old(self),
            },
            final(self).labels == old(self).labels,
            final(self).properties == old(self).properties,
            final(self).limit == old(self).limit,
    {
        match compile(text) {
            Result::Ok(e) => {
                self.predicate = Option::Some(e);
                Result::Ok(())
            },
            Result::Err(e) => Result::Err(e),
        }
    }
}

/// The base of an edge or path expansion: a start-vertex tag, a direction,
/// and the traversal's query parameters.
#[derive(Debug, Clone, PartialEq, Eq)]
pub struct ExpandBase {
    pub v_tag: Option<NameOrId>,
    pub direction: FfiDirection,
    pub params: GQueryParams,
}

impl ExpandBase {
    /// An empty expansion base in a given direction.
    pub fn new(direction: FfiDirection) -> (r: ExpandBase)
        ensures
            r.v_tag is None,
            r.direction == direction,
            r.params.labels@ == Seq::<NameOrId>::empty(),
            r.params.properties@ == Seq::<NameOrId>::empty(),
            r.params.limit is None,
            r.params.predicate is None,
    {
        ExpandBase { v_tag: Option::None, direction, params: GQueryParams::new() }
    }

    /// Set the start-vertex tag of the expansion.
    pub fn set_vtag(&mut self, v_tag: FfiNameOrId) -> (r: Result<(), IrError>)
        ensures
            match r {
                Result::Ok(()) => ffi_name_ok(v_tag) && opt_name_view(final(self).v_tag)
                    == Option::Some(spec_name_or_id_of(v_tag)),
                Result::Err(e) => !ffi_name_ok(v_tag) && e == IrError::NotExist && *final(self)
                    == *old(self),
            },
            final(self).direction == old(self).direction,
            final(self).params == old(self).params,
    {
        match NameOrId::from_ffi(v_tag) {
            Result::Ok(n) => {
                self.v_tag = Option::Some(n);
                Result::Ok(())
            },
            Result::Err(e) => Result::Err(e),
        }
    }

    /// Append one label the traversed edges must carry.
    pub fn add_label(&mut self, label: FfiNameOrId) -> (r: Result<(), IrError>)
        ensures
            match r {
                Result::Ok(()) => ffi_name_ok(label) && final(self).params.labels@ == old(self).params.labels@.push(final(self).params.labels@.last()) && final(self).params.labels@.last()@ == spec_name_or_id_of(label),
                Result::Err(e) => !ffi_name_ok(label) && e == IrError::NotExist && *final(self)
                    == *old(self),
            },
            final(self).v_tag == old(self).v_tag,
            final(self).direction == old(self).direction,
            final(self).params.properties == old(self).params.properties,
            final(self).params.limit == old(self).params.limit,
            final(self).params.predicate == old(self).params.predicate,
    {
        self.params.add_label(label)
    }

    /// Append one property the traversed edges must carry.
    pub fn add_property(&mut self, property: FfiNameOrId) -> (r: Result<(), IrError>)
        ensures
            match r {
                Result::Ok(()) => ffi_name_ok(property) && final(self).params.properties@ == old(self).params.properties@.push(final(self).params.properties@.last()) && final(self).params.properties@.last()@ == spec_name_or_id_of(property),
                Result::Err(e) => !ffi_name_ok(property) && e == IrError::NotExist && *final(self)
                    == *old(self),
            },
            final(self).v_tag == old(self).v_tag,
            final(self).direction == old(self).direction,
            final(self).params.labels == old(self).params.labels,
            final(self).params.limit == old(self).params.limit,
            final(self).params.predicate == old(self).params.predicate,
    {
        self.params.add_property(property)
    }

    /// Set the size range of the expansion.
    pub fn set_limit(&mut self, lower: i32, upper: i32) -> (r: Result<(), IrError>)
        ensures
            match r {
                Result::Ok(()) => range_ok(lower, upper) && final(self).params.limit
                    == Option::Some(Range { lower, upper }),
                Result::Err(e) => !range_ok(lower, upper) && e == IrError::InvalidRange && *final(self) == *old(self),
            },
            final(self).v_tag == old(self).v_tag,
            final(self).direction == old(self).direction,
            final(self).params.labels == old(self).params.labels,
            final(self).params.properties == old(self).params.properties,
            final(self).params.predicate == old(self).params.predicate,
    {
        self.params.set_limit(lower, upper)
    }

    /// Compile an edge predicate text and store it.
    pub fn set_predicate(&mut self, text: &[u8]) -> (r: Result<(), IrError>)
        ensures
            match r {
                Result::Ok(()) => spec_compile(text@) matches Result::Ok(toks)
                    && opt_expr_view(final(self).params.predicate) == Option::Some(toks),
                Result::Err(e) => spec_compile(text@) == Result::<Seq<SpecExprToken>, IrError>::Err(
                    e,
                ) && *final(self) == *old(self),
            },
            final(self).v_tag == old(self).v_tag,
            final(self).direction == old(self).direction,
            final(self).params.labels == old(self).params.labels,
            final(self).params.properties == old(self).params.properties,
            final(self).params.limit == old(self).params.limit,
    {
        self.params.set_predicate(text)
    }
}

/// An edge expansion: one hop from tagged vertices along matching edges.
#[derive(Debug, Clone, PartialEq, Eq)]
pub struct EdgeExpand {
    pub base: ExpandBase,
    pub alias: Option<NameOrId>,
}

impl EdgeExpand {
    /// Wrap a completed expansion base.
    pub fn new(base: ExpandBase) -> (r: EdgeExpand)
        ensures
            r.base == base,
            r.alias is None,
    {
        EdgeExpand { base, alias: Option::None }
    }

    /// Set the alias binding the expanded edges.
    pub fn set_alias(&mut self, alias: FfiNameOrId) -> (r: Result<(), IrError>)
        ensures
            match r {
                Result::Ok(()) => ffi_name_ok(alias) && opt_name_view(final(self).alias)
                    == Option::Some(spec_name_or_id_of(alias)),
                Result::Err(e) => !ffi_name_ok(alias) && e == IrError::NotExist && *final(self)
                    == *old(self),
            },
            final(self).base == old(self).base,
    {
        match NameOrId::from_ffi(alias) {
            Result::Ok(n) => {
                self.alias = Option::Some(n);
                Result::Ok(())
            },
            Result::Err(e) => Result::Err(e),
        }
    }
}

/// Get a vertex out of a tagged edge or path endpoint, with the same filter
/// shape as an expansion.
#[derive(Debug, Clone, PartialEq, Eq)]
pub struct GetV {
    pub tag: Option<NameOrId>,
    pub params: GQueryParams,
    pub alias: Option<NameOrId>,
}

impl GetV {
    /// An empty vertex getter.
    pub fn new() -> (r: GetV)
        ensures
            r.tag is None,
            r.alias is None,
            r.params.labels@ == Seq::<NameOrId>::empty(),
            r.params.properties@ == Seq::<NameOrId>::empty(),
            r.params.limit is None,
            r.params.predicate is None,
    {
        GetV { tag: Option::None, params: GQueryParams::new(), alias: Option::None }
    }

    /// Set the tag of the edge or path to take the vertex from.
    pub fn set_tag(&mut self, tag: FfiNameOrId) -> (r: Result<(), IrError>)
        ensures
            match r {
                Result::Ok(()) => ffi_name_ok(tag) && opt_name_view(final(self).tag)
                    == Option::Some(spec_name_or_id_of(tag)),
                Result::Err(e) => !ffi_name_ok(tag) && e == IrError::NotExist && *final(self)
                    == *old(self),
            },
            final(self).params == old(self).params,
            final(self).alias == old(self).alias,
    {
        match NameOrId::from_ffi(tag) {
            Result::Ok(n) => {
                self.tag = Option::Some(n);
                Result::Ok(())
            },
            Result::Err(e) => Result::Err(e),
        }
    }

    /// Set the alias binding the vertex.
    pub fn set_alias(&mut self, alias: FfiNameOrId) -> (r: Result<(), IrError>)
        ensures
            match r {
                Result::Ok(()) => ffi_name_ok(alias) && opt_name_view(final(self).alias)
                    == Option::Some(spec_name_or_id_of(alias)),
                Result::Err(e) => !ffi_name_ok(alias) && e == IrError::NotExist && *final(self)
                    == *old(self),
            },
            final(self).tag == old(self).tag,
            final(self).params == old(self).params,
    {
        match NameOrId::from_ffi(alias) {
            Result::Ok(n) => {
                self.alias = Option::Some(n);
                Result::Ok(())
            },
            Result::Err(e) => Result::Err(e),
        }
    }

    /// Append one label the vertex must carry.
    pub fn add_label(&mut self, label: FfiNameOrId) -> (r: Result<(), IrError>)
        ensures
            match r {
                Result::Ok(()) => ffi_name_ok(label) && final(self).params.labels@ == old(self).params.labels@.push(final(self).params.labels@.last()) && final(self).params.labels@.last()@ == spec_name_or_id_of(label),
                Result::Err(e) => !ffi_name_ok(label) && e == IrError::NotExist && *final(self)
                    == *old(self),
            },
            final(self).tag == old(self).tag,
            final(self).alias == old(self).alias,
            final(self).params.properties == old(self).params.properties,
            final(self).params.limit == old(self).params.limit,
            final(self).params.predicate == old(self).params.predicate,
    {
        self.params.add_label(label)
    }

    /// Append one property the vertex must carry.
    pub fn add_property(&mut self, property: FfiNameOrId) -> (r: Result<(), IrError>)
        ensures
            match r {
                Result::Ok(()) => ffi_name_ok(property) && final(self).params.properties@ == old(self).params.properties@.push(final(self).params.properties@.last()) && final(self).params.properties@.last()@ == spec_name_or_id_of(property),
                Result::Err(e) => !ffi_name_ok(property) && e == IrError::NotExist && *final(self)
                    == *old(self),
            },
            final(self).tag == old(self).tag,
            final(self).alias == old(self).alias,
            final(self).params.labels == old(self).params.labels,
            final(self).params.limit == old(self).params.limit,
            final(self).params.predicate == old(self).params.predicate,
    {
        self.params.add_property(property)
    }

    /// Set the size range of the getter.
    pub fn set_limit(&mut self, lower: i32, upper: i32) -> (r: Result<(), IrError>)
        ensures
            match r {
                Result::Ok(()) => range_ok(lower, upper) && final(self).params.limit
                    == Option::Some(Range { lower, upper }),
                Result::Err(e) => !range_ok(lower, upper) && e == IrError::InvalidRange && *final(self) == *old(self),
            },
            final(self).tag == old(self).tag,
            final(self).alias == old(self).alias,
            final(self).params.labels == old(self).params.labels,
            final(self).params.properties == old(self).params.properties,
            final(self).params.predicate == old(self).params.predicate,
    {
        self.params.set_limit(lower, upper)
    }
}

/// A path expansion: a repeated edge expansion within a hop-count range.
#[derive(Debug, Clone, PartialEq, Eq)]
pub struct PathExpand {
    pub base: ExpandBase,
    pub alias: Option<NameOrId>,
    pub hop_range: Option<Range>,
}

impl PathExpand {
    /// Wrap a completed expansion base with no hop range yet.
    pub fn new(base: ExpandBase) -> (r: PathExpand)
        ensures
            r.base == base,
            r.alias is None,
            r.hop_range is None,
    {
        PathExpand { base, alias: Option::None, hop_range: Option::None }
    }

    /// Set the alias binding the expanded paths.
    pub fn set_alias(&mut self, alias: FfiNameOrId) -> (r: Result<(), IrError>)
        ensures
            match r {
                Result::Ok(()) => ffi_name_ok(alias) && opt_name_view(final(self).alias)
                    == Option::Some(spec_name_or_id_of(alias)),
                Result::Err(e) => !ffi_name_ok(alias) && e == IrError::NotExist && *final(self)
                    == *old(self),
            },
            final(self).base == old(self).base,
            final(self).hop_range == old(self).hop_range,
    {
        match NameOrId::from_ffi(alias) {
            Result::Ok(n) => {
                self.alias = Option::Some(n);
                Result::Ok(())
            },
            Result::Err(e) => Result::Err(e),
        }
    }

    /// Set the hop-count range.
    pub fn set_hops(&mut self, lower: i32, upper: i32) -> (r: Result<(), IrError>)
        ensures
            match r {
                Result::Ok(()) => range_ok(lower, upper) && final(self).hop_range == Option::Some(
                    Range { lower, upper },
                ),
                Result::Err(e) => !range_ok(lower, upper) && e == IrError::InvalidRange && *final(self) == *old(self),
            },
            final(self).base == old(self).base,
            final(self).alias == old(self).alias,
    {
        set_range(&mut self.hop_range, lower, upper)
    }
}

// ---------------------------------------------------------------------------
// Join and union
// ---------------------------------------------------------------------------

/// How a join combines its two inputs.
#[derive(Debug, Clone, Copy, PartialEq, Eq, Structural)]
pub enum FfiJoinKind {
    /// Inner join.
    Inner,
    /// Left outer join.
    LeftOuter,
    /// Right outer join.
    RightOuter,
    /// Full outer join.
    FullOuter,
    /// Left semi-join; the right alternative adapts naturally.
    Semi,
    /// Left anti-join; the right alternative adapts naturally.
    Anti,
    /// Cartesian product.
    Times,
}

/// A two-input join on positionally paired key lists: the entry at index `i`
/// of the left keys is tested for equality against the entry at index `i` of
/// the right keys.
#[derive(Debug, Clone, PartialEq, Eq)]
pub struct Join {
    pub left_keys: Vec<Variable>,
    pub right_keys: Vec<Variable>,
    pub kind: FfiJoinKind,
}

impl Join {
    /// The key lists stay equal in length at every observation point; a
    /// single call appends to both.
    pub open spec fn wf(&self) -> bool {
        self.left_keys@.len() == self.right_keys@.len()
    }

    /// An empty join of a given kind.
    pub fn new(kind: FfiJoinKind) -> (r: Join)
        ensures
            r.left_keys@ == Seq::<Variable>::empty(),
            r.right_keys@ == Seq::<Variable>::empty(),
            r.kind == kind,
            r.wf(),
    {
        Join { left_keys: Vec::new(), right_keys: Vec::new(), kind }
    }

    /// Append one (left, right) key pair: one entry to each list, so the
    /// pairing by index and the equal lengths are kept by construction.
    pub fn add_key_pair(&mut self, left_key: FfiVariable, right_key: FfiVariable) -> (r: Result<
        (),
        IrError,
    >)
        ensures
            match r {
                Result::Ok(()) => ffi_variable_ok(left_key) && ffi_variable_ok(right_key) && final(self).left_keys@ == old(self).left_keys@.push(final(self).left_keys@.last())
                    && final(self).right_keys@ == old(self).right_keys@.push(
                    final(self).right_keys@.last(),
                ) && final(self).left_keys@.last()@ == spec_variable_of(left_key) && final(self).right_keys@.last()@ == spec_variable_of(right_key),
                Result::Err(e) => (!ffi_variable_ok(left_key) || !ffi_variable_ok(right_key)) && e
                    == IrError::NotExist && *final(self) == *old(self),
            },
            final(self).kind == old(self).kind,
            old(self).wf() ==> final(self).wf(),
    {
        let l = match Variable::from_ffi(left_key) {
            Result::Ok(l) => l,
            Result::Err(e) => {
                return Result::Err(e);
            },
        };
        match Variable::from_ffi(right_key) {
            Result::Ok(rk) => {
                self.left_keys.push(l);
                self.right_keys.push(rk);
                Result::Ok(())
            },
            Result::Err(e) => Result::Err(e),
        }
    }
}

/// A two-input union; it carries no fields of its own.
#[derive(Debug, Clone, PartialEq, Eq, Structural)]
pub struct Union {}

impl Union {
    /// An empty union payload.
    pub fn new() -> (r: Union) {
        Union {  }
    }
}

// ---------------------------------------------------------------------------
// Group-by, order-by, dedup, unfold
// ---------------------------------------------------------------------------

/// The aggregate opcodes.
#[derive(Debug, Clone, Copy, PartialEq, Eq, Structural)]
pub enum FfiAggOpt {
    Sum,
    Min,
    Max,
    Count,
    CountDistinct,
    ToList,
    ToSet,
    Avg,
}

/// An aggregate function as the boundary hands it in: input variables, an
/// opcode, and the alias of the result.
#[derive(Debug, Clone, PartialEq, Eq)]
pub struct FfiAggFn {
    pub vars: Vec<FfiVariable>,
    pub aggregate: FfiAggOpt,
    pub alias: FfiNameOrId,
}

/// Build an aggregate-function argument over one input variable. The data
/// model allows several input variables; one is the validated client path.
pub fn build_agg_fn(agg_var: FfiVariable, aggregate: FfiAggOpt, alias: FfiNameOrId) -> (r:
    FfiAggFn)
    ensures
        r.vars@.len() == 1,
        r.vars@[0] == agg_var,
        r.aggregate == aggregate,
        r.alias == alias,
{
    let vars: Vec<FfiVariable> = vec![agg_var];
    FfiAggFn { vars, aggregate, alias }
}

/// An aggregate-function argument is usable when every input variable is and
/// the result alias has a variant selected.
pub open spec fn ffi_agg_fn_ok(ffi: FfiAggFn) -> bool {
    (forall|i: int| 0 <= i < ffi.vars@.len() ==> ffi_variable_ok(#[trigger] ffi.vars@[i]))
        && ffi_name_ok(ffi.alias)
}

/// A validated aggregate function: what it reads, how it folds, and the
/// mandatory alias its result is bound to.
#[derive(Debug, Clone, PartialEq, Eq)]
pub struct AggFunc {
    pub vars: Vec<Variable>,
    pub aggregate: FfiAggOpt,
    pub alias: NameOrId,
}

impl AggFunc {
    /// Convert a boundary aggregate-function argument, rejecting one whose
    /// alias or any of whose input variables has no variant selected.
    pub fn from_ffi(ffi: FfiAggFn) -> (r: Result<AggFunc, IrError>)
        ensures
            match r {
                Result::Ok(a) => ffi_agg_fn_ok(ffi) && a.vars@.len() == ffi.vars@.len() && (forall|
                    i: int,
                |
                    0 <= i < ffi.vars@.len() ==> (#[trigger] a.vars@[i])@ == spec_variable_of(
                        ffi.vars@[i],
                    )) && a.aggregate == ffi.aggregate && a.alias@ == spec_name_or_id_of(ffi.alias),
                Result::Err(e) => !ffi_agg_fn_ok(ffi) && e == IrError::NotExist,
            },
    {
        let mut vars: Vec<Variable> = Vec::new();
        let mut i: usize = 0;
        let n = ffi.vars.len();
        while i < n
            invariant
                n == ffi.vars@.len(),
                i <= n,
                vars@.len() == i,
                forall|j: int|
                    0 <= j < i ==> ffi_variable_ok(#[trigger] ffi.vars@[j]) && vars@[j]@
                        == spec_variable_of(ffi.vars@[j]),
            decreases n - i,
        {
            let v = ffi.vars[i].clone();
            match Variable::from_ffi(v) {
                Result::Ok(vv) => {
                    vars.push(vv);
                },
                Result::Err(e) => {
                    return Result::Err(e);
                },
            }
            i = i + 1;
        }
        match NameOrId::from_ffi(ffi.alias) {
            Result::Ok(alias) => Result::Ok(AggFunc { vars, aggregate: ffi.aggregate, alias }),
            Result::Err(e) => Result::Err(e),
        }
    }
}

/// A grouping: the keys that split the rows, and the aggregate computed for
/// each group.
#[derive(Debug, Clone, PartialEq, Eq)]
pub struct GroupBy {
    pub keys: Vec<Variable>,
    pub functions: Vec<AggFunc>,
}

impl GroupBy {
    /// An empty grouping.
    pub fn new() -> (r: GroupBy)
        ensures
            r.keys@ == Seq::<Variable>::empty(),
            r.functions@ == Seq::<AggFunc>::empty(),
    {
        GroupBy { keys: Vec::new(), functions: Vec::new() }
    }

    /// Append one grouping key.
    pub fn add_key(&mut self, key: FfiVariable) -> (r: Result<(), IrError>)
        ensures
            match r {
                Result::Ok(()) => ffi_variable_ok(key) && final(self).keys@ == old(self).keys@.push(final(self).keys@.last()) && final(self).keys@.last()@
                    == spec_variable_of(key),
                Result::Err(e) => !ffi_variable_ok(key) && e == IrError::NotExist && *final(self)
                    == *old(self),
            },
            final(self).functions == old(self).functions,
    {
        match Variable::from_ffi(key) {
            Result::Ok(v) => {
                self.keys.push(v);
                Result::Ok(())
            },
            Result::Err(e) => Result::Err(e),
        }
    }

    /// Append one aggregate function for each group.
    pub fn add_agg_fn(&mut self, agg_fn: FfiAggFn) -> (r: Result<(), IrError>)
        ensures
            match r {
                Result::Ok(()) => ffi_agg_fn_ok(agg_fn) && final(self).functions@ == old(self).functions@.push(final(self).functions@.last()) && final(self).functions@.last().vars@.len() == agg_fn.vars@.len() && (forall|i: int|
                    0 <= i < agg_fn.vars@.len() ==> (#[trigger] final(self).functions@.last().vars@[i])@ == spec_variable_of(agg_fn.vars@[i])) && final(self).functions@.last().aggregate == agg_fn.aggregate && final(self).functions@.last().alias@ == spec_name_or_id_of(agg_fn.alias),
                Result::Err(e) => !ffi_agg_fn_ok(agg_fn) && e == IrError::NotExist && *final(self)
                    == *old(self),
            },
            final(self).keys == old(self).keys,
    {
        match AggFunc::from_ffi(agg_fn) {
            Result::Ok(a) => {
                self.functions.push(a);
                Result::Ok(())
            },
            Result::Err(e) => Result::Err(e),
        }
    }
}

/// How one ordering key arranges the rows.
#[derive(Debug, Clone, Copy, PartialEq, Eq, Structural)]
pub enum FfiOrderOpt {
    Shuffle,
    Asc,
    Desc,
}

/// One ordering key and its mode.
#[derive(Debug, Clone, PartialEq, Eq)]
pub struct OrderingPair {
    pub key: Variable,
    pub order: FfiOrderOpt,
}

/// An ordering: the keys and modes, applied in the order given.
#[derive(Debug, Clone, PartialEq, Eq)]
pub struct OrderBy {
    pub pairs: Vec<OrderingPair>,
}

impl OrderBy {
    /// An empty ordering.
    pub fn new() -> (r: OrderBy)
        ensures
            r.pairs@ == Seq::<OrderingPair>::empty(),
    {
        OrderBy { pairs: Vec::new() }
    }

    /// Append one (key, mode) pair.
    pub fn add_pair(&mut self, var: FfiVariable, order_opt: FfiOrderOpt) -> (r: Result<
        (),
        IrError,
    >)
        ensures
            match r {
                Result::Ok(()) => ffi_variable_ok(var) && final(self).pairs@ == old(self).pairs@.push(final(self).pairs@.last()) && final(self).pairs@.last().key@
                    == spec_variable_of(var) && final(self).pairs@.last().order == order_opt,
                Result::Err(e) => !ffi_variable_ok(var) && e == IrError::NotExist && *final(self)
                    == *old(self),
            },
    {
        match Variable::from_ffi(var) {
            Result::Ok(v) => {
                self.pairs.push(OrderingPair { key: v, order: order_opt });
                Result::Ok(())
            },
            Result::Err(e) => Result::Err(e),
        }
    }
}

/// A de-duplication by a list of keys.
#[derive(Debug, Clone, PartialEq, Eq)]
pub struct Dedup {
    pub keys: Vec<Variable>,
}

impl Dedup {
    /// An empty de-duplication.
    pub fn new() -> (r: Dedup)
        ensures
            r.keys@ == Seq::<Variable>::empty(),
    {
        Dedup { keys: Vec::new() }
    }

    /// Append one de-duplication key.
    pub fn add_key(&mut self, var: FfiVariable) -> (r: Result<(), IrError>)
        ensures
            match r {
                Result::Ok(()) => ffi_variable_ok(var) && final(self).keys@ == old(self).keys@.push(final(self).keys@.last()) && final(self).keys@.last()@
                    == spec_variable_of(var),
                Result::Err(e) => !ffi_variable_ok(var) && e == IrError::NotExist && *final(self)
                    == *old(self),
            },
    {
        match Variable::from_ffi(var) {
            Result::Ok(v) => {
                self.keys.push(v);
                Result::Ok(())
            },
            Result::Err(e) => Result::Err(e),
        }
    }
}

/// An unfold of a collection-valued field: the tag it is read from and the
/// alias bound to each element.
#[derive(Debug, Clone, PartialEq, Eq)]
pub struct Unfold {
    pub tag: Option<NameOrId>,
    pub alias: Option<NameOrId>,
}

impl Unfold {
    /// An empty unfold.
    pub fn new() -> (r: Unfold)
        ensures
            r.tag is None,
            r.alias is None,
    {
        Unfold { tag: Option::None, alias: Option::None }
    }

    /// Set the (tag, alias) pair. The tag's error wins over the alias's;
    /// neither field changes unless both convert.
    pub fn set_pair(&mut self, tag: FfiNameOrId, alias: FfiNameOrId) -> (r: Result<(), IrError>)
        ensures
            match r {
                Result::Ok(()) => ffi_name_ok(tag) && ffi_name_ok(alias) && opt_name_view(
                    final(self).tag,
                ) == Option::Some(spec_name_or_id_of(tag)) && opt_name_view(final(self).alias)
                    == Option::Some(spec_name_or_id_of(alias)),
                Result::Err(e) => (!ffi_name_ok(tag) || !ffi_name_ok(alias)) && e
                    == IrError::NotExist && *final(self) == *old(self),
            },
    {
        let t = match NameOrId::from_ffi(tag) {
            Result::Ok(t) => t,
            Result::Err(e) => {
                return Result::Err(e);
            },
        };
        match NameOrId::from_ffi(alias) {
            Result::Ok(a) => {
                self.tag = Option::Some(t);
                self.alias = Option::Some(a);
                Result::Ok(())
            },
            Result::Err(e) => Result::Err(e),
        }
    }
}

} // verus!
