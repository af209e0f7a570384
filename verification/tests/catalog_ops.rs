use ir_core::catalog::{
    build_agg_fn, Dedup, EdgeExpand, ExpandBase, FfiAggOpt, FfiDirection, FfiJoinKind,
    FfiOrderOpt, FfiScanOpt, GetV, GroupBy, IndexedScan, Join, KvEquivPairs, Limit, OrderBy,
    PathExpand, Project, Range, Scan, Select, Unfold,
};
use ir_core::common::{
    as_id_key, as_label_key, as_property_key, as_var, as_var_ppt, boolean_as_const, f64_as_const,
    int32_as_const, int64_as_const, int_as_name_or_id, name_as_name_or_id, text_as_const, Const,
    DecimalF64, FfiConst, FfiNameOrId, FfiProperty, FfiVariable, IrError, NameOrId, Property,
    Variable,
};

fn named_var(tag: &str) -> FfiVariable {
    as_var(name_as_name_or_id(tag.as_bytes().to_vec()))
}

#[test]
fn set_range_succeeds_and_reads_back() {
    let mut scan = Scan::new(FfiScanOpt::Vertex);
    assert_eq!(scan.limit, None);
    assert!(scan.set_limit(1, 5).is_ok());
    assert_eq!(scan.limit, Some(Range { lower: 1, upper: 5 }));

    let mut limit = Limit::new(true);
    assert!(limit.set_range(0, 0).is_ok());
    assert_eq!(limit.range, Some(Range { lower: 0, upper: 0 }));
    assert!(limit.is_topk);
}

#[test]
fn set_range_rejects_and_keeps_prior() {
    let mut scan = Scan::new(FfiScanOpt::Edge);
    assert_eq!(scan.set_limit(3, 2).unwrap_err(), IrError::InvalidRange);
    assert_eq!(scan.limit, None);
    assert!(scan.set_limit(2, 7).is_ok());
    assert_eq!(scan.set_limit(-1, 5).unwrap_err(), IrError::InvalidRange);
    assert_eq!(scan.set_limit(1, -5).unwrap_err(), IrError::InvalidRange);
    assert_eq!(scan.limit, Some(Range { lower: 2, upper: 7 }));

    let mut path = PathExpand::new(ExpandBase::new(FfiDirection::Both));
    assert_eq!(path.set_hops(5, 4).unwrap_err(), IrError::InvalidRange);
    assert_eq!(path.hop_range, None);
    assert!(path.set_hops(1, 3).is_ok());
    assert_eq!(path.hop_range, Some(Range { lower: 1, upper: 3 }));
}

#[test]
fn join_key_pairs_stay_parallel() {
    let mut join = Join::new(FfiJoinKind::Inner);
    assert_eq!(join.kind, FfiJoinKind::Inner);
    let names = ["a", "b", "c"];
    for (i, n) in names.iter().enumerate() {
        let left = named_var(n);
        let right = as_var(int_as_name_or_id(i as i32));
        assert!(join.add_key_pair(left, right).is_ok());
        assert_eq!(join.left_keys.len(), i + 1);
        assert_eq!(join.right_keys.len(), i + 1);
    }
    for (i, n) in names.iter().enumerate() {
        assert_eq!(join.left_keys[i].tag, NameOrId::Name(n.as_bytes().to_vec()));
        assert_eq!(join.right_keys[i].tag, NameOrId::Id(i as i32));
    }
}

#[test]
fn join_key_pair_rejects_unset_and_changes_nothing() {
    let mut join = Join::new(FfiJoinKind::Semi);
    let unset = as_var(FfiNameOrId::default());
    assert_eq!(join.add_key_pair(unset, named_var("r")).unwrap_err(), IrError::NotExist);
    assert_eq!(join.left_keys.len(), 0);
    assert_eq!(join.right_keys.len(), 0);
    let unset = as_var(FfiNameOrId::default());
    assert_eq!(join.add_key_pair(named_var("l"), unset).unwrap_err(), IrError::NotExist);
    assert_eq!(join.left_keys.len(), 0);
    assert_eq!(join.right_keys.len(), 0);
}

#[test]
fn project_mapping_compiles_expression() {
    let mut project = Project::new(false);
    assert!(project.add_mapping(b"@name", int_as_name_or_id(0), false).is_ok());
    assert_eq!(project.mappings.len(), 1);
    assert_eq!(project.mappings[0].alias, NameOrId::Id(0));
    assert!(!project.mappings[0].is_query_given);
    assert_eq!(
        project.mappings[0].expr.tokens,
        vec![ir_core::expr::ExprToken::Var(Variable {
            tag: NameOrId::Name(b"name".to_vec()),
            property: None,
        })]
    );
}

#[test]
fn project_mapping_parse_error_wins_and_changes_nothing() {
    let mut project = Project::new(true);
    let r = project.add_mapping(b"(1 +", FfiNameOrId::default(), true);
    assert!(matches!(r.unwrap_err(), IrError::Parse(_)));
    assert_eq!(project.mappings.len(), 0);
    let r = project.add_mapping(b"@name", FfiNameOrId::default(), true);
    assert_eq!(r.unwrap_err(), IrError::NotExist);
    assert_eq!(project.mappings.len(), 0);
    assert!(project.is_append);
}

#[test]
fn select_predicate_compiles_or_propagates() {
    let mut select = Select::new();
    assert!(select.set_predicate(b"@age > 20").is_ok());
    assert!(select.predicate.is_some());
    let kept = select.predicate.clone();
    assert!(matches!(select.set_predicate(b"@@").unwrap_err(), IrError::Parse(_)));
    assert_eq!(select.predicate, kept);
}

#[test]
fn expand_base_builds_and_validates() {
    let mut base = ExpandBase::new(FfiDirection::Out);
    assert_eq!(base.direction, FfiDirection::Out);
    assert!(base.set_vtag(name_as_name_or_id(b"v".to_vec())).is_ok());
    assert_eq!(base.v_tag, Some(NameOrId::Name(b"v".to_vec())));
    assert!(base.add_label(name_as_name_or_id(b"knows".to_vec())).is_ok());
    assert!(base.add_property(name_as_name_or_id(b"since".to_vec())).is_ok());
    assert_eq!(base.params.labels, vec![NameOrId::Name(b"knows".to_vec())]);
    assert_eq!(base.params.properties, vec![NameOrId::Name(b"since".to_vec())]);
    assert!(base.set_limit(0, 10).is_ok());
    assert_eq!(base.params.limit, Some(Range { lower: 0, upper: 10 }));
    assert!(base.set_predicate(b"@e.weight > 1").is_ok());
    assert!(base.params.predicate.is_some());
    assert_eq!(base.add_label(FfiNameOrId::default()).unwrap_err(), IrError::NotExist);
    assert_eq!(base.params.labels.len(), 1);

    let mut edge = EdgeExpand::new(base);
    assert_eq!(edge.alias, None);
    assert!(edge.set_alias(int_as_name_or_id(7)).is_ok());
    assert_eq!(edge.alias, Some(NameOrId::Id(7)));
}

#[test]
fn getv_builds_and_validates() {
    let mut getv = GetV::new();
    assert!(getv.set_tag(int_as_name_or_id(2)).is_ok());
    assert!(getv.set_alias(name_as_name_or_id(b"w".to_vec())).is_ok());
    assert!(getv.add_label(name_as_name_or_id(b"person".to_vec())).is_ok());
    assert!(getv.add_property(name_as_name_or_id(b"age".to_vec())).is_ok());
    assert!(getv.set_limit(1, 1).is_ok());
    assert_eq!(getv.tag, Some(NameOrId::Id(2)));
    assert_eq!(getv.alias, Some(NameOrId::Name(b"w".to_vec())));
    assert_eq!(getv.params.limit, Some(Range { lower: 1, upper: 1 }));
    assert_eq!(getv.set_limit(2, 1).unwrap_err(), IrError::InvalidRange);
    assert_eq!(getv.params.limit, Some(Range { lower: 1, upper: 1 }));
}

#[test]
fn groupby_keys_and_aggregates() {
    let mut group = GroupBy::new();
    assert!(group.add_key(named_var("dept")).is_ok());
    let agg = build_agg_fn(named_var("salary"), FfiAggOpt::Avg, int_as_name_or_id(1));
    assert!(group.add_agg_fn(agg).is_ok());
    assert_eq!(group.keys.len(), 1);
    assert_eq!(group.functions.len(), 1);
    assert_eq!(group.functions[0].vars.len(), 1);
    assert_eq!(group.functions[0].vars[0].tag, NameOrId::Name(b"salary".to_vec()));
    assert_eq!(group.functions[0].aggregate, FfiAggOpt::Avg);
    assert_eq!(group.functions[0].alias, NameOrId::Id(1));
}

#[test]
fn aggregate_without_alias_fails() {
    let mut group = GroupBy::new();
    let agg = build_agg_fn(named_var("x"), FfiAggOpt::Count, FfiNameOrId::default());
    assert_eq!(group.add_agg_fn(agg).unwrap_err(), IrError::NotExist);
    assert_eq!(group.functions.len(), 0);
}

#[test]
fn orderby_and_dedup_keys() {
    let mut order = OrderBy::new();
    assert!(order.add_pair(named_var("age"), FfiOrderOpt::Desc).is_ok());
    assert!(order.add_pair(named_var("name"), FfiOrderOpt::Asc).is_ok());
    assert_eq!(order.pairs.len(), 2);
    assert_eq!(order.pairs[0].order, FfiOrderOpt::Desc);
    assert_eq!(order.pairs[1].key.tag, NameOrId::Name(b"name".to_vec()));
    assert_eq!(
        order.add_pair(as_var(FfiNameOrId::default()), FfiOrderOpt::Shuffle).unwrap_err(),
        IrError::NotExist
    );
    assert_eq!(order.pairs.len(), 2);

    let mut dedup = Dedup::new();
    assert!(dedup.add_key(named_var("id")).is_ok());
    assert_eq!(dedup.keys, vec![Variable {
        tag: NameOrId::Name(b"id".to_vec()),
        property: None,
    }]);
}

#[test]
fn unfold_pair_sets_both_or_neither() {
    let mut unfold = Unfold::new();
    assert_eq!(
        unfold.set_pair(name_as_name_or_id(b"c".to_vec()), FfiNameOrId::default()).unwrap_err(),
        IrError::NotExist
    );
    assert_eq!(unfold.tag, None);
    assert_eq!(unfold.alias, None);
    assert!(unfold.set_pair(name_as_name_or_id(b"c".to_vec()), int_as_name_or_id(3)).is_ok());
    assert_eq!(unfold.tag, Some(NameOrId::Name(b"c".to_vec())));
    assert_eq!(unfold.alias, Some(NameOrId::Id(3)));
}

#[test]
fn scan_fields_and_schema() {
    let mut scan = Scan::new(FfiScanOpt::Table);
    scan.set_schema_name(b"orders".to_vec());
    assert!(scan.add_data_field(name_as_name_or_id(b"price".to_vec())).is_ok());
    assert!(scan.add_data_field(int_as_name_or_id(4)).is_ok());
    assert_eq!(scan.schema_name, b"orders".to_vec());
    assert_eq!(
        scan.fields,
        vec![NameOrId::Name(b"price".to_vec()), NameOrId::Id(4)]
    );
    assert_eq!(scan.add_data_field(FfiNameOrId::default()).unwrap_err(), IrError::NotExist);
    assert_eq!(scan.fields.len(), 2);
}

#[test]
fn indexed_scan_collects_disjunction_of_conjunctions() {
    let mut scan = Scan::new(FfiScanOpt::Vertex);
    scan.set_schema_name(b"Person".to_vec());
    let mut conj = KvEquivPairs::new();
    assert!(conj.and_pair(as_property_key(name_as_name_or_id(b"k1".to_vec())),
        int32_as_const(1)).is_ok());
    assert!(conj.and_pair(as_id_key(), int64_as_const(99)).is_ok());
    let mut idx = IndexedScan::new(scan);
    idx.add_kv_equiv_pairs(conj);
    let mut conj2 = KvEquivPairs::new();
    assert!(conj2.and_pair(as_label_key(), text_as_const(b"person".to_vec())).is_ok());
    idx.add_kv_equiv_pairs(conj2);
    assert_eq!(idx.or_kv_equiv_pairs.len(), 2);
    assert_eq!(idx.or_kv_equiv_pairs[0].pairs.len(), 2);
    assert_eq!(
        idx.or_kv_equiv_pairs[0].pairs[0].key,
        Some(Property::Key(NameOrId::Name(b"k1".to_vec())))
    );
    assert_eq!(idx.or_kv_equiv_pairs[0].pairs[0].value, Const::I32(1));
    assert_eq!(idx.or_kv_equiv_pairs[0].pairs[1].key, Some(Property::Id));
    assert_eq!(idx.or_kv_equiv_pairs[0].pairs[1].value, Const::I64(99));
    assert_eq!(idx.or_kv_equiv_pairs[1].pairs[0].key, Some(Property::Label));
    assert_eq!(
        idx.or_kv_equiv_pairs[1].pairs[0].value,
        Const::Str(b"person".to_vec())
    );
}

#[test]
fn kv_pair_rejects_unknown_type_and_unset_key() {
    let mut conj = KvEquivPairs::new();
    assert_eq!(
        conj.and_pair(as_id_key(), FfiConst::default()).unwrap_err(),
        IrError::UnknownType
    );
    let bad_key = as_property_key(FfiNameOrId::default());
    assert_eq!(
        conj.and_pair(bad_key, boolean_as_const(true)).unwrap_err(),
        IrError::NotExist
    );
    assert_eq!(conj.pairs.len(), 0);
}

#[test]
fn constant_builders_fill_the_selected_slot() {
    assert_eq!(boolean_as_const(true).boolean, true);
    assert_eq!(int32_as_const(-7).int32, -7);
    assert_eq!(int64_as_const(1 << 40).int64, 1 << 40);
    let f = 2.5f64;
    let d = DecimalF64 { mantissa: 25, exp10: -1 };
    assert_eq!(f, 25f64 * 10f64.powi(-2 + 1));
    assert_eq!(f64_as_const(d).float64, d);
    assert_eq!(text_as_const(b"s".to_vec()).bytes, b"s".to_vec());
}

#[test]
fn variable_builders_wire_through() {
    let v = as_var_ppt(
        name_as_name_or_id(b"t".to_vec()),
        as_property_key(int_as_name_or_id(5)),
    );
    let conv = Variable::from_ffi(v).unwrap();
    assert_eq!(conv.tag, NameOrId::Name(b"t".to_vec()));
    assert_eq!(conv.property, Some(Property::Key(NameOrId::Id(5))));

    let bare = Variable::from_ffi(as_var(int_as_name_or_id(0))).unwrap();
    assert_eq!(bare.tag, NameOrId::Id(0));
    assert_eq!(bare.property, None);
}

#[test]
fn conversions_report_unset_variants() {
    assert_eq!(NameOrId::from_ffi(FfiNameOrId::default()).unwrap_err(), IrError::NotExist);
    assert_eq!(Property::opt_from_ffi(FfiProperty::default()).unwrap(), None);
    assert_eq!(
        Property::opt_from_ffi(as_property_key(FfiNameOrId::default())).unwrap_err(),
        IrError::NotExist
    );
    assert_eq!(Const::from_ffi(FfiConst::default()).unwrap_err(), IrError::UnknownType);
}
