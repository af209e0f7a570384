use ir_core::catalog::{FfiJoinKind, FfiScanOpt, Join, Project, Scan, Select, Union};
use ir_core::common::{int_as_name_or_id, Const, IrError, NameOrId, Variable};
use ir_core::expr::{ExprOpr, ExprToken};
use ir_core::plan::{LogicalPlan, Operator};

fn scan(name: &str) -> Operator {
    let mut s = Scan::new(FfiScanOpt::Vertex);
    s.set_schema_name(name.as_bytes().to_vec());
    Operator::Scan(s)
}

#[test]
fn ids_are_sequential_from_zero() {
    let mut plan = LogicalPlan::new();
    assert_eq!(plan.len(), 0);
    let id0 = plan.append_node(scan("A"), vec![]).unwrap();
    let id1 = plan.append_node(scan("B"), vec![]).unwrap();
    let id2 = plan.append_node(Operator::Select(Select::new()), vec![0]).unwrap();
    assert_eq!((id0, id1, id2), (0, 1, 2));
    assert_eq!(plan.len(), 3);
}

#[test]
fn parents_are_strictly_below_own_id() {
    let mut plan = LogicalPlan::new();
    plan.append_node(scan("A"), vec![]).unwrap();
    plan.append_node(Operator::Select(Select::new()), vec![0]).unwrap();
    plan.append_node(scan("B"), vec![]).unwrap();
    plan.append_node(
        Operator::Join(Join::new(FfiJoinKind::Inner)),
        vec![1, 2],
    ).unwrap();
    for id in 0..plan.len() {
        for &p in &plan.node_at(id).parents {
            assert!(p < id);
        }
    }
}

#[test]
fn missing_parent_fails_without_allocating() {
    let mut plan = LogicalPlan::new();
    let r = plan.append_node(Operator::Select(Select::new()), vec![0]);
    assert_eq!(r.unwrap_err(), IrError::ParentNotFound);
    assert_eq!(plan.len(), 0);

    plan.append_node(scan("A"), vec![]).unwrap();
    let r = plan.append_node(Operator::Select(Select::new()), vec![3]);
    assert_eq!(r.unwrap_err(), IrError::ParentNotFound);
    assert_eq!(plan.len(), 1);
}

#[test]
fn missing_parent_wins_over_arity() {
    let mut plan = LogicalPlan::new();
    let r = plan.append_node(Operator::Join(Join::new(FfiJoinKind::Inner)), vec![5]);
    assert_eq!(r.unwrap_err(), IrError::ParentNotFound);
    assert_eq!(plan.len(), 0);
}

#[test]
fn join_and_union_need_exactly_two_parents() {
    let mut plan = LogicalPlan::new();
    plan.append_node(scan("A"), vec![]).unwrap();
    plan.append_node(scan("B"), vec![]).unwrap();
    plan.append_node(scan("C"), vec![]).unwrap();

    let r = plan.append_node(Operator::Join(Join::new(FfiJoinKind::Inner)), vec![0]);
    assert_eq!(r.unwrap_err(), IrError::ArityMismatch);
    let r = plan.append_node(Operator::Union(Union::new()), vec![]);
    assert_eq!(r.unwrap_err(), IrError::ArityMismatch);
    let r = plan.append_node(Operator::Union(Union::new()), vec![0, 1, 2]);
    assert_eq!(r.unwrap_err(), IrError::ArityMismatch);
    assert_eq!(plan.len(), 3);

    let id = plan.append_node(Operator::Join(Join::new(FfiJoinKind::Inner)), vec![0, 1]).unwrap();
    assert_eq!(id, 3);
    let id = plan.append_node(Operator::Union(Union::new()), vec![2, 3]).unwrap();
    assert_eq!(id, 4);
    assert_eq!(plan.node_at(3).parents, vec![0, 1]);
    assert_eq!(plan.node_at(4).parents, vec![2, 3]);
}

#[test]
fn sources_take_no_parents() {
    let mut plan = LogicalPlan::new();
    plan.append_node(scan("A"), vec![]).unwrap();
    let r = plan.append_node(scan("B"), vec![0]);
    assert_eq!(r.unwrap_err(), IrError::ArityMismatch);
    let r = plan.append_node(Operator::Select(Select::new()), vec![0, 0]);
    assert_eq!(r.unwrap_err(), IrError::ArityMismatch);
    assert_eq!(plan.len(), 1);
}

#[test]
fn children_are_registered_on_parents() {
    let mut plan = LogicalPlan::new();
    plan.append_node(scan("A"), vec![]).unwrap();
    plan.append_node(Operator::Select(Select::new()), vec![0]).unwrap();
    plan.append_node(Operator::Select(Select::new()), vec![0]).unwrap();
    plan.append_node(
        Operator::Join(Join::new(FfiJoinKind::Inner)),
        vec![1, 2],
    ).unwrap();
    assert_eq!(plan.node_at(0).children, vec![1, 2]);
    assert_eq!(plan.node_at(1).children, vec![3]);
    assert_eq!(plan.node_at(2).children, vec![3]);
    assert_eq!(plan.node_at(3).children, Vec::<usize>::new());
}

#[test]
fn equal_parents_register_the_child_twice() {
    let mut plan = LogicalPlan::new();
    plan.append_node(scan("A"), vec![]).unwrap();
    let id = plan.append_node(
        Operator::Join(Join::new(FfiJoinKind::Times)),
        vec![0, 0],
    ).unwrap();
    assert_eq!(id, 1);
    assert_eq!(plan.node_at(1).parents, vec![0, 0]);
    assert_eq!(plan.node_at(0).children, vec![1, 1]);
}

#[test]
fn scenario_scan_project_select() {
    let mut plan = LogicalPlan::new();

    let mut s = Scan::new(FfiScanOpt::Vertex);
    s.set_schema_name(b"Person".to_vec());
    let id0 = plan.append_node(Operator::Scan(s), vec![]).unwrap();

    let mut project = Project::new(false);
    project.add_mapping(b"@name", int_as_name_or_id(0), false).unwrap();
    let id1 = plan.append_node(Operator::Project(project), vec![id0]).unwrap();

    let mut select = Select::new();
    select.set_predicate(b"@age > 20").unwrap();
    let id2 = plan.append_node(Operator::Select(select), vec![id1]).unwrap();

    assert_eq!((id0, id1, id2), (0, 1, 2));
    assert_eq!(plan.len(), 3);
    assert_eq!(plan.node_at(0).parents, Vec::<usize>::new());
    assert_eq!(plan.node_at(1).parents, vec![0]);
    assert_eq!(plan.node_at(2).parents, vec![1]);

    match &plan.node_at(2).opr {
        Operator::Select(sel) => {
            let predicate = sel.predicate.as_ref().unwrap();
            assert_eq!(
                predicate.tokens,
                vec![
                    ExprToken::Var(Variable {
                        tag: NameOrId::Name(b"age".to_vec()),
                        property: None,
                    }),
                    ExprToken::Lit(Const::I32(20)),
                    ExprToken::Opr(ExprOpr::Gt),
                ]
            );
        },
        _ => panic!("node 2 should be the select"),
    }
    match &plan.node_at(0).opr {
        Operator::Scan(sc) => assert_eq!(sc.schema_name, b"Person".to_vec()),
        _ => panic!("node 0 should be the scan"),
    }
}

#[test]
fn failed_append_leaves_payloadless_plan_reusable() {
    let mut plan = LogicalPlan::new();
    plan.append_node(scan("A"), vec![]).unwrap();
    assert_eq!(
        plan.append_node(Operator::Select(Select::new()), vec![9]).unwrap_err(),
        IrError::ParentNotFound
    );
    let id = plan.append_node(Operator::Select(Select::new()), vec![0]).unwrap();
    assert_eq!(id, 1);
}
