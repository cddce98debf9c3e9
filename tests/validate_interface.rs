use elab_passes::ast::Abstraction;
use elab_passes::ast::Block;
use elab_passes::ast::ClassVar;
use elab_passes::ast::Class_;
use elab_passes::ast::ClassishKind;
use elab_passes::ast::Config;
use elab_passes::ast::FuncBody;
use elab_passes::ast::Hint;
use elab_passes::ast::Hint_;
use elab_passes::ast::Id;
use elab_passes::ast::Method_;
use elab_passes::ast::Pos;
use elab_passes::ast::Stmt;
use elab_passes::errors::NamingPhaseError;
use elab_passes::errors::NastCheckError;
use elab_passes::validate_interface::ValidateInterfacePass;
use std::ops::ControlFlow;

fn pos(line: u64) -> Pos {
    Pos { line, start: 0, end: 1 }
}

fn var(line: u64, is_static: bool) -> ClassVar {
    ClassVar { is_static, id: Id(pos(line), format!("v{}", line)) }
}

fn method(line: u64, n_stmts: u64) -> Method_ {
    let mut stmts = Vec::new();
    for i in 0..n_stmts {
        stmts.push(Stmt(pos(line + 1 + i)));
    }
    Method_ {
        name: Id(pos(line), format!("m{}", line)),
        tparams: vec![],
        where_constraints: vec![],
        body: FuncBody { fb_ast: Block(stmts) },
        static_: false,
        abstract_: n_stmts == 0,
    }
}

fn class(kind: ClassishKind, uses: Vec<Hint>, vars: Vec<ClassVar>, methods: Vec<Method_>) -> Class_ {
    Class_ { kind, name: Id(pos(0), "C".to_string()), tparams: vec![], uses, vars, methods }
}

fn use_clause(line: u64) -> Hint {
    Hint(pos(line), Box::new(Hint_::Happly(Id(pos(line), "Tr".to_string()), vec![])))
}

fn run(c: &mut Class_) -> Vec<NamingPhaseError> {
    let mut errs = Vec::new();
    let mut pass = ValidateInterfacePass::default();
    let r = pass.on_ty_class__bottom_up(c, &Config::default(), &mut errs);
    assert_eq!(r, ControlFlow::Continue(()));
    errs
}

#[test]
fn interface_with_every_violation() {
    let mut c = class(
        ClassishKind::Cinterface,
        vec![use_clause(1)],
        vec![var(2, false), var(3, true)],
        vec![method(4, 1)],
    );
    assert_eq!(
        run(&mut c),
        vec![
            NamingPhaseError::NastCheck(NastCheckError::InterfaceUsesTrait(pos(1))),
            NamingPhaseError::NastCheck(NastCheckError::InterfaceWithMemberVariable(pos(2))),
            NamingPhaseError::NastCheck(NastCheckError::InterfaceWithStaticMemberVariable(pos(3))),
            NamingPhaseError::NastCheck(NastCheckError::AbstractBody(pos(4))),
        ]
    );
}

#[test]
fn class_with_same_shape_is_not_checked() {
    for kind in [
        ClassishKind::Cclass(Abstraction::Concrete),
        ClassishKind::Cclass(Abstraction::Abstract),
        ClassishKind::Ctrait,
        ClassishKind::Cenum,
    ] {
        let mut c = class(kind, vec![use_clause(1)], vec![var(2, false), var(3, true)], vec![method(4, 1)]);
        assert!(run(&mut c).is_empty());
    }
}

#[test]
fn only_first_member_variable_of_each_kind() {
    let mut c = class(
        ClassishKind::Cinterface,
        vec![],
        vec![var(1, true), var(2, true), var(3, false), var(4, false), var(5, true)],
        vec![],
    );
    assert_eq!(
        run(&mut c),
        vec![
            NamingPhaseError::NastCheck(NastCheckError::InterfaceWithMemberVariable(pos(3))),
            NamingPhaseError::NastCheck(NastCheckError::InterfaceWithStaticMemberVariable(pos(1))),
        ]
    );
}

#[test]
fn one_error_per_use_clause_and_per_method_body() {
    let mut c = class(
        ClassishKind::Cinterface,
        vec![use_clause(1), use_clause(2)],
        vec![var(3, false)],
        vec![method(10, 0), method(20, 2), method(30, 0), method(40, 1)],
    );
    assert_eq!(
        run(&mut c),
        vec![
            NamingPhaseError::NastCheck(NastCheckError::InterfaceUsesTrait(pos(1))),
            NamingPhaseError::NastCheck(NastCheckError::InterfaceUsesTrait(pos(2))),
            NamingPhaseError::NastCheck(NastCheckError::InterfaceWithMemberVariable(pos(3))),
            NamingPhaseError::NastCheck(NastCheckError::AbstractBody(pos(20))),
            NamingPhaseError::NastCheck(NastCheckError::AbstractBody(pos(40))),
        ]
    );
}

#[test]
fn empty_interface_is_fine() {
    let mut c = class(ClassishKind::Cinterface, vec![], vec![], vec![method(1, 0)]);
    assert!(run(&mut c).is_empty());
}
