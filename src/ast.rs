//! The parts of the syntax tree that the naming checks read.
use vstd::prelude::*;

verus! {

/// A source position: the line and column range of a syntax element.
#[derive(Clone, Copy, Debug, Default, PartialEq, Eq, Structural)]
pub struct Pos {
    pub line: u64,
    pub start: u64,
    pub end: u64,
}

/// An identifier with its position.
#[derive(Clone, Debug, Default, PartialEq, Eq)]
pub struct Id(pub Pos, pub String);

impl Id {
    pub fn pos(&self) -> (r: &Pos)
        ensures
            *r == self.0,
    {
        &self.0
    }

    pub fn name(&self) -> (r: &str)
        ensures
            r@ == self.1@,
    {
        self.1.as_str()
    }
}

#[derive(Clone, Copy, Debug, PartialEq, Eq, Structural)]
pub enum Variance {
    Covariant,
    Contravariant,
    Invariant,
}

impl Variance {
    pub fn is_invariant(&self) -> (r: bool)
        ensures
            r == (*self == Variance::Invariant),
    {
        match self {
            Variance::Invariant => true,
            _ => false,
        }
    }
}

#[derive(Clone, Copy, Debug, PartialEq, Eq, Structural)]
pub enum ReifyKind {
    Erased,
    SoftReified,
    Reified,
}

impl ReifyKind {
    pub fn is_erased(&self) -> (r: bool)
        ensures
            r == (*self == ReifyKind::Erased),
    {
        match self {
            ReifyKind::Erased => true,
            _ => false,
        }
    }
}

/// A type hint: its position and its shape.
pub struct Hint(pub Pos, pub Box<Hint_>);

pub enum Hint_ {
    /// A reference to a type parameter in scope, with its arguments.
    Habstr(String, Vec<Hint>),
    /// An applied class or type name, with its arguments.
    Happly(Id, Vec<Hint>),
    Hmixed,
    Hnothing,
}

#[derive(Clone, Copy, Debug, PartialEq, Eq, Structural)]
pub enum ConstraintKind {
    ConstraintAs,
    ConstraintEq,
    ConstraintSuper,
}

pub struct UserAttribute {
    pub name: Id,
}

/// A type-parameter declaration; a non-empty `parameters` list makes it
/// higher-kinded.
pub struct Tparam {
    pub variance: Variance,
    pub name: Id,
    pub parameters: Vec<Tparam>,
    pub constraints: Vec<(ConstraintKind, Hint)>,
    pub reified: ReifyKind,
    pub user_attributes: Vec<UserAttribute>,
}

/// `where` constraint of a function or method: left hint, kind, right hint.
pub struct WhereConstraintHint(pub Hint, pub ConstraintKind, pub Hint);

/// A statement of a body; only its position is kept.
pub struct Stmt(pub Pos);

pub struct Block(pub Vec<Stmt>);

pub struct FuncBody {
    pub fb_ast: Block,
}

pub struct Method_ {
    pub name: Id,
    pub tparams: Vec<Tparam>,
    pub where_constraints: Vec<WhereConstraintHint>,
    pub body: FuncBody,
    pub static_: bool,
    pub abstract_: bool,
}

pub struct Fun_ {
    pub tparams: Vec<Tparam>,
    pub where_constraints: Vec<WhereConstraintHint>,
    pub body: FuncBody,
}

pub struct Typedef {
    pub name: Id,
    pub tparams: Vec<Tparam>,
}

#[derive(Clone, Copy, Debug, PartialEq, Eq, Structural)]
pub enum Abstraction {
    Concrete,
    Abstract,
}

#[derive(Clone, Copy, Debug, PartialEq, Eq, Structural)]
pub enum ClassishKind {
    Cclass(Abstraction),
    Cinterface,
    Ctrait,
    Cenum,
    CenumClass(Abstraction),
}

impl ClassishKind {
    pub fn is_cinterface(&self) -> (r: bool)
        ensures
            r == (*self == ClassishKind::Cinterface),
    {
        match self {
            ClassishKind::Cinterface => true,
            _ => false,
        }
    }
}

/// A member variable of a class-like declaration.
pub struct ClassVar {
    pub is_static: bool,
    pub id: Id,
}

pub struct Class_ {
    pub kind: ClassishKind,
    pub name: Id,
    pub tparams: Vec<Tparam>,
    pub uses: Vec<Hint>,
    pub vars: Vec<ClassVar>,
    pub methods: Vec<Method_>,
}

/// Settings handed to every hook; the naming checks do not consult them.
#[derive(Clone, Copy, Debug, Default)]
pub struct Config {}

} // verus!
