//! Structural checks on interface declarations: no traits used, no member
//! variables, no method bodies.
use std::ops::ControlFlow;

use vstd::prelude::*;

use crate::ast::ClassVar;
use crate::ast::Class_;
use crate::ast::ClassishKind;
use crate::ast::Config;
use crate::ast::Hint;
use crate::ast::Method_;
use crate::ast::Pos;
use crate::errors::NamingPhaseError;
use crate::errors::NastCheckError;

verus! {

/// One error for each `use` clause.
pub open spec fn uses_errors(uses: Seq<Hint>) -> Seq<NamingPhaseError>
    decreases uses.len(),
{
    if uses.len() == 0 {
        seq![]
    } else {
        uses_errors(uses.drop_last()) + seq![
            NamingPhaseError::NastCheck(NastCheckError::InterfaceUsesTrait(uses.last().0)),
        ]
    }
}

/// The position of the first member variable that is static (or, with
/// `is_static` false, that is not).
pub open spec fn first_var(vars: Seq<ClassVar>, is_static: bool) -> Option<Pos>
    decreases vars.len(),
{
    if vars.len() == 0 {
        None
    } else {
        match first_var(vars.drop_last(), is_static) {
            Some(p) => Some(p),
            None => if vars.last().is_static == is_static {
                Some(vars.last().id.0)
            } else {
                None
            },
        }
    }
}

/// One error for each method with a non-empty body.
pub open spec fn body_errors(methods: Seq<Method_>) -> Seq<NamingPhaseError>
    decreases methods.len(),
{
    if methods.len() == 0 {
        seq![]
    } else {
        let m = methods.last();
        body_errors(methods.drop_last()) + if m.body.fb_ast.0@.len() > 0 {
            seq![NamingPhaseError::NastCheck(NastCheckError::AbstractBody(m.name.0))]
        } else {
            seq![]
        }
    }
}

/// The errors of a class-like declaration: none unless it is an interface;
/// for an interface, its `use` clauses, its first instance variable, its
/// first static variable, and each method with a body, in that order.
pub open spec fn interface_errors(c: Class_) -> Seq<NamingPhaseError> {
    if c.kind == ClassishKind::Cinterface {
        let inst = match first_var(c.vars@, false) {
            Some(p) => seq![NamingPhaseError::NastCheck(NastCheckError::InterfaceWithMemberVariable(p))],
            None => seq![],
        };
        let stat = match first_var(c.vars@, true) {
            Some(p) => seq![
                NamingPhaseError::NastCheck(NastCheckError::InterfaceWithStaticMemberVariable(p)),
            ],
            None => seq![],
        };
        uses_errors(c.uses@) + inst + stat + body_errors(c.methods@)
    } else {
        seq![]
    }
}

/// Once found, the first match stays the first in every longer prefix.
proof fn lemma_first_var_stays(vars: Seq<ClassVar>, is_static: bool, i: int, j: int)
    requires
        0 <= i <= j <= vars.len(),
        first_var(vars.take(i), is_static) is Some,
    ensures
        first_var(vars.take(j), is_static) == first_var(vars.take(i), is_static),
    decreases j - i,
{
    if j > i {
        lemma_first_var_stays(vars, is_static, i, j - 1);
        assert(vars.take(j).drop_last() =~= vars.take(j - 1));
    }
}

/// The interface check; it keeps no state.
#[derive(Clone, Copy, Default)]
pub struct ValidateInterfacePass;

impl ValidateInterfacePass {
    /// Leaving a class-like declaration: raises the structural errors of an
    /// interface.
    pub fn on_ty_class__bottom_up(
        &mut self,
        elem: &mut Class_,
        _cfg: &Config,
        errs: &mut Vec<NamingPhaseError>,
    ) -> (r: ControlFlow<(), ()>)
        ensures
            final(errs)@ == old(errs)@ + interface_errors(*old(elem)),
            *final(elem) == *old(elem),
            r == ControlFlow::<(), ()>::Continue(()),
    {
        let ghost e0 = errs@;
        if elem.kind.is_cinterface() {
            // An error for each `use` clause.
            let mut i: usize = 0;
            while i < elem.uses.len()
                invariant
                    i <= elem.uses@.len(),
                    errs@ == e0 + uses_errors(elem.uses@.take(i as int)),
                decreases elem.uses.len() - i,
            {
                proof {
                    assert(elem.uses@.take(i + 1).drop_last() =~= elem.uses@.take(i as int));
                }
                errs.push(NamingPhaseError::NastCheck(NastCheckError::InterfaceUsesTrait(elem.uses[i].0)));
                proof {
                    assert(errs@ =~= e0 + uses_errors(elem.uses@.take(i + 1)));
                }
                i += 1;
            }
            proof {
                assert(elem.uses@.take(elem.uses@.len() as int) =~= elem.uses@);
            }
            let ghost e1 = errs@;

            // An error for the first instance and the first static member
            // variable, if any; the scan stops once both are found.
            let mut instance_var_pos: Option<Pos> = None;
            let mut static_var_pos: Option<Pos> = None;
            let ghost vars = elem.vars@;
            let mut i: usize = 0;
            while i < elem.vars.len() && (instance_var_pos.is_none() || static_var_pos.is_none())
                invariant
                    vars == elem.vars@,
                    i <= vars.len(),
                    instance_var_pos == first_var(vars.take(i as int), false),
                    static_var_pos == first_var(vars.take(i as int), true),
                decreases elem.vars.len() - i,
            {
                let var = &elem.vars[i];
                proof {
                    assert(vars.take(i + 1).drop_last() =~= vars.take(i as int));
                }
                if var.is_static {
                    if static_var_pos.is_none() {
                        static_var_pos = Some(var.id.0);
                    }
                } else {
                    if instance_var_pos.is_none() {
                        instance_var_pos = Some(var.id.0);
                    }
                }
                i += 1;
            }
            proof {
                if i < vars.len() {
                    lemma_first_var_stays(vars, false, i as int, vars.len() as int);
                    lemma_first_var_stays(vars, true, i as int, vars.len() as int);
                }
                assert(vars.take(vars.len() as int) =~= vars);
            }
            match instance_var_pos {
                Some(pos) => errs.push(NamingPhaseError::NastCheck(NastCheckError::InterfaceWithMemberVariable(pos))),
                None => {},
            }
            match static_var_pos {
                Some(pos) => errs.push(
                    NamingPhaseError::NastCheck(NastCheckError::InterfaceWithStaticMemberVariable(pos)),
                ),
                None => {},
            }
            let ghost e2 = errs@;

            // An error for each method with a non-empty body.
            let mut i: usize = 0;
            while i < elem.methods.len()
                invariant
                    i <= elem.methods@.len(),
                    errs@ == e2 + body_errors(elem.methods@.take(i as int)),
                decreases elem.methods.len() - i,
            {
                proof {
                    assert(elem.methods@.take(i + 1).drop_last() =~= elem.methods@.take(i as int));
                }
                let m = &elem.methods[i];
                if m.body.fb_ast.0.len() != 0 {
                    errs.push(NamingPhaseError::NastCheck(NastCheckError::AbstractBody(m.name.0)));
                }
                proof {
                    assert(errs@ =~= e2 + body_errors(elem.methods@.take(i + 1)));
                }
                i += 1;
            }
            proof {
                assert(elem.methods@.take(elem.methods@.len() as int) =~= elem.methods@);
                assert(errs@ =~= e0 + interface_errors(*elem));
            }
        }
        ControlFlow::Continue(())
    }
}

} // verus!
