//! Scoping and well-formedness of type-parameter declarations, including
//! higher-kinded type parameters and the features they may not combine with.
use std::ops::ControlFlow;

use vstd::prelude::*;

use crate::ast::Class_;
use crate::ast::Config;
use crate::ast::Fun_;
use crate::ast::Hint;
use crate::ast::Hint_;
use crate::ast::Method_;
use crate::ast::Pos;
use crate::ast::ReifyKind;
use crate::ast::Tparam;
use crate::ast::Typedef;
use crate::ast::Variance;
use crate::ast::WhereConstraintHint;
use crate::errors::NamingError;
use crate::errors::NamingPhaseError;
use crate::errors::UnsupportedFeature;
use crate::names::lower_of;
use crate::names::name_error;
use crate::names::tparam_name_error;
use crate::names::wildcard_name;
use crate::names::is_wildcard;

verus! {

/// Whether a bound type parameter takes parameters of its own.
#[derive(Clone, Copy, Debug, PartialEq, Eq, Structural)]
pub enum TparamKind {
    Concrete,
    Higher,
}

/// What the scope table records of a name: where it was declared, whether
/// it is in scope now, and its kind.
pub type ScopeRecord = (Pos, bool, TparamKind);

/// The scope table as a map from names to records.
pub type ScopeMap = Map<Seq<char>, ScopeRecord>;

// ---------------------------------------------------------------------------
// The model: what checking a parameter list does to the scope table and
// which errors it raises, in order.
// ---------------------------------------------------------------------------

pub open spec fn kind_of(tp: Tparam) -> TparamKind {
    if tp.parameters@.len() == 0 {
        TparamKind::Concrete
    } else {
        TparamKind::Higher
    }
}

pub open spec fn is_hk(tp: Tparam) -> bool {
    tp.parameters@.len() > 0
}

/// Binds one parameter: a name already in scope is shadowed, a name seen
/// before but out of scope is reused; either way it is (re)entered in scope.
/// Wildcards are skipped.
pub open spec fn bind_one(m: ScopeMap, tp: Tparam) -> (ScopeMap, Seq<NamingPhaseError>) {
    let n = tp.name.1@;
    if n == wildcard_name() {
        (m, seq![])
    } else {
        let errs = if m.contains_key(n) && m[n].1 {
            seq![
                NamingPhaseError::Naming(
                    NamingError::ShadowedTparam {
                        pos: tp.name.0,
                        tparam_name: tp.name.1,
                        prev_pos: m[n].0,
                    },
                ),
            ]
        } else if m.contains_key(n) {
            seq![
                NamingPhaseError::Naming(
                    NamingError::TparamNonShadowingReuse { pos: tp.name.0, tparam_name: tp.name.1 },
                ),
            ]
        } else {
            seq![]
        };
        (m.insert(n, (tp.name.0, true, kind_of(tp))), errs)
    }
}

/// Binds a list of parameters from left to right.
pub open spec fn bind_all(m: ScopeMap, tps: Seq<Tparam>) -> (ScopeMap, Seq<NamingPhaseError>)
    decreases tps.len(),
{
    if tps.len() == 0 {
        (m, seq![])
    } else {
        let r = bind_all(m, tps.drop_last());
        let s = bind_one(r.0, tps.last());
        (s.0, r.1 + s.1)
    }
}

/// Takes the (non-wildcard) names of a list out of scope, keeping their
/// records.
pub open spec fn unbind_all(m: ScopeMap, tps: Seq<Tparam>) -> ScopeMap
    decreases tps.len(),
{
    if tps.len() == 0 {
        m
    } else {
        let m1 = unbind_all(m, tps.drop_last());
        let n = tps.last().name.1@;
        if n != wildcard_name() && m1.contains_key(n) {
            m1.insert(n, (m1[n].0, false, m1[n].2))
        } else {
            m1
        }
    }
}

pub open spec fn unsupported(tp: Tparam, because_nested: bool, feature: UnsupportedFeature) -> NamingPhaseError {
    NamingPhaseError::Naming(
        NamingError::HKTUnsupportedFeature {
            pos: tp.name.0,
            because_nested,
            var_name: tp.name.1,
            feature,
        },
    )
}

/// The errors for one feature that a parameter has: one because the
/// parameter is nested, one because it is higher-kinded.
#[verifier::opaque]
pub open spec fn feature_errors(tp: Tparam, nested: bool, has: bool, feature: UnsupportedFeature) -> Seq<
    NamingPhaseError,
> {
    (if has && nested {
        seq![unsupported(tp, true, feature)]
    } else {
        seq![]
    }) + (if has && is_hk(tp) {
        seq![unsupported(tp, false, feature)]
    } else {
        seq![]
    })
}

/// The naming-convention error of a parameter, if any.
#[verifier::opaque]
pub open spec fn tparam_name_errors(tp: Tparam, nested: bool) -> Seq<NamingPhaseError> {
    match name_error(tp.name.0, tp.name.1@, lower_of(tp.name.1@), nested, is_hk(tp)) {
        Some(e) => seq![NamingPhaseError::Naming(e)],
        None => seq![],
    }
}

/// The errors of one parameter on its own: its name, then constraints,
/// reification, user attributes and variance.
pub open spec fn tparam_errors(tp: Tparam, nested: bool) -> Seq<NamingPhaseError> {
    tparam_name_errors(tp, nested) + feature_errors(tp, nested, tp.constraints@.len() > 0, UnsupportedFeature::FtConstraints)
        + feature_errors(tp, nested, tp.reified != ReifyKind::Erased, UnsupportedFeature::FtReification)
        + feature_errors(tp, nested, tp.user_attributes@.len() > 0, UnsupportedFeature::FtUserAttrs)
        + feature_errors(tp, nested, tp.variance != Variance::Invariant, UnsupportedFeature::FtVariance)
}

/// Checking a parameter list: bind all of it, validate each parameter (and
/// its own list) in order, and, for the list of a higher-kinded parameter,
/// take its names out of scope again.
pub open spec fn check_list(m: ScopeMap, tps: Seq<Tparam>, nested: bool) -> (ScopeMap, Seq<NamingPhaseError>)
    decreases tps, 1nat, 0nat,
{
    let b = bind_all(m, tps);
    let v = validate_all(b.0, tps, tps.len(), nested);
    let m3 = if nested {
        unbind_all(v.0, tps)
    } else {
        v.0
    };
    (m3, b.1 + v.1)
}

/// Validates the first `i` parameters of a list in order.
pub open spec fn validate_all(m: ScopeMap, tps: Seq<Tparam>, i: nat, nested: bool) -> (ScopeMap, Seq<NamingPhaseError>)
    decreases tps, 0nat, i,
{
    if i == 0 || i > tps.len() {
        (m, seq![])
    } else {
        let r = validate_all(m, tps, (i - 1) as nat, nested);
        let s = check_param(r.0, tps[i - 1], nested);
        (s.0, r.1 + s.1)
    }
}

/// Validates one parameter, then checks its own parameter list as nested.
pub open spec fn check_param(m: ScopeMap, tp: Tparam, nested: bool) -> (ScopeMap, Seq<NamingPhaseError>)
    decreases tp, 0nat, 0nat,
{
    let r = check_list(m, tp.parameters@, true);
    (r.0, tparam_errors(tp, nested) + r.1)
}

/// The errors that visiting a hint raises: inside a function or method
/// `where` clause, a reference to a higher-kinded parameter in scope.
pub open spec fn hint_errors(m: ScopeMap, in_method_or_fun: bool, in_where_constraint: bool, h: Hint) -> Seq<
    NamingPhaseError,
> {
    if in_method_or_fun && in_where_constraint {
        match *h.1 {
            Hint_::Habstr(t, _) => if m.contains_key(t@) && m[t@].1 && m[t@].2 == TparamKind::Higher {
                seq![
                    NamingPhaseError::Naming(
                        NamingError::HKTUnsupportedFeature {
                            pos: h.0,
                            because_nested: false,
                            var_name: t,
                            feature: UnsupportedFeature::FtWhereConstraints,
                        },
                    ),
                ]
            } else {
                seq![]
            },
            _ => seq![],
        }
    } else {
        seq![]
    }
}

proof fn lemma_concat_assoc<A>(a: Seq<A>, b: Seq<A>, c: Seq<A>)
    ensures
        (a + b) + c == a + (b + c),
{
    assert((a + b) + c =~= a + (b + c));
}

// ---------------------------------------------------------------------------
// The pass.
// ---------------------------------------------------------------------------

/// Context for the `where`-clause hint check. Both flags are set on entry to
/// the relevant declaration and are never reset: once any function or
/// method, and any `where` constraint, has been entered, hints are checked
/// for the rest of the traversal.
struct Flags {
    in_method_or_fun: bool,
    in_where_constraint: bool,
}

/// Checks type-parameter declarations as a traversal visits them. The scope
/// table and the two context flags live as long as the traversal.
pub struct ValidateHintHabstrPass {
    tparam_info: Vec<(String, ScopeRecord)>,
    scope: Ghost<ScopeMap>,
    flags: Flags,
}

impl ValidateHintHabstrPass {
    /// The scope table.
    pub closed spec fn scope_table(&self) -> ScopeMap {
        self.scope@
    }

    pub closed spec fn spec_in_method_or_fun(&self) -> bool {
        self.flags.in_method_or_fun
    }

    pub closed spec fn spec_in_where_constraint(&self) -> bool {
        self.flags.in_where_constraint
    }

    /// The entries hold each name once, and are exactly the scope table.
    pub closed spec fn wf(&self) -> bool {
        let e = self.tparam_info@;
        &&& forall|i: int, j: int| 0 <= i < j < e.len() ==> #[trigger] e[i].0@ != #[trigger] e[j].0@
        &&& forall|i: int|
            0 <= i < e.len() ==> self.scope@.contains_key(#[trigger] e[i].0@) && self.scope@[e[i].0@]
                == e[i].1
        &&& forall|k: Seq<char>|
            #[trigger] self.scope@.contains_key(k) ==> exists|i: int| 0 <= i < e.len() && #[trigger] e[i].0@ == k
    }

    /// A pass with an empty scope table and both flags off.
    pub fn new() -> (r: Self)
        ensures
            r.wf(),
            r.scope_table() == ScopeMap::empty(),
            !r.spec_in_method_or_fun(),
            !r.spec_in_where_constraint(),
    {
        ValidateHintHabstrPass {
            tparam_info: Vec::new(),
            scope: Ghost(Map::empty()),
            flags: Flags { in_method_or_fun: false, in_where_constraint: false },
        }
    }

    fn in_method_or_fun(&self) -> (r: bool)
        ensures
            r == self.spec_in_method_or_fun(),
    {
        self.flags.in_method_or_fun
    }

    fn set_in_method_or_fun(&mut self, value: bool)
        ensures
            final(self).spec_in_method_or_fun() == value,
            final(self).spec_in_where_constraint() == old(self).spec_in_where_constraint(),
            final(self).scope_table() == old(self).scope_table(),
            final(self).tparam_info == old(self).tparam_info,
    {
        self.flags.in_method_or_fun = value;
    }

    fn in_where_constraint(&self) -> (r: bool)
        ensures
            r == self.spec_in_where_constraint(),
    {
        self.flags.in_where_constraint
    }

    fn set_in_where_constraint(&mut self, value: bool)
        ensures
            final(self).spec_in_where_constraint() == value,
            final(self).spec_in_method_or_fun() == old(self).spec_in_method_or_fun(),
            final(self).scope_table() == old(self).scope_table(),
            final(self).tparam_info == old(self).tparam_info,
    {
        self.flags.in_where_constraint = value;
    }

    fn clear_tparams(&mut self)
        ensures
            final(self).wf(),
            final(self).scope_table() == ScopeMap::empty(),
            final(self).spec_in_method_or_fun() == old(self).spec_in_method_or_fun(),
            final(self).spec_in_where_constraint() == old(self).spec_in_where_constraint(),
    {
        self.tparam_info.clear();
        self.scope = Ghost(Map::empty());
    }

    /// The index of the entry for `name`, if there is one.
    fn find(&self, name: &String) -> (r: Option<usize>)
        requires
            self.wf(),
        ensures
            match r {
                Some(i) => i < self.tparam_info@.len() && self.tparam_info@[i as int].0@ == name@
                    && self.scope_table().contains_key(name@) && self.scope_table()[name@]
                    == self.tparam_info@[i as int].1,
                None => !self.scope_table().contains_key(name@),
            },
    {
        let mut i: usize = 0;
        while i < self.tparam_info.len()
            invariant
                self.wf(),
                i <= self.tparam_info@.len(),
                forall|j: int| 0 <= j < i ==> #[trigger] self.tparam_info@[j].0@ != name@,
            decreases self.tparam_info.len() - i,
        {
            if self.tparam_info[i].0.eq(name) {
                return Some(i);
            }
            i += 1;
        }
        None
    }

    /// Enters `name` in the table with `rec`, replacing any earlier record.
    fn bind(&mut self, name: &String, rec: ScopeRecord)
        requires
            old(self).wf(),
        ensures
            final(self).wf(),
            final(self).scope_table() == old(self).scope_table().insert(name@, rec),
            final(self).flags == old(self).flags,
    {
        let found = self.find(name);
        let ghost old_info = self.tparam_info@;
        match found {
            Some(i) => {
                let key = self.tparam_info[i].0.clone();
                self.tparam_info.set(i, (key, rec));
            },
            None => {
                self.tparam_info.push((name.clone(), rec));
            },
        }
        self.scope = Ghost(self.scope@.insert(name@, rec));
        proof {
            let e = self.tparam_info@;
            assert forall|k: Seq<char>| #[trigger] self.scope@.contains_key(k) implies exists|i: int|
                0 <= i < e.len() && #[trigger] e[i].0@ == k by {
                if k != name@ {
                    let i = choose|i: int| 0 <= i < old_info.len() && #[trigger] old_info[i].0@ == k;
                    assert(e[i].0@ == k);
                } else {
                    match found {
                        Some(i) => assert(e[i as int].0@ == k),
                        None => assert(e[old_info.len() as int].0@ == k),
                    }
                }
            }
        }
    }

    /// Takes `name` out of scope, keeping its record, if the table has it.
    fn unbind(&mut self, name: &String)
        requires
            old(self).wf(),
        ensures
            final(self).wf(),
            final(self).scope_table() == (if old(self).scope_table().contains_key(name@) {
                let r = old(self).scope_table()[name@];
                old(self).scope_table().insert(name@, (r.0, false, r.2))
            } else {
                old(self).scope_table()
            }),
            final(self).flags == old(self).flags,
    {
        match self.find(name) {
            Some(i) => {
                let (pos, _, kind) = self.tparam_info[i].1;
                self.bind(name, (pos, false, kind));
            },
            None => {},
        }
    }

    /// Checks a parameter list: binds its names (raising shadowing and
    /// reuse errors), validates each parameter and its own list, and for a
    /// nested list takes the names out of scope again.
    fn check_tparams(&mut self, tparams: &Vec<Tparam>, nested: bool, errs: &mut Vec<NamingPhaseError>)
        requires
            old(self).wf(),
        ensures
            final(self).wf(),
            final(self).flags == old(self).flags,
            final(self).scope_table() == check_list(old(self).scope_table(), tparams@, nested).0,
            final(errs)@ == old(errs)@ + check_list(old(self).scope_table(), tparams@, nested).1,
        decreases tparams@, 1nat,
    {
        let ghost m0 = self.scope_table();
        let ghost e0 = errs@;
        let ghost tps = tparams@;
        // Bind pass: put each name in scope, raising shadowing and reuse
        // errors.
        let mut i: usize = 0;
        while i < tparams.len()
            invariant
                self.wf(),
                self.flags == old(self).flags,
                tps == tparams@,
                i <= tps.len(),
                self.scope_table() == bind_all(m0, tps.take(i as int)).0,
                errs@ == e0 + bind_all(m0, tps.take(i as int)).1,
            decreases tparams.len() - i,
        {
            let tp = &tparams[i];
            let ghost before = errs@;
            proof {
                assert(tps.take(i + 1).drop_last() =~= tps.take(i as int));
                assert(tps.take(i + 1).last() == tp);
            }
            if !is_wildcard(tp.name.name()) {
                match self.find(&tp.name.1) {
                    Some(j) => {
                        let (prev_pos, in_scope, _) = self.tparam_info[j].1;
                        if in_scope {
                            errs.push(
                                NamingPhaseError::Naming(
                                    NamingError::ShadowedTparam {
                                        pos: *tp.name.pos(),
                                        tparam_name: tp.name.1.clone(),
                                        prev_pos,
                                    },
                                ),
                            );
                        } else {
                            errs.push(
                                NamingPhaseError::Naming(
                                    NamingError::TparamNonShadowingReuse {
                                        pos: *tp.name.pos(),
                                        tparam_name: tp.name.1.clone(),
                                    },
                                ),
                            );
                        }
                    },
                    None => {},
                }
                let kind = if tp.parameters.len() == 0 {
                    TparamKind::Concrete
                } else {
                    TparamKind::Higher
                };
                self.bind(&tp.name.1, (*tp.name.pos(), true, kind));
            }
            proof {
                let b = bind_all(m0, tps.take(i as int));
                assert(errs@ =~= e0 + (b.1 + bind_one(b.0, tps[i as int]).1));
            }
            i += 1;
        }
        proof {
            assert(tps.take(tps.len() as int) =~= tps);
        }
        // Validate pass: each parameter in order, with its own list.
        let ghost m1 = self.scope_table();
        let ghost e1 = errs@;
        let mut i: usize = 0;
        while i < tparams.len()
            invariant
                self.wf(),
                self.flags == old(self).flags,
                tps == tparams@,
                i <= tps.len(),
                self.scope_table() == validate_all(m1, tps, i as nat, nested).0,
                errs@ == e1 + validate_all(m1, tps, i as nat, nested).1,
            decreases tparams.len() - i,
        {
            self.check_tparam(&tparams[i], nested, errs);
            proof {
                let v = validate_all(m1, tps, i as nat, nested);
                assert(errs@ =~= e1 + (v.1 + check_param(v.0, tps[i as int], nested).1));
            }
            i += 1;
        }
        // The names of a higher-kinded parameter's own list are not visible
        // outside its declaration; keep their records to detect reuse.
        if nested {
            let ghost m2 = self.scope_table();
            let mut i: usize = 0;
            while i < tparams.len()
                invariant
                    self.wf(),
                    self.flags == old(self).flags,
                    tps == tparams@,
                    i <= tps.len(),
                    self.scope_table() == unbind_all(m2, tps.take(i as int)),
                    errs@ == e1 + validate_all(m1, tps, tps.len(), nested).1,
                decreases tparams.len() - i,
            {
                let tp = &tparams[i];
                proof {
                    assert(tps.take(i + 1).drop_last() =~= tps.take(i as int));
                    assert(tps.take(i + 1).last() == tp);
                }
                if !is_wildcard(tp.name.name()) {
                    self.unbind(&tp.name.1);
                }
                i += 1;
            }
            proof {
                assert(tps.take(tps.len() as int) =~= tps);
            }
        }
        proof {
            assert(errs@ =~= e0 + (bind_all(m0, tps).1 + validate_all(m1, tps, tps.len(), nested).1));
        }
    }

    /// Raises the errors for one feature, if `tparam` has it: one if the
    /// parameter is nested, one if it is higher-kinded.
    fn push_unsupported(
        tparam: &Tparam,
        nested: bool,
        is_hk: bool,
        has: bool,
        feature: UnsupportedFeature,
        errs: &mut Vec<NamingPhaseError>,
    )
        requires
            is_hk == crate::validate_hint_habstr::is_hk(*tparam),
        ensures
            final(errs)@ == old(errs)@ + feature_errors(*tparam, nested, has, feature),
    {
        let ghost e0 = errs@;
        if has && nested {
            errs.push(
                NamingPhaseError::Naming(
                    NamingError::HKTUnsupportedFeature {
                        pos: *tparam.name.pos(),
                        because_nested: true,
                        var_name: tparam.name.1.clone(),
                        feature,
                    },
                ),
            );
        }
        if has && is_hk {
            errs.push(
                NamingPhaseError::Naming(
                    NamingError::HKTUnsupportedFeature {
                        pos: *tparam.name.pos(),
                        because_nested: false,
                        var_name: tparam.name.1.clone(),
                        feature,
                    },
                ),
            );
        }
        proof {
            reveal(feature_errors);
            assert(errs@ =~= e0 + feature_errors(*tparam, nested, has, feature));
        }
    }

    /// Raises the errors of one parameter on its own: its name, then the
    /// features that cannot combine with higher-kinded parameters.
    fn push_tparam_errors(tparam: &Tparam, nested: bool, errs: &mut Vec<NamingPhaseError>)
        ensures
            final(errs)@ == old(errs)@ + tparam_errors(*tparam, nested),
    {
        let ghost e0 = errs@;
        let ghost tp = *tparam;
        let is_hk = tparam.parameters.len() != 0;

        // Errors related to the parameter's name.
        match tparam_name_error(tparam.name.pos(), tparam.name.name(), nested, is_hk) {
            Some(e) => errs.push(NamingPhaseError::Naming(e)),
            None => {},
        }
        let ghost e1 = errs@;

        // Errors for features that are not supported in combination with
        // higher-kinded parameters.
        let has_constraints = tparam.constraints.len() != 0;
        Self::push_unsupported(tparam, nested, is_hk, has_constraints, UnsupportedFeature::FtConstraints, errs);
        let ghost p1 = tparam_name_errors(tp, nested) + feature_errors(tp, nested, has_constraints, UnsupportedFeature::FtConstraints);
        proof {
            assert(e1 =~= e0 + tparam_name_errors(tp, nested)) by {
                reveal(tparam_name_errors);
            }
            lemma_concat_assoc(e0, tparam_name_errors(tp, nested), feature_errors(tp, nested, has_constraints, UnsupportedFeature::FtConstraints));
        }
        let has_reification = !tparam.reified.is_erased();
        Self::push_unsupported(tparam, nested, is_hk, has_reification, UnsupportedFeature::FtReification, errs);
        let ghost p2 = p1 + feature_errors(tp, nested, has_reification, UnsupportedFeature::FtReification);
        proof {
            lemma_concat_assoc(e0, p1, feature_errors(tp, nested, has_reification, UnsupportedFeature::FtReification));
        }
        let has_attrs = tparam.user_attributes.len() != 0;
        Self::push_unsupported(tparam, nested, is_hk, has_attrs, UnsupportedFeature::FtUserAttrs, errs);
        let ghost p3 = p2 + feature_errors(tp, nested, has_attrs, UnsupportedFeature::FtUserAttrs);
        proof {
            lemma_concat_assoc(e0, p2, feature_errors(tp, nested, has_attrs, UnsupportedFeature::FtUserAttrs));
        }
        let has_variance = !tparam.variance.is_invariant();
        Self::push_unsupported(tparam, nested, is_hk, has_variance, UnsupportedFeature::FtVariance, errs);
        let ghost p4 = p3 + feature_errors(tp, nested, has_variance, UnsupportedFeature::FtVariance);
        proof {
            lemma_concat_assoc(e0, p3, feature_errors(tp, nested, has_variance, UnsupportedFeature::FtVariance));
        }
    }

    /// Validates one parameter: its name, the features that cannot combine
    /// with higher-kinded parameters, then its own parameter list as nested.
    fn check_tparam(&mut self, tparam: &Tparam, nested: bool, errs: &mut Vec<NamingPhaseError>)
        requires
            old(self).wf(),
        ensures
            final(self).wf(),
            final(self).flags == old(self).flags,
            final(self).scope_table() == check_param(old(self).scope_table(), *tparam, nested).0,
            final(errs)@ == old(errs)@ + check_param(old(self).scope_table(), *tparam, nested).1,
        decreases tparam, 0nat,
    {
        let ghost e0 = errs@;
        Self::push_tparam_errors(tparam, nested, errs);
        self.check_tparams(&tparam.parameters, true, errs);
        proof {
            let r = check_list(old(self).scope_table(), tparam.parameters@, true);
            assert(errs@ =~= e0 + (tparam_errors(*tparam, nested) + r.1));
        }
    }

    /// Entering a class: nothing outside it is in scope; its parameters are
    /// checked and brought into scope.
    pub fn on_ty_class__top_down(
        &mut self,
        elem: &mut Class_,
        _cfg: &Config,
        errs: &mut Vec<NamingPhaseError>,
    ) -> (r: ControlFlow<(), ()>)
        requires
            old(self).wf(),
        ensures
            final(self).wf(),
            final(self).scope_table() == check_list(ScopeMap::empty(), old(elem).tparams@, false).0,
            final(errs)@ == old(errs)@ + check_list(ScopeMap::empty(), old(elem).tparams@, false).1,
            final(self).spec_in_method_or_fun() == old(self).spec_in_method_or_fun(),
            final(self).spec_in_where_constraint() == old(self).spec_in_where_constraint(),
            *final(elem) == *old(elem),
            r == ControlFlow::<(), ()>::Continue(()),
    {
        // Classes stand at the top level, so nothing should be in scope; clear
        // anyway.
        self.clear_tparams();
        self.check_tparams(&elem.tparams, false, errs);
        ControlFlow::Continue(())
    }

    /// Entering a type alias: as for a class.
    pub fn on_ty_typedef_top_down(
        &mut self,
        elem: &mut Typedef,
        _cfg: &Config,
        errs: &mut Vec<NamingPhaseError>,
    ) -> (r: ControlFlow<(), ()>)
        requires
            old(self).wf(),
        ensures
            final(self).wf(),
            final(self).scope_table() == check_list(ScopeMap::empty(), old(elem).tparams@, false).0,
            final(errs)@ == old(errs)@ + check_list(ScopeMap::empty(), old(elem).tparams@, false).1,
            final(self).spec_in_method_or_fun() == old(self).spec_in_method_or_fun(),
            final(self).spec_in_where_constraint() == old(self).spec_in_where_constraint(),
            *final(elem) == *old(elem),
            r == ControlFlow::<(), ()>::Continue(()),
    {
        self.clear_tparams();
        self.check_tparams(&elem.tparams, false, errs);
        ControlFlow::Continue(())
    }

    /// Entering a top-level function: as for a class, and from now on hints
    /// inside `where` constraints are checked.
    pub fn on_ty_fun__top_down(
        &mut self,
        elem: &mut Fun_,
        _cfg: &Config,
        errs: &mut Vec<NamingPhaseError>,
    ) -> (r: ControlFlow<(), ()>)
        requires
            old(self).wf(),
        ensures
            final(self).wf(),
            final(self).scope_table() == check_list(ScopeMap::empty(), old(elem).tparams@, false).0,
            final(errs)@ == old(errs)@ + check_list(ScopeMap::empty(), old(elem).tparams@, false).1,
            final(self).spec_in_method_or_fun(),
            final(self).spec_in_where_constraint() == old(self).spec_in_where_constraint(),
            *final(elem) == *old(elem),
            r == ControlFlow::<(), ()>::Continue(()),
    {
        self.clear_tparams();
        self.check_tparams(&elem.tparams, false, errs);
        // Hints inside where constraints are checked for functions and
        // methods only, not for class-level constraints.
        self.set_in_method_or_fun(true);
        ControlFlow::Continue(())
    }

    /// Entering a method: its parameters are checked with the class's
    /// parameters still in scope, and from now on hints inside `where`
    /// constraints are checked.
    pub fn on_ty_method__top_down(
        &mut self,
        elem: &mut Method_,
        _cfg: &Config,
        errs: &mut Vec<NamingPhaseError>,
    ) -> (r: ControlFlow<(), ()>)
        requires
            old(self).wf(),
        ensures
            final(self).wf(),
            final(self).scope_table() == check_list(old(self).scope_table(), old(elem).tparams@, false).0,
            final(errs)@ == old(errs)@ + check_list(old(self).scope_table(), old(elem).tparams@, false).1,
            final(self).spec_in_method_or_fun(),
            final(self).spec_in_where_constraint() == old(self).spec_in_where_constraint(),
            *final(elem) == *old(elem),
            r == ControlFlow::<(), ()>::Continue(()),
    {
        self.check_tparams(&elem.tparams, false, errs);
        self.set_in_method_or_fun(true);
        ControlFlow::Continue(())
    }

    /// Entering a `where` constraint: hints below it are checked.
    pub fn on_ty_where_constraint_hint_top_down(
        &mut self,
        _elem: &mut WhereConstraintHint,
        _cfg: &Config,
        _errs: &mut Vec<NamingPhaseError>,
    ) -> (r: ControlFlow<(), ()>)
        requires
            old(self).wf(),
        ensures
            final(self).wf(),
            final(self).scope_table() == old(self).scope_table(),
            final(_errs)@ == old(_errs)@,
            final(self).spec_in_method_or_fun() == old(self).spec_in_method_or_fun(),
            final(self).spec_in_where_constraint(),
            *final(_elem) == *old(_elem),
            r == ControlFlow::<(), ()>::Continue(()),
    {
        self.set_in_where_constraint(true);
        ControlFlow::Continue(())
    }

    /// Visiting a hint: inside a function or method `where` constraint, a
    /// reference to a higher-kinded parameter in scope is an error. Applied
    /// names that refer to type parameters have already been rewritten into
    /// references (`Habstr`) by an earlier pass.
    pub fn on_ty_hint_top_down(
        &mut self,
        elem: &mut Hint,
        _cfg: &Config,
        errs: &mut Vec<NamingPhaseError>,
    ) -> (r: ControlFlow<(), ()>)
        requires
            old(self).wf(),
        ensures
            *final(self) == *old(self),
            final(errs)@ == old(errs)@ + hint_errors(
                old(self).scope_table(),
                old(self).spec_in_method_or_fun(),
                old(self).spec_in_where_constraint(),
                *old(elem),
            ),
            *final(elem) == *old(elem),
            r == ControlFlow::<(), ()>::Continue(()),
    {
        if self.in_method_or_fun() && self.in_where_constraint() {
            match &*elem.1 {
                Hint_::Habstr(t, _) => {
                    match self.find(t) {
                        Some(i) => {
                            let (_, in_scope, kind) = self.tparam_info[i].1;
                            if in_scope && kind == TparamKind::Higher {
                                errs.push(
                                    NamingPhaseError::Naming(
                                        NamingError::HKTUnsupportedFeature {
                                            pos: elem.0,
                                            because_nested: false,
                                            var_name: t.clone(),
                                            feature: UnsupportedFeature::FtWhereConstraints,
                                        },
                                    ),
                                );
                            }
                        },
                        None => {},
                    }
                },
                _ => {},
            }
        }
        proof {
            assert(errs@ =~= old(errs)@ + hint_errors(
                self.scope_table(),
                self.spec_in_method_or_fun(),
                self.spec_in_where_constraint(),
                *elem,
            ));
        }
        ControlFlow::Continue(())
    }
}

impl Default for ValidateHintHabstrPass {
    fn default() -> (r: Self)
        ensures
            r.wf(),
            r.scope_table() == ScopeMap::empty(),
            !r.spec_in_method_or_fun(),
            !r.spec_in_where_constraint(),
    {
        Self::new()
    }
}

} // verus!
