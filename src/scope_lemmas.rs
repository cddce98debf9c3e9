//! Facts about how checking parameter lists shapes the scope table.
use vstd::prelude::*;

use crate::ast::ReifyKind;
use crate::ast::Tparam;
use crate::ast::Variance;
use crate::errors::NamingError;
use crate::errors::NamingPhaseError;
use crate::errors::UnsupportedFeature;
use crate::names::wildcard_name;
use crate::validate_hint_habstr::bind_all;
use crate::validate_hint_habstr::bind_one;
use crate::validate_hint_habstr::check_list;
use crate::validate_hint_habstr::check_param;
use crate::validate_hint_habstr::feature_errors;
use crate::validate_hint_habstr::kind_of;
use crate::validate_hint_habstr::tparam_errors;
use crate::validate_hint_habstr::tparam_name_errors;
use crate::validate_hint_habstr::unbind_all;
use crate::validate_hint_habstr::validate_all;
use crate::validate_hint_habstr::ScopeMap;

verus! {

/// The name that a shadowing or reuse error is about.
pub open spec fn binding_error_name(e: NamingPhaseError) -> Option<Seq<char>> {
    match e {
        NamingPhaseError::Naming(NamingError::ShadowedTparam { tparam_name, .. }) => Some(tparam_name@),
        NamingPhaseError::Naming(NamingError::TparamNonShadowingReuse { tparam_name, .. }) => Some(
            tparam_name@,
        ),
        _ => None,
    }
}

/// No shadowing or reuse error in `errs` is about a wildcard.
pub open spec fn no_wildcard_binding_errors(errs: Seq<NamingPhaseError>) -> bool {
    forall|i: int| 0 <= i < errs.len() ==> binding_error_name(#[trigger] errs[i]) != Some(wildcard_name())
}

proof fn lemma_no_wildcard_concat(a: Seq<NamingPhaseError>, b: Seq<NamingPhaseError>)
    requires
        no_wildcard_binding_errors(a),
        no_wildcard_binding_errors(b),
    ensures
        no_wildcard_binding_errors(a + b),
{
    assert forall|i: int| 0 <= i < (a + b).len() implies binding_error_name(#[trigger] (a + b)[i]) != Some(
        wildcard_name(),
    ) by {
        if i < a.len() {
            assert((a + b)[i] == a[i]);
        } else {
            assert((a + b)[i] == b[i - a.len()]);
        }
    }
}

/// Binding a name that is in scope raises exactly one shadowing error and
/// no reuse error; binding a name that is recorded but out of scope raises
/// exactly one reuse error and no shadowing error; a fresh name raises
/// neither. In every case the name is then in scope, with the position and
/// kind of the new declaration.
pub proof fn lemma_bind_shadow_or_reuse(m: ScopeMap, tp: Tparam)
    requires
        tp.name.1@ != wildcard_name(),
    ensures
        ({
            let n = tp.name.1@;
            let e = bind_one(m, tp).1;
            &&& m.contains_key(n) && m[n].1 ==> e == seq![
                NamingPhaseError::Naming(
                    NamingError::ShadowedTparam { pos: tp.name.0, tparam_name: tp.name.1, prev_pos: m[n].0 },
                ),
            ]
            &&& m.contains_key(n) && !m[n].1 ==> e == seq![
                NamingPhaseError::Naming(
                    NamingError::TparamNonShadowingReuse { pos: tp.name.0, tparam_name: tp.name.1 },
                ),
            ]
            &&& !m.contains_key(n) ==> e.len() == 0
            &&& bind_one(m, tp).0 == m.insert(n, (tp.name.0, true, kind_of(tp)))
        }),
{
}

/// After a list is bound, every (non-wildcard) name in it is in scope, and
/// every name recorded before is still recorded.
pub proof fn lemma_bound_names_in_scope(m: ScopeMap, tps: Seq<Tparam>)
    ensures
        forall|i: int|
            0 <= i < tps.len() && #[trigger] tps[i].name.1@ != wildcard_name() ==> bind_all(m, tps).0.contains_key(
                tps[i].name.1@,
            ) && bind_all(m, tps).0[tps[i].name.1@].1,
        forall|k: Seq<char>| m.contains_key(k) ==> #[trigger] bind_all(m, tps).0.contains_key(k),
    decreases tps.len(),
{
    if tps.len() > 0 {
        lemma_bound_names_in_scope(m, tps.drop_last());
        let r = bind_all(m, tps.drop_last()).0;
        assert forall|i: int|
            0 <= i < tps.len() && #[trigger] tps[i].name.1@ != wildcard_name() implies bind_all(
                m,
                tps,
            ).0.contains_key(tps[i].name.1@) && bind_all(m, tps).0[tps[i].name.1@].1 by {
            if i < tps.len() - 1 {
                assert(tps.drop_last()[i] == tps[i]);
            }
        }
    }
}

/// Within one list, a name declared again after an earlier declaration is
/// shadowed: exactly one shadowing error, naming the declaration in scope.
pub proof fn lemma_duplicate_in_list_shadows(m: ScopeMap, tps: Seq<Tparam>, i: int, j: int)
    requires
        0 <= i < j < tps.len(),
        tps[i].name.1@ == tps[j].name.1@,
        tps[j].name.1@ != wildcard_name(),
    ensures
        ({
            let b = bind_all(m, tps.take(j)).0;
            let n = tps[j].name.1@;
            &&& b.contains_key(n) && b[n].1
            &&& bind_one(b, tps[j]).1 == seq![
                NamingPhaseError::Naming(
                    NamingError::ShadowedTparam {
                        pos: tps[j].name.0,
                        tparam_name: tps[j].name.1,
                        prev_pos: b[n].0,
                    },
                ),
            ]
        }),
{
    lemma_bound_names_in_scope(m, tps.take(j));
    assert(tps.take(j)[i] == tps[i]);
}

proof fn lemma_bind_all_no_wildcard(m: ScopeMap, tps: Seq<Tparam>)
    requires
        !m.contains_key(wildcard_name()),
    ensures
        !bind_all(m, tps).0.contains_key(wildcard_name()),
        no_wildcard_binding_errors(bind_all(m, tps).1),
    decreases tps.len(),
{
    if tps.len() > 0 {
        lemma_bind_all_no_wildcard(m, tps.drop_last());
        let r = bind_all(m, tps.drop_last());
        let s = bind_one(r.0, tps.last());
        assert(no_wildcard_binding_errors(s.1));
        lemma_no_wildcard_concat(r.1, s.1);
    }
}

proof fn lemma_unbind_all_keys(m: ScopeMap, tps: Seq<Tparam>)
    ensures
        forall|k: Seq<char>| #[trigger] unbind_all(m, tps).contains_key(k) == m.contains_key(k),
    decreases tps.len(),
{
    if tps.len() > 0 {
        lemma_unbind_all_keys(m, tps.drop_last());
        let m1 = unbind_all(m, tps.drop_last());
        assert forall|k: Seq<char>| #[trigger] unbind_all(m, tps).contains_key(k) == m.contains_key(k) by {
            assert(m1.contains_key(k) == m.contains_key(k));
        }
    }
}

proof fn lemma_tparam_errors_no_binding(tp: Tparam, nested: bool)
    ensures
        no_wildcard_binding_errors(tparam_errors(tp, nested)),
{
    reveal(tparam_name_errors);
    reveal(feature_errors);
    let n = tparam_name_errors(tp, nested);
    assert(no_wildcard_binding_errors(n)) by {
        assert forall|i: int| 0 <= i < n.len() implies binding_error_name(#[trigger] n[i]) != Some(
            wildcard_name(),
        ) by {
            assert(binding_error_name(n[i]) is None);
        }
    }
    let f1 = feature_errors(tp, nested, tp.constraints@.len() > 0, UnsupportedFeature::FtConstraints);
    let f2 = feature_errors(tp, nested, tp.reified != ReifyKind::Erased, UnsupportedFeature::FtReification);
    let f3 = feature_errors(tp, nested, tp.user_attributes@.len() > 0, UnsupportedFeature::FtUserAttrs);
    let f4 = feature_errors(tp, nested, tp.variance != Variance::Invariant, UnsupportedFeature::FtVariance);
    lemma_feature_errors_no_binding(tp, nested, tp.constraints@.len() > 0, UnsupportedFeature::FtConstraints);
    lemma_feature_errors_no_binding(tp, nested, tp.reified != ReifyKind::Erased, UnsupportedFeature::FtReification);
    lemma_feature_errors_no_binding(tp, nested, tp.user_attributes@.len() > 0, UnsupportedFeature::FtUserAttrs);
    lemma_feature_errors_no_binding(tp, nested, tp.variance != Variance::Invariant, UnsupportedFeature::FtVariance);
    lemma_no_wildcard_concat(n, f1);
    lemma_no_wildcard_concat(n + f1, f2);
    lemma_no_wildcard_concat(n + f1 + f2, f3);
    lemma_no_wildcard_concat(n + f1 + f2 + f3, f4);
}

proof fn lemma_feature_errors_no_binding(tp: Tparam, nested: bool, has: bool, feature: UnsupportedFeature)
    ensures
        no_wildcard_binding_errors(feature_errors(tp, nested, has, feature)),
{
    reveal(feature_errors);
    let e = feature_errors(tp, nested, has, feature);
    assert forall|i: int| 0 <= i < e.len() implies binding_error_name(#[trigger] e[i]) != Some(
        wildcard_name(),
    ) by {
        assert(binding_error_name(e[i]) is None);
    }
}

/// Checking a list keeps every recorded name recorded, and, from a table
/// without the wildcard, leaves a table without it and raises no shadowing
/// or reuse error about it.
proof fn lemma_check_list_facts(m: ScopeMap, tps: Seq<Tparam>, nested: bool)
    ensures
        forall|k: Seq<char>| m.contains_key(k) ==> #[trigger] check_list(m, tps, nested).0.contains_key(k),
        !m.contains_key(wildcard_name()) ==> !check_list(m, tps, nested).0.contains_key(wildcard_name())
            && no_wildcard_binding_errors(check_list(m, tps, nested).1),
    decreases tps, 1nat, 0nat,
{
    let b = bind_all(m, tps);
    lemma_bound_names_in_scope(m, tps);
    lemma_validate_all_facts(b.0, tps, tps.len(), nested);
    let v = validate_all(b.0, tps, tps.len(), nested);
    lemma_unbind_all_keys(v.0, tps);
    if !m.contains_key(wildcard_name()) {
        lemma_bind_all_no_wildcard(m, tps);
        lemma_no_wildcard_concat(b.1, v.1);
    }
}

proof fn lemma_validate_all_facts(m: ScopeMap, tps: Seq<Tparam>, i: nat, nested: bool)
    ensures
        forall|k: Seq<char>| m.contains_key(k) ==> #[trigger] validate_all(m, tps, i, nested).0.contains_key(k),
        !m.contains_key(wildcard_name()) ==> !validate_all(m, tps, i, nested).0.contains_key(wildcard_name())
            && no_wildcard_binding_errors(validate_all(m, tps, i, nested).1),
    decreases tps, 0nat, i,
{
    if i != 0 && i <= tps.len() {
        lemma_validate_all_facts(m, tps, (i - 1) as nat, nested);
        let r = validate_all(m, tps, (i - 1) as nat, nested);
        lemma_check_param_facts(r.0, tps[i - 1], nested);
        if !m.contains_key(wildcard_name()) {
            lemma_no_wildcard_concat(r.1, check_param(r.0, tps[i - 1], nested).1);
        }
    }
}

proof fn lemma_check_param_facts(m: ScopeMap, tp: Tparam, nested: bool)
    ensures
        forall|k: Seq<char>| m.contains_key(k) ==> #[trigger] check_param(m, tp, nested).0.contains_key(k),
        !m.contains_key(wildcard_name()) ==> !check_param(m, tp, nested).0.contains_key(wildcard_name())
            && no_wildcard_binding_errors(check_param(m, tp, nested).1),
    decreases tp, 0nat, 0nat,
{
    lemma_check_list_facts(m, tp.parameters@, true);
    lemma_tparam_errors_no_binding(tp, nested);
    assert(check_param(m, tp, nested).0 == check_list(m, tp.parameters@, true).0);
    if !m.contains_key(wildcard_name()) {
        lemma_no_wildcard_concat(tparam_errors(tp, nested), check_list(m, tp.parameters@, true).1);
    }
}

/// A wildcard is never entered into the scope table and never raises a
/// shadowing or reuse error: binding one changes nothing and raises
/// nothing, and checking any list from a table without the wildcard leaves
/// a table without it and raises no shadowing or reuse error about it.
pub proof fn lemma_wildcard_never_bound(m: ScopeMap, tp: Tparam, tps: Seq<Tparam>, nested: bool)
    requires
        tp.name.1@ == wildcard_name(),
    ensures
        bind_one(m, tp) == (m, Seq::<NamingPhaseError>::empty()),
        !m.contains_key(wildcard_name()) ==> !check_list(m, tps, nested).0.contains_key(wildcard_name())
            && no_wildcard_binding_errors(check_list(m, tps, nested).1),
{
    lemma_check_list_facts(m, tps, nested);
}

proof fn lemma_unbind_all_out_of_scope(m: ScopeMap, tps: Seq<Tparam>)
    ensures
        forall|i: int|
            0 <= i < tps.len() && #[trigger] tps[i].name.1@ != wildcard_name() && m.contains_key(tps[i].name.1@)
                ==> unbind_all(m, tps).contains_key(tps[i].name.1@) && !unbind_all(m, tps)[tps[i].name.1@].1,
    decreases tps.len(),
{
    if tps.len() > 0 {
        lemma_unbind_all_out_of_scope(m, tps.drop_last());
        lemma_unbind_all_keys(m, tps.drop_last());
        assert forall|i: int|
            0 <= i < tps.len() && #[trigger] tps[i].name.1@ != wildcard_name() && m.contains_key(
                tps[i].name.1@,
            ) implies unbind_all(m, tps).contains_key(tps[i].name.1@) && !unbind_all(m, tps)[tps[i].name.1@].1 by {
            let n = tps[i].name.1@;
            let m1 = unbind_all(m, tps.drop_last());
            assert(m1.contains_key(n));
            if i < tps.len() - 1 {
                assert(tps.drop_last()[i] == tps[i]);
                assert(!m1[n].1);
            }
        }
    }
}

/// The parameters of a higher-kinded parameter are in scope when its own
/// list is validated, and out of scope after it, though still recorded so
/// that a later reuse of their names is detected.
pub proof fn lemma_nested_scope(m: ScopeMap, tp: Tparam, nested: bool)
    ensures
        forall|i: int|
            0 <= i < tp.parameters@.len() && #[trigger] tp.parameters@[i].name.1@ != wildcard_name() ==> {
                let during = bind_all(m, tp.parameters@).0;
                let after = check_param(m, tp, nested).0;
                &&& during.contains_key(tp.parameters@[i].name.1@)
                &&& during[tp.parameters@[i].name.1@].1
                &&& after.contains_key(tp.parameters@[i].name.1@)
                &&& !after[tp.parameters@[i].name.1@].1
            },
{
    let tps = tp.parameters@;
    let b = bind_all(m, tps);
    lemma_bound_names_in_scope(m, tps);
    lemma_validate_all_facts(b.0, tps, tps.len(), true);
    let v = validate_all(b.0, tps, tps.len(), true);
    lemma_unbind_all_out_of_scope(v.0, tps);
}

} // verus!
