use elab_passes::ast::Pos;
use elab_passes::errors::NamingError;
use elab_passes::names::check_tparam_name;
use elab_passes::names::is_t_prefixed;
use elab_passes::names::is_this;
use elab_passes::names::is_wildcard;
use elab_passes::names::tparam_name_error;

fn pos(line: u64) -> Pos {
    Pos { line, start: 0, end: 1 }
}

#[test]
fn reserved_name_is_found_through_lower_casing() {
    assert_eq!(tparam_name_error(&pos(1), "ThIs", false, false), Some(NamingError::ThisReserved(pos(1))));
    assert_eq!(tparam_name_error(&pos(1), "THIS", true, true), Some(NamingError::ThisReserved(pos(1))));
    assert_eq!(tparam_name_error(&pos(1), "Thistle", false, false), None);
}

#[test]
fn name_rules_on_a_given_lower_case_form() {
    assert_eq!(check_tparam_name(&pos(2), "Tx", "this", false, false), Some(NamingError::ThisReserved(pos(2))));
    assert_eq!(check_tparam_name(&pos(2), "_", "_", false, false), Some(NamingError::WildcardHintDisallowed(pos(2))));
    assert_eq!(check_tparam_name(&pos(2), "_", "_", true, true), Some(NamingError::WildcardHintDisallowed(pos(2))));
    assert_eq!(check_tparam_name(&pos(2), "_", "_", true, false), Some(NamingError::StartWithT(pos(2))));
    assert_eq!(check_tparam_name(&pos(2), "X", "x", true, false), Some(NamingError::StartWithT(pos(2))));
    assert_eq!(check_tparam_name(&pos(2), "", "", false, false), Some(NamingError::StartWithT(pos(2))));
    assert_eq!(check_tparam_name(&pos(2), "T", "t", false, false), None);
}

#[test]
fn name_predicates() {
    assert!(is_wildcard("_"));
    assert!(!is_wildcard("__"));
    assert!(!is_wildcard(""));
    assert!(is_this("this"));
    assert!(!is_this("This"));
    assert!(!is_this("thiss"));
    assert!(is_t_prefixed("T"));
    assert!(is_t_prefixed("TFoo"));
    assert!(!is_t_prefixed("tFoo"));
    assert!(!is_t_prefixed(""));
}
