use param_sync::params::{ParamRecord, ParamValue, Patch, PatchError};

fn rec(v: Vec<ParamValue>) -> ParamRecord {
    ParamRecord::new(v)
}

#[test]
fn diff_then_apply_reaches_new_value() {
    let a = rec(vec![ParamValue::Int(1), ParamValue::Bool(false), ParamValue::Handle(None)]);
    let b = rec(vec![ParamValue::Int(5), ParamValue::Bool(false), ParamValue::Handle(Some(9))]);
    let patches = a.diff(&b);
    assert_eq!(
        patches,
        vec![
            Patch { path: 0, value: ParamValue::Int(5) },
            Patch { path: 2, value: ParamValue::Handle(Some(9)) },
        ]
    );
    let mut m = a.mirror();
    assert_eq!(m.apply_all(&patches), Ok(()));
    assert_eq!(m.fields, b.fields);
}

#[test]
fn diff_of_equal_values_is_empty() {
    let a = rec(vec![ParamValue::Int(-3), ParamValue::Handle(Some(1))]);
    assert!(a.diff(&a.mirror()).is_empty());
    let empty = rec(vec![]);
    assert!(empty.diff(&rec(vec![])).is_empty());
}

#[test]
fn diff_is_deterministic() {
    let a = rec(vec![ParamValue::Bool(true), ParamValue::Int(0)]);
    let b = rec(vec![ParamValue::Bool(false), ParamValue::Int(4)]);
    assert_eq!(a.diff(&b), a.diff(&b));
}

#[test]
fn absence_versus_presence_is_a_change() {
    let a = rec(vec![ParamValue::Handle(Some(3))]);
    let b = rec(vec![ParamValue::Handle(None)]);
    assert_eq!(a.diff(&b), vec![Patch { path: 0, value: ParamValue::Handle(None) }]);
}

#[test]
fn applying_a_patch_twice_is_applying_it_once() {
    let p = Patch { path: 1, value: ParamValue::Int(42) };
    let mut once = rec(vec![ParamValue::Int(0), ParamValue::Int(0)]);
    let mut twice = once.mirror();
    assert_eq!(once.apply(&p), Ok(()));
    assert_eq!(twice.apply(&p), Ok(()));
    assert_eq!(twice.apply(&p), Ok(()));
    assert_eq!(once.fields, twice.fields);
    assert_eq!(once.fields, vec![ParamValue::Int(0), ParamValue::Int(42)]);
}

#[test]
fn patch_to_missing_path_is_refused() {
    let mut m = rec(vec![ParamValue::Int(1)]);
    let p = Patch { path: 1, value: ParamValue::Int(2) };
    assert_eq!(m.apply(&p), Err(PatchError::UnknownPath(1)));
    assert_eq!(m.fields, vec![ParamValue::Int(1)]);
    let ps = vec![Patch { path: 0, value: ParamValue::Int(7) }, p];
    assert_eq!(m.apply_all(&ps), Err(PatchError::UnknownPath(1)));
    assert_eq!(m.fields, vec![ParamValue::Int(7)]);
}
