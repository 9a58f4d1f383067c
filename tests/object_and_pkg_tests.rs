use si_layer_cache::component_view::{ComponentKind, SystemView};
use si_layer_cache::error::LayerDbError;
use si_layer_cache::object_cache::{bucket_action, object_exists_outcome, object_get_many_outcome, object_get_outcome, BucketAction, StoreProbe, ObjectFetch};
use si_layer_cache::pkg_spec::{AttrFuncInputSpec, AuthenticationFuncSpec, FuncUniqueId, PropSpec, PropSpecKind, SpecError, ValidationSpec};

#[test]
fn object_get_treats_absent_and_empty_as_not_found() {
    assert_eq!(object_get_outcome(ObjectFetch::Body(vec![1, 2])), Ok(Some(vec![1, 2])));
    assert_eq!(object_get_outcome(ObjectFetch::Body(vec![])), Ok(None));
    assert_eq!(object_get_outcome(ObjectFetch::NoSuchKey), Ok(None));
    assert_eq!(
        object_get_outcome(ObjectFetch::Failed("timeout".to_string())),
        Err(LayerDbError::ObjectStore("timeout".to_string()))
    );
}

#[test]
fn object_get_many_keeps_found_in_order() {
    let fetched = vec![
        ("a".to_string(), Some(vec![1])),
        ("b".to_string(), None),
        ("c".to_string(), Some(vec![3])),
    ];
    assert_eq!(
        object_get_many_outcome(fetched),
        Some(vec![("a".to_string(), vec![1]), ("c".to_string(), vec![3])])
    );
    assert_eq!(object_get_many_outcome(vec![("a".to_string(), None)]), None);
    assert_eq!(object_get_many_outcome(vec![]), None);
}

#[test]
fn bucket_is_created_only_when_missing() {
    assert_eq!(bucket_action(StoreProbe::Exists), Ok(BucketAction::Ready));
    assert_eq!(bucket_action(StoreProbe::NotFound), Ok(BucketAction::Create));
    assert_eq!(
        bucket_action(StoreProbe::Failed("denied".to_string())),
        Err(LayerDbError::ObjectStore("denied".to_string()))
    );
}

#[test]
fn prop_builder_requires_name_kind_and_type_prop() {
    assert!(matches!(PropSpec::builder().build(), Err(SpecError::UninitializedField(f)) if f == "name"));
    assert!(matches!(
        PropSpec::builder().name("n".to_string()).build(),
        Err(SpecError::UninitializedField(f)) if f == "kind"
    ));
    assert!(matches!(
        PropSpec::builder().name("n".to_string()).kind(PropSpecKind::Array).build(),
        Err(SpecError::UninitializedField(f)) if f == "type_prop"
    ));
}

#[test]
fn prop_builder_builds_each_kind() {
    let b = PropSpec::builder()
        .name("timeout".to_string())
        .kind(PropSpecKind::Number)
        .validation(ValidationSpec::IntegerIsBetweenTwoIntegers { lower_bound: 0, upper_bound: 65535 })
        .func_unique_id(FuncUniqueId { hash: 9 })
        .input(AttrFuncInputSpec { name: "in".to_string() });
    assert_eq!(b.get_kind(), Some(PropSpecKind::Number));
    match b.build() {
        Ok(PropSpec::Number { name, validations, func_unique_id, inputs }) => {
            assert_eq!(name, "timeout");
            assert_eq!(validations.len(), 1);
            assert_eq!(func_unique_id, Some(FuncUniqueId { hash: 9 }));
            assert_eq!(inputs[0].name, "in");
        }
        _ => panic!("expected a number prop"),
    }
    let element = PropSpec::builder().name("item".to_string()).kind(PropSpecKind::String).build().expect("string");
    match PropSpec::builder().name("list".to_string()).kind(PropSpecKind::Array).type_prop(element).build() {
        Ok(PropSpec::Array { name, type_prop, .. }) => {
            assert_eq!(name, "list");
            assert!(matches!(*type_prop, PropSpec::String { .. }));
        }
        _ => panic!("expected an array prop"),
    }
    let field = PropSpec::builder().name("f".to_string()).kind(PropSpecKind::Boolean).build().expect("bool");
    let other = PropSpec::builder().name("g".to_string()).kind(PropSpecKind::Boolean).build().expect("bool");
    match PropSpec::builder().name("obj".to_string()).kind(PropSpecKind::Object).entry(field).entries(vec![other]).build() {
        Ok(PropSpec::Object { entries, .. }) => {
            assert_eq!(entries.len(), 1);
            assert!(matches!(&entries[0], PropSpec::Boolean { name, .. } if name == "g"));
        }
        _ => panic!("expected an object prop"),
    }
}

#[test]
fn authentication_func_builder() {
    assert!(matches!(
        AuthenticationFuncSpec::builder().build(),
        Err(SpecError::UninitializedField(f)) if f == "func_unique_id"
    ));
    let spec = AuthenticationFuncSpec::builder()
        .func_unique_id("abc".to_string())
        .name("auth".to_string())
        .build()
        .expect("built");
    assert_eq!(
        spec,
        AuthenticationFuncSpec {
            func_unique_id: "abc".to_string(),
            name: Some("auth".to_string()),
            unique_id: None,
            deleted: false,
        }
    );
    let deleted = AuthenticationFuncSpec::builder()
        .func_unique_id("x".to_string())
        .unique_id("u".to_string())
        .deleted(true)
        .build()
        .expect("built");
    assert!(deleted.deleted);
    assert_eq!(deleted.unique_id.as_deref(), Some("u"));
}

#[test]
fn component_kind_defaults_to_standard() {
    assert_eq!(ComponentKind::default(), ComponentKind::Standard);
    let s = SystemView { name: "prod".to_string() };
    assert_eq!(s.name, "prod");
}

#[test]
fn object_existence_probe() {
    assert_eq!(object_exists_outcome(StoreProbe::Exists), Ok(true));
    assert_eq!(object_exists_outcome(StoreProbe::NotFound), Ok(false));
    assert_eq!(
        object_exists_outcome(StoreProbe::Failed("denied".to_string())),
        Err(LayerDbError::ObjectStore("denied".to_string()))
    );
}
