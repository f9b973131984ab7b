use jenny_bindgen::{
    synthesize, synthesize_all, synthesize_item, ArgExpr, BindingOptions, BindingRequest,
    BodyStep, FunctionSignature, GenError, JvmType, ParamKind, RawOption, SourceItem,
};

fn no_opts() -> BindingOptions {
    BindingOptions { class: None, name: None }
}

fn sig(ident: &str, params: Vec<ParamKind>, ret: Option<&str>) -> FunctionSignature {
    FunctionSignature {
        ident: ident.to_string(),
        params,
        ret: ret.map(|t| t.to_string()),
        lifetimes: Vec::new(),
    }
}

fn owned(ty: &str) -> ParamKind {
    ParamKind::Value { ty: ty.to_string() }
}

fn borrowed(ty: &str) -> ParamKind {
    ParamKind::Reference { ty: ty.to_string(), lifetime: None }
}

#[test]
fn owned_and_borrowed_parameters_are_marshalled() {
    let s = sig("foo", vec![owned("i32"), borrowed("str")], Some("String"));
    let b = synthesize(&s, &no_opts()).unwrap();

    assert_eq!(b.name, "Java_rust_jenny_Foo_foo");
    assert_eq!(b.params.len(), 4);
    assert_eq!(b.params[0].name, "env");
    assert_eq!(b.params[0].ty, JvmType::Env);
    assert_eq!(b.params[1].name, "class");
    assert_eq!(b.params[1].ty, JvmType::Class);
    assert_eq!(b.params[2].name, "arg_0");
    assert_eq!(b.params[2].ty, JvmType::FromValue { ty: "i32".to_string() });
    assert_eq!(b.params[3].name, "arg_1");
    assert_eq!(b.params[3].ty, JvmType::BorrowValue { ty: "str".to_string() });

    assert_eq!(b.ret, JvmType::IntoValue { ty: "String".to_string() });

    assert_eq!(b.body.len(), 4);
    assert_eq!(b.body[0], BodyStep::ConvertOwned { index: 0, ty: "i32".to_string() });
    assert_eq!(b.body[1], BodyStep::ConvertToTemp { index: 1, ty: "str".to_string() });
    assert_eq!(
        b.body[2],
        BodyStep::Call {
            func: "foo".to_string(),
            args: vec![
                ArgExpr::ByValue { index: 0 },
                ArgExpr::BorrowedView { index: 1, ty: "str".to_string() },
            ],
        }
    );
    assert_eq!(b.body[3], BodyStep::ConvertReturn { ty: "String".to_string() });
}

#[test]
fn reference_parameter_gets_exactly_two_conversions() {
    let s = sig("touch", vec![borrowed("Point")], None);
    let b = synthesize(&s, &no_opts()).unwrap();

    let conversions: Vec<&BodyStep> = b
        .body
        .iter()
        .filter(|step| {
            matches!(step, BodyStep::ConvertOwned { index: 0, .. })
                || matches!(step, BodyStep::ConvertToTemp { index: 0, .. })
        })
        .collect();
    assert_eq!(conversions.len(), 1);
    assert_eq!(*conversions[0], BodyStep::ConvertToTemp { index: 0, ty: "Point".to_string() });

    match &b.body[1] {
        BodyStep::Call { args, .. } => {
            assert_eq!(args[0], ArgExpr::BorrowedView { index: 0, ty: "Point".to_string() });
        }
        other => panic!("expected the forwarding call, got {:?}", other),
    }
}

#[test]
fn parameter_count_is_two_plus_mapped() {
    for n in 0..5usize {
        let params: Vec<ParamKind> = (0..n).map(|_| owned("u8")).collect();
        let s = sig("f", params, None);
        let b = synthesize(&s, &no_opts()).unwrap();
        assert_eq!(b.params.len(), 2 + n);
    }
}

#[test]
fn no_return_type_means_unit_and_no_return_conversion() {
    let s = sig("ping", vec![], None);
    let b = synthesize(&s, &no_opts()).unwrap();
    assert_eq!(b.ret, JvmType::Unit);
    assert_eq!(b.body.len(), 1);
    assert_eq!(b.body[0], BodyStep::Call { func: "ping".to_string(), args: vec![] });
}

#[test]
fn self_parameter_is_rejected() {
    let s = sig("method", vec![ParamKind::SelfParam, owned("i32")], None);
    assert_eq!(synthesize(&s, &no_opts()), Err(GenError::UnsupportedSelfParameter));
}

#[test]
fn synthesis_is_deterministic() {
    let s = sig("foo", vec![owned("i32"), borrowed("str")], Some("String"));
    let opts = BindingOptions { class: Some("a.B".to_string()), name: None };
    let b1 = synthesize(&s, &opts).unwrap();
    let b2 = synthesize(&s, &opts).unwrap();
    assert_eq!(b1, b2);
}

#[test]
fn lifetimes_are_propagated_in_order() {
    let s = FunctionSignature {
        ident: "peek".to_string(),
        params: vec![borrowed("str")],
        ret: None,
        lifetimes: vec!["'a".to_string(), "'b".to_string()],
    };
    let b = synthesize(&s, &no_opts()).unwrap();
    assert_eq!(b.lifetimes, vec!["'a".to_string(), "'b".to_string()]);
}

#[test]
fn colliding_exported_names_are_rejected() {
    let reqs = vec![
        BindingRequest { signature: sig("foo", vec![owned("i32")], None), options: no_opts() },
        BindingRequest { signature: sig("foo", vec![owned("i64")], None), options: no_opts() },
    ];
    assert_eq!(synthesize_all(&reqs), Err(GenError::NamingCollision));
}

#[test]
fn distinct_exported_names_pass_batch_synthesis() {
    let reqs = vec![
        BindingRequest { signature: sig("foo", vec![owned("i32")], None), options: no_opts() },
        BindingRequest { signature: sig("bar", vec![owned("i64")], None), options: no_opts() },
    ];
    let out = synthesize_all(&reqs).unwrap();
    assert_eq!(out.len(), 2);
    assert_eq!(out[0].name, "Java_rust_jenny_Foo_foo");
    assert_eq!(out[1].name, "Java_rust_jenny_Bar_bar");
}

#[test]
fn name_override_can_avoid_a_collision() {
    let reqs = vec![
        BindingRequest { signature: sig("foo", vec![owned("i32")], None), options: no_opts() },
        BindingRequest {
            signature: sig("foo", vec![owned("i64")], None),
            options: BindingOptions { class: None, name: Some("foo_wide".to_string()) },
        },
    ];
    let out = synthesize_all(&reqs).unwrap();
    assert_eq!(out.len(), 2);
    assert_eq!(out[1].name, "Java_rust_jenny_Foo_foo_1wide");
}

#[test]
fn non_function_item_is_rejected() {
    assert_eq!(
        synthesize_item(&SourceItem::Other, &Vec::new()),
        Err(GenError::UnsupportedInputShape)
    );
}

#[test]
fn malformed_options_are_reported_before_the_item_shape() {
    let raw = vec![RawOption { key: "package".to_string(), value: Some("x".to_string()) }];
    assert_eq!(synthesize_item(&SourceItem::Other, &raw), Err(GenError::MalformedOptions));
}

#[test]
fn item_synthesis_applies_parsed_options() {
    let item = SourceItem::Function { signature: sig("get_value", vec![], Some("i32")) };
    let raw = vec![
        RawOption { key: "class".to_string(), value: Some("com.example.Foo".to_string()) },
    ];
    let b = synthesize_item(&item, &raw).unwrap();
    assert_eq!(b.name, "Java_com_example_Foo_get_1value");
    assert_eq!(b.ret, JvmType::IntoValue { ty: "i32".to_string() });
}
