use jenny_bindgen::{escape_underscores, mangle, mangle_with_package, BindingOptions, GenError,
    RawOption};

fn no_opts() -> BindingOptions {
    BindingOptions { class: None, name: None }
}

#[test]
fn class_override_escapes_then_separates() {
    let opts = BindingOptions { class: Some("com.example.Foo".to_string()), name: None };
    assert_eq!(mangle("get_value", &opts), "Java_com_example_Foo_get_1value");
}

#[test]
fn class_and_name_override() {
    let opts = BindingOptions { class: Some("a_b.C".to_string()), name: Some("m_n".to_string()) };
    assert_eq!(mangle("getValue", &opts), "Java_a_1b_C_m_1n");
}

#[test]
fn default_class_from_camel_cased_identifier() {
    assert_eq!(mangle("getValue", &no_opts()), "Java_rust_jenny_GetValue_getValue");
}

#[test]
fn default_class_absorbs_underscores_but_name_escapes_them() {
    assert_eq!(mangle("get_value", &no_opts()), "Java_rust_jenny_GetValue_get_1value");
}

#[test]
fn explicit_package_is_used_verbatim() {
    assert_eq!(mangle_with_package("my_pkg", "run", &no_opts()), "Java_my_pkg_Run_run");
}

#[test]
fn name_override_alone() {
    let opts = BindingOptions { class: None, name: Some("other_name".to_string()) };
    assert_eq!(mangle("do_it", &opts), "Java_rust_jenny_DoIt_other_1name");
}

#[test]
fn escape_rewrites_every_underscore() {
    assert_eq!(escape_underscores("a_b_c"), "a_1b_1c");
    assert_eq!(escape_underscores("_x_"), "_1x_1");
}

#[test]
fn escape_is_a_no_op_without_underscores() {
    assert_eq!(escape_underscores("abc"), "abc");
    assert_eq!(escape_underscores(""), "");
}

#[test]
fn options_take_class_and_name_entries() {
    let raw = vec![
        RawOption { key: "class".to_string(), value: Some("a.B".to_string()) },
        RawOption { key: "name".to_string(), value: Some("m".to_string()) },
    ];
    let opts = BindingOptions::from_raw(&raw).unwrap();
    assert_eq!(opts.class.as_deref(), Some("a.B"));
    assert_eq!(opts.name.as_deref(), Some("m"));
}

#[test]
fn later_option_entry_overrides_earlier() {
    let raw = vec![
        RawOption { key: "class".to_string(), value: Some("a.B".to_string()) },
        RawOption { key: "class".to_string(), value: Some("c.D".to_string()) },
    ];
    let opts = BindingOptions::from_raw(&raw).unwrap();
    assert_eq!(opts.class.as_deref(), Some("c.D"));
    assert_eq!(opts.name, None);
}

#[test]
fn unknown_option_key_is_malformed() {
    let raw = vec![RawOption { key: "package".to_string(), value: Some("a".to_string()) }];
    assert_eq!(BindingOptions::from_raw(&raw), Err(GenError::MalformedOptions));
}

#[test]
fn non_string_option_value_is_malformed() {
    let raw = vec![RawOption { key: "class".to_string(), value: None }];
    assert_eq!(BindingOptions::from_raw(&raw), Err(GenError::MalformedOptions));
}

#[test]
fn empty_option_list_leaves_record_unset() {
    let opts = BindingOptions::from_raw(&Vec::new()).unwrap();
    assert_eq!(opts.class, None);
    assert_eq!(opts.name, None);
}
