use dds_gen::emit::append_trait_impls;
use dds_gen::emit::generate_code_for_type;
use dds_gen::emit::owning_type_name;
use dds_gen::emit::render_trait_impls;

fn expected_block(typename: &str) -> String {
    let mut s = String::from("\n    impl DDSGenType for ");
    s.push_str(typename);
    s.push_str(
        "{\n        unsafe fn get_descriptor() -> &'static dds_topic_descriptor_t {\n            &",
    );
    s.push_str(typename);
    s.push_str("_desc\n        }\n    }\n");
    s
}

#[test]
fn owning_name_is_prefix_without_suffix() {
    assert_eq!(owning_type_name("HelloWorldData_Msg_desc"), "HelloWorldData_Msg");
    assert_eq!(owning_type_name("Abcdef"), "A");
    assert_eq!(owning_type_name("Point_desc"), "Point");
}

#[test]
fn block_template_substitution() {
    let b = generate_code_for_type("HelloWorldData_Msg");
    assert_eq!(b, expected_block("HelloWorldData_Msg"));
    assert!(b.contains("impl DDSGenType for HelloWorldData_Msg{"));
    assert!(b.contains("&HelloWorldData_Msg_desc"));
}

#[test]
fn one_block_per_symbol_in_order() {
    let symbols = vec![
        "HelloWorldData_Msg_desc".to_string(),
        "Other_Type_desc".to_string(),
        "Third_desc".to_string(),
    ];
    let out = render_trait_impls(&symbols);
    let mut expected = String::new();
    expected.push_str(&expected_block("HelloWorldData_Msg"));
    expected.push_str(&expected_block("Other_Type"));
    expected.push_str(&expected_block("Third"));
    assert_eq!(out, expected);
    assert_eq!(out.matches("impl DDSGenType for").count(), 3);
}

#[test]
fn no_symbols_render_nothing() {
    let out = render_trait_impls(&Vec::new());
    assert_eq!(out, "");
}

#[test]
fn rerun_appends_never_overwrites() {
    let first_symbols = vec!["Aa_Bb_desc".to_string()];
    let first = append_trait_impls("", &first_symbols);
    assert_eq!(first, expected_block("Aa_Bb"));

    let second_symbols = vec!["Cc_Dd_desc".to_string()];
    let second = append_trait_impls(&first, &second_symbols);
    assert!(second.starts_with(&first));
    let mut expected = first.clone();
    expected.push_str(&expected_block("Cc_Dd"));
    assert_eq!(second, expected);
}
