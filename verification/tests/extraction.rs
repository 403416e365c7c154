use dds_gen::extract::extract_descriptor_ids;
use dds_gen::extract::find_ids_with_type_as_descriptor;
use dds_gen::extract::BindingItem;
use dds_gen::extract::ForeignDecl;
use dds_gen::extract::TypeShape;

#[test]
fn simple_named_static_qualifies() {
    let items = vec![
        BindingItem::Foreign(vec![
            ForeignDecl::StaticDecl {
                name: "HelloWorldData_Msg_desc".to_string(),
                ty: TypeShape::Simple("dds_topic_descriptor_t".to_string()),
            },
            ForeignDecl::StaticDecl {
                name: "pointer_typed_desc".to_string(),
                ty: TypeShape::Other,
            },
            ForeignDecl::Other,
        ]),
        BindingItem::Other,
    ];
    let ids = extract_descriptor_ids(&items);
    assert_eq!(ids, vec!["HelloWorldData_Msg_desc".to_string()]);
}

#[test]
fn discovery_order_and_duplicates_kept() {
    let block = |name: &str| ForeignDecl::StaticDecl {
        name: name.to_string(),
        ty: TypeShape::Simple("dds_topic_descriptor_t".to_string()),
    };
    let items = vec![
        BindingItem::Foreign(vec![block("B_desc"), block("A_desc")]),
        BindingItem::Foreign(vec![block("B_desc")]),
    ];
    let ids = extract_descriptor_ids(&items);
    assert_eq!(
        ids,
        vec!["B_desc".to_string(), "A_desc".to_string(), "B_desc".to_string()]
    );
}

#[test]
fn empty_model_extracts_nothing() {
    let items: Vec<BindingItem> = Vec::new();
    assert!(extract_descriptor_ids(&items).is_empty());
    let items = vec![BindingItem::Other, BindingItem::Foreign(Vec::new())];
    assert!(extract_descriptor_ids(&items).is_empty());
}

#[test]
fn unparsable_binding_source_is_fatal() {
    assert!(find_ids_with_type_as_descriptor("not ( valid rust").is_err());
    assert!(dds_gen::extract::parse_binding_items("not ( valid rust").is_err());
}

#[test]
fn parse_models_one_item_per_top_level_item() {
    let items =
        dds_gen::extract::parse_binding_items("pub struct A;\npub struct B;").unwrap();
    assert_eq!(items.len(), 2);
    assert!(matches!(items[0], BindingItem::Other));
    assert!(matches!(items[1], BindingItem::Other));
}

#[test]
fn source_without_foreign_blocks_has_no_descriptors() {
    let src = "pub struct HelloWorldData_Msg { pub userID: i32 }\npub static LOCAL: u32 = 0;\n";
    let ids = find_ids_with_type_as_descriptor(src).unwrap();
    assert!(ids.is_empty());
}
