use dds_gen::extract::find_ids_with_type_as_descriptor;

#[test]
fn foreign_static_with_simple_type_is_found() {
    let src = r#"
use cyclonedds_sys::dds_topic_descriptor_t;
extern "C" {
    pub static HelloWorldData_Msg_desc: dds_topic_descriptor_t;
    pub static raw_desc: *const dds_topic_descriptor_t;
    pub static generic_desc: Option<u8>;
    pub fn dds_something(x: u32) -> u32;
}
pub struct HelloWorldData_Msg {
    pub userID: i32,
}
"#;
    let ids = find_ids_with_type_as_descriptor(src).unwrap();
    assert_eq!(ids, vec!["HelloWorldData_Msg_desc".to_string()]);
}

#[test]
fn two_foreign_blocks_in_discovery_order() {
    let src = r#"
extern "C" {
    pub static B_desc: dds_topic_descriptor_t;
}
extern "C" {
    pub static A_desc: other_descriptor_t;
}
"#;
    let ids = find_ids_with_type_as_descriptor(src).unwrap();
    assert_eq!(ids, vec!["B_desc".to_string(), "A_desc".to_string()]);
}
