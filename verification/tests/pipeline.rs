use dds_gen::config::get_idlc_jar;
use dds_gen::plan::build_plan;
use dds_gen::plan::compiler_invocation;
use dds_gen::plan::file_stem_of;
use dds_gen::plan::generated_source_path;
use dds_gen::plan::library_name;
use dds_gen::plan::parent_dir_of;
use dds_gen::plan::base_name_of;
use dds_gen::policy::binding_policy;

#[test]
fn invocation_args_shape() {
    let inv = compiler_invocation("idlc.jar", "out", "test/HelloWorldData.idl");
    assert_eq!(inv.program, "java");
    assert_eq!(
        inv.args,
        vec![
            "-classpath".to_string(),
            "idlc.jar".to_string(),
            "org.eclipse.cyclonedds.compilers.Idlc".to_string(),
            "-d".to_string(),
            "out".to_string(),
            "test/HelloWorldData.idl".to_string(),
        ]
    );
}

#[test]
fn one_invocation_per_source_in_order() {
    let sources = vec!["a/Foo.idl".to_string(), "b/Bar.idl".to_string(), "Baz.idl".to_string()];
    let plan = build_plan("j.jar", "gen", &sources);
    assert_eq!(plan.invocations.len(), 3);
    for (i, inv) in plan.invocations.iter().enumerate() {
        assert_eq!(inv.program, "java");
        assert_eq!(inv.args[5], sources[i]);
        assert_eq!(inv.args[1], "j.jar");
        assert_eq!(inv.args[4], "gen");
    }
    assert_eq!(
        plan.generated_sources,
        vec!["gen/Foo.c".to_string(), "gen/Bar.c".to_string(), "gen/Baz.c".to_string()]
    );
    assert_eq!(plan.lib_name, "libFooBarBaz");
}

#[test]
fn library_name_concatenates_stems() {
    let sources = vec!["a/Foo.idl".to_string(), "dir/Bar.idl".to_string()];
    assert_eq!(library_name(&sources), "libFooBar");
    let one = vec!["HelloWorldData.idl".to_string()];
    assert_eq!(library_name(&one), "libHelloWorldData");
}

#[test]
fn hello_world_example() {
    assert_eq!(file_stem_of("test/HelloWorldData.idl"), "HelloWorldData");
    assert_eq!(
        generated_source_path("out", "test/HelloWorldData.idl"),
        "out/HelloWorldData.c"
    );
    let sources = vec!["test/HelloWorldData.idl".to_string()];
    assert_eq!(library_name(&sources), "libHelloWorldData");
}

#[test]
fn path_helpers() {
    assert_eq!(base_name_of("test/HelloWorldData.idl"), "HelloWorldData.idl");
    assert_eq!(base_name_of("plain.idl"), "plain.idl");
    assert_eq!(parent_dir_of("test/HelloWorldData.idl"), "test");
    assert_eq!(parent_dir_of("plain.idl"), "");
    assert_eq!(file_stem_of("noext"), "noext");
    assert_eq!(file_stem_of(".hidden"), ".hidden");
    assert_eq!(file_stem_of("a/b.tar.gz"), "b.tar");
    assert_eq!(file_stem_of("a/trailing."), "trailing");
}

#[test]
fn trailing_separators_are_ignored() {
    assert_eq!(base_name_of("a/b/"), "b");
    assert_eq!(base_name_of("dir/sub.idl//"), "sub.idl");
    assert_eq!(file_stem_of("dir/sub.idl/"), "sub");
    let sources = vec!["x/Data.idl/".to_string()];
    assert_eq!(library_name(&sources), "libData");
}

#[test]
fn jar_resolution_override_wins() {
    let r = get_idlc_jar(Some("/tmp/idlc.jar".to_string()), true);
    assert_eq!(r, Some("/tmp/idlc.jar".to_string()));
    let r = get_idlc_jar(Some("/tmp/idlc.jar".to_string()), false);
    assert_eq!(r, Some("/tmp/idlc.jar".to_string()));
}

#[test]
fn jar_resolution_installed_fallback() {
    let r = get_idlc_jar(None, true);
    assert_eq!(
        r,
        Some("/usr/local/lib/cmake/CycloneDDS/idlc/idlc-jar-with-dependencies.jar".to_string())
    );
    assert_eq!(get_idlc_jar(None, false), None);
}

#[test]
fn policy_is_fixed() {
    let p = binding_policy();
    assert!(!p.recursive_visibility);
    assert!(!p.bind_functions);
    assert_eq!(
        p.denied_items,
        vec![
            "dds_topic_descriptor".to_string(),
            "*__keys".to_string(),
            "*__ops".to_string(),
            "dds_entity_kind".to_string(),
            "dds_entity_kind_t".to_string(),
            "dds_topic_descriptor_t".to_string(),
        ]
    );
    assert_eq!(p.denied_types.len(), 13);
    assert_eq!(p.denied_types[0], "dds_stream_typecode_subtype");
    assert_eq!(p.denied_types[12], "dds_domainid_t");
    assert_eq!(p.raw_lines, vec!["use cyclonedds_sys::dds_topic_descriptor_t;".to_string()]);
}
