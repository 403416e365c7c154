//! The fixed symbol-inclusion policy for FFI binding generation: no
//! recursive visibility inference, no function symbols, an explicit
//! deny-list of identifiers and type names reserved for hand-written
//! companion types, and one injected import directive so generated code
//! references the hand-written descriptor type instead of redeclaring
//! it.

use vstd::prelude::*;
use vstd::string::StringExecFns;

verus! {

/// The exact identifiers and name patterns that binding generation must
/// leave out, in the order the policy states them.
pub open spec fn spec_denied_items() -> Seq<Seq<char>> {
    seq![
        "dds_topic_descriptor"@,
        "*__keys"@,
        "*__ops"@,
        "dds_entity_kind"@,
        "dds_entity_kind_t"@,
        "dds_topic_descriptor_t"@,
    ]
}

/// The exact type names that binding generation must leave out, in the
/// order the policy states them.
pub open spec fn spec_denied_types() -> Seq<Seq<char>> {
    seq![
        "dds_stream_typecode_subtype"@,
        "dds_stream_typecode_primary"@,
        "dds_stream_opcode"@,
        "dds_stream_typecode"@,
        "dds_free_op_t"@,
        "dds_allocator"@,
        "dds_allocator_t"@,
        "max_align_t"@,
        "dds_alloc_fn_t"@,
        "dds_realloc_fn_t"@,
        "dds_free_fn_t"@,
        "dds_instance_handle_t"@,
        "dds_domainid_t"@,
    ]
}

/// The one import directive injected verbatim at the top of the
/// generated binding source.
pub open spec fn spec_injected_import() -> Seq<char> {
    "use cyclonedds_sys::dds_topic_descriptor_t;"@
}

/// The binding generation policy, as data: what the generation engine
/// is configured with before it runs over the generated headers.
pub struct BindingPolicy {
    /// Whether symbols referenced only transitively are bound too.
    pub recursive_visibility: bool,
    /// Whether function/callable symbols are bound at all.
    pub bind_functions: bool,
    /// Identifiers and name patterns left out of the bindings.
    pub denied_items: Vec<String>,
    /// Type names left out of the bindings.
    pub denied_types: Vec<String>,
    /// Lines injected verbatim at the top of the binding source.
    pub raw_lines: Vec<String>,
}

/// The fixed policy: only directly referenced data-layout and static
/// symbols are bound, the deny-lists hold exactly the reserved names,
/// and exactly the descriptor-type import is injected.
pub fn binding_policy() -> (p: BindingPolicy)
    ensures
        !p.recursive_visibility,
        !p.bind_functions,
        p.denied_items@.map_values(|s: String| s@) == spec_denied_items(),
        p.denied_types@.map_values(|s: String| s@) == spec_denied_types(),
        p.raw_lines@.map_values(|s: String| s@) == seq![spec_injected_import()],
{
    let mut denied_items: Vec<String> = Vec::new();
    denied_items.push(String::from_str("dds_topic_descriptor"));
    denied_items.push(String::from_str("*__keys"));
    denied_items.push(String::from_str("*__ops"));
    denied_items.push(String::from_str("dds_entity_kind"));
    denied_items.push(String::from_str("dds_entity_kind_t"));
    denied_items.push(String::from_str("dds_topic_descriptor_t"));
    let mut denied_types: Vec<String> = Vec::new();
    denied_types.push(String::from_str("dds_stream_typecode_subtype"));
    denied_types.push(String::from_str("dds_stream_typecode_primary"));
    denied_types.push(String::from_str("dds_stream_opcode"));
    denied_types.push(String::from_str("dds_stream_typecode"));
    denied_types.push(String::from_str("dds_free_op_t"));
    denied_types.push(String::from_str("dds_allocator"));
    denied_types.push(String::from_str("dds_allocator_t"));
    denied_types.push(String::from_str("max_align_t"));
    denied_types.push(String::from_str("dds_alloc_fn_t"));
    denied_types.push(String::from_str("dds_realloc_fn_t"));
    denied_types.push(String::from_str("dds_free_fn_t"));
    denied_types.push(String::from_str("dds_instance_handle_t"));
    denied_types.push(String::from_str("dds_domainid_t"));
    let mut raw_lines: Vec<String> = Vec::new();
    raw_lines.push(String::from_str("use cyclonedds_sys::dds_topic_descriptor_t;"));
    proof {
        assert(denied_items@.map_values(|s: String| s@) =~= spec_denied_items());
        assert(denied_types@.map_values(|s: String| s@) =~= spec_denied_types());
        assert(raw_lines@.map_values(|s: String| s@) =~= seq![spec_injected_import()]);
    }
    BindingPolicy {
        recursive_visibility: false,
        bind_functions: false,
        denied_items,
        denied_types,
        raw_lines,
    }
}

} // verus!
