//! Trait stub emission: derive an owning type name from each descriptor
//! symbol and render one fixed-template trait-implementation block per
//! type, in discovery order, into an append-only output stream.

use vstd::prelude::*;
use vstd::string::StrSliceExecFns;
use vstd::string::StringExecFns;

verus! {

/// Length of the conventional `_desc` suffix that every qualifying
/// descriptor symbol name carries after its owning type's name.
pub const DESC_SUFFIX_LEN: usize = 5;

/// The owning type name of a descriptor symbol: the symbol's name with
/// the conventional five-character suffix removed.
pub open spec fn spec_owning_name(symbol: Seq<char>) -> Seq<char> {
    symbol.take(symbol.len() - DESC_SUFFIX_LEN as int)
}

/// One rendered trait-implementation block, with the type name
/// substituted verbatim at both of its places in the fixed template.
pub open spec fn spec_impl_block(typename: Seq<char>) -> Seq<char> {
    "\n    impl DDSGenType for "@ + typename
        + "{\n        unsafe fn get_descriptor() -> &'static dds_topic_descriptor_t {\n            &"@
        + typename + "_desc\n        }\n    }\n"@
}

/// All blocks for a sequence of descriptor symbol names, one block per
/// symbol, in the given order, with the owning name substituted.
pub open spec fn spec_rendered(symbols: Seq<Seq<char>>) -> Seq<char>
    decreases symbols.len(),
{
    if symbols.len() == 0 {
        Seq::empty()
    } else {
        spec_impl_block(spec_owning_name(symbols.first())) + spec_rendered(symbols.drop_first())
    }
}

/// Derive the owning type name for one descriptor symbol by stripping
/// the conventional suffix. A name no longer than the suffix has no
/// owning type and is left out by the precondition.
pub fn owning_type_name(symbol: &str) -> (r: String)
    requires
        symbol@.len() > DESC_SUFFIX_LEN,
    ensures
        r@ == spec_owning_name(symbol@),
{
    let n = symbol.unicode_len();
    let stem = symbol.substring_char(0, n - DESC_SUFFIX_LEN);
    String::from_str(stem)
}

/// Render the fixed-template block for one owning type name.
pub fn generate_code_for_type(typename: &str) -> (r: String)
    ensures
        r@ == spec_impl_block(typename@),
{
    let mut s = String::from_str("\n    impl DDSGenType for ");
    s.append(typename);
    s.append(
        "{\n        unsafe fn get_descriptor() -> &'static dds_topic_descriptor_t {\n            &",
    );
    s.append(typename);
    s.append("_desc\n        }\n    }\n");
    s
}

/// Render one block per descriptor symbol, in the given order.
pub fn render_trait_impls(symbols: &Vec<String>) -> (r: String)
    requires
        forall|i: int| 0 <= i < symbols@.len() ==> symbols@[i]@.len() > DESC_SUFFIX_LEN,
    ensures
        r@ == spec_rendered(symbols@.map_values(|s: String| s@)),
{
    let ghost names: Seq<Seq<char>> = symbols@.map_values(|s: String| s@);
    let mut out = String::new();
    let mut i: usize = 0;
    proof {
        assert(names.skip(0) =~= names);
        assert(Seq::<char>::empty() + spec_rendered(names) =~= spec_rendered(names));
    }
    while i < symbols.len()
        invariant
            forall|k: int| 0 <= k < symbols@.len() ==> symbols@[k]@.len() > DESC_SUFFIX_LEN,
            names == symbols@.map_values(|s: String| s@),
            i <= symbols@.len(),
            out@ + spec_rendered(names.skip(i as int)) == spec_rendered(names),
        decreases symbols@.len() - i,
    {
        let name = owning_type_name(symbols[i].as_str());
        let block = generate_code_for_type(name.as_str());
        proof {
            assert(names.skip(i as int).first() == names[i as int]);
            assert(names.skip(i as int).drop_first() =~= names.skip(i as int + 1));
            assert(out@ + (spec_impl_block(spec_owning_name(names[i as int])) + spec_rendered(
                names.skip(i as int + 1),
            )) =~= (out@ + spec_impl_block(spec_owning_name(names[i as int]))) + spec_rendered(
                names.skip(i as int + 1),
            ));
        }
        out.append(block.as_str());
        i = i + 1;
    }
    proof {
        assert(names.skip(symbols@.len() as int) =~= Seq::<Seq<char>>::empty());
        assert(out@ + spec_rendered(Seq::<Seq<char>>::empty()) =~= out@);
    }
    out
}

/// What the append-only output file holds after one emitter run that
/// found `symbols`, given that it held `existing` before the run.
pub open spec fn spec_appended(existing: Seq<char>, symbols: Seq<Seq<char>>) -> Seq<char> {
    existing + spec_rendered(symbols)
}

/// Emit blocks for `symbols` after the existing output content: the
/// result of re-running the emitter against a previously written file.
pub fn append_trait_impls(existing: &str, symbols: &Vec<String>) -> (r: String)
    requires
        forall|i: int| 0 <= i < symbols@.len() ==> symbols@[i]@.len() > DESC_SUFFIX_LEN,
    ensures
        r@ == spec_appended(existing@, symbols@.map_values(|s: String| s@)),
{
    let rendered = render_trait_impls(symbols);
    String::from_str(existing).concat(rendered.as_str())
}

/// Law: a re-run only accumulates. The output after appending to
/// existing content keeps that content unchanged as its prefix, and the
/// newly rendered blocks are exactly the rest.
pub proof fn lemma_append_accumulates(existing: Seq<char>, symbols: Seq<Seq<char>>)
    ensures
        spec_appended(existing, symbols).take(existing.len() as int) == existing,
        spec_appended(existing, symbols).skip(existing.len() as int) == spec_rendered(symbols),
{
    assert(spec_appended(existing, symbols).take(existing.len() as int) =~= existing);
    assert(spec_appended(existing, symbols).skip(existing.len() as int) =~= spec_rendered(
        symbols,
    ));
}

/// Law: the rendered output decomposes, at every symbol count `k`, into
/// the blocks of the first `k` symbols followed by the blocks of the
/// rest — the emitted output is exactly one block per symbol, in order.
pub proof fn lemma_rendered_split(symbols: Seq<Seq<char>>, k: int)
    requires
        0 <= k <= symbols.len(),
    ensures
        spec_rendered(symbols) == spec_rendered(symbols.take(k)) + spec_rendered(symbols.skip(k)),
    decreases k,
{
    if k == 0 {
        assert(symbols.take(0) =~= Seq::<Seq<char>>::empty());
        assert(symbols.skip(0) =~= symbols);
        assert(spec_rendered(symbols.take(0)) + spec_rendered(symbols) =~= spec_rendered(symbols));
    } else {
        lemma_rendered_split(symbols.drop_first(), k - 1);
        assert(symbols.take(k).first() == symbols.first());
        assert(symbols.take(k).drop_first() =~= symbols.drop_first().take(k - 1));
        assert(symbols.skip(k) =~= symbols.drop_first().skip(k - 1));
        assert(spec_impl_block(spec_owning_name(symbols.first())) + (spec_rendered(
            symbols.drop_first().take(k - 1),
        ) + spec_rendered(symbols.drop_first().skip(k - 1))) =~= (spec_impl_block(
            spec_owning_name(symbols.first()),
        ) + spec_rendered(symbols.drop_first().take(k - 1))) + spec_rendered(
            symbols.drop_first().skip(k - 1),
        ));
    }
}

} // verus!
