//! Descriptor extraction: parse generated binding source into top-level
//! items and collect, in discovery order, the names of foreign static
//! declarations whose declared type is a simple named type — the native
//! ABI convention for topic-descriptor globals. Pointer, generic and
//! compound-typed statics do not qualify; every other item kind is
//! ignored silently.
//!
//! Parsing itself is the work of the `syn` crate behind a small trusted
//! layer; what qualifies and what the result holds is stated and proved
//! over the plain model below.

use vstd::prelude::*;

verus! {

/// The binding source could not be parsed: an upstream generator
/// defect, fatal for the whole run.
#[derive(Debug)]
pub struct ParseError;

/// The shape of a declared type, as far as qualification cares: a
/// simple named type (one bare identifier), or anything else.
pub enum TypeShape {
    Simple(String),
    Other,
}

/// One declaration inside a foreign block: a static with its name and
/// the shape of its declared type, or any other kind of declaration.
pub enum ForeignDecl {
    StaticDecl { name: String, ty: TypeShape },
    Other,
}

/// One top-level item of the binding source: a foreign block with its
/// declarations, or any other kind of item.
pub enum BindingItem {
    Foreign(Vec<ForeignDecl>),
    Other,
}

/// Whether one declaration qualifies as a topic descriptor: a static
/// whose declared type is a simple named type.
pub open spec fn spec_decl_qualifies(d: ForeignDecl) -> bool {
    match d {
        ForeignDecl::StaticDecl { name: _, ty } => ty is Simple,
        ForeignDecl::Other => false,
    }
}

/// The declared name of a static declaration.
pub open spec fn spec_decl_name(d: ForeignDecl) -> Seq<char> {
    match d {
        ForeignDecl::StaticDecl { name, ty: _ } => name@,
        ForeignDecl::Other => Seq::empty(),
    }
}

/// The qualifying names inside one foreign block, in declaration order,
/// duplicates kept.
pub open spec fn spec_decl_ids(decls: Seq<ForeignDecl>) -> Seq<Seq<char>>
    decreases decls.len(),
{
    if decls.len() == 0 {
        Seq::empty()
    } else {
        (if spec_decl_qualifies(decls.first()) {
            seq![spec_decl_name(decls.first())]
        } else {
            Seq::empty()
        }) + spec_decl_ids(decls.drop_first())
    }
}

/// All qualifying names of the binding source, in discovery order,
/// duplicates kept.
pub open spec fn spec_descriptor_ids(items: Seq<BindingItem>) -> Seq<Seq<char>>
    decreases items.len(),
{
    if items.len() == 0 {
        Seq::empty()
    } else {
        (match items.first() {
            BindingItem::Foreign(decls) => spec_decl_ids(decls@),
            BindingItem::Other => Seq::empty(),
        }) + spec_descriptor_ids(items.drop_first())
    }
}

#[verifier::external_type_specification]
#[verifier::external_body]
pub struct ExSynItem(syn::Item);

#[verifier::external_type_specification]
#[verifier::external_body]
pub struct ExSynForeignItem(syn::ForeignItem);

#[verifier::external_type_specification]
#[verifier::external_body]
pub struct ExSynType(syn::Type);

/// Relies on syn::Item: the `ForeignMod` variant is a foreign block and
/// carries its declarations in the `items` field; every other variant
/// is some other kind of item.
#[verifier::external_body]
fn foreign_items_of(item: &syn::Item) -> (r: Option<Vec<syn::ForeignItem>>) {
    match item {
        syn::Item::ForeignMod(m) => Some(m.items.clone()),
        _ => None,
    }
}

/// Relies on syn::ForeignItem: the `Static` variant is a static
/// declaration and carries its name in `ident` and its declared type in
/// `ty`; every other variant is some other kind of declaration.
#[verifier::external_body]
fn foreign_static_parts(it: &syn::ForeignItem) -> (r: Option<(String, syn::Type)>) {
    match it {
        syn::ForeignItem::Static(s) => Some((s.ident.to_string(), (*s.ty).clone())),
        _ => None,
    }
}

/// Relies on syn::Path::get_ident: it returns the identifier exactly
/// when the path is one plain segment without arguments or a leading
/// separator — a simple named type. Every other type shape, pointer,
/// generic, array or compound, gives `Other`.
#[verifier::external_body]
fn type_shape_of(t: &syn::Type) -> (r: TypeShape) {
    match t {
        syn::Type::Path(p) => match p.path.get_ident() {
            Some(id) => TypeShape::Simple(id.to_string()),
            None => TypeShape::Other,
        },
        _ => TypeShape::Other,
    }
}

/// The plain model of one declaration of a foreign block.
fn classify_foreign_decl(it: &syn::ForeignItem) -> ForeignDecl {
    match foreign_static_parts(it) {
        Some((name, ty)) => ForeignDecl::StaticDecl { name, ty: type_shape_of(&ty) },
        None => ForeignDecl::Other,
    }
}

/// The plain model of one top-level item: the reading that the trusted
/// parse step below applies to each parsed item.
fn classify_item(item: &syn::Item) -> BindingItem {
    match foreign_items_of(item) {
        Some(fitems) => {
            let mut decls: Vec<ForeignDecl> = Vec::new();
            let mut j: usize = 0;
            while j < fitems.len()
                decreases fitems@.len() - j,
            {
                decls.push(classify_foreign_decl(&fitems[j]));
                j = j + 1;
            }
            BindingItem::Foreign(decls)
        },
        None => BindingItem::Other,
    }
}

/// The plain item model of binding source text: `Some` exactly when
/// the text parses as a Rust source file, and then one model item per
/// top-level item, as the trusted layer above reads the syntax tree.
/// The parse result depends on the text alone, so the model is a
/// function of it; nothing states what the model is on given text, a
/// check on given text reaches the logic at `extract_descriptor_ids`.
pub uninterp spec fn spec_parsed_model(s: Seq<char>) -> Option<Seq<BindingItem>>;

/// Relies on syn::parse_file: it parses Rust source text into a file
/// whose `items` field holds the top-level items, returns an error
/// rather than panicking on malformed text, and its result depends on
/// the text alone. Each item is read into the model by the
/// one-arm-per-variant classification above; a parse failure becomes
/// this library's error.
#[verifier::external_body]
fn parse_model(src: &str) -> (r: Result<Vec<BindingItem>, ParseError>)
    ensures
        r is Ok <==> spec_parsed_model(src@) is Some,
        r matches Ok(items) ==> items@ == spec_parsed_model(src@).unwrap(),
{
    match syn::parse_file(src) {
        Ok(f) => Ok(f.items.iter().map(classify_item).collect()),
        Err(_) => Err(ParseError),
    }
}

/// Parse binding source text into the plain item model, one model item
/// per top-level item. Unparsable text is an error — an upstream
/// generator defect, never a partial result.
pub fn parse_binding_items(bindings: &str) -> (r: Result<Vec<BindingItem>, ParseError>)
    ensures
        r is Ok <==> spec_parsed_model(bindings@) is Some,
        r matches Ok(items) ==> items@ == spec_parsed_model(bindings@).unwrap(),
{
    parse_model(bindings)
}

/// The qualifying names inside one foreign block, in declaration order.
fn decl_ids(decls: &Vec<ForeignDecl>) -> (r: Vec<String>)
    ensures
        r@.map_values(|s: String| s@) == spec_decl_ids(decls@),
{
    let mut out: Vec<String> = Vec::new();
    let mut j: usize = 0;
    proof {
        assert(decls@.skip(0) =~= decls@);
        assert(out@.map_values(|s: String| s@) =~= Seq::<Seq<char>>::empty());
    }
    while j < decls.len()
        invariant
            j <= decls@.len(),
            out@.map_values(|s: String| s@) + spec_decl_ids(decls@.skip(j as int)) == spec_decl_ids(
                decls@,
            ),
        decreases decls@.len() - j,
    {
        proof {
            assert(decls@.skip(j as int).first() == decls@[j as int]);
            assert(decls@.skip(j as int).drop_first() =~= decls@.skip(j as int + 1));
        }
        let ghost pre: Seq<Seq<char>> = out@.map_values(|s: String| s@);
        match &decls[j] {
            ForeignDecl::StaticDecl { name, ty } => {
                match ty {
                    TypeShape::Simple(_) => {
                        out.push(name.clone());
                        proof {
                            assert(spec_decl_qualifies(decls@[j as int]));
                            assert(out@.map_values(|s: String| s@) =~= pre + seq![
                                spec_decl_name(decls@[j as int]),
                            ]);
                        }
                    },
                    TypeShape::Other => {
                        proof {
                            assert(!spec_decl_qualifies(decls@[j as int]));
                        }
                    },
                }
            },
            ForeignDecl::Other => {
                proof {
                    assert(!spec_decl_qualifies(decls@[j as int]));
                }
            },
        }
        proof {
            assert(out@.map_values(|s: String| s@) + spec_decl_ids(decls@.skip(j as int + 1))
                =~= spec_decl_ids(decls@));
        }
        j = j + 1;
    }
    proof {
        assert(decls@.skip(decls@.len() as int) =~= Seq::<ForeignDecl>::empty());
        assert(out@.map_values(|s: String| s@) + Seq::<Seq<char>>::empty() =~= out@.map_values(
            |s: String| s@,
        ));
    }
    out
}

/// Collect the qualifying descriptor symbol names of the modelled
/// binding source: exactly the statics of its foreign blocks whose
/// declared type is a simple named type, in discovery order, duplicates
/// kept.
pub fn extract_descriptor_ids(items: &Vec<BindingItem>) -> (r: Vec<String>)
    ensures
        r@.map_values(|s: String| s@) == spec_descriptor_ids(items@),
{
    let mut out: Vec<String> = Vec::new();
    let mut i: usize = 0;
    proof {
        assert(items@.skip(0) =~= items@);
        assert(out@.map_values(|s: String| s@) =~= Seq::<Seq<char>>::empty());
    }
    while i < items.len()
        invariant
            i <= items@.len(),
            out@.map_values(|s: String| s@) + spec_descriptor_ids(items@.skip(i as int))
                == spec_descriptor_ids(items@),
        decreases items@.len() - i,
    {
        proof {
            assert(items@.skip(i as int).first() == items@[i as int]);
            assert(items@.skip(i as int).drop_first() =~= items@.skip(i as int + 1));
        }
        let ghost pre: Seq<Seq<char>> = out@.map_values(|s: String| s@);
        match &items[i] {
            BindingItem::Foreign(decls) => {
                let mut ids = decl_ids(decls);
                let ghost idsv: Seq<Seq<char>> = ids@.map_values(|s: String| s@);
                out.append(&mut ids);
                proof {
                    assert(out@.map_values(|s: String| s@) =~= pre + idsv);
                }
            },
            BindingItem::Other => {},
        }
        proof {
            assert(out@.map_values(|s: String| s@) + spec_descriptor_ids(items@.skip(i as int + 1))
                =~= spec_descriptor_ids(items@));
        }
        i = i + 1;
    }
    proof {
        assert(items@.skip(items@.len() as int) =~= Seq::<BindingItem>::empty());
        assert(out@.map_values(|s: String| s@) + Seq::<Seq<char>>::empty() =~= out@.map_values(
            |s: String| s@,
        ));
    }
    out
}

/// Parse binding source text and collect its descriptor symbol names:
/// exactly the qualifying statics of the text's model, in discovery
/// order. Unparsable text is the fatal parse error, and only that text
/// is.
pub fn find_ids_with_type_as_descriptor(bindings: &str) -> (r: Result<Vec<String>, ParseError>)
    ensures
        r is Ok <==> spec_parsed_model(bindings@) is Some,
        r matches Ok(ids) ==> ids@.map_values(|s: String| s@) == spec_descriptor_ids(
            spec_parsed_model(bindings@).unwrap(),
        ),
{
    match parse_binding_items(bindings) {
        Ok(items) => Ok(extract_descriptor_ids(&items)),
        Err(e) => Err(e),
    }
}

/// Law: a name stands in the extraction result exactly when some
/// foreign block of the source declares a static of that name whose
/// type is a simple named type. A static of pointer, generic or
/// compound type, and every other item kind, contributes nothing.
pub proof fn lemma_decl_ids_complete(decls: Seq<ForeignDecl>, n: Seq<char>)
    ensures
        spec_decl_ids(decls).contains(n) <==> exists|j: int|
            0 <= j < decls.len() && spec_decl_qualifies(#[trigger] decls[j]) && spec_decl_name(
                decls[j],
            ) == n,
    decreases decls.len(),
{
    if decls.len() == 0 {
    } else {
        let rest = decls.drop_first();
        lemma_decl_ids_complete(rest, n);
        let head: Seq<Seq<char>> = if spec_decl_qualifies(decls.first()) {
            seq![spec_decl_name(decls.first())]
        } else {
            Seq::empty()
        };
        assert(spec_decl_ids(decls) == head + spec_decl_ids(rest));
        if spec_decl_ids(decls).contains(n) {
            let idx = choose|idx: int|
                0 <= idx < spec_decl_ids(decls).len() && spec_decl_ids(decls)[idx] == n;
            if idx < head.len() {
                assert(spec_decl_qualifies(decls[0]) && spec_decl_name(decls[0]) == n);
            } else {
                assert(spec_decl_ids(rest)[idx - head.len()] == n);
                assert(spec_decl_ids(rest).contains(n));
                let j = choose|j: int|
                    0 <= j < rest.len() && spec_decl_qualifies(#[trigger] rest[j])
                        && spec_decl_name(rest[j]) == n;
                assert(decls[j + 1] == rest[j]);
                assert(spec_decl_qualifies(decls[j + 1]) && spec_decl_name(decls[j + 1]) == n);
            }
        }
        if exists|j: int|
            0 <= j < decls.len() && spec_decl_qualifies(#[trigger] decls[j]) && spec_decl_name(
                decls[j],
            ) == n {
            let j = choose|j: int|
                0 <= j < decls.len() && spec_decl_qualifies(#[trigger] decls[j]) && spec_decl_name(
                    decls[j],
                ) == n;
            if j == 0 {
                assert(spec_decl_ids(decls)[0] == n);
                assert(spec_decl_ids(decls).contains(n));
            } else {
                assert(rest[j - 1] == decls[j]);
                assert(spec_decl_ids(rest).contains(n));
                let idx = choose|idx: int|
                    0 <= idx < spec_decl_ids(rest).len() && spec_decl_ids(rest)[idx] == n;
                assert(spec_decl_ids(decls)[head.len() + idx] == n);
                assert(spec_decl_ids(decls).contains(n));
            }
        }
    }
}

/// Whether the item at `i` is a foreign block whose declaration at `j`
/// is a qualifying static named `n`.
pub open spec fn spec_qualifying_at(items: Seq<BindingItem>, i: int, j: int, n: Seq<char>) -> bool {
    &&& 0 <= i < items.len()
    &&& items[i] matches BindingItem::Foreign(decls)
    &&& 0 <= j < decls@.len()
    &&& spec_decl_qualifies(decls@[j])
    &&& spec_decl_name(decls@[j]) == n
}

/// Law: over the whole source, a name is extracted exactly when some
/// foreign block holds a qualifying static of that name.
pub proof fn lemma_descriptor_ids_complete(items: Seq<BindingItem>, n: Seq<char>)
    ensures
        spec_descriptor_ids(items).contains(n) <==> exists|i: int, j: int|
            spec_qualifying_at(items, i, j, n),
    decreases items.len(),
{
    if items.len() == 0 {
    } else {
        let rest = items.drop_first();
        lemma_descriptor_ids_complete(rest, n);
        let head: Seq<Seq<char>> = match items.first() {
            BindingItem::Foreign(decls) => spec_decl_ids(decls@),
            BindingItem::Other => Seq::empty(),
        };
        assert(spec_descriptor_ids(items) == head + spec_descriptor_ids(rest));
        if spec_descriptor_ids(items).contains(n) {
            let idx = choose|idx: int|
                0 <= idx < spec_descriptor_ids(items).len() && spec_descriptor_ids(items)[idx]
                    == n;
            if idx < head.len() {
                assert(head[idx] == n);
                assert(head.contains(n));
                match items[0] {
                    BindingItem::Foreign(decls) => {
                        lemma_decl_ids_complete(decls@, n);
                        let j = choose|j: int|
                            0 <= j < decls@.len() && spec_decl_qualifies(#[trigger] decls@[j])
                                && spec_decl_name(decls@[j]) == n;
                        assert(spec_qualifying_at(items, 0, j, n));
                    },
                    BindingItem::Other => {
                        assert(false);
                    },
                }
            } else {
                assert(spec_descriptor_ids(rest)[idx - head.len()] == n);
                assert(spec_descriptor_ids(rest).contains(n));
                let (i, j): (int, int) = choose|i: int, j: int|
                    spec_qualifying_at(rest, i, j, n);
                assert(items[i + 1] == rest[i]);
                assert(spec_qualifying_at(items, i + 1, j, n));
            }
        }
        if exists|i: int, j: int| spec_qualifying_at(items, i, j, n) {
            let (i, j): (int, int) = choose|i: int, j: int| spec_qualifying_at(items, i, j, n);
            if i == 0 {
                match items[0] {
                    BindingItem::Foreign(decls) => {
                        lemma_decl_ids_complete(decls@, n);
                        assert(spec_decl_ids(decls@).contains(n));
                        let idx = choose|idx: int|
                            0 <= idx < spec_decl_ids(decls@).len() && spec_decl_ids(decls@)[idx]
                                == n;
                        assert(spec_descriptor_ids(items)[idx] == n);
                        assert(spec_descriptor_ids(items).contains(n));
                    },
                    BindingItem::Other => {
                        assert(false);
                    },
                }
            } else {
                assert(rest[i - 1] == items[i]);
                assert(spec_qualifying_at(rest, i - 1, j, n));
                assert(spec_descriptor_ids(rest).contains(n));
                let idx = choose|idx: int|
                    0 <= idx < spec_descriptor_ids(rest).len() && spec_descriptor_ids(rest)[idx]
                        == n;
                assert(spec_descriptor_ids(items)[head.len() + idx] == n);
                assert(spec_descriptor_ids(items).contains(n));
            }
        }
    }
}

} // verus!
