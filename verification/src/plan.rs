//! Orchestration plan: for an ordered list of IDL source paths, the
//! compiler invocations to run (one per source, in input order), the
//! generated native source paths, and the derived library name.

use vstd::prelude::*;
use vstd::string::StrSliceExecFns;
use vstd::string::StringExecFns;

verus! {

/// Index just after the last '/' in `s`, or 0 when `s` has none: where
/// the final path component begins.
pub open spec fn spec_base_start(s: Seq<char>) -> int
    decreases s.len(),
{
    if s.len() == 0 {
        0
    } else if s.last() == '/' {
        s.len() as int
    } else {
        spec_base_start(s.drop_last())
    }
}

/// `s` with its trailing '/' separators removed: they name no
/// component of their own.
pub open spec fn spec_strip_trailing_seps(s: Seq<char>) -> Seq<char>
    decreases s.len(),
{
    if s.len() > 0 && s.last() == '/' {
        spec_strip_trailing_seps(s.drop_last())
    } else {
        s
    }
}

/// The final component of a path: everything after the last '/',
/// trailing separators ignored.
pub open spec fn spec_base_name(s: Seq<char>) -> Seq<char> {
    let t = spec_strip_trailing_seps(s);
    t.skip(spec_base_start(t))
}

/// Index of the last '.' in `b`, or -1 when `b` has none.
pub open spec fn spec_last_dot(b: Seq<char>) -> int
    decreases b.len(),
{
    if b.len() == 0 {
        -1
    } else if b.last() == '.' {
        b.len() - 1
    } else {
        spec_last_dot(b.drop_last())
    }
}

/// The file stem of a path: its base name cut at the last '.', or the
/// whole base name when no '.' stands past the first character.
pub open spec fn spec_file_stem(p: Seq<char>) -> Seq<char> {
    let b = spec_base_name(p);
    let d = spec_last_dot(b);
    if d <= 0 {
        b
    } else {
        b.take(d)
    }
}

/// The final path component of `path`, trailing separators ignored.
pub fn base_name_of(path: &str) -> (r: String)
    ensures
        r@ == spec_base_name(path@),
{
    let n = path.unicode_len();
    let mut m: usize = n;
    proof {
        assert(path@.take(n as int) =~= path@);
    }
    while m > 0 && path.get_char(m - 1) == '/'
        invariant
            n == path@.len(),
            m <= n,
            spec_strip_trailing_seps(path@) == spec_strip_trailing_seps(path@.take(m as int)),
        decreases m,
    {
        proof {
            assert(path@.take(m as int).last() == path@[m as int - 1]);
            assert(path@.take(m as int).drop_last() =~= path@.take(m as int - 1));
        }
        m = m - 1;
    }
    let ghost t = spec_strip_trailing_seps(path@);
    proof {
        if m > 0 {
            assert(path@.take(m as int).last() == path@[m as int - 1]);
        }
        assert(t == path@.take(m as int));
    }
    let mut start: usize = 0;
    let mut i: usize = 0;
    proof {
        assert(t.take(0) =~= Seq::<char>::empty());
    }
    while i < m
        invariant
            n == path@.len(),
            m <= n,
            t == path@.take(m as int),
            i <= m,
            start <= i,
            start == spec_base_start(t.take(i as int)),
        decreases m - i,
    {
        proof {
            assert(t.take(i as int + 1).drop_last() =~= t.take(i as int));
            assert(t.take(i as int + 1).last() == t[i as int]);
            assert(t[i as int] == path@[i as int]);
        }
        if path.get_char(i) == '/' {
            start = i + 1;
        }
        i = i + 1;
    }
    proof {
        assert(t.take(m as int) =~= t);
        assert(path@.subrange(start as int, m as int) =~= t.skip(spec_base_start(t)));
    }
    String::from_str(path.substring_char(start, m))
}

/// The directory part of `path`: everything before the last '/', empty
/// when `path` holds no separator.
pub fn parent_dir_of(path: &str) -> (r: String)
    ensures
        spec_base_start(path@) == 0 ==> r@ == Seq::<char>::empty(),
        spec_base_start(path@) > 0 ==> r@ == path@.take(spec_base_start(path@) - 1),
{
    let n = path.unicode_len();
    let mut start: usize = 0;
    let mut i: usize = 0;
    proof {
        assert(path@.take(0) =~= Seq::<char>::empty());
    }
    while i < n
        invariant
            n == path@.len(),
            i <= n,
            start <= i,
            start == spec_base_start(path@.take(i as int)),
        decreases n - i,
    {
        proof {
            assert(path@.take(i as int + 1).drop_last() =~= path@.take(i as int));
            assert(path@.take(i as int + 1).last() == path@[i as int]);
        }
        if path.get_char(i) == '/' {
            start = i + 1;
        }
        i = i + 1;
    }
    proof {
        assert(path@.take(n as int) =~= path@);
    }
    if start == 0 {
        String::new()
    } else {
        proof {
            assert(path@.subrange(0, start - 1) =~= path@.take(spec_base_start(path@) - 1));
        }
        String::from_str(path.substring_char(0, start - 1))
    }
}

/// The file stem of `path`, as the generated-native-source naming rule
/// uses it.
pub fn file_stem_of(path: &str) -> (r: String)
    ensures
        r@ == spec_file_stem(path@),
{
    let base = base_name_of(path);
    let b = base.as_str();
    let n = b.unicode_len();
    let mut dot: usize = 0;
    let mut found = false;
    let mut i: usize = 0;
    proof {
        assert(b@.take(0) =~= Seq::<char>::empty());
    }
    while i < n
        invariant
            n == b@.len(),
            i <= n,
            found ==> dot < i && dot == spec_last_dot(b@.take(i as int)),
            !found ==> spec_last_dot(b@.take(i as int)) == -1,
        decreases n - i,
    {
        proof {
            assert(b@.take(i as int + 1).drop_last() =~= b@.take(i as int));
            assert(b@.take(i as int + 1).last() == b@[i as int]);
        }
        if b.get_char(i) == '.' {
            dot = i;
            found = true;
        }
        i = i + 1;
    }
    proof {
        assert(b@.take(n as int) =~= b@);
    }
    if !found || dot == 0 {
        base
    } else {
        proof {
            assert(b@.subrange(0, dot as int) =~= b@.take(spec_last_dot(b@)));
        }
        String::from_str(b.substring_char(0, dot))
    }
}

/// The command-line arguments of one external compiler invocation for
/// one IDL source, in order.
pub open spec fn spec_invocation_args(
    jar: Seq<char>,
    out_dir: Seq<char>,
    source: Seq<char>,
) -> Seq<Seq<char>> {
    seq![
        "-classpath"@,
        jar,
        "org.eclipse.cyclonedds.compilers.Idlc"@,
        "-d"@,
        out_dir,
        source,
    ]
}

/// The path of the native source that the external compiler generates
/// for one IDL source under `out_dir`: the source's stem with a `.c`
/// ending.
pub open spec fn spec_generated_source(out_dir: Seq<char>, source: Seq<char>) -> Seq<char> {
    out_dir + "/"@ + spec_file_stem(source) + ".c"@
}

/// Concatenation of every source's file stem, in input order.
pub open spec fn spec_stems_concat(sources: Seq<Seq<char>>) -> Seq<char>
    decreases sources.len(),
{
    if sources.len() == 0 {
        Seq::empty()
    } else {
        spec_file_stem(sources.first()) + spec_stems_concat(sources.drop_first())
    }
}

/// The derived library name: the fixed prefix followed by every
/// source's file stem, input order, no separators.
pub open spec fn spec_lib_name(sources: Seq<Seq<char>>) -> Seq<char> {
    "lib"@ + spec_stems_concat(sources)
}

/// One external compiler invocation: the program to run and its
/// arguments.
pub struct CompilerInvocation {
    pub program: String,
    pub args: Vec<String>,
}

/// Build the invocation that translates one IDL source into native
/// source under `out_dir`, using the compiler artifact at `jar`.
pub fn compiler_invocation(jar: &str, out_dir: &str, source: &str) -> (r: CompilerInvocation)
    ensures
        r.program@ == "java"@,
        r.args@.map_values(|s: String| s@) == spec_invocation_args(jar@, out_dir@, source@),
{
    let mut args: Vec<String> = Vec::new();
    args.push(String::from_str("-classpath"));
    args.push(String::from_str(jar));
    args.push(String::from_str("org.eclipse.cyclonedds.compilers.Idlc"));
    args.push(String::from_str("-d"));
    args.push(String::from_str(out_dir));
    args.push(String::from_str(source));
    proof {
        assert(args@.map_values(|s: String| s@) =~= spec_invocation_args(jar@, out_dir@, source@));
    }
    CompilerInvocation { program: String::from_str("java"), args }
}

/// The path of the generated native source for one IDL source.
pub fn generated_source_path(out_dir: &str, source: &str) -> (r: String)
    ensures
        r@ == spec_generated_source(out_dir@, source@),
{
    let stem = file_stem_of(source);
    let mut p = String::from_str(out_dir);
    p.append("/");
    p.append(stem.as_str());
    p.append(".c");
    p
}

/// The derived library name for an ordered list of IDL sources.
pub fn library_name(sources: &Vec<String>) -> (r: String)
    ensures
        r@ == spec_lib_name(sources@.map_values(|s: String| s@)),
{
    let ghost srcs: Seq<Seq<char>> = sources@.map_values(|s: String| s@);
    let mut name = String::from_str("lib");
    let mut i: usize = 0;
    proof {
        assert(srcs.skip(0) =~= srcs);
    }
    while i < sources.len()
        invariant
            srcs == sources@.map_values(|s: String| s@),
            i <= sources@.len(),
            name@ + spec_stems_concat(srcs.skip(i as int)) == spec_lib_name(srcs),
        decreases sources@.len() - i,
    {
        let stem = file_stem_of(sources[i].as_str());
        proof {
            assert(srcs.skip(i as int).first() == srcs[i as int]);
            assert(srcs.skip(i as int).drop_first() =~= srcs.skip(i as int + 1));
            assert(name@ + (spec_file_stem(srcs[i as int]) + spec_stems_concat(
                srcs.skip(i as int + 1),
            )) =~= (name@ + spec_file_stem(srcs[i as int])) + spec_stems_concat(
                srcs.skip(i as int + 1),
            ));
        }
        name.append(stem.as_str());
        i = i + 1;
    }
    proof {
        assert(srcs.skip(sources@.len() as int) =~= Seq::<Seq<char>>::empty());
        assert(name@ + Seq::<char>::empty() =~= name@);
    }
    name
}

/// The whole plan for one run: the compiler invocations in input order,
/// the generated native sources they produce, and the library name.
pub struct BuildPlan {
    pub invocations: Vec<CompilerInvocation>,
    pub generated_sources: Vec<String>,
    pub lib_name: String,
}

/// Build the plan for a non-empty ordered list of IDL sources: exactly
/// one compiler invocation per source, in input order; one generated
/// native source per input; and the derived library name.
pub fn build_plan(jar: &str, out_dir: &str, sources: &Vec<String>) -> (r: BuildPlan)
    requires
        sources@.len() > 0,
    ensures
        r.invocations@.len() == sources@.len(),
        forall|i: int|
            0 <= i < sources@.len() ==> (#[trigger] r.invocations@[i]).program@ == "java"@
                && r.invocations@[i].args@.map_values(|s: String| s@) == spec_invocation_args(
                jar@,
                out_dir@,
                sources@[i]@,
            ),
        r.generated_sources@.len() == sources@.len(),
        forall|i: int|
            0 <= i < sources@.len() ==> (#[trigger] r.generated_sources@[i])@
                == spec_generated_source(out_dir@, sources@[i]@),
        r.lib_name@ == spec_lib_name(sources@.map_values(|s: String| s@)),
{
    let mut invocations: Vec<CompilerInvocation> = Vec::new();
    let mut generated_sources: Vec<String> = Vec::new();
    let mut i: usize = 0;
    while i < sources.len()
        invariant
            i <= sources@.len(),
            invocations@.len() == i,
            forall|k: int|
                0 <= k < i ==> (#[trigger] invocations@[k]).program@ == "java"@
                    && invocations@[k].args@.map_values(|s: String| s@) == spec_invocation_args(
                    jar@,
                    out_dir@,
                    sources@[k]@,
                ),
            generated_sources@.len() == i,
            forall|k: int|
                0 <= k < i ==> (#[trigger] generated_sources@[k])@ == spec_generated_source(
                    out_dir@,
                    sources@[k]@,
                ),
        decreases sources@.len() - i,
    {
        invocations.push(compiler_invocation(jar, out_dir, sources[i].as_str()));
        generated_sources.push(generated_source_path(out_dir, sources[i].as_str()));
        i = i + 1;
    }
    let lib_name = library_name(sources);
    BuildPlan { invocations, generated_sources, lib_name }
}

} // verus!
