//! Toolchain registry and compile planning.
use crate::text::{decimal_text, nat_text};
use vstd::prelude::*;

verus! {

/// A compiler invocation for one language tag.
#[derive(Debug)]
pub struct Toolchain {
    pub language: String,
    pub compiler: String,
    pub flags: Vec<String>,
}

/// Why a compile did not produce an artifact.
#[derive(Debug)]
pub enum CompileFailure {
    /// The language tag has no toolchain; nothing was run.
    UnsupportedLanguage,
    /// The compiler ran and rejected the source; its standard error, verbatim.
    Diagnostics(String),
}

/// An executable built for one submission, and the language it was built from.
#[derive(Debug)]
pub struct CompiledArtifact {
    pub path: String,
    pub language: String,
}

/// A process to start: the program and its arguments.
#[derive(Debug)]
pub struct Command {
    pub program: String,
    pub args: Vec<String>,
}

/// The flags shared by every toolchain after the language standard.
pub open spec fn common_flags() -> Seq<Seq<char>> {
    seq!["-O2"@, "-Wall"@, "-lm"@, "-DONLINE_JUDGE"@]
}

/// The registry as a model: language tag, compiler, flags.
pub open spec fn registry_model() -> Seq<(Seq<char>, Seq<char>, Seq<Seq<char>>)> {
    seq![
        ("c++"@, "g++"@, seq!["-std=c++14"@] + common_flags()),
        ("c"@, "gcc"@, seq!["-std=c11"@] + common_flags()),
    ]
}

impl Toolchain {
    pub open spec fn model(&self) -> (Seq<char>, Seq<char>, Seq<Seq<char>>) {
        (self.language@, self.compiler@, self.flags.deep_view())
    }
}

/// The registry entry for a language tag: compiler and flags.
pub open spec fn toolchain_for(language: Seq<char>) -> Option<(Seq<char>, Seq<Seq<char>>)> {
    toolchain_in(registry_model(), language, 0)
}

/// The first entry for `language` in `table` from index `i` on: compiler and flags.
pub open spec fn toolchain_in(
    table: Seq<(Seq<char>, Seq<char>, Seq<Seq<char>>)>,
    language: Seq<char>,
    i: int,
) -> Option<(Seq<char>, Seq<Seq<char>>)>
    decreases table.len() - i,
{
    if i < 0 || i >= table.len() {
        None
    } else if table[i].0 == language {
        Some((table[i].1, table[i].2))
    } else {
        toolchain_in(table, language, i + 1)
    }
}

fn strings(items: &[&str]) -> (r: Vec<String>)
    ensures
        r.len() == items.len(),
        forall|k: int| 0 <= k < items.len() ==> #[trigger] r[k]@ == items[k]@,
{
    let mut r: Vec<String> = Vec::new();
    let mut i: usize = 0;
    while i < items.len()
        invariant
            i <= items.len(),
            r.len() == i,
            forall|k: int| 0 <= k < i ==> #[trigger] r[k]@ == items[k]@,
        decreases items.len() - i,
    {
        r.push(String::from_str(items[i]));
        i = i + 1;
    }
    r
}

/// The registry of toolchains, one entry per supported language tag.
pub fn registry() -> (r: Vec<Toolchain>)
    ensures
        r@.map_values(|t: Toolchain| t.model()) == registry_model(),
{
    let mut r: Vec<Toolchain> = Vec::new();
    r.push(
        Toolchain {
            language: String::from_str("c++"),
            compiler: String::from_str("g++"),
            flags: strings(&["-std=c++14", "-O2", "-Wall", "-lm", "-DONLINE_JUDGE"]),
        },
    );
    r.push(
        Toolchain {
            language: String::from_str("c"),
            compiler: String::from_str("gcc"),
            flags: strings(&["-std=c11", "-O2", "-Wall", "-lm", "-DONLINE_JUDGE"]),
        },
    );
    proof {
        reveal_strlit("c++");
        reveal_strlit("g++");
        reveal_strlit("c");
        reveal_strlit("gcc");
        reveal_strlit("-std=c++14");
        reveal_strlit("-std=c11");
        reveal_strlit("-O2");
        reveal_strlit("-Wall");
        reveal_strlit("-lm");
        reveal_strlit("-DONLINE_JUDGE");
        assert(r[0].flags.deep_view() =~= seq!["-std=c++14"@] + common_flags());
        assert(r[1].flags.deep_view() =~= seq!["-std=c11"@] + common_flags());
    }
    assert(r@.map_values(|t: Toolchain| t.model()) =~= registry_model());
    r
}

/// Looks `language` up in `table`: the first entry with that tag.
pub fn lookup(table: &Vec<Toolchain>, language: &str) -> (r: Option<usize>)
    ensures
        match r {
            Some(i) => i < table.len() && toolchain_in(
                table@.map_values(|t: Toolchain| t.model()),
                language@,
                0,
            ) == Some((table[i as int].compiler@, table[i as int].flags.deep_view())),
            None => toolchain_in(table@.map_values(|t: Toolchain| t.model()), language@, 0)
                is None,
        },
{
    let ghost m = table@.map_values(|t: Toolchain| t.model());
    let tag = String::from_str(language);
    let mut i: usize = 0;
    while i < table.len()
        invariant
            i <= table.len(),
            m == table@.map_values(|t: Toolchain| t.model()),
            tag@ == language@,
            toolchain_in(m, language@, 0) == toolchain_in(m, language@, i as int),
        decreases table.len() - i,
    {
        assert(m[i as int] == table[i as int].model());
        if table[i].language == tag {
            return Some(i);
        }
        i = i + 1;
    }
    None
}

/// The compiler invocation for a submission: the compiler of `language`, then
/// the source path, the toolchain's flags, and `-o` with the artifact path.
/// An unknown language is refused before anything is run.
pub fn compile_command(language: &str, source_path: &str, artifact_path: &str) -> (r: Result<
    Command,
    CompileFailure,
>)
    ensures
        match toolchain_for(language@) {
            None => r matches Err(CompileFailure::UnsupportedLanguage),
            Some((compiler, flags)) => r matches Ok(c) && c.program@ == compiler
                && c.args.deep_view() == seq![source_path@] + flags + seq![
                "-o"@,
                artifact_path@,
            ],
        },
{
    let table = registry();
    match lookup(&table, language) {
        None => Err(CompileFailure::UnsupportedLanguage),
        Some(i) => {
            let t = &table[i];
            let mut args: Vec<String> = Vec::new();
            args.push(String::from_str(source_path));
            let mut k: usize = 0;
            while k < t.flags.len()
                invariant
                    k <= t.flags.len(),
                    args.deep_view() == seq![source_path@] + t.flags.deep_view().take(k as int),
                decreases t.flags.len() - k,
            {
                let f = t.flags[k].clone();
                let ghost before = args.deep_view();
                args.push(f);
                assert(args.deep_view() =~= before.push(t.flags.deep_view()[k as int]));
                assert(t.flags.deep_view().take(k + 1) =~= t.flags.deep_view().take(
                    k as int,
                ).push(t.flags.deep_view()[k as int]));
                k = k + 1;
                assert(args.deep_view() =~= seq![source_path@] + t.flags.deep_view().take(
                    k as int,
                ));
            }
            args.push(String::from_str("-o"));
            args.push(String::from_str(artifact_path));
            proof {
                reveal_strlit("-o");
                assert(t.flags.deep_view().take(k as int) =~= t.flags.deep_view());
                assert(args.deep_view() =~= seq![source_path@] + t.flags.deep_view() + seq![
                    "-o"@,
                    artifact_path@,
                ]);
            }
            Ok(Command { program: t.compiler.clone(), args })
        },
    }
}

/// Scratch file paths of one submission, namespaced by its identifier.
#[derive(Debug)]
pub struct ScratchPaths {
    pub artifact: String,
    pub diagnostics: String,
}

/// The artifact path of submission `id`.
pub open spec fn artifact_path_of(id: Seq<char>) -> Seq<char> {
    "./judge-"@ + id + ".bin"@
}

/// The compile-diagnostics path of submission `id`.
pub open spec fn diagnostics_path_of(id: Seq<char>) -> Seq<char> {
    "./judge-"@ + id + ".compile.txt"@
}

/// The output path of case `case` of submission `id`.
pub open spec fn case_output_path_of(id: Seq<char>, case: int) -> Seq<char> {
    "./judge-"@ + id + ".case"@ + decimal_text(case) + ".out"@
}

impl ScratchPaths {
    /// The scratch paths of submission `id`.
    pub fn for_submission(id: &str) -> (r: ScratchPaths)
        ensures
            r.artifact@ == artifact_path_of(id@),
            r.diagnostics@ == diagnostics_path_of(id@),
    {
        let artifact = String::from_str("./judge-").concat(id).concat(".bin");
        let diagnostics = String::from_str("./judge-").concat(id).concat(".compile.txt");
        ScratchPaths { artifact, diagnostics }
    }
}

/// The output path of case `case` of submission `id`; distinct cases get distinct paths.
pub fn case_output_path(id: &str, case: usize) -> (r: String)
    ensures
        r@ == case_output_path_of(id@, case as int),
{
    let n = nat_text(case as u64);
    String::from_str("./judge-").concat(id).concat(".case").concat(n.as_str()).concat(".out")
}

/// The supported language tags are exactly `c++` and `c`; every other tag has no toolchain.
pub proof fn lemma_supported_languages(language: Seq<char>)
    ensures
        toolchain_for(language) is Some <==> (language == "c++"@ || language == "c"@),
{
    reveal_with_fuel(toolchain_in, 3);
}

} // verus!
