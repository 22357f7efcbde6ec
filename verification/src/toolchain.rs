//! The supported languages and the recipe by which each is built and run.

use vstd::prelude::*;
use vstd::string::*;
use crate::invocation::{literal, local, Invocation, InvocationView, Piece};
use crate::text::{chars_of, lemma_trimmed_lowered, lowered, spells, trim_bounds, trimmed};

verus! {

/// A language that can be executed.
#[derive(Clone, Copy, Debug, PartialEq, Eq, Structural)]
pub enum Language {
    Python,
    JavaScript,
    Cpp,
    C,
    Rust,
    Go,
}

impl Language {
    /// The extension of a source file in this language.
    pub open spec fn extension(self) -> Seq<char> {
        match self {
            Language::Python => "py"@,
            Language::JavaScript => "js"@,
            Language::Cpp => "cpp"@,
            Language::C => "c"@,
            Language::Rust => "rs"@,
            Language::Go => "go"@,
        }
    }

    /// The interpreter or compiler of this language.
    pub open spec fn program(self) -> Seq<char> {
        match self {
            Language::Python => "python"@,
            Language::JavaScript => "node"@,
            Language::Cpp => "g++"@,
            Language::C => "gcc"@,
            Language::Rust => "rustc"@,
            Language::Go => "go"@,
        }
    }

    /// Whether a source file is compiled to an executable before it runs.
    pub open spec fn compiled(self) -> bool {
        self is Cpp || self is C || self is Rust
    }

    /// The name of the source file written for this language.
    pub open spec fn source_name(self) -> Seq<char> {
        "main."@ + self.extension()
    }

    pub fn extension_text(self) -> (r: &'static str)
        ensures
            r@ == self.extension(),
    {
        match self {
            Language::Python => "py",
            Language::JavaScript => "js",
            Language::Cpp => "cpp",
            Language::C => "c",
            Language::Rust => "rs",
            Language::Go => "go",
        }
    }

    pub fn program_text(self) -> (r: &'static str)
        ensures
            r@ == self.program(),
    {
        match self {
            Language::Python => "python",
            Language::JavaScript => "node",
            Language::Cpp => "g++",
            Language::C => "gcc",
            Language::Rust => "rustc",
            Language::Go => "go",
        }
    }

    pub fn is_compiled(self) -> (r: bool)
        ensures
            r == self.compiled(),
    {
        match self {
            Language::Cpp | Language::C | Language::Rust => true,
            _ => false,
        }
    }
}

/// The language that a folded key names.
pub open spec fn language_named(k: Seq<char>) -> Option<Language> {
    if k == "python"@ {
        Some(Language::Python)
    } else if k == "javascript"@ || k == "typescript"@ {
        Some(Language::JavaScript)
    } else if k == "c++"@ || k == "cpp"@ {
        Some(Language::Cpp)
    } else if k == "c"@ {
        Some(Language::C)
    } else if k == "rust"@ {
        Some(Language::Rust)
    } else if k == "go"@ || k == "golang"@ {
        Some(Language::Go)
    } else {
        None
    }
}

/// The language that `key` names: surrounding whitespace and the case of
/// ASCII letters do not count, and each language answers to its synonyms.
pub open spec fn language_of(key: Seq<char>) -> Option<Language> {
    language_named(lowered(trimmed(key)))
}

/// Looks a language up by its name.
pub fn resolve(key: &str) -> (r: Option<Language>)
    ensures
        r == language_of(key@),
{
    let v = chars_of(key);
    let (a, b) = trim_bounds(&v, 0, v.len());
    proof {
        assert(v@.subrange(0, v@.len() as int) =~= v@);
    }
    if spells(&v, a, b, "python") {
        Some(Language::Python)
    } else if spells(&v, a, b, "javascript") || spells(&v, a, b, "typescript") {
        Some(Language::JavaScript)
    } else if spells(&v, a, b, "c++") || spells(&v, a, b, "cpp") {
        Some(Language::Cpp)
    } else if spells(&v, a, b, "c") {
        Some(Language::C)
    } else if spells(&v, a, b, "rust") {
        Some(Language::Rust)
    } else if spells(&v, a, b, "go") || spells(&v, a, b, "golang") {
        Some(Language::Go)
    } else {
        None
    }
}

/// Resolution ignores the case of ASCII letters: two keys that differ in
/// nothing else name the same language, or both name none.
pub proof fn lemma_resolution_ignores_case(a: Seq<char>, b: Seq<char>)
    requires
        lowered(a) == lowered(b),
    ensures
        language_of(a) == language_of(b),
{
    lemma_trimmed_lowered(a);
    lemma_trimmed_lowered(b);
}

/// The name of the executable that a compiler is asked to produce.
pub open spec fn executable_name(windows: bool) -> Seq<char> {
    if windows {
        "main.exe"@
    } else {
        "main"@
    }
}

/// The compiler call for `lang`, where it has one: the source file, `-o`
/// and the executable, both inside the session directory.
pub open spec fn compile_step(lang: Language, windows: bool) -> Option<InvocationView> {
    if lang.compiled() {
        Some(
            InvocationView {
                program: literal(lang.program()),
                args: seq![
                    local(lang.source_name()),
                    literal("-o"@),
                    local(executable_name(windows)),
                ],
            },
        )
    } else {
        None
    }
}

/// The call that runs a program in `lang`: the produced executable for a
/// compiled language, else the interpreter with the source file's name as
/// its last argument.
pub open spec fn run_step(lang: Language, windows: bool) -> InvocationView {
    if lang.compiled() {
        InvocationView { program: local(executable_name(windows)), args: seq![] }
    } else if lang is Go {
        InvocationView {
            program: literal(lang.program()),
            args: seq![literal("run"@), literal(lang.source_name())],
        }
    } else {
        InvocationView { program: literal(lang.program()), args: seq![literal(lang.source_name())] }
    }
}

/// The recipe for one language on one platform.
pub struct Toolchain {
    pub language: Language,
    pub extension: String,
    pub source_name: String,
    pub compile: Option<Invocation>,
    pub run: Invocation,
}

impl Toolchain {
    /// Whether this is the recipe for `lang` on the given platform.
    pub open spec fn describes(&self, lang: Language, windows: bool) -> bool {
        &&& self.language == lang
        &&& self.extension@ == lang.extension()
        &&& self.source_name@ == lang.source_name()
        &&& match self.compile {
            Some(c) => compile_step(lang, windows) == Some(c@),
            None => compile_step(lang, windows) is None,
        }
        &&& self.run@ == run_step(lang, windows)
    }

    /// The recipe for `lang`; `windows` selects the executable's name.
    pub fn of(lang: Language, windows: bool) -> (r: Toolchain)
        ensures
            r.describes(lang, windows),
    {
        let ext = lang.extension_text();
        let source = String::from_str("main.").concat(ext);
        let exe = if windows {
            "main.exe"
        } else {
            "main"
        };
        let compile = if lang.is_compiled() {
            let mut args: Vec<Piece> = Vec::new();
            args.push(Piece::local(source.as_str()));
            args.push(Piece::literal("-o"));
            args.push(Piece::local(exe));
            let c = Invocation { program: Piece::literal(lang.program_text()), args };
            proof {
                assert(c@.args =~= compile_step(lang, windows).unwrap().args);
            }
            Some(c)
        } else {
            None
        };
        let mut args: Vec<Piece> = Vec::new();
        let run = if lang.is_compiled() {
            Invocation { program: Piece::local(exe), args }
        } else {
            match lang {
                Language::Go => {
                    args.push(Piece::literal("run"));
                },
                _ => {},
            }
            args.push(Piece::literal(source.as_str()));
            Invocation { program: Piece::literal(lang.program_text()), args }
        };
        proof {
            assert(run@.args =~= run_step(lang, windows).args);
        }
        Toolchain {
            language: lang,
            extension: String::from_str(ext),
            source_name: source,
            compile,
            run,
        }
    }
}

} // verus!
