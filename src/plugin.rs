use vstd::prelude::*;

use crate::text::{hex_digits, join_path, joined, push_hex, same_text, texts};

verus! {

/// How a plugin receives its input.
#[allow(non_camel_case_types)]
#[derive(Copy, Clone, Debug, PartialEq, Eq)]
pub enum InputType {
    file,
    stdin,
}

/// How a plugin hands back its output.
#[allow(non_camel_case_types)]
#[derive(Copy, Clone, Debug, PartialEq, Eq)]
pub enum OutputType {
    file,
    dir,
    stdout,
}

/// Where the prepared command reads its input from.
#[derive(Debug)]
pub enum InputPath {
    File(String),
    Stdin,
}

impl InputPath {
    /// The input file, when the plugin reads one.
    pub fn file(&self) -> (r: Option<&String>)
        ensures
            match self {
                InputPath::File(p) => r == Some(p),
                InputPath::Stdin => r.is_none(),
            },
    {
        match self {
            InputPath::File(path) => Some(path),
            InputPath::Stdin => None,
        }
    }

    /// Whether the plugin reads its standard input.
    pub fn stdin(&self) -> (r: bool)
        ensures
            r == (self is Stdin),
    {
        match self {
            InputPath::File(_) => false,
            InputPath::Stdin => true,
        }
    }
}

/// Where the prepared command leaves its output.
#[derive(Debug)]
pub enum OutputPath {
    Dir(String),
    File(String),
    Stdout,
}

impl OutputPath {
    /// The output directory, when the plugin writes one.
    pub fn dir(&self) -> (r: Option<&String>)
        ensures
            match self {
                OutputPath::Dir(p) => r == Some(p),
                _ => r.is_none(),
            },
    {
        match self {
            OutputPath::Dir(path) => Some(path),
            _ => None,
        }
    }

    /// Whether the plugin writes to its standard output.
    pub fn stdout(&self) -> (r: bool)
        ensures
            r == (self is Stdout),
    {
        match self {
            OutputPath::Stdout => true,
            _ => false,
        }
    }
}

/// Every argument equal to `var` replaced by `rep`, the others kept.
pub open spec fn replaced(args: Seq<Seq<char>>, var: Seq<char>, rep: Seq<char>) -> Seq<Seq<char>> {
    args.map_values(|a: Seq<char>| if a == var { rep } else { a })
}

/// Replaces each argument that is exactly `var` by `rep`.
pub fn replace_arg(args: &mut Vec<String>, var: &str, rep: &str)
    ensures
        texts(final(args)@) == replaced(texts(old(args)@), var@, rep@),
{
    let n = args.len();
    let mut i: usize = 0;
    while i < n
        invariant
            n == old(args)@.len(),
            args@.len() == n,
            i <= n,
            forall|j: int|
                0 <= j < i ==> (#[trigger] args@[j])@ == (if old(args)@[j]@ == var@ {
                    rep@
                } else {
                    old(args)@[j]@
                }),
            forall|j: int| i <= j < n ==> #[trigger] args@[j] == old(args)@[j],
        decreases n - i,
    {
        if same_text(args[i].as_str(), var) {
            args.remove(i);
            args.insert(i, rep.to_owned());
        }
        i = i + 1;
    }
    assert(texts(args@) =~= replaced(texts(old(args)@), var@, rep@));
}


/// Relies on `rand::random`: draws a value from the thread-local generator.
/// Nothing is known of the value drawn.
pub assume_specification<T>[ rand::random::<T> ]() -> (r: T)
    where
        rand::distributions::Standard: rand::distributions::Distribution<T>,
;

/// The name of a fresh path under `dir` made from the number `n`: sixteen
/// lower-case hexadecimal digits.
pub open spec fn temp_path(dir: Seq<char>, n: u64) -> Seq<char> {
    joined(dir, hex_digits(n as nat, 16, false))
}

/// The path under `dir` whose name is `n` in sixteen hexadecimal digits.
pub fn path_for(dir: &str, n: u64) -> (r: String)
    ensures
        r@ == temp_path(dir@, n),
{
    let mut name = String::new();
    push_hex(&mut name, n, 16, false);
    join_path(dir, name.as_str())
}

/// A fresh path under `dir`, named by a random 64-bit number.
pub fn gen_path(dir: &str) -> (r: String)
    ensures
        exists|n: u64| r@ == temp_path(dir@, n),
{
    let n: u64 = rand::random();
    path_for(dir, n)
}

/// A plugin as declared in the configuration.
#[derive(Clone, Debug)]
pub struct Plugin {
    pub name: String,
    pub path: String,
    pub args: Option<Vec<String>>,
    pub input: Option<InputType>,
    pub output: Option<OutputType>,
    pub unpacker: Option<bool>,
}

/// How the child's standard input is set up.
#[derive(Copy, Clone, Debug, PartialEq, Eq)]
pub enum StdinMode {
    Piped,
    Null,
}

/// A command ready to be spawned. Its standard output and standard error are
/// always piped.
#[derive(Debug)]
pub struct CommandSpec {
    pub program: String,
    pub args: Vec<String>,
    pub env: Vec<(String, String)>,
    pub stdin: StdinMode,
    pub current_dir: Option<String>,
}

/// The plan for one run of a plugin.
#[derive(Debug)]
pub struct PreppedPlugin {
    pub plugin_name: String,
    pub command: CommandSpec,
    pub input_path: InputPath,
    pub output_path: OutputPath,
    pub unpacker: bool,
}

pub open spec fn input_var() -> Seq<char> {
    "$INPUT"@
}

pub open spec fn output_var() -> Seq<char> {
    "$OUTPUT"@
}

pub open spec fn input_env() -> Seq<char> {
    "INPUT"@
}

pub open spec fn output_env() -> Seq<char> {
    "OUTPUT"@
}

/// The variables of an environment, as text.
pub open spec fn env_texts(e: Seq<(String, String)>) -> Seq<(Seq<char>, Seq<char>)> {
    e.map_values(|p: (String, String)| (p.0@, p.1@))
}

pub open spec fn opt_text(o: Option<&String>) -> Option<Seq<char>> {
    match o {
        Some(p) => Some(p@),
        None => None,
    }
}

impl Plugin {
    /// The input type, `file` when none is declared.
    pub open spec fn input_type(&self) -> InputType {
        match self.input {
            Some(t) => t,
            None => InputType::file,
        }
    }

    /// The output type, `file` when none is declared.
    pub open spec fn output_type(&self) -> OutputType {
        match self.output {
            Some(t) => t,
            None => OutputType::file,
        }
    }

    pub open spec fn is_unpacker(&self) -> bool {
        match self.unpacker {
            Some(b) => b,
            None => false,
        }
    }

    /// The declared arguments, none when absent.
    pub open spec fn template(&self) -> Seq<Seq<char>> {
        match self.args {
            Some(a) => texts(a@),
            None => seq![],
        }
    }

    /// The file the plugin reads: the given one, else the fresh one; none
    /// when it reads its standard input.
    pub open spec fn input_target(&self, given: Option<Seq<char>>, fresh: Seq<char>) -> Option<Seq<char>> {
        if self.input_type() == InputType::stdin {
            None
        } else {
            match given {
                Some(f) => Some(f),
                None => Some(fresh),
            }
        }
    }

    /// The file or directory the plugin writes; none for standard output.
    pub open spec fn output_target(&self, fresh: Seq<char>) -> Option<Seq<char>> {
        if self.output_type() == OutputType::stdout {
            None
        } else {
            Some(fresh)
        }
    }

    /// The arguments once `$INPUT` and then `$OUTPUT` are substituted.
    pub open spec fn resolved_args(&self, inp: Option<Seq<char>>, out: Option<Seq<char>>) -> Seq<Seq<char>> {
        let a = match inp {
            Some(i) => replaced(self.template(), input_var(), i),
            None => self.template(),
        };
        match out {
            Some(o) => replaced(a, output_var(), o),
            None => a,
        }
    }

    /// The plan for a run with the given input file and fresh paths.
    pub open spec fn planned(
        &self,
        r: PreppedPlugin,
        given: Option<Seq<char>>,
        fresh_in: Seq<char>,
        fresh_out: Seq<char>,
    ) -> bool {
        let inp = self.input_target(given, fresh_in);
        let out = self.output_target(fresh_out);
        &&& r.plugin_name@ == self.name@
        &&& r.command.program@ == self.path@
        &&& texts(r.command.args@) == self.resolved_args(inp, out)
        &&& env_texts(r.command.env@) == resolved_env(inp, out)
        &&& r.unpacker == self.is_unpacker()
        &&& match inp {
            Some(i) => (r.input_path matches InputPath::File(p) && p@ == i)
                && r.command.stdin == StdinMode::Null,
            None => r.input_path is Stdin && r.command.stdin == StdinMode::Piped,
        }
        &&& match self.output_type() {
            OutputType::stdout => r.output_path is Stdout && r.command.current_dir.is_none(),
            OutputType::file => (r.output_path matches OutputPath::File(p) && p@ == fresh_out)
                && r.command.current_dir.is_none(),
            OutputType::dir => (r.output_path matches OutputPath::Dir(p) && p@ == fresh_out)
                && (r.command.current_dir matches Some(d) && d@ == fresh_out),
        }
    }

    /// Plans a run of the plugin. `file_path` is the input when it already
    /// lies on disk; `fresh_input` and `fresh_output` are unused paths for
    /// the files that the run needs.
    pub fn prep_with(&self, file_path: Option<&String>, fresh_input: String, fresh_output: String) -> (r:
        PreppedPlugin)
        ensures
            self.planned(r, opt_text(file_path), fresh_input@, fresh_output@),
    {
        let mut args = match &self.args {
            Some(a) => clone_texts(a),
            None => Vec::new(),
        };
        assert(texts(args@) =~= self.template());
        let input_type = match self.input {
            Some(t) => t,
            None => InputType::file,
        };
        let output_type = match self.output {
            Some(t) => t,
            None => OutputType::file,
        };
        let mut env: Vec<(String, String)> = Vec::new();
        let stdin;
        let input_path = match input_type {
            InputType::stdin => {
                stdin = StdinMode::Piped;
                InputPath::Stdin
            },
            InputType::file => {
                stdin = StdinMode::Null;
                let path = match file_path {
                    Some(p) => p.clone(),
                    None => fresh_input,
                };
                env.push(("INPUT".to_owned(), path.clone()));
                replace_arg(&mut args, "$INPUT", path.as_str());
                InputPath::File(path)
            },
        };
        let mut current_dir = None;
        let output_path = match output_type {
            OutputType::stdout => OutputPath::Stdout,
            OutputType::dir => {
                env.push(("OUTPUT".to_owned(), fresh_output.clone()));
                replace_arg(&mut args, "$OUTPUT", fresh_output.as_str());
                current_dir = Some(fresh_output.clone());
                OutputPath::Dir(fresh_output)
            },
            OutputType::file => {
                env.push(("OUTPUT".to_owned(), fresh_output.clone()));
                replace_arg(&mut args, "$OUTPUT", fresh_output.as_str());
                OutputPath::File(fresh_output)
            },
        };
        let unpacker = match self.unpacker {
            Some(b) => b,
            None => false,
        };
        let r = PreppedPlugin {
            plugin_name: self.name.clone(),
            command: CommandSpec { program: self.path.clone(), args, env, stdin, current_dir },
            input_path,
            output_path,
            unpacker,
        };
        proof {
            let inp = self.input_target(opt_text(file_path), fresh_input@);
            let out = self.output_target(fresh_output@);
            assert(env_texts(r.command.env@) =~= resolved_env(inp, out));
            assert(texts(r.command.args@) == self.resolved_args(inp, out));
            assert(r.plugin_name@ == self.name@);
            assert(r.command.program@ == self.path@);
        }
        r
    }

    /// Plans a run of the plugin, with fresh paths drawn under `dir`, the
    /// current working directory.
    pub fn prep(&self, file_path: Option<&String>, dir: &str) -> (r: PreppedPlugin)
        ensures
            exists|a: u64, b: u64| self.planned(r, opt_text(file_path), temp_path(dir@, a), temp_path(dir@, b)),
    {
        let fresh_input = gen_path(dir);
        let fresh_output = gen_path(dir);
        let r = self.prep_with(file_path, fresh_input, fresh_output);
        let ghost a = choose|a: u64| fresh_input@ == temp_path(dir@, a);
        let ghost b = choose|b: u64| fresh_output@ == temp_path(dir@, b);
        assert(self.planned(r, opt_text(file_path), temp_path(dir@, a), temp_path(dir@, b)));
        r
    }
}

/// The environment of a run: `INPUT` for an input file, then `OUTPUT` for an
/// output file or directory.
pub open spec fn resolved_env(inp: Option<Seq<char>>, out: Option<Seq<char>>) -> Seq<(Seq<char>, Seq<char>)> {
    let i = match inp {
        Some(p) => seq![(input_env(), p)],
        None => seq![],
    };
    let o = match out {
        Some(p) => seq![(output_env(), p)],
        None => seq![],
    };
    i + o
}

/// A copy of a list of strings.
pub fn clone_texts(v: &Vec<String>) -> (r: Vec<String>)
    ensures
        texts(r@) == texts(v@),
{
    let mut r: Vec<String> = Vec::new();
    let mut i: usize = 0;
    while i < v.len()
        invariant
            i <= v@.len(),
            r@.len() == i,
            forall|j: int| 0 <= j < i ==> (#[trigger] r@[j])@ == v@[j]@,
        decreases v@.len() - i,
    {
        r.push(v[i].clone());
        i = i + 1;
    }
    assert(texts(r@) =~= texts(v@));
    r
}

} // verus!
