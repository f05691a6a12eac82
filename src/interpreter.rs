use vstd::prelude::*;

verus! {

/// The interpreters a batch script can run under.
#[derive(Clone, Copy, Debug, PartialEq, Eq, Structural)]
pub enum Language {
    Zsh,
    Bash,
    Python,
    Sh,
}

/// The label shown for each interpreter.
pub open spec fn name_of(lang: Language) -> Seq<char> {
    match lang {
        Language::Zsh => "zsh"@,
        Language::Bash => "bash"@,
        Language::Python => "python"@,
        Language::Sh => "sh"@,
    }
}

/// The fixed executable path of each interpreter.
pub open spec fn program_of(lang: Language) -> Seq<char> {
    match lang {
        Language::Zsh => "/usr/bin/zsh"@,
        Language::Bash => "/usr/bin/bash"@,
        Language::Python => "/usr/bin/python"@,
        Language::Sh => "/usr/bin/sh"@,
    }
}

/// The argument vector that runs `script` as inline code.
pub open spec fn args_of(lang: Language, script: Seq<char>) -> Seq<Seq<char>> {
    match lang {
        Language::Zsh => seq!["--emulate"@, "zsh"@, "-c"@, script, "batch-script-zsh"@],
        Language::Bash => seq!["-c"@, script, "batch-script-bash"@],
        Language::Python => seq!["-c"@, script],
        Language::Sh => seq!["-c"@, script, "batch-script-sh"@],
    }
}

/// Where the script text stands in the argument vector.
pub open spec fn script_position(lang: Language) -> int {
    match lang {
        Language::Zsh => 3,
        _ => 1,
    }
}

/// A resolved process invocation: executable path and argument vector.
pub struct Invocation {
    pub program: String,
    pub args: Vec<String>,
}

impl Invocation {
    pub open spec fn args_view(&self) -> Seq<Seq<char>> {
        self.args@.map_values(|a: String| a@)
    }
}

fn owned(s: &str) -> (r: String)
    ensures
        r@ == s@,
{
    s.to_owned()
}

impl Language {
    /// All interpreters, in the order they are offered.
    pub fn all() -> (r: Vec<Language>)
        ensures
            r@ == seq![Language::Zsh, Language::Bash, Language::Python, Language::Sh],
    {
        vec![Language::Zsh, Language::Bash, Language::Python, Language::Sh]
    }

    /// The display label of this interpreter.
    pub fn name(&self) -> (r: String)
        ensures
            r@ == name_of(*self),
    {
        match self {
            Language::Zsh => owned("zsh"),
            Language::Bash => owned("bash"),
            Language::Python => owned("python"),
            Language::Sh => owned("sh"),
        }
    }

    /// The executable path of this interpreter.
    pub fn program(&self) -> (r: String)
        ensures
            r@ == program_of(*self),
    {
        match self {
            Language::Zsh => owned("/usr/bin/zsh"),
            Language::Bash => owned("/usr/bin/bash"),
            Language::Python => owned("/usr/bin/python"),
            Language::Sh => owned("/usr/bin/sh"),
        }
    }

    /// Resolves the invocation that runs `script` as inline code under this
    /// interpreter.
    pub fn resolve(&self, script: &str) -> (r: Invocation)
        ensures
            r.program@ == program_of(*self),
            r.args_view() == args_of(*self, script@),
    {
        let program = self.program();
        let mut args: Vec<String> = Vec::new();
        match self {
            Language::Zsh => {
                args.push(owned("--emulate"));
                args.push(owned("zsh"));
                args.push(owned("-c"));
                args.push(owned(script));
                args.push(owned("batch-script-zsh"));
            },
            Language::Bash => {
                args.push(owned("-c"));
                args.push(owned(script));
                args.push(owned("batch-script-bash"));
            },
            Language::Python => {
                args.push(owned("-c"));
                args.push(owned(script));
            },
            Language::Sh => {
                args.push(owned("-c"));
                args.push(owned(script));
                args.push(owned("batch-script-sh"));
            },
        }
        let r = Invocation { program, args };
        assert(r.args_view() =~= args_of(*self, script@));
        r
    }
}

/// Changing the script leaves the invocation template as it is: the same
/// executable, the same number of arguments, and the same arguments at every
/// position but the one that holds the script.
pub proof fn lemma_template_fixed(lang: Language, s1: Seq<char>, s2: Seq<char>)
    ensures
        args_of(lang, s1).len() == args_of(lang, s2).len(),
        0 <= script_position(lang) < args_of(lang, s1).len(),
        args_of(lang, s1)[script_position(lang)] == s1,
        args_of(lang, s2)[script_position(lang)] == s2,
        forall|i: int|
            0 <= i < args_of(lang, s1).len() && i != script_position(lang) ==> args_of(lang, s1)[i]
                == args_of(lang, s2)[i],
{
}

} // verus!
