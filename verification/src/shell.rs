//! Safe construction of subprocess command lines.
//!
//! A bare program name (no path separator) is run through the user's
//! login shell so that shell-managed PATH customisations apply; the
//! composed line wraps every word in single quotes, rewriting each
//! embedded quote as the POSIX-safe sequence `'\''`. A command holding a
//! path separator runs directly with its argument list.

use vstd::prelude::*;

verus! {

/// A command with no path separator is "bare" and resolved through the
/// login shell.
pub open spec fn spec_is_bare_command(s: Seq<char>) -> bool {
    !s.contains('/')
}

/// Decides whether `command` is a bare program name.
pub fn is_bare_command(command: &str) -> (r: bool)
    ensures
        r == spec_is_bare_command(command@),
{
    let n = command.unicode_len();
    let mut i: usize = 0;
    while i < n
        invariant
            n == command@.len(),
            i <= n,
            forall|j: int| 0 <= j < i ==> command@[j] != '/',
        decreases n - i,
    {
        if command.get_char(i) == '/' {
            return false;
        }
        i = i + 1;
    }
    true
}

/// How one quote character is escaped: close the quote, emit an escaped
/// quote, reopen the quote.
pub open spec fn spec_escaped_char(c: char) -> Seq<char> {
    if c == '\'' {
        seq!['\'', '\\', '\'', '\'']
    } else {
        seq![c]
    }
}

/// The body of an escaped word, before the enclosing quotes are added.
pub open spec fn spec_escape_body(s: Seq<char>) -> Seq<char>
    decreases s.len(),
{
    if s.len() == 0 {
        Seq::empty()
    } else {
        spec_escaped_char(s[0]) + spec_escape_body(s.drop_first())
    }
}

/// A word escaped for the shell: the body wrapped in single quotes.
pub open spec fn spec_sh_escape(s: Seq<char>) -> Seq<char> {
    seq!['\''] + spec_escape_body(s) + seq!['\'']
}

proof fn lemma_escape_body_push(s: Seq<char>, c: char)
    ensures
        spec_escape_body(s.push(c)) == spec_escape_body(s) + spec_escaped_char(c),
    decreases s.len(),
{
    assert(s.push(c).len() == s.len() + 1);
    assert(s.push(c)[0] == (if s.len() == 0 {
        c
    } else {
        s[0]
    }));
    if s.len() == 0 {
        assert(s.push(c).drop_first() =~= Seq::<char>::empty());
        assert(spec_escape_body(s.push(c)) == spec_escaped_char(c) + spec_escape_body(
            s.push(c).drop_first(),
        ));
        assert(spec_escape_body(Seq::<char>::empty()) == Seq::<char>::empty());
        assert(spec_escape_body(s.push(c)) =~= spec_escape_body(s) + spec_escaped_char(c));
    } else {
        assert(s.push(c).drop_first() =~= s.drop_first().push(c));
        lemma_escape_body_push(s.drop_first(), c);
        assert(spec_escape_body(s.push(c)) =~= spec_escape_body(s) + spec_escaped_char(c));
    }
}

/// Escapes one word for use in a single-quoted shell context.
pub fn sh_escape(arg: &str) -> (r: String)
    ensures
        r@ == spec_sh_escape(arg@),
{
    let n = arg.unicode_len();
    let mut out: String = String::from_str("'");
    proof {
        reveal_strlit("'");
        assert(out@ =~= seq!['\''] + spec_escape_body(arg@.take(0)));
    }
    let mut i: usize = 0;
    while i < n
        invariant
            n == arg@.len(),
            i <= n,
            out@ == seq!['\''] + spec_escape_body(arg@.take(i as int)),
        decreases n - i,
    {
        let c = arg.get_char(i);
        if c == '\'' {
            out.append("'\\''");
            proof {
                reveal_strlit("'\\''");
                assert("'\\''"@ =~= spec_escaped_char('\''));
            }
        } else {
            out.append(arg.substring_char(i, i + 1));
            proof {
                assert(arg@.subrange(i as int, i as int + 1) =~= spec_escaped_char(arg@[i as int]));
            }
        }
        proof {
            assert(arg@.take(i as int).push(arg@[i as int]) =~= arg@.take(i as int + 1));
            lemma_escape_body_push(arg@.take(i as int), arg@[i as int]);
            assert(out@ =~= seq!['\''] + spec_escape_body(arg@.take(i as int + 1)));
        }
        i = i + 1;
    }
    out.append("'");
    proof {
        reveal_strlit("'");
        assert(arg@.take(n as int) =~= arg@);
        assert(out@ =~= spec_sh_escape(arg@));
    }
    out
}

/// What a POSIX shell makes of one word, read outside quotes: a
/// single-quoted stretch passes literally, a backslash makes the next
/// character literal, and any other character stands for itself.
/// `None` marks an unterminated construct.
pub open spec fn spec_shell_eval(s: Seq<char>) -> Option<Seq<char>>
    decreases s.len(),
{
    if s.len() == 0 {
        Some(Seq::empty())
    } else if s[0] == '\'' {
        spec_eval_quoted(s.drop_first())
    } else if s[0] == '\\' {
        if s.len() >= 2 {
            match spec_shell_eval(s.skip(2)) {
                Some(r) => Some(seq![s[1]] + r),
                None => None,
            }
        } else {
            None
        }
    } else {
        match spec_shell_eval(s.drop_first()) {
            Some(r) => Some(seq![s[0]] + r),
            None => None,
        }
    }
}

/// What the shell makes of the rest of a word while inside single
/// quotes: every character until the closing quote is literal.
pub open spec fn spec_eval_quoted(s: Seq<char>) -> Option<Seq<char>>
    decreases s.len(),
{
    if s.len() == 0 {
        None
    } else if s[0] == '\'' {
        spec_shell_eval(s.drop_first())
    } else {
        match spec_eval_quoted(s.drop_first()) {
            Some(r) => Some(seq![s[0]] + r),
            None => None,
        }
    }
}

proof fn lemma_eval_quoted_escape(s: Seq<char>, rest: Seq<char>)
    ensures
        spec_eval_quoted(spec_escape_body(s) + seq!['\''] + rest) == (match spec_shell_eval(rest) {
            Some(r) => Some(s + r),
            None => None::<Seq<char>>,
        }),
    decreases s.len(),
{
    let w = spec_escape_body(s) + seq!['\''] + rest;
    if s.len() == 0 {
        assert(w =~= seq!['\''] + rest);
        assert(w[0] == '\'');
        assert(w.drop_first() =~= rest);
        match spec_shell_eval(rest) {
            Some(r) => {
                assert(s + r =~= r);
            },
            None => {},
        }
    } else if s[0] == '\'' {
        let tail = spec_escape_body(s.drop_first()) + seq!['\''] + rest;
        assert(w =~= seq!['\'', '\\', '\'', '\''] + tail);
        assert(w[0] == '\'');
        let w1 = w.drop_first();
        assert(w1 =~= seq!['\\', '\'', '\''] + tail);
        assert(w1[0] == '\\' && w1[1] == '\'' && w1.len() >= 2);
        let w2 = w1.skip(2);
        assert(w2 =~= seq!['\''] + tail);
        assert(w2[0] == '\'');
        assert(w2.drop_first() =~= tail);
        lemma_eval_quoted_escape(s.drop_first(), rest);
        assert(spec_eval_quoted(w) == spec_shell_eval(w1));
        assert(spec_shell_eval(w2) == spec_eval_quoted(tail));
        assert(spec_shell_eval(w1) == (match spec_shell_eval(w2) {
            Some(r2) => Some(seq![w1[1]] + r2),
            None => None::<Seq<char>>,
        }));
        match spec_shell_eval(rest) {
            Some(r) => {
                assert(spec_eval_quoted(tail) == Some(s.drop_first() + r));
                assert(spec_eval_quoted(w) == Some(seq!['\''] + (s.drop_first() + r)));
                assert(seq!['\''] + (s.drop_first() + r) =~= s + r);
            },
            None => {},
        }
    } else {
        assert(w =~= seq![s[0]] + (spec_escape_body(s.drop_first()) + seq!['\''] + rest));
        assert(w[0] == s[0] && w[0] != '\'');
        assert(w.drop_first() =~= spec_escape_body(s.drop_first()) + seq!['\''] + rest);
        lemma_eval_quoted_escape(s.drop_first(), rest);
        match spec_shell_eval(rest) {
            Some(r) => {
                assert(seq![s[0]] + (s.drop_first() + r) =~= s + r);
            },
            None => {},
        }
    }
}

/// Escaping a word and handing it to the shell gives back the word
/// unchanged, whatever quotes it holds. This holds of one round of
/// shell evaluation; escaping is not idempotent under repetition.
pub proof fn lemma_sh_escape_round_trip(arg: Seq<char>)
    ensures
        spec_shell_eval(spec_sh_escape(arg)) == Some(arg),
{
    let w = spec_sh_escape(arg);
    assert(w[0] == '\'');
    assert(w.drop_first() =~= spec_escape_body(arg) + seq!['\''] + Seq::<char>::empty());
    lemma_eval_quoted_escape(arg, Seq::empty());
    assert(spec_shell_eval(Seq::<char>::empty()) == Some(Seq::<char>::empty()));
    assert(arg + Seq::<char>::empty() =~= arg);
}

/// The escaped arguments of a composed line, each preceded by a space.
pub open spec fn spec_escaped_args(args: Seq<Seq<char>>) -> Seq<char>
    decreases args.len(),
{
    if args.len() == 0 {
        Seq::empty()
    } else {
        spec_escaped_args(args.drop_last()) + seq![' '] + spec_sh_escape(args.last())
    }
}

/// A full line for the login shell: the escaped command followed by the
/// escaped arguments.
pub open spec fn spec_compose_line(cmd: Seq<char>, args: Seq<Seq<char>>) -> Seq<char> {
    spec_sh_escape(cmd) + spec_escaped_args(args)
}

/// Composes the single shell word sequence for `command` and `args`.
pub fn compose_shell_line(command: &str, args: &Vec<String>) -> (r: String)
    ensures
        r@ == spec_compose_line(command@, args@.map_values(|a: String| a@)),
{
    let ghost margs = args@.map_values(|a: String| a@);
    let mut out = sh_escape(command);
    proof {
        assert(margs.take(0) =~= Seq::<Seq<char>>::empty());
        assert(out@ =~= spec_compose_line(command@, margs.take(0)));
    }
    let mut i: usize = 0;
    let n = args.len();
    while i < n
        invariant
            n == args@.len(),
            i <= n,
            margs == args@.map_values(|a: String| a@),
            out@ == spec_compose_line(command@, margs.take(i as int)),
        decreases n - i,
    {
        out.append(" ");
        let escaped = sh_escape(args[i].as_str());
        out.append(escaped.as_str());
        proof {
            reveal_strlit(" ");
            assert(" "@ =~= seq![' ']);
            assert(margs.take(i as int + 1).drop_last() =~= margs.take(i as int));
            assert(margs.take(i as int + 1).last() == args@[i as int]@);
            assert(out@ =~= spec_compose_line(command@, margs.take(i as int + 1)));
        }
        i = i + 1;
    }
    proof {
        assert(margs.take(n as int) =~= margs);
    }
    out
}

/// How a stdio command is to be launched.
#[derive(Debug, PartialEq, Eq)]
pub enum CommandPlan {
    /// Run the program directly with its argument list.
    Direct { program: String, args: Vec<String> },
    /// Run the composed line through the user's login shell, invoked
    /// non-interactively.
    Shell { command_line: String },
}

/// `plan` launches `command` with `args` as the escaping rules demand:
/// through the login shell when the command is bare, directly otherwise.
pub open spec fn spec_plan_for(plan: CommandPlan, command: Seq<char>, args: Seq<Seq<char>>) -> bool {
    if spec_is_bare_command(command) {
        plan matches CommandPlan::Shell { command_line } && command_line@ == spec_compose_line(
            command,
            args,
        )
    } else {
        plan matches CommandPlan::Direct { program, args: out } && program@ == command
            && out@.len() == args.len() && (forall|i: int|
            0 <= i < out@.len() ==> #[trigger] out@[i]@ == args[i])
    }
}

/// Builds the launch plan for `command`: through the shell when the
/// command is bare, directly otherwise.
pub fn build_stdio_command(command: &str, args: &Vec<String>) -> (r: CommandPlan)
    ensures
        spec_plan_for(r, command@, args@.map_values(|a: String| a@)),
{
    if is_bare_command(command) {
        CommandPlan::Shell { command_line: compose_shell_line(command, args) }
    } else {
        let mut copied: Vec<String> = Vec::new();
        let mut i: usize = 0;
        let n = args.len();
        while i < n
            invariant
                n == args@.len(),
                i <= n,
                copied@.len() == i,
                forall|j: int| 0 <= j < i ==> #[trigger] copied@[j]@ == args@[j]@,
            decreases n - i,
        {
            copied.push(args[i].clone());
            i = i + 1;
        }
        CommandPlan::Direct { program: command.to_owned(), args: copied }
    }
}

/// Whether `c` has the Unicode white-space property, the set that
/// `str::trim` removes.
pub open spec fn spec_is_space(c: char) -> bool {
    let u = c as u32;
    ||| u == 0x20
    ||| (0x9 <= u && u <= 0xD)
    ||| u == 0x85
    ||| u == 0xA0
    ||| u == 0x1680
    ||| (0x2000 <= u && u <= 0x200A)
    ||| u == 0x2028
    ||| u == 0x2029
    ||| u == 0x202F
    ||| u == 0x205F
    ||| u == 0x3000
}

/// Decides whether `c` is white space.
pub fn is_space(c: char) -> (r: bool)
    ensures
        r == spec_is_space(c),
{
    let u = c as u32;
    u == 0x20 || (0x9 <= u && u <= 0xD) || u == 0x85 || u == 0xA0 || u == 0x1680 || (0x2000 <= u
        && u <= 0x200A) || u == 0x2028 || u == 0x2029 || u == 0x202F || u == 0x205F || u == 0x3000
}

/// A string is blank when every character is white space; trimming such
/// a string leaves nothing.
pub open spec fn spec_is_blank(s: Seq<char>) -> bool {
    forall|i: int| 0 <= i < s.len() ==> spec_is_space(#[trigger] s[i])
}

/// Decides whether `s` is empty or all white space.
pub fn is_blank(s: &str) -> (r: bool)
    ensures
        r == spec_is_blank(s@),
{
    let n = s.unicode_len();
    let mut i: usize = 0;
    while i < n
        invariant
            n == s@.len(),
            i <= n,
            forall|j: int| 0 <= j < i ==> spec_is_space(#[trigger] s@[j]),
        decreases n - i,
    {
        if !is_space(s.get_char(i)) {
            return false;
        }
        i = i + 1;
    }
    true
}

/// Normalises a working directory: an absent, empty or all-white-space
/// value counts as unset.
pub fn normalize_cwd(cwd: Option<&str>) -> (r: Option<String>)
    ensures
        match cwd {
            Some(s) => if spec_is_blank(s@) {
                r is None
            } else {
                r matches Some(out) && out@ == s@
            },
            None => r is None,
        },
{
    match cwd {
        Some(s) => {
            if is_blank(s) {
                None
            } else {
                Some(s.to_owned())
            }
        },
        None => None,
    }
}

} // verus!
