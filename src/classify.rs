//! Classification of linker arguments, and their rewriting into the form that the
//! Windows-side linker understands.
use vstd::prelude::*;

use crate::translate::{translate_path, unc_path, push_char};

verus! {

/// An argument is taken to hold a path when it starts with `/` and holds a second `/`.
pub open spec fn is_path_argument(arg: Seq<char>) -> bool {
    arg.len() > 0 && arg[0] == '/' && arg.drop_first().contains('/')
}

/// `k` is the position of the first colon of `s`.
pub open spec fn first_colon_at(s: Seq<char>, k: int) -> bool {
    0 <= k < s.len() && s[k] == ':' && forall|j: int| 0 <= j < k ==> s[j] != ':'
}

/// Splits the text after the prefix character into a flag name and a path at its
/// first colon; without a colon the whole text is the path.
pub open spec fn split_flag(rest: Seq<char>) -> (Option<Seq<char>>, Seq<char>) {
    if exists|k: int| first_colon_at(rest, k) {
        let k = choose|k: int| first_colon_at(rest, k);
        (Some(rest.take(k)), rest.skip(k + 1))
    } else {
        (None, rest)
    }
}

/// The flag that names the link output: `OUT`.
pub open spec fn output_flag() -> Seq<char> {
    seq!['O', 'U', 'T']
}

/// The argument as it is handed to the linker.
pub open spec fn rewritten(distro: Seq<char>, arg: Seq<char>) -> Seq<char> {
    if !is_path_argument(arg) {
        arg
    } else {
        let (flag, path) = split_flag(arg.drop_first());
        match flag {
            Some(f) => seq!['/'] + f + seq![':'] + unc_path(distro, path),
            None => unc_path(distro, path),
        }
    }
}

/// The output path that the argument names, before translation, if it is an `OUT` flag
/// with a path.
pub open spec fn captured_output(arg: Seq<char>) -> Option<Seq<char>> {
    if is_path_argument(arg) && split_flag(arg.drop_first()).0 == Some(output_flag()) {
        Some(split_flag(arg.drop_first()).1)
    } else {
        None
    }
}

/// The output path of a whole argument list: the last one named wins.
pub open spec fn last_output(args: Seq<Seq<char>>) -> Option<Seq<char>>
    decreases args.len(),
{
    if args.len() == 0 {
        None
    } else {
        match captured_output(args.last()) {
            Some(p) => Some(p),
            None => last_output(args.drop_last()),
        }
    }
}

/// The text of an optional string.
pub open spec fn option_view(o: Option<String>) -> Option<Seq<char>> {
    match o {
        Some(s) => Some(s@),
        None => None,
    }
}

/// How an argument is to be handled.
#[derive(Debug, PartialEq, Eq)]
pub enum ClassifiedArgument {
    /// Passed on verbatim.
    Unmodified,
    /// An optional flag name and a path to translate.
    FlagWithPath { flag: Option<String>, path: String },
}

impl ClassifiedArgument {
    /// The classification that `arg` is owed.
    pub open spec fn is_classification_of(&self, arg: Seq<char>) -> bool {
        match self {
            ClassifiedArgument::Unmodified => !is_path_argument(arg),
            ClassifiedArgument::FlagWithPath { flag, path } => {
                &&& is_path_argument(arg)
                &&& option_view(*flag) == split_flag(arg.drop_first()).0
                &&& path@ == split_flag(arg.drop_first()).1
            },
        }
    }
}

/// Classifies one argument by its text alone.
pub fn classify_argument(arg: &str) -> (r: ClassifiedArgument)
    ensures
        r.is_classification_of(arg@),
{
    let n = arg.unicode_len();
    let mut starts_with_slash = false;
    let mut later_slash = false;
    let mut colon: Option<usize> = None;
    let mut i: usize = 0;
    for c in it: arg.chars()
        invariant
            it.seq() == arg@,
            n == arg@.len(),
            i == it.index(),
            i <= n,
            starts_with_slash == (i > 0 && arg@[0] == '/'),
            later_slash == (exists|j: int| 1 <= j < i && arg@[j] == '/'),
            match colon {
                Some(k) => 1 <= k < i && first_colon_at(arg@.drop_first(), k - 1),
                None => forall|j: int| 1 <= j < i ==> arg@[j] != ':',
            },
    {
        if i == 0 {
            starts_with_slash = c == '/';
        } else {
            if c == '/' {
                later_slash = true;
            }
            if c == ':' && colon.is_none() {
                colon = Some(i);
            }
        }
        i = i + 1;
    }
    let ghost rest = arg@.drop_first();
    if !starts_with_slash || !later_slash {
        proof {
            if is_path_argument(arg@) {
                let j = choose|j: int| 0 <= j < rest.len() && rest[j] == '/';
                assert(arg@[j + 1] == '/');
            }
        }
        return ClassifiedArgument::Unmodified;
    }
    assert(rest.contains('/')) by {
        let j = choose|j: int| 1 <= j < n && arg@[j] == '/';
        assert(rest[j - 1] == '/');
    }
    match colon {
        Some(k) => {
            let flag = arg.substring_char(1, k).to_owned();
            let path = arg.substring_char(k + 1, n).to_owned();
            proof {
                let c = choose|c: int| first_colon_at(rest, c);
                assert(c == k - 1) by {
                    if c < k - 1 {
                        assert(rest[c] != ':');
                    } else if c > k - 1 {
                        assert(rest[k - 1] != ':');
                    }
                }
                assert(flag@ =~= rest.take(k - 1));
                assert(path@ =~= rest.skip(k as int));
            }
            ClassifiedArgument::FlagWithPath { flag: Some(flag), path }
        },
        None => {
            let path = arg.substring_char(1, n).to_owned();
            proof {
                assert forall|c: int| !first_colon_at(rest, c) by {
                    if 0 <= c < rest.len() {
                        assert(arg@[c + 1] != ':');
                    }
                }
                assert(path@ =~= rest);
            }
            ClassifiedArgument::FlagWithPath { flag: None, path }
        },
    }
}

/// Whether `flag` is the output flag `OUT` (an exact, case-sensitive match).
pub fn is_output_flag(flag: &str) -> (r: bool)
    ensures
        r == (flag@ == output_flag()),
{
    if flag.unicode_len() != 3 {
        return false;
    }
    let r = flag.get_char(0) == 'O' && flag.get_char(1) == 'U' && flag.get_char(2) == 'T';
    proof {
        if r {
            assert(flag@ =~= output_flag());
        }
    }
    r
}

/// Builds the argument for the linker from `arg` and its classification.
fn rewrite_classified(distro: &str, arg: &str, c: &ClassifiedArgument) -> (r: String)
    requires
        c.is_classification_of(arg@),
    ensures
        r@ == rewritten(distro@, arg@),
{
    match c {
        ClassifiedArgument::Unmodified => arg.to_owned(),
        ClassifiedArgument::FlagWithPath { flag, path } => {
            let mut buffer = String::new();
            match flag {
                Some(f) => {
                    push_char(&mut buffer, '/');
                    buffer.append(f.as_str());
                    push_char(&mut buffer, ':');
                    translate_path(&mut buffer, distro, path.as_str());
                    assert(buffer@ =~= seq!['/'] + f@ + seq![':'] + unc_path(distro@, path@));
                },
                None => {
                    translate_path(&mut buffer, distro, path.as_str());
                    assert(buffer@ =~= unc_path(distro@, path@));
                },
            }
            buffer
        },
    }
}

/// Rewrites one argument: a path argument gets its path translated into `distro`'s UNC
/// namespace, keeping its flag; any other argument is passed on unchanged.
pub fn rewrite_argument(distro: &str, arg: &str) -> (r: String)
    ensures
        r@ == rewritten(distro@, arg@),
        !is_path_argument(arg@) ==> r@ == arg@,
{
    rewrite_classified(distro, arg, &classify_argument(arg))
}

/// The arguments for the linker, and the output path that they name.
#[derive(Debug, PartialEq, Eq)]
pub struct RewrittenArguments {
    pub arguments: Vec<String>,
    pub output_path: Option<String>,
}

/// Rewrites every argument in order, and records the output path (before translation)
/// of the last `OUT` flag with a path.
pub fn rewrite_arguments(distro: &str, args: &Vec<String>) -> (r: RewrittenArguments)
    ensures
        r.arguments.len() == args.len(),
        forall|i: int| 0 <= i < args.len() ==> #[trigger] r.arguments[i]@ == rewritten(distro@, args[i]@),
        option_view(r.output_path) == last_output(args.deep_view()),
{
    let mut arguments: Vec<String> = Vec::new();
    let mut output_path: Option<String> = None;
    for i in 0..args.len()
        invariant
            arguments.len() == i,
            forall|j: int| 0 <= j < i ==> #[trigger] arguments[j]@ == rewritten(distro@, args[j]@),
            option_view(output_path) == last_output(args.deep_view().take(i as int)),
    {
        let arg = args[i].as_str();
        let ghost prefix = args.deep_view().take(i as int);
        let ghost next = args.deep_view().take(i + 1);
        assert(next.drop_last() =~= prefix);
        assert(next.last() == arg@);
        let c = classify_argument(arg);
        if let ClassifiedArgument::FlagWithPath { flag: Some(f), path } = &c {
            if is_output_flag(f.as_str()) {
                output_path = Some(path.clone());
            }
        }
        arguments.push(rewrite_classified(distro, arg, &c));
    }
    assert(args.deep_view().take(args.len() as int) =~= args.deep_view());
    RewrittenArguments { arguments, output_path }
}

/// An argument that does not start with `/`, or holds no further `/` after it, is
/// passed on unchanged and names no output path.
pub proof fn lemma_non_path_passthrough(distro: Seq<char>, arg: Seq<char>)
    requires
        arg.len() == 0 || arg[0] != '/' || !arg.drop_first().contains('/'),
    ensures
        rewritten(distro, arg) == arg,
        captured_output(arg) is None,
{
}

/// An argument list in which no argument names an output path has no output path.
pub proof fn lemma_no_output_argument(args: Seq<Seq<char>>)
    requires
        forall|i: int| 0 <= i < args.len() ==> (#[trigger] captured_output(args[i])) is None,
    ensures
        last_output(args) is None,
    decreases args.len(),
{
    if args.len() > 0 {
        assert(captured_output(args[args.len() - 1]) is None);
        let rest = args.drop_last();
        assert forall|i: int| 0 <= i < rest.len() implies (#[trigger] captured_output(rest[i])) is None by {
            assert(rest[i] == args[i]);
        }
        lemma_no_output_argument(rest);
    }
}

} // verus!
