//! Translation of POSIX paths into the UNC namespace through which Windows reaches a
//! WSL distribution.
use vstd::prelude::*;

verus! {

/// The namespace that every translated path starts with: `\\wsl.localhost\`.
pub open spec fn unc_prefix() -> Seq<char> {
    seq!['\\', '\\', 'w', 's', 'l', '.', 'l', 'o', 'c', 'a', 'l', 'h', 'o', 's', 't', '\\']
}

/// What the character at `i` of `path` becomes: a slash turns into one backslash,
/// unless it starts the path or follows another slash (then it is absorbed into the
/// separator before it); any other character stays.
pub open spec fn translated_char(path: Seq<char>, i: int) -> Seq<char> {
    if path[i] == '/' {
        if i > 0 && path[i - 1] != '/' {
            seq!['\\']
        } else {
            Seq::empty()
        }
    } else {
        seq![path[i]]
    }
}

/// The translation of the first `n` characters of `path`.
pub open spec fn translated_prefix(path: Seq<char>, n: int) -> Seq<char>
    decreases n,
{
    if n <= 0 {
        Seq::empty()
    } else {
        translated_prefix(path, n - 1) + translated_char(path, n - 1)
    }
}

/// The UNC path that `path` denotes inside the distribution `distro`.
pub open spec fn unc_path(distro: Seq<char>, path: Seq<char>) -> Seq<char> {
    unc_prefix() + distro + seq!['\\'] + translated_prefix(path, path.len() as int)
}

/// Relies on `String::push`: the character is appended at the end.
#[verifier::external_body]
pub(crate) fn push_char(s: &mut String, c: char)
    ensures
        final(s)@ == old(s)@.push(c),
{
    s.push(c);
}

/// Appends the translation of `path` inside `distro` to `buffer`.
pub fn translate_path(buffer: &mut String, distro: &str, path: &str)
    ensures
        final(buffer)@ == old(buffer)@ + unc_path(distro@, path@),
{
    let prefix = "\\\\wsl.localhost\\";
    proof {
        reveal_strlit("\\\\wsl.localhost\\");
    }
    assert(prefix@ == unc_prefix());
    buffer.append(prefix);
    buffer.append(distro);
    push_char(buffer, '\\');
    let ghost start = buffer@;
    let mut after_slash = true;
    for c in it: path.chars()
        invariant
            it.seq() == path@,
            buffer@ == start + translated_prefix(path@, it.index()),
            after_slash == (it.index() == 0 || path@[it.index() - 1] == '/'),
    {
        if c == '/' {
            if !after_slash {
                push_char(buffer, '\\');
            }
            after_slash = true;
        } else {
            push_char(buffer, c);
            after_slash = false;
        }
    }
    assert(start == old(buffer)@ + unc_prefix() + distro@ + seq!['\\']);
}

/// The UNC path of `path` inside `distro`, as a new string.
pub fn translate(distro: &str, path: &str) -> (r: String)
    ensures
        r@ == unc_path(distro@, path@),
{
    let mut buffer = String::new();
    translate_path(&mut buffer, distro, path);
    assert(buffer@ =~= unc_path(distro@, path@));
    buffer
}

/// Translation is a function of the distribution and the path alone, and its result
/// always starts with the UNC prefix followed by the distribution.
pub proof fn lemma_translation_determinism(distro: Seq<char>, path: Seq<char>, distro2: Seq<char>, path2: Seq<char>)
    requires
        distro2 == distro,
        path2 == path,
    ensures
        unc_path(distro2, path2) == unc_path(distro, path),
        unc_path(distro, path).len() > unc_prefix().len() + distro.len(),
        unc_path(distro, path).take((unc_prefix().len() + distro.len()) as int) == unc_prefix() + distro,
{
    assert(unc_path(distro, path).take((unc_prefix().len() + distro.len()) as int) =~= unc_prefix() + distro);
}

/// `a/b/c` translates without a trailing separator, `a/b/c/` with exactly one, and `/`
/// into the prefix, the distribution and a single separator.
pub proof fn lemma_separator_fidelity(distro: Seq<char>)
    ensures
        unc_path(distro, seq!['a', '/', 'b', '/', 'c']) == unc_prefix() + distro + seq![
            '\\',
            'a',
            '\\',
            'b',
            '\\',
            'c',
        ],
        unc_path(distro, seq!['a', '/', 'b', '/', 'c', '/']) == unc_prefix() + distro + seq![
            '\\',
            'a',
            '\\',
            'b',
            '\\',
            'c',
            '\\',
        ],
        unc_path(distro, seq!['/']) == unc_prefix() + distro + seq!['\\'],
{
    let p = seq!['a', '/', 'b', '/', 'c', '/'];
    reveal_with_fuel(translated_prefix, 7);
    assert(translated_prefix(p, 5) =~= seq!['a', '\\', 'b', '\\', 'c']);
    assert(translated_prefix(p, 6) =~= seq!['a', '\\', 'b', '\\', 'c', '\\']);
    assert(translated_prefix(seq!['a', '/', 'b', '/', 'c'], 5) =~= seq!['a', '\\', 'b', '\\', 'c']);
    assert(translated_prefix(seq!['/'], 1) =~= Seq::<char>::empty());
    assert(unc_path(distro, seq!['/']) =~= unc_prefix() + distro + seq!['\\']);
}

} // verus!
