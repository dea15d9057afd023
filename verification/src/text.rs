//! Small verified text helpers the registry logic rests on: string equality,
//! trimming, the filesystem-safe normalisation of project names, and path
//! joining.

use vstd::prelude::*;

verus! {

/// What `char::is_alphanumeric` returns for a character: a property of the
/// character alone.
pub uninterp spec fn is_alphanum(c: char) -> bool;

/// What `char::is_whitespace` returns for a character: a property of the
/// character alone.
pub uninterp spec fn is_ws(c: char) -> bool;

/// Relies on char::is_alphanumeric: the result depends on the character
/// alone; ASCII letters and digits are alphanumeric, while a space, a hyphen,
/// an underscore and a slash (punctuation and separators) are not.
#[verifier::external_body]
fn char_is_alphanumeric(c: char) -> (r: bool)
    ensures
        r == is_alphanum(c),
        ('a' <= c <= 'z' || 'A' <= c <= 'Z' || '0' <= c <= '9') ==> r,
        (c == ' ' || c == '-' || c == '_' || c == '/') ==> !r,
{
    c.is_alphanumeric()
}

/// Relies on char::is_whitespace: the result depends on the character alone;
/// a space, tab, line feed and carriage return are whitespace, while ASCII
/// letters and digits are not.
#[verifier::external_body]
fn char_is_whitespace(c: char) -> (r: bool)
    ensures
        r == is_ws(c),
        (c == ' ' || c == '\t' || c == '\n' || c == '\r') ==> r,
        ('a' <= c <= 'z' || 'A' <= c <= 'Z' || '0' <= c <= '9') ==> !r,
{
    c.is_whitespace()
}

/// Relies on String::from_iter over a vector's characters: the result holds
/// exactly the given characters, in order.
#[verifier::external_body]
fn string_from_chars(chars: &Vec<char>) -> (r: String)
    ensures
        r@ == chars@,
{
    chars.iter().collect()
}

/// The two strings hold the same characters.
pub fn str_eq(a: &str, b: &str) -> (r: bool)
    ensures
        r == (a@ == b@),
{
    let sa = a.to_owned();
    let sb = b.to_owned();
    sa == sb
}

/// A project name reduced to a filesystem-safe folder name: spaces are turned
/// into separators and every character that is not alphanumeric is then
/// stripped, so only the alphanumeric characters remain, in order.
pub open spec fn normalized_name(s: Seq<char>) -> Seq<char>
    decreases s.len(),
{
    if s.len() == 0 {
        Seq::empty()
    } else {
        let rest = normalized_name(s.drop_last());
        if is_alphanum(s.last()) {
            rest.push(s.last())
        } else {
            rest
        }
    }
}

/// Reduces a project name to the filesystem-safe folder name used for its
/// default directory.
pub fn normalize_project_name(name: &str) -> (r: String)
    ensures
        r@ == normalized_name(name@),
{
    let n = name.unicode_len();
    let mut kept: Vec<char> = Vec::new();
    let mut i: usize = 0;
    while i < n
        invariant
            0 <= i <= n,
            n == name@.len(),
            kept@ == normalized_name(name@.subrange(0, i as int)),
        decreases n - i,
    {
        let c = name.get_char(i);
        if char_is_alphanumeric(c) {
            kept.push(c);
        }
        proof {
            assert(name@.subrange(0, (i + 1) as int).drop_last() =~= name@.subrange(0, i as int));
            assert(name@.subrange(0, (i + 1) as int).last() == name@[i as int]);
        }
        i = i + 1;
    }
    proof {
        assert(name@.subrange(0, n as int) =~= name@);
    }
    string_from_chars(&kept)
}

/// The whitespace trimmed from both ends: the result is the subrange of `s`
/// from its first non-whitespace character through its last, and is empty
/// when `s` is whitespace throughout.
pub open spec fn is_trimmed_of(s: Seq<char>, r: Seq<char>) -> bool {
    exists|a: int, b: int|
        #![trigger s.subrange(a, b)]
        0 <= a <= b <= s.len() && r == s.subrange(a, b)
            && (forall|k: int| 0 <= k < a ==> is_ws(s[k]))
            && (forall|k: int| b <= k < s.len() ==> is_ws(s[k]))
            && (a < b ==> !is_ws(s[a]) && !is_ws(s[b - 1]))
}

/// Strips leading and trailing whitespace, as the prompt forms do before
/// validating what the user typed.
pub fn trim_str(s: &str) -> (r: String)
    ensures
        is_trimmed_of(s@, r@),
        (forall|k: int| 0 <= k < s@.len() ==> is_ws(s@[k])) ==> r@.len() == 0,
{
    let n = s.unicode_len();
    let mut a: usize = 0;
    while a < n && char_is_whitespace(s.get_char(a))
        invariant
            0 <= a <= n,
            n == s@.len(),
            forall|k: int| 0 <= k < a ==> is_ws(s@[k]),
        decreases n - a,
    {
        a = a + 1;
    }
    if a == n {
        proof {
            assert(s@.subrange(n as int, n as int) =~= Seq::<char>::empty());
            assert(is_trimmed_of(s@, s@.subrange(n as int, n as int)));
        }
        return String::new();
    }
    let mut b: usize = n;
    while b > a && char_is_whitespace(s.get_char(b - 1))
        invariant
            a <= b <= n,
            n == s@.len(),
            forall|k: int| b <= k < n ==> is_ws(s@[k]),
        decreases b,
    {
        b = b - 1;
    }
    proof {
        assert(b > a) by {
            assert(!is_ws(s@[a as int]));
        }
    }
    let cut = s.substring_char(a, b);
    proof {
        assert(is_trimmed_of(s@, cut@));
    }
    cut.to_owned()
}

/// The text after the last slash: the whole string when it holds none.
pub open spec fn tail_after_slash(s: Seq<char>) -> Seq<char>
    decreases s.len(),
{
    if s.len() == 0 {
        s
    } else if s.last() == '/' {
        Seq::empty()
    } else {
        tail_after_slash(s.drop_last()).push(s.last())
    }
}

/// With every character after position `j` different from a slash, and a
/// slash at `j` itself (or `j` before the start), the tail after the last
/// slash is exactly what follows `j`.
proof fn lemma_tail_after_slash(s: Seq<char>, j: int)
    requires
        -1 <= j < s.len(),
        j >= 0 ==> s[j] == '/',
        forall|k: int| j < k < s.len() ==> s[k] != '/',
    ensures
        tail_after_slash(s) == s.subrange(j + 1, s.len() as int),
    decreases s.len(),
{
    if s.len() == 0 {
        assert(s.subrange(0, 0) =~= s);
    } else if j == s.len() - 1 {
        assert(s.subrange(s.len() as int, s.len() as int) =~= Seq::<char>::empty());
    } else {
        lemma_tail_after_slash(s.drop_last(), j);
        assert(s.subrange(j + 1, s.len() as int) =~= s.drop_last().subrange(
            j + 1,
            s.len() - 1,
        ).push(s.last()));
    }
}

/// The last path segment of the shell variable, accepted only when it names
/// a supported shell — one of `bash` and `zsh`.
pub fn valid_shell_name(var: &str) -> (r: Option<String>)
    ensures
        ({
            let seg = tail_after_slash(var@);
            match r {
                Some(shell) => shell@ == seg && (seg == "bash"@ || seg == "zsh"@),
                None => !(seg == "bash"@ || seg == "zsh"@),
            }
        }),
{
    let n = var.unicode_len();
    let mut i: usize = n;
    while i > 0 && var.get_char(i - 1) != '/'
        invariant
            0 <= i <= n,
            n == var@.len(),
            forall|k: int| i <= k < n ==> var@[k] != '/',
        decreases i,
    {
        i = i - 1;
    }
    proof {
        lemma_tail_after_slash(var@, i - 1);
    }
    let seg = var.substring_char(i, n);
    if str_eq(seg, "bash") || str_eq(seg, "zsh") {
        Some(seg.to_owned())
    } else {
        None
    }
}

/// The profile file the supported shell reads at start, under the home
/// directory; an unsupported shell has none.
pub fn get_path_to_shell_profile(shell: &str, home: &str) -> (r: Option<String>)
    ensures
        ({
            if shell@ == "bash"@ {
                r matches Some(p) && p@ == home@ + "/.bash_profile"@
            } else if shell@ == "zsh"@ {
                r matches Some(p) && p@ == home@ + "/.zshrc"@
            } else {
                r is None
            }
        }),
{
    if str_eq(shell, "bash") {
        let mut out = home.to_owned();
        out.append("/.bash_profile");
        Some(out)
    } else if str_eq(shell, "zsh") {
        let mut out = home.to_owned();
        out.append("/.zshrc");
        Some(out)
    } else {
        None
    }
}

/// `base` with `segment` appended below it, separated by one slash.
pub fn join_path(base: &str, segment: &str) -> (r: String)
    ensures
        r@ == base@ + "/"@ + segment@,
{
    let mut out = base.to_owned();
    out.append("/");
    out.append(segment);
    out
}

} // verus!
