//! Shell selection for the child side of the session.
//!
//! The child replaces its process image with the user's shell: the program
//! named by the shell environment variable, or a fixed fallback when that is
//! unset or empty. The shell's reported zeroth argument is its base name
//! prefixed with `-`, which signals a login shell. The driver reads the
//! environment variable and makes the exec-style call; this module decides,
//! byte for byte, which path is executed and under which zeroth argument.

use vstd::prelude::*;

verus! {

/// The byte `/`, the path separator.
pub const SEPARATOR: u8 = 47;

/// The byte `-`, the login-shell marker.
pub const LOGIN_MARKER: u8 = 45;

/// The program the child execs and the zeroth argument it reports.
#[derive(PartialEq, Eq, Debug)]
pub struct ShellCommand {
    /// The path of the program to execute, e.g. `/bin/bash`.
    pub path: Vec<u8>,
    /// The zeroth argument the program sees: `-` followed by the path's base
    /// name, e.g. `-bash`, so the shell starts as a login shell.
    pub arg0: Vec<u8>,
}

/// The fallback shell path, `/bin/bash`, used when the environment names
/// no shell.
pub open spec fn default_shell() -> Seq<u8> {
    seq![47u8, 98u8, 105u8, 110u8, 47u8, 98u8, 97u8, 115u8, 104u8]
}

/// The path of the shell to execute: the environment variable's value, or
/// the fallback when the variable is unset or empty.
pub open spec fn chosen_shell(env_shell: Option<Seq<u8>>) -> Seq<u8> {
    match env_shell {
        Option::None => default_shell(),
        Option::Some(s) => if s.len() == 0 {
            default_shell()
        } else {
            s
        },
    }
}

/// The part of a path after its last separator (the whole path when it has
/// none; empty when it ends in a separator).
pub open spec fn base_name(s: Seq<u8>) -> Seq<u8>
    decreases s.len(),
{
    if s.len() == 0 {
        Seq::empty()
    } else if s.last() == SEPARATOR {
        Seq::empty()
    } else {
        base_name(s.drop_last()).push(s.last())
    }
}

/// The zeroth argument announcing a login shell: the login marker followed
/// by the shell path's base name.
pub open spec fn login_arg0(path: Seq<u8>) -> Seq<u8> {
    seq![LOGIN_MARKER] + base_name(path)
}

/// A suffix that contains no separator is the tail of the base name: the
/// base name of `s` is the base name of the part before the suffix,
/// followed by the suffix.
proof fn lemma_base_name_split(s: Seq<u8>, j: int)
    requires
        0 <= j <= s.len(),
        forall|i: int| j <= i < s.len() ==> s[i] != SEPARATOR,
    ensures
        base_name(s) == base_name(s.subrange(0, j)) + s.subrange(j, s.len() as int),
    decreases s.len() - j,
{
    if j == s.len() {
        assert(s.subrange(0, j) =~= s);
        assert(base_name(s) =~= base_name(s) + s.subrange(j, s.len() as int));
    } else {
        lemma_base_name_split(s, j + 1);
        let head = s.subrange(0, j + 1);
        assert(head.last() == s[j]);
        assert(head.drop_last() =~= s.subrange(0, j));
        assert(base_name(head) == base_name(s.subrange(0, j)).push(s[j]));
        assert(base_name(s.subrange(0, j)).push(s[j]) + s.subrange(j + 1, s.len() as int)
            =~= base_name(s.subrange(0, j)) + s.subrange(j, s.len() as int));
    }
}

/// Decide which program the child execs and under which zeroth argument,
/// from the shell environment variable's value (`None` when unset): the
/// variable's value when it is set and non-empty, the fallback shell
/// otherwise, with the login-marked base name as zeroth argument.
pub fn shell_command(env_shell: Option<Vec<u8>>) -> (r: ShellCommand)
    ensures
        r.path@ == chosen_shell(env_shell.deep_view()),
        r.arg0@ == login_arg0(r.path@),
{
    let path: Vec<u8> = match env_shell {
        None => default_shell_path(),
        Some(v) => {
            if v.len() == 0 {
                default_shell_path()
            } else {
                v
            }
        },
    };
    let n = path.len();
    let mut start: usize = n;
    while start > 0 && path[start - 1] != SEPARATOR
        invariant
            start <= n,
            n == path@.len(),
            forall|i: int| start <= i < n ==> path@[i] != SEPARATOR,
        decreases start,
    {
        start = start - 1;
    }
    proof {
        lemma_base_name_split(path@, start as int);
        if start > 0 {
            let head = path@.subrange(0, start as int);
            assert(head.last() == path@[start - 1]);
            assert(base_name(head) =~= Seq::<u8>::empty());
        } else {
            assert(path@.subrange(0, 0) =~= Seq::<u8>::empty());
        }
        assert(base_name(path@) =~= path@.subrange(start as int, n as int));
    }
    let mut arg0: Vec<u8> = Vec::new();
    arg0.push(LOGIN_MARKER);
    let mut i: usize = start;
    while i < n
        invariant
            start <= i <= n,
            n == path@.len(),
            arg0@ == seq![LOGIN_MARKER] + path@.subrange(start as int, i as int),
        decreases n - i,
    {
        let b = path[i];
        arg0.push(b);
        i = i + 1;
        assert(arg0@ =~= seq![LOGIN_MARKER] + path@.subrange(start as int, i as int));
    }
    ShellCommand { path, arg0 }
}

/// The fallback shell path as a value: `/bin/bash`.
fn default_shell_path() -> (r: Vec<u8>)
    ensures
        r@ == default_shell(),
{
    let mut v: Vec<u8> = Vec::new();
    v.push(47);
    v.push(98);
    v.push(105);
    v.push(110);
    v.push(47);
    v.push(98);
    v.push(97);
    v.push(115);
    v.push(104);
    proof {
        assert(v@ =~= default_shell());
    }
    v
}

} // verus!
