use vstd::prelude::*;

use crate::client::parse::{index_of, lemma_index_of};
use crate::text::{chars_of, string_of};

verus! {

/// What a command that ran gives.
#[derive(Debug, PartialEq)]
pub enum CmdOk {
    Ran,
    Print(String),
    /// A command's description and signature.
    Help(String, String),
    Quit,
}

/// Why a command did not run.
#[derive(Debug)]
pub enum CmdErr {
    NotACommand,
    NotConnected,
    AlreadyConnected,
    InvalidParameters,
    InvalidCommand(String),
    HelpNotFound,
}

pub type CommandResult = Result<CmdOk, CmdErr>;

/// The parts of `s` between spaces, the empty ones left out.
pub open spec fn arguments_of(s: Seq<char>) -> Seq<Seq<char>>
    decreases s.len(),
{
    match index_of(s, ' ') {
        Some(i) => if 0 <= i < s.len() {
            (if i > 0 {
                seq![s.take(i)]
            } else {
                seq![]
            }) + arguments_of(s.skip(i + 1))
        } else {
            seq![]
        },
        None => if s.len() > 0 {
            seq![s]
        } else {
            seq![]
        },
    }
}

/// A line `/<name> <argument>` cut into the name and the argument (empty
/// without a space); `None` for a line that does not start with `/`.
pub open spec fn command_parts(line: Seq<char>) -> Option<(Seq<char>, Seq<char>)> {
    if line.len() > 0 && line[0] == '/' {
        let rest = line.skip(1);
        match index_of(rest, ' ') {
            Some(i) => Some((rest.take(i), rest.skip(i + 1))),
            None => Some((rest, seq![])),
        }
    } else {
        None
    }
}

/// Cuts a typed line `/<name> <argument>` into the command name and its
/// argument.
pub fn split_command(line: &str) -> (r: Option<(String, String)>)
    ensures
        match command_parts(line@) {
            Some((name, argument)) => r matches Some(p) && p.0@ == name && p.1@ == argument,
            None => r is None,
        },
{
    let cs = chars_of(line);
    let n = cs.len();
    if n == 0 || cs[0] != '/' {
        return None;
    }
    let ghost rest = cs@.skip(1);
    proof {
        lemma_index_of(rest, ' ');
    }
    let mut j: usize = 1;
    while j < n && cs[j] != ' '
        invariant
            1 <= j <= n == cs@.len(),
            rest == cs@.skip(1),
            forall|k: int| 1 <= k < j ==> cs@[k] != ' ',
            match index_of(rest, ' ') {
                Some(i) => 0 <= i < rest.len() && rest[i] == ' ' && forall|k: int|
                    0 <= k < i ==> rest[k] != ' ',
                None => forall|k: int| 0 <= k < rest.len() ==> rest[k] != ' ',
            },
        decreases n - j,
    {
        j += 1;
    }
    if j < n {
        assert(rest[j - 1] == ' ');
        assert(index_of(rest, ' ') == Some(j - 1 as int));
        assert(rest.take(j - 1) =~= cs@.subrange(1, j as int));
        assert(rest.skip(j as int) =~= cs@.subrange(j + 1, n as int));
        Some((string_of(&cs[1..j]), string_of(&cs[j + 1..n])))
    } else {
        assert(index_of(rest, ' ') is None);
        assert(rest =~= cs@.subrange(1, n as int));
        Some((string_of(&cs[1..n]), String::new()))
    }
}

/// The arguments of a command: the parts of `argument` between spaces,
/// the empty ones left out.
pub fn arguments(argument: &str) -> (r: Vec<String>)
    ensures
        r@.map_values(|s: String| s@) == arguments_of(argument@),
{
    let cs = chars_of(argument);
    let n = cs.len();
    let mut out: Vec<String> = Vec::new();
    let mut start: usize = 0;
    let mut j: usize = 0;
    assert(cs@.skip(0) =~= cs@);
    while j < n
        invariant
            start <= j <= n == cs@.len(),
            forall|k: int| start <= k < j ==> cs@[k] != ' ',
            arguments_of(cs@) == out@.map_values(|s: String| s@) + arguments_of(
                cs@.skip(start as int),
            ),
        decreases n - j,
    {
        if cs[j] == ' ' {
            let ghost s = cs@.skip(start as int);
            proof {
                lemma_index_of(s, ' ');
                assert(s[j - start] == ' ');
                assert(index_of(s, ' ') == Some(j - start));
                assert(s.skip(j - start + 1) =~= cs@.skip(j + 1));
            }
            if j > start {
                let ghost before = out@.map_values(|s: String| s@);
                out.push(string_of(&cs[start..j]));
                assert(s.take(j - start) =~= cs@.subrange(start as int, j as int));
                assert(out@.map_values(|s: String| s@) =~= before.push(s.take(j - start)));
                assert(arguments_of(s) == seq![s.take(j - start)] + arguments_of(
                    cs@.skip(j + 1),
                ));
                assert(arguments_of(cs@) =~= out@.map_values(|s: String| s@) + arguments_of(
                    cs@.skip(j + 1),
                ));
            } else {
                assert(arguments_of(s) =~= arguments_of(cs@.skip(j + 1)));
            }
            start = j + 1;
        }
        j += 1;
    }
    let ghost s = cs@.skip(start as int);
    proof {
        lemma_index_of(s, ' ');
        assert(index_of(s, ' ') is None);
    }
    if start < n {
        let ghost before = out@.map_values(|s: String| s@);
        out.push(string_of(&cs[start..n]));
        assert(s =~= cs@.subrange(start as int, n as int));
        assert(out@.map_values(|s: String| s@) =~= before.push(s));
        assert(arguments_of(cs@) =~= out@.map_values(|s: String| s@));
    } else {
        assert(arguments_of(cs@) =~= out@.map_values(|s: String| s@));
    }
    out
}

} // verus!
