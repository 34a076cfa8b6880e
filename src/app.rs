use vstd::prelude::*;

verus! {

/// The program's name.
pub open spec fn program_name() -> Seq<char> {
    seq!['i', 'r', 'c', '_', 't', 'u', 'i']
}

/// `s` with its first letter, a lower-case ASCII letter, in upper case.
pub open spec fn capitalized(s: Seq<char>) -> Seq<char> {
    seq![((s[0] as u32) - 32) as char] + s.skip(1)
}

/// The program's name.
pub fn name() -> (r: &'static str)
    ensures
        r@ == program_name(),
{
    proof {
        reveal_strlit("irc_tui");
    }
    assert("irc_tui"@ =~= program_name());
    "irc_tui"
}

/// The program's name with its first letter in upper case.
#[allow(non_snake_case)]
pub fn Name() -> (r: &'static str)
    ensures
        r@ == capitalized(program_name()),
{
    proof {
        reveal_strlit("Irc_tui");
    }
    assert("Irc_tui"@ =~= capitalized(program_name()));
    "Irc_tui"
}

} // verus!
