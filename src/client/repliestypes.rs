use vstd::prelude::*;

use crate::text::string_of;

verus! {

/// The numeric codes of the greeting replies that are shown to the user:
/// welcome, host, creation date, server info, bounce, user count, local
/// server info, and the message of the day (start, line, end).
pub open spec fn is_greeting_code(code: Seq<char>) -> bool {
    ||| code == seq!['0', '0', '1']
    ||| code == seq!['0', '0', '2']
    ||| code == seq!['0', '0', '3']
    ||| code == seq!['0', '0', '4']
    ||| code == seq!['0', '0', '5']
    ||| code == seq!['2', '5', '1']
    ||| code == seq!['2', '5', '5']
    ||| code == seq!['3', '7', '5']
    ||| code == seq!['3', '7', '2']
    ||| code == seq!['3', '7', '6']
}

/// A server reply, by its numeric code.
#[derive(Debug)]
pub enum Replies {
    RplWelcome,
    RplYourHost,
    RplCreated,
    RplMyInfo,
    RplBounce,
    RplLuserClient,
    RplLuserMe,
    RplMotdStart,
    RplMotd,
    RplEndOfMotd,
    /// Any other code, as it came.
    Unknown(String),
}

impl Replies {
    /// The code that the reply stands for.
    pub open spec fn code(&self) -> Seq<char> {
        match self {
            Replies::RplWelcome => seq!['0', '0', '1'],
            Replies::RplYourHost => seq!['0', '0', '2'],
            Replies::RplCreated => seq!['0', '0', '3'],
            Replies::RplMyInfo => seq!['0', '0', '4'],
            Replies::RplBounce => seq!['0', '0', '5'],
            Replies::RplLuserClient => seq!['2', '5', '1'],
            Replies::RplLuserMe => seq!['2', '5', '5'],
            Replies::RplMotdStart => seq!['3', '7', '5'],
            Replies::RplMotd => seq!['3', '7', '2'],
            Replies::RplEndOfMotd => seq!['3', '7', '6'],
            Replies::Unknown(s) => s@,
        }
    }

    /// Looks a code up in the table of replies.
    pub fn from_code(code: &[char]) -> (r: Replies)
        ensures
            r.code() == code@,
            (r is Unknown) == !is_greeting_code(code@),
    {
        if code.len() == 3 {
            let (a, b, c) = (code[0], code[1], code[2]);
            let ghost digits = seq![a, b, c];
            assert(code@ =~= digits);
            if a == '0' && b == '0' && c == '1' {
                return Replies::RplWelcome;
            } else if a == '0' && b == '0' && c == '2' {
                return Replies::RplYourHost;
            } else if a == '0' && b == '0' && c == '3' {
                return Replies::RplCreated;
            } else if a == '0' && b == '0' && c == '4' {
                return Replies::RplMyInfo;
            } else if a == '0' && b == '0' && c == '5' {
                return Replies::RplBounce;
            } else if a == '2' && b == '5' && c == '1' {
                return Replies::RplLuserClient;
            } else if a == '2' && b == '5' && c == '5' {
                return Replies::RplLuserMe;
            } else if a == '3' && b == '7' && c == '5' {
                return Replies::RplMotdStart;
            } else if a == '3' && b == '7' && c == '2' {
                return Replies::RplMotd;
            } else if a == '3' && b == '7' && c == '6' {
                return Replies::RplEndOfMotd;
            }
        }
        Replies::Unknown(string_of(code))
    }

    /// Whether the reply is one of the greeting replies shown to the user.
    pub fn is_greeting(&self) -> (r: bool)
        ensures
            r == !(self is Unknown),
    {
        !matches!(self, Replies::Unknown(_))
    }
}

} // verus!
