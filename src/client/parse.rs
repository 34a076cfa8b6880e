use vstd::prelude::*;

use crate::client::repliestypes::{is_greeting_code, Replies};
use crate::text::{chars_of, is_whitespace, space_run, string_of, white_space};

verus! {

/// Index of the first `c` in `s`.
pub open spec fn index_of(s: Seq<char>, c: char) -> Option<int>
    decreases s.len(),
{
    if s.len() == 0 {
        None
    } else if s[0] == c {
        Some(0)
    } else {
        match index_of(s.drop_first(), c) {
            Some(i) => Some(i + 1),
            None => None,
        }
    }
}

/// `s` cut at its first `c`, which belongs to neither part.
pub open spec fn split_once(s: Seq<char>, c: char) -> Option<(Seq<char>, Seq<char>)> {
    match index_of(s, c) {
        Some(i) => Some((s.take(i), s.skip(i + 1))),
        None => None,
    }
}

/// Number of leading characters of `s` that are not white space.
pub open spec fn word_run(s: Seq<char>) -> nat
    decreases s.len(),
{
    if s.len() > 0 && !white_space(s[0]) {
        1 + word_run(s.drop_first())
    } else {
        0
    }
}

/// The first white-space separated word of `s`, if there is one.
pub open spec fn first_word(s: Seq<char>) -> Option<Seq<char>> {
    let t = s.skip(space_run(s) as int);
    if t.len() == 0 {
        None
    } else {
        Some(t.take(word_run(t) as int))
    }
}

/// Number of leading ':' and ' ' characters of `s`.
pub open spec fn lead_run(s: Seq<char>) -> nat
    decreases s.len(),
{
    if s.len() > 0 && (s[0] == ':' || s[0] == ' ') {
        1 + lead_run(s.drop_first())
    } else {
        0
    }
}

/// `s` without its leading ':' and ' ' characters.
pub open spec fn trim_lead(s: Seq<char>) -> Seq<char> {
    s.skip(lead_run(s) as int)
}

/// The keep-alive prefix `PING `.
pub open spec fn ping_prefix() -> Seq<char> {
    seq!['P', 'I', 'N', 'G', ' ']
}

/// The token that a keep-alive request `PING <token>` asks to echo.
pub open spec fn ping_token(line: Seq<char>) -> Option<Seq<char>> {
    if line.len() >= 5 && line.take(5) == ping_prefix() {
        first_word(line.skip(5))
    } else {
        None
    }
}

/// The reply to a keep-alive request with `token`.
pub open spec fn pong_command(token: Seq<char>) -> Seq<char> {
    "PONG "@ + token
}

/// The four parts of a line `:<source> <code> <destination> <content>`
/// whose code has three characters.
pub open spec fn parsed_reply(line: Seq<char>) -> Option<
    (Seq<char>, Seq<char>, Seq<char>, Seq<char>),
> {
    if line.len() > 0 && line[0] == ':' {
        match split_once(line.skip(1), ' ') {
            Some((source, rest)) => match split_once(rest, ' ') {
                Some((code, rest2)) => if code.len() == 3 {
                    match split_once(rest2, ' ') {
                        Some((dest, content)) => Some((source, code, dest, content)),
                        None => None,
                    }
                } else {
                    None
                },
                None => None,
            },
            None => None,
        }
    } else {
        None
    }
}

/// What a greeting reply line shows: its content without the leading ':'
/// and spaces.
pub open spec fn greeting_text(line: Seq<char>) -> Option<Seq<char>> {
    match parsed_reply(line) {
        Some((_source, code, _dest, content)) => if is_greeting_code(code) {
            Some(trim_lead(content))
        } else {
            None
        },
        None => None,
    }
}

/// The display events and the outbound commands that one received line
/// gives, in the order of the rules: keep-alive, greeting reply, and
/// otherwise the raw line as an error. An outbound command is shown too,
/// marked `>>> `.
pub open spec fn line_effect(line: Seq<char>) -> (Seq<Result<Seq<char>, Seq<char>>>, Seq<Seq<char>>) {
    match ping_token(line) {
        Some(token) => (
            seq![Ok("<<< "@ + line), Ok(">>> "@ + pong_command(token))],
            seq![pong_command(token)],
        ),
        None => match greeting_text(line) {
            Some(text) => (seq![Ok(text)], seq![]),
            None => (seq![Err("<<< "@ + line)], seq![]),
        },
    }
}

/// Characterises `index_of` as the least index of `c`.
pub proof fn lemma_index_of(s: Seq<char>, c: char)
    ensures
        match index_of(s, c) {
            Some(i) => 0 <= i < s.len() && s[i] == c && forall|j: int| 0 <= j < i ==> s[j] != c,
            None => forall|j: int| 0 <= j < s.len() ==> s[j] != c,
        },
    decreases s.len(),
{
    if s.len() > 0 && s[0] != c {
        lemma_index_of(s.drop_first(), c);
        assert forall|j: int| 1 <= j < s.len() implies s[j] == s.drop_first()[j - 1] by {}
    }
}

/// A parsed server reply: `:<source> <code> <destination> <content>`.
#[derive(Debug)]
pub struct MessageFromServer {
    pub source: String,
    pub reply_type: Replies,
    pub dest: String,
    pub content: String,
}

/// First index in `lo..hi` holding `c`.
fn find_char(s: &Vec<char>, lo: usize, hi: usize, c: char) -> (r: Option<usize>)
    requires
        lo <= hi <= s@.len(),
    ensures
        match r {
            Some(j) => lo <= j < hi && index_of(s@.subrange(lo as int, hi as int), c) == Some(
                j - lo,
            ),
            None => index_of(s@.subrange(lo as int, hi as int), c) is None,
        },
{
    let ghost sub = s@.subrange(lo as int, hi as int);
    proof {
        lemma_index_of(sub, c);
    }
    let mut j = lo;
    while j < hi
        invariant
            lo <= j <= hi <= s@.len(),
            sub == s@.subrange(lo as int, hi as int),
            forall|k: int| lo <= k < j ==> s@[k] != c,
            match index_of(sub, c) {
                Some(i) => 0 <= i < sub.len() && sub[i] == c && forall|k: int|
                    0 <= k < i ==> sub[k] != c,
                None => forall|k: int| 0 <= k < sub.len() ==> sub[k] != c,
            },
        decreases hi - j,
    {
        if s[j] == c {
            assert(sub[j - lo] == c);
            return Some(j);
        }
        j += 1;
    }
    None
}

/// Splits a line `:<source> <code> <destination> <content>` whose code has
/// three characters into its parts.
pub fn parse_reply(line: &Vec<char>) -> (r: Option<MessageFromServer>)
    ensures
        match parsed_reply(line@) {
            Some((source, code, dest, content)) => r matches Some(m) && m.source@ == source
                && m.reply_type.code() == code && (m.reply_type is Unknown) == !is_greeting_code(code)
                && m.dest@ == dest && m.content@ == content,
            None => r is None,
        },
{
    let n = line.len();
    if n == 0 || line[0] != ':' {
        return None;
    }
    let ghost l = line@;
    assert(l.skip(1) =~= l.subrange(1, n as int));
    let source_end = match find_char(line, 1, n, ' ') {
        Some(p) => p,
        None => return None,
    };
    let ghost rest = l.subrange(source_end + 1, n as int);
    assert(l.skip(1).take(source_end - 1) =~= l.subrange(1, source_end as int));
    assert(l.skip(1).skip(source_end - 1 + 1) =~= rest);
    let code_end = match find_char(line, source_end + 1, n, ' ') {
        Some(p) => p,
        None => return None,
    };
    let ghost rest2 = l.subrange(code_end + 1, n as int);
    assert(rest.take(code_end - (source_end + 1)) =~= l.subrange(source_end + 1, code_end as int));
    assert(rest.skip(code_end - (source_end + 1) + 1) =~= rest2);
    if code_end - (source_end + 1) != 3 {
        return None;
    }
    let dest_end = match find_char(line, code_end + 1, n, ' ') {
        Some(p) => p,
        None => return None,
    };
    assert(rest2.take(dest_end - (code_end + 1)) =~= l.subrange(code_end + 1, dest_end as int));
    assert(rest2.skip(dest_end - (code_end + 1) + 1) =~= l.subrange(dest_end + 1, n as int));
    let reply_type = Replies::from_code(&line[source_end + 1..code_end]);
    Some(
        MessageFromServer {
            source: string_of(&line[1..source_end]),
            reply_type,
            dest: string_of(&line[code_end + 1..dest_end]),
            content: string_of(&line[dest_end + 1..n]),
        },
    )
}

/// Index of the first character at or after `from` that is not white space.
pub(crate) fn skip_space(s: &Vec<char>, from: usize) -> (r: usize)
    requires
        from <= s@.len(),
    ensures
        from <= r <= s@.len(),
        r - from == space_run(s@.skip(from as int)),
        s@.skip(r as int).len() > 0 ==> !white_space(s@[r as int]),
{
    let mut i = from;
    while i < s.len() && is_whitespace(s[i])
        invariant
            from <= i <= s@.len(),
            space_run(s@.skip(from as int)) == (i - from) + space_run(s@.skip(i as int)),
        decreases s@.len() - i,
    {
        assert(s@.skip(i as int).drop_first() =~= s@.skip(i + 1));
        i += 1;
    }
    i
}

/// Index of the first white-space character at or after `from`, or the end.
pub(crate) fn skip_word(s: &Vec<char>, from: usize) -> (r: usize)
    requires
        from <= s@.len(),
    ensures
        from <= r <= s@.len(),
        r - from == word_run(s@.skip(from as int)),
{
    let mut i = from;
    while i < s.len() && !is_whitespace(s[i])
        invariant
            from <= i <= s@.len(),
            word_run(s@.skip(from as int)) == (i - from) + word_run(s@.skip(i as int)),
        decreases s@.len() - i,
    {
        assert(s@.skip(i as int).drop_first() =~= s@.skip(i + 1));
        i += 1;
    }
    i
}

/// The reply `PONG <token>` to a keep-alive request line, if it is one.
pub fn ping_reply(line: &Vec<char>) -> (r: Option<String>)
    ensures
        match ping_token(line@) {
            Some(token) => r matches Some(s) && s@ == pong_command(token),
            None => r is None,
        },
{
    let n = line.len();
    if n < 5 || line[0] != 'P' || line[1] != 'I' || line[2] != 'N' || line[3] != 'G' || line[4]
        != ' ' {
        proof {
            if n >= 5 {
                assert(line@.take(5)[0] == line@[0]);
                assert(line@.take(5)[1] == line@[1]);
                assert(line@.take(5)[2] == line@[2]);
                assert(line@.take(5)[3] == line@[3]);
                assert(line@.take(5)[4] == line@[4]);
            }
        }
        return None;
    }
    assert(line@.take(5) =~= ping_prefix());
    let start = skip_space(line, 5);
    assert(line@.skip(5).skip(space_run(line@.skip(5)) as int) =~= line@.skip(start as int));
    if start == n {
        return None;
    }
    let end = skip_word(line, start);
    let ghost t = line@.skip(start as int);
    assert(t.take(word_run(t) as int) =~= line@.subrange(start as int, end as int));
    let token = string_of(&line[start..end]);
    Some("PONG ".to_owned().concat(token.as_str()))
}

/// `s` without its leading ':' and ' ' characters.
fn trim_start(s: &String) -> (r: String)
    ensures
        r@ == trim_lead(s@),
{
    let cs = chars_of(s.as_str());
    let mut i: usize = 0;
    assert(cs@.skip(0) =~= cs@);
    while i < cs.len() && (cs[i] == ':' || cs[i] == ' ')
        invariant
            i <= cs@.len(),
            lead_run(cs@) == i + lead_run(cs@.skip(i as int)),
        decreases cs@.len() - i,
    {
        assert(cs@.skip(i as int).drop_first() =~= cs@.skip(i + 1));
        i += 1;
    }
    string_of(&cs[i..cs.len()])
}

/// Reserved for lines that carry a command word instead of a numeric code;
/// none is handled yet.
fn try_parse_server_message(_source: &Vec<char>) -> (r: bool)
    ensures
        !r,
{
    false
}

/// The display events and outbound commands that a received line gives; see
/// [`line_effect`].
pub fn dispatch_line(message: &str) -> (r: (Vec<Result<String, String>>, Vec<String>))
    ensures
        r.0@.map_values(|m: Result<String, String>| display_view(m)) == line_effect(message@).0,
        r.1@.map_values(|s: String| s@) == line_effect(message@).1,
{
    let line = chars_of(message);
    let mut shown: Vec<Result<String, String>> = Vec::new();
    let mut sent: Vec<String> = Vec::new();
    match ping_reply(&line) {
        Some(pong) => {
            shown.push(Ok("<<< ".to_owned().concat(message)));
            shown.push(Ok(">>> ".to_owned().concat(pong.as_str())));
            sent.push(pong);
        },
        None => {
            let mut text: Option<String> = None;
            match parse_reply(&line) {
                Some(m) => {
                    if m.reply_type.is_greeting() {
                        text = Some(trim_start(&m.content));
                    }
                },
                None => {
                    try_parse_server_message(&line);
                },
            }
            match text {
                Some(t) => shown.push(Ok(t)),
                None => shown.push(Err("<<< ".to_owned().concat(message))),
            }
        },
    }
    assert(shown@.map_values(|m: Result<String, String>| display_view(m)) =~= line_effect(
        message@,
    ).0);
    assert(sent@.map_values(|s: String| s@) =~= line_effect(message@).1);
    (shown, sent)
}

/// What a display event shows: the text, kept apart as an error or not.
pub open spec fn display_view(m: Result<String, String>) -> Result<Seq<char>, Seq<char>> {
    match m {
        Ok(s) => Ok(s@),
        Err(s) => Err(s@),
    }
}

} // verus!
