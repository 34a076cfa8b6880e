use vstd::prelude::*;
use vstd::utf8::encode_utf8;

use crate::client::parse::{skip_space, skip_word, word_run};
use crate::text::{chars_of, space_run, string_of};

verus! {

/// The white-space separated words of `s`, in order.
pub open spec fn words_of(s: Seq<char>) -> Seq<Seq<char>>
    decreases s.len(),
{
    let k = space_run(s);
    if k > s.len() {
        seq![]
    } else {
        let t = s.skip(k as int);
        let n = word_run(t);
        if t.len() == 0 || n == 0 || n > t.len() {
            seq![]
        } else {
            seq![t.take(n as int)] + words_of(t.skip(n as int))
        }
    }
}

/// `s` padded with spaces to `width` characters.
pub open spec fn padded(s: Seq<char>, width: nat) -> Seq<char> {
    if s.len() < width {
        s + Seq::new((width - s.len()) as nat, |i: int| ' ')
    } else {
        s
    }
}

/// The lines that `words` fill, after the finished `lines` and the line
/// `current` being filled: a word goes on the current line when the line
/// stays within `max` bytes with a space before the word, else it starts
/// the next line. Each line is padded to `max` characters.
pub open spec fn wrapped(
    words: Seq<Seq<char>>,
    max: nat,
    lines: Seq<Seq<char>>,
    current: Seq<char>,
) -> Seq<Seq<char>>
    decreases words.len(),
{
    if words.len() == 0 {
        if current.len() > 0 {
            lines.push(padded(current, max))
        } else {
            lines
        }
    } else {
        let w = words[0];
        if current.len() == 0 {
            wrapped(words.drop_first(), max, lines, w)
        } else if encode_utf8(current).len() + 1 + encode_utf8(w).len() <= max {
            wrapped(words.drop_first(), max, lines, current + seq![' '] + w)
        } else {
            wrapped(words.drop_first(), max, lines.push(padded(current, max)), w)
        }
    }
}

/// `s` padded with spaces to `width` characters.
fn pad(s: String, width: usize) -> (r: String)
    ensures
        r@ == padded(s@, width as nat),
{
    let n = chars_of(s.as_str()).len();
    let mut out = s;
    let mut k = n;
    while k < width
        invariant
            n == s@.len(),
            n <= k <= width || (k == n && n >= width),
            out@ == s@ + Seq::new((k - n) as nat, |i: int| ' '),
        decreases width - k,
    {
        out.append(" ");
        proof {
            reveal_strlit(" ");
        }
        assert(out@ =~= s@ + Seq::new((k + 1 - n) as nat, |i: int| ' '));
        k += 1;
    }
    assert(n >= width ==> out@ =~= s@);
    out
}

/// Breaks `input` into lines of at most `max_len` bytes where the words
/// allow it, each padded to `max_len` characters.
pub fn split_lines_with_max_len(input: &str, max_len: usize) -> (r: Vec<String>)
    ensures
        r@.map_values(|s: String| s@) == wrapped(words_of(input@), max_len as nat, seq![], seq![]),
{
    let cs = chars_of(input);
    let n = cs.len();
    let mut result: Vec<String> = Vec::new();
    let mut current = String::new();
    let mut i: usize = 0;
    assert(cs@.skip(0) =~= cs@);
    assert(result@.map_values(|s: String| s@) =~= Seq::<Seq<char>>::empty());
    loop
        invariant
            i <= n == cs@.len(),
            wrapped(words_of(cs@), max_len as nat, seq![], seq![]) == wrapped(
                words_of(cs@.skip(i as int)),
                max_len as nat,
                result@.map_values(|s: String| s@),
                current@,
            ),
        ensures
            i <= n == cs@.len(),
            words_of(cs@.skip(i as int)) == Seq::<Seq<char>>::empty(),
            wrapped(words_of(cs@), max_len as nat, seq![], seq![]) == wrapped(
                words_of(cs@.skip(i as int)),
                max_len as nat,
                result@.map_values(|s: String| s@),
                current@,
            ),
        decreases n - i,
    {
        let start = skip_space(&cs, i);
        let ghost s = cs@.skip(i as int);
        assert(s.skip(start - i) =~= cs@.skip(start as int));
        if start == n {
            assert(words_of(s) =~= Seq::<Seq<char>>::empty());
            break;
        }
        let end = skip_word(&cs, start);
        let ghost t = cs@.skip(start as int);
        assert(end > start) by {
            assert(t[0] == cs@[start as int]);
        }
        assert(t.take(end - start) =~= cs@.subrange(start as int, end as int));
        assert(t.skip(end - start) =~= cs@.skip(end as int));
        assert(words_of(s) == seq![t.take(end - start)] + words_of(cs@.skip(end as int)));
        let word = string_of(&cs[start..end]);
        let ghost ws = words_of(s);
        assert(ws.drop_first() =~= words_of(cs@.skip(end as int)));
        let ghost lines = result@.map_values(|s: String| s@);
        let ghost cur = current@;
        let ghost w = word@;
        let ghost m = max_len as nat;
        assert(ws[0] == w);
        if current.as_str().is_empty() {
            assert(wrapped(ws, m, lines, cur) == wrapped(ws.drop_first(), m, lines, w));
            current = word;
        } else {
            let cur_len = current.as_str().as_bytes().len();
            let word_len = word.as_str().as_bytes().len();
            assert(cur_len == encode_utf8(cur).len());
            assert(word_len == encode_utf8(w).len());
            if cur_len < max_len && word_len <= max_len - cur_len - 1 {
                assert(wrapped(ws, m, lines, cur) == wrapped(
                    ws.drop_first(),
                    m,
                    lines,
                    cur + seq![' '] + w,
                ));
                current.append(" ");
                current.append(word.as_str());
                proof {
                    reveal_strlit(" ");
                }
                assert(current@ =~= cur + seq![' '] + w);
            } else {
                assert(wrapped(ws, m, lines, cur) == wrapped(
                    ws.drop_first(),
                    m,
                    lines.push(padded(cur, m)),
                    w,
                ));
                let line = pad(current, max_len);
                result.push(line);
                assert(result@.map_values(|s: String| s@) =~= lines.push(padded(cur, m)));
                current = word;
            }
        }
        i = end;
    }
    if !current.as_str().is_empty() {
        let ghost lines = result@.map_values(|s: String| s@);
        let line = pad(current, max_len);
        result.push(line);
        assert(result@.map_values(|s: String| s@) =~= lines.push(line@));
    }
    result
}

} // verus!
