//! The command parser: recognizes a line of chat text that begins with the
//! configured prefix token, and splits what follows into a command name and
//! its parameters on whitespace, with no quoting or escaping.

use vstd::prelude::*;
use vstd::string::StrSliceExecFns;
use vstd::string::StringExecFns;

verus! {

/// A whitespace character, as the tokenizer understands it: the Unicode
/// white-space code points.
pub open spec fn is_space(c: char) -> bool {
    ||| c == ' '
    ||| c == '\t'
    ||| c == '\n'
    ||| c == '\r'
    ||| c == '\u{000B}'
    ||| c == '\u{000C}'
    ||| c == '\u{0085}'
    ||| c == '\u{00A0}'
    ||| c == '\u{1680}'
    ||| c == '\u{2000}'
    ||| c == '\u{2001}'
    ||| c == '\u{2002}'
    ||| c == '\u{2003}'
    ||| c == '\u{2004}'
    ||| c == '\u{2005}'
    ||| c == '\u{2006}'
    ||| c == '\u{2007}'
    ||| c == '\u{2008}'
    ||| c == '\u{2009}'
    ||| c == '\u{200A}'
    ||| c == '\u{2028}'
    ||| c == '\u{2029}'
    ||| c == '\u{202F}'
    ||| c == '\u{205F}'
    ||| c == '\u{3000}'
}

fn char_is_space(c: char) -> (r: bool)
    ensures
        r == is_space(c),
{
    c == ' ' || c == '\t' || c == '\n' || c == '\r' || c == '\u{000B}' || c == '\u{000C}' || c
        == '\u{0085}' || c == '\u{00A0}' || c == '\u{1680}' || c == '\u{2000}' || c == '\u{2001}'
        || c == '\u{2002}' || c == '\u{2003}' || c == '\u{2004}' || c == '\u{2005}' || c
        == '\u{2006}' || c == '\u{2007}' || c == '\u{2008}' || c == '\u{2009}' || c == '\u{200A}'
        || c == '\u{2028}' || c == '\u{2029}' || c == '\u{202F}' || c == '\u{205F}' || c
        == '\u{3000}'
}

/// The maximal whitespace-free words of `s`, read left to right with `cur`
/// as the word already begun.
pub open spec fn tok(s: Seq<char>, cur: Seq<char>) -> Seq<Seq<char>>
    decreases s.len(),
{
    if s.len() == 0 {
        if cur.len() == 0 {
            Seq::empty()
        } else {
            seq![cur]
        }
    } else if is_space(s[0]) {
        if cur.len() == 0 {
            tok(s.drop_first(), Seq::empty())
        } else {
            seq![cur] + tok(s.drop_first(), Seq::empty())
        }
    } else {
        tok(s.drop_first(), cur.push(s[0]))
    }
}

/// The whitespace-separated words of `s`, in order; empty words do not
/// occur.
pub open spec fn tokenize(s: Seq<char>) -> Seq<Seq<char>> {
    tok(s, Seq::empty())
}

/// `s` begins with `p`.
pub open spec fn starts_with(s: Seq<char>, p: Seq<char>) -> bool {
    s.len() >= p.len() && s.subrange(0, p.len() as int) == p
}

fn str_starts_with(s: &str, p: &str) -> (r: bool)
    ensures
        r == starts_with(s@, p@),
{
    let sn = s.unicode_len();
    let pn = p.unicode_len();
    if sn < pn {
        return false;
    }
    let mut j: usize = 0;
    while j < pn
        invariant
            sn == s@.len(),
            pn == p@.len(),
            pn <= sn,
            j <= pn,
            forall|k: int| 0 <= k < j ==> s@[k] == p@[k],
        decreases pn - j,
    {
        if s.get_char(j) != p.get_char(j) {
            proof {
                assert(s@.subrange(0, p@.len() as int)[j as int] == s@[j as int]);
            }
            return false;
        }
        j += 1;
    }
    proof {
        assert(s@.subrange(0, p@.len() as int) =~= p@);
    }
    true
}

/// Splits `s` into its whitespace-separated words.
fn tokens(s: &str) -> (r: Vec<String>)
    ensures
        r.deep_view() == tokenize(s@),
{
    let n = s.unicode_len();
    let mut out: Vec<String> = Vec::new();
    proof {
        assert(s@.skip(0) =~= s@);
        assert(s@.subrange(0, 0) =~= Seq::<char>::empty());
        assert(out.deep_view() + tok(s@, Seq::empty()) =~= tok(s@, Seq::empty()));
    }
    let mut start: usize = 0;
    let mut i: usize = 0;
    while i < n
        invariant
            n == s@.len(),
            start <= i <= n,
            forall|k: int| start <= k < i ==> !is_space(s@[k]),
            tokenize(s@) == out.deep_view() + tok(
                s@.skip(i as int),
                s@.subrange(start as int, i as int),
            ),
        decreases n - i,
    {
        let ghost rest = s@.skip(i as int);
        let ghost cur = s@.subrange(start as int, i as int);
        proof {
            assert(rest[0] == s@[i as int]);
            assert(rest.drop_first() =~= s@.skip(i + 1));
        }
        let c = s.get_char(i);
        if char_is_space(c) {
            if start < i {
                let word = s.substring_char(start, i).to_owned();
                let ghost old_out = out.deep_view();
                out.push(word);
                proof {
                    assert(out.deep_view() =~= old_out.push(cur));
                    assert(old_out.push(cur) =~= old_out + seq![cur]);
                    assert(tok(rest, cur) == seq![cur] + tok(rest.drop_first(), Seq::empty()));
                    assert((out.deep_view() + tok(s@.skip(i + 1), Seq::empty())) =~= (old_out + (
                    seq![cur] + tok(rest.drop_first(), Seq::empty()))));
                    assert(s@.subrange(i + 1, i + 1) =~= Seq::<char>::empty());
                }
            } else {
                proof {
                    assert(cur =~= Seq::<char>::empty());
                    assert(s@.subrange(i + 1, i + 1) =~= Seq::<char>::empty());
                }
            }
            start = i + 1;
        } else {
            proof {
                assert(cur.push(s@[i as int]) =~= s@.subrange(start as int, i + 1));
            }
        }
        i += 1;
    }
    proof {
        assert(s@.skip(n as int) =~= Seq::<char>::empty());
    }
    if start < n {
        let word = s.substring_char(start, n).to_owned();
        let ghost old_out = out.deep_view();
        let ghost cur = s@.subrange(start as int, n as int);
        out.push(word);
        proof {
            assert(out.deep_view() =~= old_out.push(cur));
            assert(old_out.push(cur) =~= old_out + seq![cur]);
            assert(tok(Seq::<char>::empty(), cur) == seq![cur]);
        }
    } else {
        proof {
            assert(s@.subrange(start as int, n as int) =~= Seq::<char>::empty());
            assert(tokenize(s@) =~= out.deep_view() + Seq::<Seq<char>>::empty());
        }
    }
    out
}

/// A recognized command: its name and its parameters, in order.
pub struct ParsedCommand {
    pub name: String,
    pub params: Vec<String>,
}

/// Strips the prefix token: the remainder of an input that begins with it,
/// `None` otherwise.
pub fn get_command_line(whole_input: &str, prefix: &str) -> (r: Option<String>)
    ensures
        r is Some <==> starts_with(whole_input@, prefix@),
        r matches Some(rest) ==> rest@ == whole_input@.skip(prefix@.len() as int),
{
    if str_starts_with(whole_input, prefix) {
        let sn = whole_input.unicode_len();
        let pn = prefix.unicode_len();
        let rest = whole_input.substring_char(pn, sn).to_owned();
        proof {
            assert(whole_input@.subrange(pn as int, sn as int) =~= whole_input@.skip(pn as int));
        }
        Some(rest)
    } else {
        None
    }
}

/// The command name: the first word of an input already stripped of the
/// prefix token; `None` when no word follows.
pub fn get_command(whole_input_sans_command_token: &str) -> (r: Option<String>)
    ensures
        r is Some <==> tokenize(whole_input_sans_command_token@).len() > 0,
        r matches Some(name) ==> name@ == tokenize(whole_input_sans_command_token@)[0],
{
    let ts = tokens(whole_input_sans_command_token);
    proof {
        assert(ts.deep_view().len() == ts@.len());
    }
    if ts.len() > 0 {
        proof {
            assert(ts.deep_view()[0] == ts@[0]@);
        }
        Some(ts[0].clone())
    } else {
        None
    }
}

/// The parameters: every word after the first of an input already stripped
/// of the prefix token; empty when there is no command word.
pub fn get_command_parameters(whole_input_sans_command_token: &str) -> (r: Vec<String>)
    ensures
        tokenize(whole_input_sans_command_token@).len() > 0 ==> r.deep_view() == tokenize(
            whole_input_sans_command_token@,
        ).drop_first(),
        tokenize(whole_input_sans_command_token@).len() == 0 ==> r.deep_view() == Seq::<
            Seq<char>,
        >::empty(),
{
    let ts = tokens(whole_input_sans_command_token);
    proof {
        assert(ts.deep_view().len() == ts@.len());
    }
    let mut out: Vec<String> = Vec::new();
    if ts.len() == 0 {
        proof {
            assert(out.deep_view() =~= Seq::<Seq<char>>::empty());
        }
        return out;
    }
    let n = ts.len();
    let mut j: usize = 1;
    while j < n
        invariant
            n == ts@.len(),
            ts.deep_view().len() == ts@.len(),
            1 <= j <= n,
            out.deep_view().len() == j - 1,
            forall|k: int| 0 <= k < j - 1 ==> out.deep_view()[k] == ts.deep_view()[k + 1],
        decreases n - j,
    {
        let ghost old_out = out.deep_view();
        out.push(ts[j].clone());
        proof {
            assert(out.deep_view() =~= old_out.push(ts@[j as int]@));
            assert(ts.deep_view()[j as int] == ts@[j as int]@);
        }
        j += 1;
    }
    proof {
        assert(out.deep_view() =~= ts.deep_view().drop_first());
    }
    out
}

/// The command name of a raw input line, if the line carries the prefix
/// token and a word follows it.
pub fn get_command_from_input(whole_input: &str, prefix: &str) -> (r: Option<String>)
    ensures
        r is Some <==> starts_with(whole_input@, prefix@) && tokenize(
            whole_input@.skip(prefix@.len() as int),
        ).len() > 0,
        r matches Some(name) ==> name@ == tokenize(whole_input@.skip(prefix@.len() as int))[0],
{
    match get_command_line(whole_input, prefix) {
        Some(rest) => get_command(rest.as_str()),
        None => None,
    }
}

/// Parses one line of chat text against the prefix token. An input without
/// the prefix, or with nothing after it, is no command.
pub fn parse(raw_text: &str, prefix: &str) -> (r: Option<ParsedCommand>)
    ensures
        r is Some <==> starts_with(raw_text@, prefix@) && tokenize(
            raw_text@.skip(prefix@.len() as int),
        ).len() > 0,
        r matches Some(pc) ==> pc.name@ == tokenize(raw_text@.skip(prefix@.len() as int))[0]
            && pc.params.deep_view() == tokenize(raw_text@.skip(prefix@.len() as int)).drop_first(),
{
    let rest = match get_command_line(raw_text, prefix) {
        Some(rest) => rest,
        None => {
            return None;
        },
    };
    let name = match get_command(rest.as_str()) {
        Some(name) => name,
        None => {
            return None;
        },
    };
    let params = get_command_parameters(rest.as_str());
    Some(ParsedCommand { name, params })
}

} // verus!
