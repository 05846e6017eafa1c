//! String literals: the text between the quotes, with its escape sequences resolved.
use vstd::prelude::*;
use crate::base::error::{FelicoError, FelicoResult};
use crate::base::value::Value;
use crate::text::{push_char, push_str, str_chars};

verus! {

/// The text that an escaped character stands for: `\n`, `\t`, `\"` and `\\` are the
/// escape sequences of the language.
pub open spec fn escaped(c: char) -> Option<char> {
    if c == 'n' {
        Some('\n')
    } else if c == 't' {
        Some('\t')
    } else if c == '"' {
        Some('"')
    } else if c == '\\' {
        Some('\\')
    } else {
        None
    }
}

/// `r` with `p` in front of its text, or `r`'s error.
pub open spec fn prepend_text(p: Seq<char>, r: Result<Seq<char>, Seq<char>>) -> Result<
    Seq<char>,
    Seq<char>,
> {
    match r {
        Ok(t) => Ok(p + t),
        Err(m) => Err(m),
    }
}

/// The text that the content of a string literal stands for, or the message of the
/// error at its first malformed escape sequence.
pub open spec fn unescape(s: Seq<char>) -> Result<Seq<char>, Seq<char>>
    decreases s.len(),
{
    if s.len() == 0 {
        Ok(Seq::empty())
    } else if s[0] != '\\' {
        prepend_text(seq![s[0]], unescape(s.skip(1)))
    } else if s.len() == 1 {
        Err("Incomplete escape sequence"@)
    } else {
        match escaped(s[1]) {
            Some(c) => prepend_text(seq![c], unescape(s.skip(2))),
            None => Err("Invalid escape sequence: \\"@ + seq![s[1]]),
        }
    }
}

proof fn lemma_prepend_twice(a: Seq<char>, b: Seq<char>, r: Result<Seq<char>, Seq<char>>)
    ensures
        prepend_text(a, prepend_text(b, r)) == prepend_text(a + b, r),
{
    if let Ok(t) = r {
        assert(a + (b + t) =~= (a + b) + t);
    }
}

/// The content of a string literal's lexeme: all but its first and last characters.
pub open spec fn literal_content(lexeme: Seq<char>) -> Seq<char> {
    lexeme.subrange(1, lexeme.len() - 1)
}

/// The value of a string literal, read from its lexeme (quotes included): the text
/// between the quotes with `\n`, `\t`, `\"` and `\\` resolved; any other escape
/// sequence, or a backslash at the end, is an error.
pub fn extract_string_from_lexeme(lexeme: &str) -> (r: FelicoResult<Value>)
    requires
        lexeme@.len() >= 2,
        lexeme@[0] == '"',
        lexeme@.last() == '"',
    ensures
        match unescape(literal_content(lexeme@)) {
            Ok(text) => r matches Ok(v) && v matches Value::String(s) && s@ == text,
            Err(m) => r matches Err(e) && e.message@ == m && e.label is None,
        },
{
    let chars = str_chars(lexeme);
    let ghost content = literal_content(lexeme@);
    let end = chars.len() - 1;
    let mut unescaped = String::new();
    let mut i: usize = 1;
    while i < end
        invariant
            chars@ == lexeme@,
            end == chars@.len() - 1,
            1 <= i <= end,
            content == chars@.subrange(1, end as int),
            unescape(content) == prepend_text(
                unescaped@,
                unescape(chars@.subrange(i as int, end as int)),
            ),
        decreases end - i,
    {
        let ghost rest = chars@.subrange(i as int, end as int);
        let c = chars[i];
        if c == '\\' {
            if i + 1 >= end {
                let mut message = String::new();
                push_str(&mut message, "Incomplete escape sequence");
                return Err(FelicoError::message(message));
            }
            let next = chars[i + 1];
            let resolved = if next == 'n' {
                Some('\n')
            } else if next == 't' {
                Some('\t')
            } else if next == '"' {
                Some('"')
            } else if next == '\\' {
                Some('\\')
            } else {
                None
            };
            match resolved {
                Some(r) => {
                    assert(rest.skip(2) =~= chars@.subrange(i + 2, end as int));
                    assert(rest[0] == '\\' && rest[1] == next);
                    assert(escaped(next) == Some(r));
                    assert(unescape(rest) == prepend_text(seq![r], unescape(rest.skip(2))));
                    proof {
                        lemma_prepend_twice(unescaped@, seq![r], unescape(rest.skip(2)));
                    }
                    let ghost before = unescaped@;
                    push_char(&mut unescaped, r);
                    assert(unescaped@ =~= before + seq![r]);
                    i = i + 2;
                },
                None => {
                    let mut message = String::new();
                    push_str(&mut message, "Invalid escape sequence: \\");
                    push_char(&mut message, next);
                    return Err(FelicoError::message(message));
                },
            }
        } else {
            assert(rest.skip(1) =~= chars@.subrange(i + 1, end as int));
            assert(unescape(rest) == prepend_text(seq![c], unescape(rest.skip(1))));
            proof {
                lemma_prepend_twice(unescaped@, seq![c], unescape(rest.skip(1)));
            }
            let ghost before = unescaped@;
            push_char(&mut unescaped, c);
            assert(unescaped@ =~= before + seq![c]);
            i = i + 1;
        }
    }
    assert(chars@.subrange(i as int, end as int) =~= Seq::<char>::empty());
    assert(unescaped@ + Seq::<char>::empty() =~= unescaped@);
    Ok(Value::String(unescaped))
}


/// A literal without backslashes stands for its content unchanged.
pub proof fn law_unescape_without_backslash(s: Seq<char>)
    requires
        !s.contains('\\'),
    ensures
        unescape(s) == Ok::<Seq<char>, Seq<char>>(s),
    decreases s.len(),
{
    if s.len() > 0 {
        assert(s.skip(1).len() < s.len());
        assert forall|c: char| s.skip(1).contains(c) implies s.contains(c) by {
            let i = choose|i: int| 0 <= i < s.skip(1).len() && s.skip(1)[i] == c;
            assert(s[i + 1] == c);
        }
        assert(s[0] != '\\') by {
            if s[0] == '\\' {
                assert(s.contains(s[0]));
            }
        }
        law_unescape_without_backslash(s.skip(1));
        assert(seq![s[0]] + s.skip(1) =~= s);
    } else {
        assert(s =~= Seq::<char>::empty());
    }
}

} // verus!
