//! Quoted strings of `.reg` files.

use vstd::prelude::*;

use crate::registry::error::{ErrorModel, RegistryError};
use crate::text::{ends_with, owned, push_char, starts_with, string_from, trim, trim_bounds};

verus! {

/// The character that an escape `\c` stands for (`\\`, `\"`, `\n`, `\r`);
/// any other escape is kept with its backslash.
pub open spec fn escape(c: char) -> Seq<char> {
    if c == '\\' {
        seq!['\\']
    } else if c == '"' {
        seq!['"']
    } else if c == 'n' {
        seq!['\n']
    } else if c == 'r' {
        seq!['\r']
    } else {
        seq!['\\', c]
    }
}

/// The text that a `.reg` string body denotes.
pub open spec fn unescape(s: Seq<char>) -> Seq<char>
    decreases s.len(),
{
    if s.len() == 0 {
        Seq::empty()
    } else if s[0] == '\\' {
        if s.len() == 1 {
            seq!['\\']
        } else {
            escape(s[1]) + unescape(s.skip(2))
        }
    } else {
        seq![s[0]] + unescape(s.drop_first())
    }
}

/// Whether `s` is a single `"` (which has no string body).
pub open spec fn is_lone_quote(s: Seq<char>) -> bool {
    s.len() == 1 && s[0] == '"'
}

/// Whether trimmed `s` is wrapped in double quotes.
pub open spec fn is_quoted(s: Seq<char>) -> bool {
    starts_with(s, seq!['"']) && ends_with(s, seq!['"'])
}

/// What `parse_string_literal` gives for `s`; a lone `"` is left out (the
/// body slice would start after it ends).
pub open spec fn string_literal(s: Seq<char>) -> Result<Seq<char>, ErrorModel> {
    let t = trim(s);
    if !is_quoted(t) {
        Err(ErrorModel::InvalidValue("expected quoted string"@))
    } else {
        Ok(unescape(t.subrange(1, t.len() - 1)))
    }
}

/// Resolves the escapes of a string body.
pub fn unescape_reg_string(input: &[char]) -> (r: String)
    ensures
        r@ == unescape(input@),
{
    let mut out = String::new();
    let mut i: usize = 0;
    assert(input@.skip(0) =~= input@);
    while i < input.len()
        invariant
            i <= input.len(),
            unescape(input@) == out@ + unescape(input@.skip(i as int)),
        decreases input.len() - i,
    {
        let ghost rest = input@.skip(i as int);
        let ghost before = out@;
        let ch = input[i];
        assert(rest[0] == ch);
        if ch == '\\' {
            if i + 1 < input.len() {
                let next = input[i + 1];
                assert(rest[1] == next);
                assert(rest.skip(2) =~= input@.skip(i + 2));
                if next == '\\' {
                    push_char(&mut out, '\\');
                } else if next == '"' {
                    push_char(&mut out, '"');
                } else if next == 'n' {
                    push_char(&mut out, '\n');
                } else if next == 'r' {
                    push_char(&mut out, '\r');
                } else {
                    push_char(&mut out, '\\');
                    push_char(&mut out, next);
                }
                assert(out@ =~= before + escape(next));
                assert(unescape(input@) =~= out@ + unescape(input@.skip(i + 2)));
                i = i + 2;
            } else {
                push_char(&mut out, '\\');
                assert(input@.skip(i + 1) =~= Seq::<char>::empty());
                assert(unescape(input@) =~= out@ + unescape(input@.skip(i + 1)));
                i = i + 1;
            }
        } else {
            push_char(&mut out, ch);
            assert(rest.drop_first() =~= input@.skip(i + 1));
            assert(unescape(input@) =~= out@ + unescape(input@.skip(i + 1)));
            i = i + 1;
        }
    }
    assert(input@.skip(i as int) =~= Seq::<char>::empty());
    assert(out@ + Seq::<char>::empty() =~= out@);
    out
}

/// Parses a double-quoted `.reg` string, resolving its escapes.
pub fn parse_string_literal(value_raw: &[char]) -> (r: Result<String, RegistryError>)
    requires
        !is_lone_quote(trim(value_raw@)),
    ensures
        match string_literal(value_raw@) {
            Ok(s) => r matches Ok(v) && v@ == s,
            Err(e) => r matches Err(err) && err.model() == e,
        },
{
    let (a, b) = trim_bounds(value_raw);
    let ghost t = trim(value_raw@);
    if b - a < 1 || value_raw[a] != '"' || value_raw[b - 1] != '"' {
        proof {
            if t.len() >= 1 {
                assert(t[0] == value_raw@[a as int]);
                assert(t[t.len() - 1] == value_raw@[b - 1]);
                if is_quoted(t) {
                    assert(t.subrange(0, 1)[0] == t[0]);
                    assert(t.subrange(t.len() - 1, t.len() as int)[0] == t[t.len() - 1]);
                }
            }
        }
        return Err(RegistryError::InvalidValue(owned("expected quoted string")));
    }
    proof {
        assert(t.subrange(0, 1) =~= seq!['"']);
        assert(t.subrange(t.len() - 1, t.len() as int) =~= seq!['"']);
        assert(t.len() >= 2);
    }
    let mut inner: Vec<char> = Vec::new();
    let mut i = a + 1;
    while i < b - 1
        invariant
            a + 1 <= i <= b - 1,
            b <= value_raw.len(),
            inner@ == value_raw@.subrange(a + 1, i as int),
        decreases b - 1 - i,
    {
        inner.push(value_raw[i]);
        i = i + 1;
        assert(inner@ =~= value_raw@.subrange(a + 1, i as int));
    }
    assert(inner@ =~= t.subrange(1, t.len() - 1));
    Ok(unescape_reg_string(inner.as_slice()))
}

} // verus!
