//! Text primitives of the target syntax: escaping for double-quoted
//! literals, quoting, variable expansion tokens, identifier
//! canonicalization and guard-expression rendering.

use vstd::prelude::*;
use vstd::string::{StrSliceExecFns, StringExecFns};

verus! {

/// Relies on String::push of std: appends one character at the end of
/// the string.
#[verifier::external_body]
fn push_char(s: &mut String, c: char)
    ensures
        final(s)@ == old(s)@ + seq![c],
{
    s.push(c)
}

/// How one character is escaped for embedding inside a double-quoted
/// literal: backslash and double quote get a leading backslash, every
/// other character stands as it is.
pub open spec fn escape_char(c: char) -> Seq<char> {
    if c == '\\' {
        seq!['\\', '\\']
    } else if c == '"' {
        seq!['\\', '"']
    } else {
        seq![c]
    }
}

/// A string escaped character by character.
pub open spec fn escaped(s: Seq<char>) -> Seq<char>
    decreases s.len(),
{
    if s.len() == 0 {
        Seq::empty()
    } else {
        escape_char(s[0]) + escaped(s.drop_first())
    }
}

proof fn lemma_escaped_push(s: Seq<char>, c: char)
    ensures
        escaped(s.push(c)) == escaped(s) + escape_char(c),
    decreases s.len(),
{
    reveal_with_fuel(escaped, 2);
    if s.len() == 0 {
        assert(s.push(c)[0] == c);
        assert(s.push(c).drop_first() =~= Seq::<char>::empty());
        assert(escaped(s.push(c)) =~= escaped(s) + escape_char(c));
    } else {
        assert(s.push(c).drop_first() =~= s.drop_first().push(c));
        lemma_escaped_push(s.drop_first(), c);
        assert(escaped(s.push(c)) =~= escaped(s) + escape_char(c));
    }
}

/// Escape a string so that it is safe inside a double-quoted literal
/// of the target syntax: backslashes and quotes get a leading
/// backslash.
pub fn escape(s: &str) -> (r: String)
    ensures
        r@ == escaped(s@),
{
    let n = s.unicode_len();
    let mut r = String::new();
    let mut i: usize = 0;
    while i < n
        invariant
            i <= n,
            n == s@.len(),
            r@ == escaped(s@.take(i as int)),
        decreases n - i,
    {
        let c = s.get_char(i);
        proof {
            assert(s@.take(i + 1) =~= s@.take(i as int).push(s@[i as int]));
            lemma_escaped_push(s@.take(i as int), s@[i as int]);
        }
        if c == '\\' {
            r.append("\\\\");
            proof {
                reveal_strlit("\\\\");
                assert("\\\\"@ =~= escape_char(c));
            }
        } else if c == '"' {
            r.append("\\\"");
            proof {
                reveal_strlit("\\\"");
                assert("\\\""@ =~= escape_char(c));
            }
        } else {
            push_char(&mut r, c);
            proof {
                assert(seq![c] =~= escape_char(c));
            }
        }
        i = i + 1;
    }
    proof {
        assert(s@.take(n as int) =~= s@);
    }
    r
}

/// A string wrapped in double quotes (the input is expected to be
/// escaped already).
pub open spec fn quoted_spec(s: Seq<char>) -> Seq<char> {
    seq!['"'] + s + seq!['"']
}

/// Wrap an (already escaped) string in double quotes.
pub fn quoted(s: &str) -> (r: String)
    ensures
        r@ == quoted_spec(s@),
{
    let mut r = String::from_str("\"");
    r.append(s);
    r.append("\"");
    proof {
        reveal_strlit("\"");
        assert(r@ =~= quoted_spec(s@));
    }
    r
}

/// The variable-dereference token for a parameter name.
pub open spec fn expanded_spec(name: Seq<char>) -> Seq<char> {
    seq!['$', '{'] + name + seq!['}']
}

/// Produce the variable-dereference token `${name}` for a parameter
/// name, so that the generated bundle's own parameters supply the
/// value at call time.
pub fn expanded(name: &str) -> (r: String)
    ensures
        r@ == expanded_spec(name@),
{
    let mut r = String::from_str("${");
    r.append(name);
    r.append("}");
    proof {
        reveal_strlit("${");
        reveal_strlit("}");
        assert(r@ =~= expanded_spec(name@));
    }
    r
}

/// Whether a character may stand in a canonical identifier: ASCII
/// letters, ASCII digits and the underscore.
pub open spec fn is_ident_char(c: char) -> bool {
    ('a' <= c && c <= 'z') || ('A' <= c && c <= 'Z') || ('0' <= c && c <= '9') || c == '_'
}

/// A string mapped character by character onto identifier-safe
/// characters: anything outside letters, digits and underscore
/// becomes an underscore.
pub open spec fn canonified(s: Seq<char>) -> Seq<char> {
    s.map_values(|c: char| if is_ident_char(c) { c } else { '_' })
}

/// Deterministic, idempotent, many-to-one mapping of arbitrary text to
/// an identifier-safe token, used for bundle naming.
pub fn canonify(s: &str) -> (r: String)
    ensures
        r@ == canonified(s@),
{
    let n = s.unicode_len();
    let mut r = String::new();
    let mut i: usize = 0;
    while i < n
        invariant
            i <= n,
            n == s@.len(),
            r@ == canonified(s@.take(i as int)),
        decreases n - i,
    {
        let c = s.get_char(i);
        let keep = ('a' <= c && c <= 'z') || ('A' <= c && c <= 'Z') || ('0' <= c && c <= '9') || c
            == '_';
        if keep {
            push_char(&mut r, c);
        } else {
            push_char(&mut r, '_');
        }
        proof {
            assert(canonified(s@.take(i + 1)) =~= canonified(s@.take(i as int)).push(
                if is_ident_char(s@[i as int]) {
                    s@[i as int]
                } else {
                    '_'
                },
            ));
        }
        i = i + 1;
    }
    proof {
        assert(s@.take(n as int) =~= s@);
    }
    r
}

/// Law: canonicalization is idempotent — canonifying a canonical
/// token leaves it unchanged.
pub proof fn lemma_canonify_idempotent(s: Seq<char>)
    ensures
        canonified(canonified(s)) =~= canonified(s),
{
}

/// The compiled form of a guard expression, as forwarded in the guard
/// slot of the call-site instruction: the expression wrapped in an
/// `any.(...)` class context and quoted, with its text escaped.
pub open spec fn canonify_condition_spec(c: Seq<char>) -> Seq<char> {
    quoted_spec("any.("@ + escaped(c) + ")"@)
}

/// Render a guard expression in the target's class-expression syntax,
/// quoted for forwarding as a literal argument.
pub fn canonify_condition(c: &str) -> (r: String)
    ensures
        r@ == canonify_condition_spec(c@),
{
    let escaped_c = escape(c);
    let mut inner = String::from_str("any.(");
    inner.append(escaped_c.as_str());
    inner.append(")");
    proof {
        assert(inner@ =~= "any.("@ + escaped(c@) + ")"@);
    }
    quoted(inner.as_str())
}

} // verus!
