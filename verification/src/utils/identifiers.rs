//! SQL identifier quoting. Oracle uses ANSI double quotes; quoted identifiers
//! are case-sensitive, which matches the exact names the catalog views return.
use vstd::prelude::*;

use crate::text::{chars_of, push_char, trim, trim_str};

verus! {

/// `s` with every `q` doubled.
pub open spec fn escape(s: Seq<char>, q: char) -> Seq<char>
    decreases s.len(),
{
    if s.len() == 0 {
        seq![]
    } else if s.last() == q {
        escape(s.drop_last(), q).push(q).push(q)
    } else {
        escape(s.drop_last(), q).push(s.last())
    }
}

/// `s` between two `q`, with every inner `q` doubled.
pub open spec fn enclose(s: Seq<char>, q: char) -> Seq<char> {
    seq![q] + escape(s, q) + seq![q]
}

/// A quoted identifier: `"NAME"`.
pub open spec fn quote_spec(name: Seq<char>) -> Seq<char> {
    enclose(name, '"')
}

/// A string literal: `'text'`.
pub open spec fn quote_literal_spec(value: Seq<char>) -> Seq<char> {
    enclose(value, '\'')
}

/// The schema a qualified name uses: the trimmed schema, when not blank.
pub open spec fn effective_schema(schema: Option<Seq<char>>) -> Option<Seq<char>> {
    match schema {
        Some(s) => if trim(s).len() > 0 {
            Some(trim(s))
        } else {
            None
        },
        None => None,
    }
}

/// `"SCHEMA"."NAME"`, or `"NAME"` without a (non-blank) schema.
pub open spec fn qualify_spec(schema: Option<Seq<char>>, name: Seq<char>) -> Seq<char> {
    match effective_schema(schema) {
        Some(s) => quote_spec(s) + seq!['.'] + quote_spec(name),
        None => quote_spec(name),
    }
}

/// Appends `s` enclosed in `q`, with inner `q` doubled.
pub fn push_enclosed(out: &mut String, s: &str, q: char)
    ensures
        final(out)@ == old(out)@ + enclose(s@, q),
{
    let v = chars_of(s);
    let ghost start = out@;
    push_char(out, q);
    let mut i: usize = 0;
    while i < v.len()
        invariant
            i <= v@.len(),
            out@ == start + seq![q] + escape(v@.take(i as int), q),
        decreases v@.len() - i,
    {
        let c = v[i];
        assert(v@.take(i + 1).drop_last() =~= v@.take(i as int));
        if c == q {
            push_char(out, q);
        }
        push_char(out, c);
        proof {
            let t = v@.take(i + 1);
            assert(t.last() == c);
            if c == q {
                assert(out@ =~= start + seq![q] + escape(t, q));
            } else {
                assert(out@ =~= start + seq![q] + escape(t, q));
            }
        }
        i = i + 1;
    }
    push_char(out, q);
    assert(v@.take(v@.len() as int) =~= v@);
    assert(out@ =~= start + enclose(s@, q));
}

/// Quote an identifier with `"`, doubling any embedded double quotes to
/// escape them.
pub fn quote(name: &str) -> (r: String)
    ensures
        r@ == quote_spec(name@),
{
    let mut out = String::new();
    push_enclosed(&mut out, name, '"');
    assert(out@ =~= quote_spec(name@));
    out
}

/// Schema-qualify a table/view/index name: `"SCHEMA"."NAME"` when a schema is
/// given, `"NAME"` otherwise.
pub fn qualify(schema: Option<&str>, name: &str) -> (r: String)
    ensures
        r@ == qualify_spec(
            match schema {
                Some(s) => Some(s@),
                None => None,
            },
            name@,
        ),
{
    let mut out = String::new();
    match schema {
        Some(s) => {
            let t = trim_str(s);
            if t.unicode_len() > 0 {
                push_enclosed(&mut out, t, '"');
                push_char(&mut out, '.');
            }
        },
        None => {},
    }
    push_enclosed(&mut out, name, '"');
    assert(out@ =~= qualify_spec(
        match schema {
            Some(s) => Some(s@),
            None => None,
        },
        name@,
    ));
    out
}

/// Escape a string literal for use inside single quotes in SQL.
pub fn quote_literal(value: &str) -> (r: String)
    ensures
        r@ == quote_literal_spec(value@),
{
    let mut out = String::new();
    push_enclosed(&mut out, value, '\'');
    assert(out@ =~= quote_literal_spec(value@));
    out
}

/// Escaping never shortens a text.
proof fn lemma_escape_len(s: Seq<char>, q: char)
    ensures
        escape(s, q).len() >= s.len(),
    decreases s.len(),
{
    if s.len() > 0 {
        lemma_escape_len(s.drop_last(), q);
    }
}

/// Escaping is injective.
proof fn lemma_escape_injective(a: Seq<char>, b: Seq<char>, q: char)
    requires
        escape(a, q) == escape(b, q),
    ensures
        a == b,
    decreases a.len() + b.len(),
{
    lemma_escape_len(a, q);
    lemma_escape_len(b, q);
    if a.len() == 0 || b.len() == 0 {
        assert(a.len() == 0 && b.len() == 0);
        assert(a =~= b);
    } else {
        let ea = escape(a.drop_last(), q);
        let eb = escape(b.drop_last(), q);
        if a.last() == q && b.last() == q {
            assert(ea =~= escape(a, q).drop_last().drop_last());
            assert(eb =~= escape(b, q).drop_last().drop_last());
            lemma_escape_injective(a.drop_last(), b.drop_last(), q);
            assert(a =~= a.drop_last().push(q));
            assert(b =~= b.drop_last().push(q));
        } else if a.last() != q && b.last() != q {
            assert(ea =~= escape(a, q).drop_last());
            assert(eb =~= escape(b, q).drop_last());
            lemma_escape_injective(a.drop_last(), b.drop_last(), q);
            assert(a.last() == escape(a, q).last());
            assert(b.last() == escape(b, q).last());
            assert(a =~= a.drop_last().push(a.last()));
            assert(b =~= b.drop_last().push(b.last()));
        } else {
            assert(escape(a, q).last() == (if a.last() == q {
                q
            } else {
                a.last()
            }));
            assert(escape(b, q).last() == (if b.last() == q {
                q
            } else {
                b.last()
            }));
        }
    }
}

/// Quoting is injective: two different identifiers never quote to the same
/// text, and neither do two different string literals.
pub proof fn lemma_quote_injective(a: Seq<char>, b: Seq<char>)
    ensures
        quote_spec(a) == quote_spec(b) ==> a == b,
        quote_literal_spec(a) == quote_literal_spec(b) ==> a == b,
{
    if quote_spec(a) == quote_spec(b) {
        let qa = quote_spec(a);
        assert(escape(a, '"') =~= qa.subrange(1, qa.len() - 1));
        assert(escape(b, '"') =~= quote_spec(b).subrange(1, quote_spec(b).len() - 1));
        lemma_escape_injective(a, b, '"');
    }
    if quote_literal_spec(a) == quote_literal_spec(b) {
        let qa = quote_literal_spec(a);
        assert(escape(a, '\'') =~= qa.subrange(1, qa.len() - 1));
        assert(escape(b, '\'') =~= quote_literal_spec(b).subrange(
            1,
            quote_literal_spec(b).len() - 1,
        ));
        lemma_escape_injective(a, b, '\'');
    }
}

} // verus!
