//! Lightweight SQL statement classification for Oracle.
//!
//! `execute_query` accepts arbitrary SQL, so we need to tell apart statements
//! that return rows (and can be paginated) from DML/DDL, and — Oracle-specific
//! — PL/SQL blocks, which must keep their trailing semicolon while plain SQL
//! statements must lose it (OCI rejects `SELECT 1 FROM DUAL;`).
use vstd::prelude::*;

use crate::text::{
    ascii_lower_char, chars_of, is_whitespace, is_ws, lower, push_char, skip_ws_backward,
    skip_ws_forward, str_eq, trim, views,
};

verus! {

/// Keyword separators: whitespace and `(`.
pub open spec fn is_kw_sep(c: char) -> bool {
    is_ws(c) || c == '('
}

/// The piece `cur` as a token, when it is not empty.
pub open spec fn emit(cur: Seq<char>) -> Seq<Seq<char>> {
    if cur.len() > 0 {
        seq![cur]
    } else {
        seq![]
    }
}

/// The non-empty pieces of `s` split at separators, the first one
/// continuing the piece `cur`.
pub open spec fn tokens_from(s: Seq<char>, cur: Seq<char>) -> Seq<Seq<char>>
    decreases s.len(),
{
    if s.len() == 0 {
        emit(cur)
    } else if is_kw_sep(s[0]) {
        emit(cur) + tokens_from(s.drop_first(), seq![])
    } else {
        tokens_from(s.drop_first(), cur.push(s[0]))
    }
}

/// The non-empty pieces of `s` between whitespace and `(`.
pub open spec fn tokens(s: Seq<char>) -> Seq<Seq<char>> {
    tokens_from(s, seq![])
}

/// The first `n` tokens, lowercased.
pub open spec fn keywords_spec(s: Seq<char>, n: nat) -> Seq<Seq<char>> {
    let t = tokens(s);
    let k = if n < t.len() {
        n
    } else {
        t.len()
    };
    t.take(k as int).map_values(|w: Seq<char>| lower(w))
}

/// The first SQL keyword in lowercase, or the empty string.
pub open spec fn first_keyword_spec(s: Seq<char>) -> Seq<char> {
    if tokens(s).len() > 0 {
        lower(tokens(s)[0])
    } else {
        seq![]
    }
}

/// Statements that produce a result set.
pub open spec fn returns_rows_spec(s: Seq<char>) -> bool {
    first_keyword_spec(s) == "select"@ || first_keyword_spec(s) == "with"@
}

/// The stored-code kinds whose `CREATE` statement is a PL/SQL unit.
pub open spec fn is_unit_kind(w: Seq<char>) -> bool {
    ||| w == "procedure"@
    ||| w == "function"@
    ||| w == "package"@
    ||| w == "trigger"@
    ||| w == "type"@
}

/// The words that may stand between `CREATE` and the kind of object it
/// creates: `OR REPLACE`, `EDITIONABLE`, `NONEDITIONABLE`.
pub open spec fn is_create_modifier(w: Seq<char>) -> bool {
    ||| w == "or"@
    ||| w == "replace"@
    ||| w == "editionable"@
    ||| w == "noneditionable"@
}

/// The first keyword that is not a `CREATE` modifier.
pub open spec fn object_kind(words: Seq<Seq<char>>) -> Option<Seq<char>>
    decreases words.len(),
{
    if words.len() == 0 {
        None
    } else if is_create_modifier(words[0]) {
        object_kind(words.drop_first())
    } else {
        Some(words[0])
    }
}

/// A PL/SQL block (`BEGIN`, `DECLARE`) or stored-code definition: `CREATE`,
/// its modifiers, then a procedure, function, package, trigger or type,
/// judged by the first five keywords (enough for
/// `CREATE OR REPLACE NONEDITIONABLE PACKAGE`).
pub open spec fn is_plsql_spec(s: Seq<char>) -> bool {
    let k = keywords_spec(s, 5);
    if k.len() == 0 {
        false
    } else if k[0] == "begin"@ || k[0] == "declare"@ {
        true
    } else if k[0] == "create"@ {
        match object_kind(k.drop_first()) {
            Some(w) => is_unit_kind(w),
            None => false,
        }
    } else {
        false
    }
}

/// A character plain SQL loses at its end: a semicolon or whitespace.
pub open spec fn is_tail_char(c: char) -> bool {
    c == ';' || is_ws(c)
}

/// `s` without its trailing semicolons and whitespace, however they mix.
pub open spec fn strip_tail(s: Seq<char>) -> Seq<char>
    decreases s.len(),
{
    if s.len() > 0 && is_tail_char(s.last()) {
        strip_tail(s.drop_last())
    } else {
        s
    }
}

/// The text sent to OCI: PL/SQL trimmed, plain SQL trimmed and without
/// trailing semicolons.
pub open spec fn prepare_spec(s: Seq<char>) -> Seq<char> {
    let t = trim(s);
    if is_plsql_spec(t) {
        t
    } else {
        strip_tail(t)
    }
}

/// Pushing a lowercased token keeps the output the lowercase of the tokens.
proof fn lemma_views_push(
    old_out: Seq<String>,
    new_out: Seq<String>,
    old_toks: Seq<Seq<char>>,
    new_toks: Seq<Seq<char>>,
    tok: Seq<char>,
)
    requires
        views(old_out) == old_toks.map_values(|w: Seq<char>| lower(w)),
        new_out.len() == old_out.len() + 1,
        forall|j: int| 0 <= j < old_out.len() ==> new_out[j] == old_out[j],
        new_toks == old_toks.push(tok),
        new_out[old_out.len() as int]@ == lower(tok),
    ensures
        views(new_out) == new_toks.map_values(|w: Seq<char>| lower(w)),
{
    assert(views(old_out).len() == old_out.len());
    assert(old_toks.len() == old_out.len());
    assert forall|j: int| 0 <= j < new_out.len() implies #[trigger] views(new_out)[j]
        == new_toks.map_values(|w: Seq<char>| lower(w))[j] by {
        if j < old_out.len() {
            assert(views(old_out)[j] == old_out[j]@);
        }
    }
    assert(views(new_out) =~= new_toks.map_values(|w: Seq<char>| lower(w)));
}

/// Return the first `n` whitespace-separated keywords, lowercased.
fn keywords(sql: &str, n: usize) -> (r: Vec<String>)
    ensures
        views(r@) == keywords_spec(sql@, n as nat),
{
    let v = chars_of(sql);
    let mut out: Vec<String> = Vec::new();
    if n == 0 {
        assert(views(out@) =~= keywords_spec(sql@, n as nat));
        return out;
    }
    let ghost mut toks: Seq<Seq<char>> = seq![];
    let ghost mut cur: Seq<char> = seq![];
    let mut cur_s = String::new();
    let mut i: usize = 0;
    assert(v@.skip(0) =~= v@);
    assert(toks + tokens_from(v@, cur) =~= tokens_from(v@, cur));
    assert(views(out@) =~= toks.map_values(|w: Seq<char>| lower(w)));
    while i < v.len()
        invariant
            v@ == sql@,
            0 < n,
            i <= v@.len(),
            toks.len() < n,
            out@.len() == toks.len(),
            tokens(v@) == toks + tokens_from(v@.skip(i as int), cur),
            views(out@) == toks.map_values(|w: Seq<char>| lower(w)),
            cur_s@ == lower(cur),
        decreases v@.len() - i,
    {
        let c = v[i];
        let ghost rest = v@.skip(i as int);
        assert(rest[0] == c);
        assert(rest.drop_first() =~= v@.skip(i + 1));
        if is_whitespace(c) || c == '(' {
            assert(tokens_from(rest, cur) == emit(cur) + tokens_from(rest.drop_first(), seq![]));
            if cur_s.unicode_len() > 0 {
                let ghost old_out = out@;
                let ghost old_toks = toks;
                let ghost cs = cur_s@;
                proof {
                    toks = toks.push(cur);
                }
                out.push(cur_s);
                proof {
                    lemma_views_push(old_out, out@, old_toks, toks, cur);
                }
                assert(tokens(v@) =~= toks + tokens_from(v@.skip(i + 1), seq![]));
                if out.len() == n {
                    proof {
                        assert(tokens(v@).take(n as int) =~= toks);
                        assert(keywords_spec(sql@, n as nat) =~= toks.map_values(
                            |w: Seq<char>| lower(w),
                        ));
                    }
                    return out;
                }
            }
            proof {
                cur = seq![];
            }
            cur_s = String::new();
            assert(cur_s@ =~= lower(cur));
        } else {
            let lc = ascii_lower_char(c);
            push_char(&mut cur_s, lc);
            proof {
                cur = cur.push(c);
            }
            assert(cur_s@ =~= lower(cur));
        }
        i = i + 1;
    }
    assert(v@.skip(i as int) =~= Seq::<char>::empty());
    if cur_s.unicode_len() > 0 {
        let ghost old_out = out@;
        let ghost old_toks = toks;
        proof {
            toks = toks.push(cur);
        }
        out.push(cur_s);
        proof {
            lemma_views_push(old_out, out@, old_toks, toks, cur);
        }
    }
    assert(tokens(v@) =~= toks);
    assert(keywords_spec(sql@, n as nat) =~= toks.map_values(|w: Seq<char>| lower(w)));
    out
}

/// The first SQL keyword in lowercase.
pub fn first_keyword(sql: &str) -> (r: String)
    ensures
        r@ == first_keyword_spec(sql@),
{
    let mut kws = keywords(sql, 1);
    let ghost t = tokens(sql@);
    if kws.len() > 0 {
        assert(kws@[0]@ == views(kws@)[0]);
        assert(views(kws@).len() == kws@.len());
        assert(t.len() > 0);
        assert(keywords_spec(sql@, 1)[0] == lower(t[0]));
        kws.swap_remove(0)
    } else {
        assert(views(kws@).len() == 0);
        String::new()
    }
}

/// Does this statement produce a result set we should read with a row cursor?
pub fn returns_rows(sql: &str) -> (r: bool)
    ensures
        r == returns_rows_spec(sql@),
{
    let k = first_keyword(sql);
    str_eq(k.as_str(), "select") || str_eq(k.as_str(), "with")
}

/// Can we safely wrap this statement in `SELECT * FROM (...)` for
/// OFFSET/FETCH pagination and `SELECT COUNT(*) FROM (...)` counting?
pub fn is_wrappable(sql: &str) -> (r: bool)
    ensures
        r == returns_rows_spec(sql@),
{
    let k = first_keyword(sql);
    str_eq(k.as_str(), "select") || str_eq(k.as_str(), "with")
}

/// Is this a PL/SQL block or stored-code definition? Those keep their trailing
/// semicolon (it terminates the block), unlike plain SQL.
pub fn is_plsql(sql: &str) -> (r: bool)
    ensures
        r == is_plsql_spec(sql@),
{
    let kws = keywords(sql, 5);
    let ghost k = keywords_spec(sql@, 5);
    assert(forall|j: int| 0 <= j < kws@.len() ==> #[trigger] kws@[j]@ == views(kws@)[j]);
    if kws.len() == 0 {
        return false;
    }
    let first = kws[0].as_str();
    assert(first@ == k[0]);
    if str_eq(first, "begin") || str_eq(first, "declare") {
        return true;
    }
    if !str_eq(first, "create") {
        return false;
    }
    let mut j: usize = 1;
    assert(k.drop_first() =~= k.skip(1));
    while j < kws.len() && is_modifier(kws[j].as_str())
        invariant
            1 <= j <= kws@.len(),
            views(kws@) == k,
            k.len() == kws@.len(),
            forall|m: int| 0 <= m < kws@.len() ==> #[trigger] kws@[m]@ == k[m],
            object_kind(k.drop_first()) == object_kind(k.skip(j as int)),
        decreases kws@.len() - j,
    {
        assert(k.skip(j as int)[0] == k[j as int]);
        assert(k.skip(j as int).drop_first() =~= k.skip(j + 1));
        j = j + 1;
    }
    if j == kws.len() {
        assert(k.skip(j as int) =~= Seq::<Seq<char>>::empty());
        return false;
    }
    assert(k.skip(j as int)[0] == k[j as int]);
    let w = kws[j].as_str();
    str_eq(w, "procedure") || str_eq(w, "function") || str_eq(w, "package") || str_eq(
        w,
        "trigger",
    ) || str_eq(w, "type")
}

fn is_modifier(w: &str) -> (r: bool)
    ensures
        r == is_create_modifier(w@),
{
    str_eq(w, "or") || str_eq(w, "replace") || str_eq(w, "editionable") || str_eq(
        w,
        "noneditionable",
    )
}

/// The first index in `lo..hi` from which `v[lo..hi]` holds only
/// semicolons and whitespace.
fn skip_tail_backward(v: &Vec<char>, lo: usize, hi: usize) -> (r: usize)
    requires
        lo <= hi <= v@.len(),
    ensures
        lo <= r <= hi,
        v@.subrange(lo as int, r as int) == strip_tail(v@.subrange(lo as int, hi as int)),
{
    let mut i = hi;
    while i > lo && (v[i - 1] == ';' || is_whitespace(v[i - 1]))
        invariant
            lo <= i <= hi,
            hi <= v@.len(),
            strip_tail(v@.subrange(lo as int, hi as int)) == strip_tail(
                v@.subrange(lo as int, i as int),
            ),
        decreases i - lo,
    {
        assert(v@.subrange(lo as int, i as int).drop_last() =~= v@.subrange(
            lo as int,
            i - 1,
        ));
        i = i - 1;
    }
    i
}

/// Prepare a user statement for OCI: PL/SQL passes through untouched, plain
/// SQL loses trailing semicolons and whitespace.
pub fn prepare_statement(sql: &str) -> (r: &str)
    ensures
        r@ == prepare_spec(sql@),
{
    let v = chars_of(sql);
    let a = skip_ws_forward(&v, 0, v.len());
    let b = skip_ws_backward(&v, a, v.len());
    assert(v@.subrange(0, v@.len() as int) =~= v@);
    let trimmed = sql.substring_char(a, b);
    if is_plsql(trimmed) {
        trimmed
    } else {
        let d = skip_tail_backward(&v, a, b);
        sql.substring_char(a, d)
    }
}

/// `strip_tail` keeps a prefix, ends on neither a semicolon nor
/// whitespace, and drops only semicolons and whitespace.
proof fn lemma_strip_tail(s: Seq<char>)
    ensures
        strip_tail(s).len() <= s.len(),
        strip_tail(s) == s.take(strip_tail(s).len() as int),
        strip_tail(s).len() == 0 || !is_tail_char(strip_tail(s).last()),
        forall|i: int| strip_tail(s).len() <= i < s.len() ==> is_tail_char(#[trigger] s[i]),
    decreases s.len(),
{
    if s.len() > 0 && is_tail_char(s.last()) {
        lemma_strip_tail(s.drop_last());
        assert(s.drop_last().take(strip_tail(s).len() as int) =~= s.take(
            strip_tail(s).len() as int,
        ));
        assert forall|i: int| strip_tail(s).len() <= i < s.len() implies is_tail_char(
            #[trigger] s[i],
        ) by {
            if i < s.len() - 1 {
                assert(s[i] == s.drop_last()[i]);
            }
        }
    } else {
        assert(s.take(s.len() as int) =~= s);
    }
}

/// A PL/SQL block keeps its trimmed text whole, terminating semicolon
/// included; plain SQL loses every trailing semicolon and whitespace (OCI
/// rejects `SELECT 1 FROM DUAL;`) and nothing else.
pub proof fn lemma_prepare_statement(sql: Seq<char>)
    ensures
        is_plsql_spec(trim(sql)) ==> prepare_spec(sql) == trim(sql),
        !is_plsql_spec(trim(sql)) ==> {
            let r = prepare_spec(sql);
            let t = trim(sql);
            &&& r == t.take(r.len() as int)
            &&& r.len() == 0 || (r.last() != ';' && !is_ws(r.last()))
            &&& forall|i: int| r.len() <= i < t.len() ==> is_tail_char(#[trigger] t[i])
        },
{
    lemma_strip_tail(trim(sql));
}

proof fn lemma_sql_words_distinct()
    ensures
        "procedure"@ != "or"@,
        "procedure"@ != "replace"@,
        "procedure"@ != "editionable"@,
        "procedure"@ != "noneditionable"@,
        "function"@ != "or"@,
        "function"@ != "replace"@,
        "function"@ != "editionable"@,
        "function"@ != "noneditionable"@,
        "package"@ != "or"@,
        "package"@ != "replace"@,
        "package"@ != "editionable"@,
        "package"@ != "noneditionable"@,
        "trigger"@ != "or"@,
        "trigger"@ != "replace"@,
        "trigger"@ != "editionable"@,
        "trigger"@ != "noneditionable"@,
        "type"@ != "or"@,
        "type"@ != "replace"@,
        "type"@ != "editionable"@,
        "type"@ != "noneditionable"@,
        "table"@ != "or"@,
        "table"@ != "replace"@,
        "table"@ != "editionable"@,
        "table"@ != "noneditionable"@,
        "index"@ != "or"@,
        "index"@ != "replace"@,
        "index"@ != "editionable"@,
        "index"@ != "noneditionable"@,
        "view"@ != "or"@,
        "view"@ != "replace"@,
        "view"@ != "editionable"@,
        "view"@ != "noneditionable"@,
        "sequence"@ != "or"@,
        "sequence"@ != "replace"@,
        "sequence"@ != "editionable"@,
        "sequence"@ != "noneditionable"@,
        "synonym"@ != "or"@,
        "synonym"@ != "replace"@,
        "synonym"@ != "editionable"@,
        "synonym"@ != "noneditionable"@,
        "user"@ != "or"@,
        "user"@ != "replace"@,
        "user"@ != "editionable"@,
        "user"@ != "noneditionable"@,
        "table"@ != "procedure"@,
        "table"@ != "function"@,
        "table"@ != "package"@,
        "table"@ != "trigger"@,
        "table"@ != "type"@,
        "index"@ != "procedure"@,
        "index"@ != "function"@,
        "index"@ != "package"@,
        "index"@ != "trigger"@,
        "index"@ != "type"@,
        "view"@ != "procedure"@,
        "view"@ != "function"@,
        "view"@ != "package"@,
        "view"@ != "trigger"@,
        "view"@ != "type"@,
        "sequence"@ != "procedure"@,
        "sequence"@ != "function"@,
        "sequence"@ != "package"@,
        "sequence"@ != "trigger"@,
        "sequence"@ != "type"@,
        "synonym"@ != "procedure"@,
        "synonym"@ != "function"@,
        "synonym"@ != "package"@,
        "synonym"@ != "trigger"@,
        "synonym"@ != "type"@,
        "user"@ != "procedure"@,
        "user"@ != "function"@,
        "user"@ != "package"@,
        "user"@ != "trigger"@,
        "user"@ != "type"@,
        "begin"@ != "declare"@,
        "begin"@ != "create"@,
        "declare"@ != "create"@,
        "select"@ != "begin"@,
        "select"@ != "declare"@,
        "select"@ != "create"@,
        "with"@ != "begin"@,
        "with"@ != "declare"@,
        "with"@ != "create"@,
        "insert"@ != "begin"@,
        "insert"@ != "declare"@,
        "insert"@ != "create"@,
        "update"@ != "begin"@,
        "update"@ != "declare"@,
        "update"@ != "create"@,
        "delete"@ != "begin"@,
        "delete"@ != "declare"@,
        "delete"@ != "create"@,
        "merge"@ != "begin"@,
        "merge"@ != "declare"@,
        "merge"@ != "create"@,
        "alter"@ != "begin"@,
        "alter"@ != "declare"@,
        "alter"@ != "create"@,
        "drop"@ != "begin"@,
        "drop"@ != "declare"@,
        "drop"@ != "create"@,
        "select"@ != "insert"@,
        "select"@ != "update"@,
        "select"@ != "delete"@,
        "select"@ != "merge"@,
        "select"@ != "alter"@,
        "select"@ != "drop"@,
        "with"@ != "insert"@,
        "with"@ != "update"@,
        "with"@ != "delete"@,
        "with"@ != "merge"@,
        "with"@ != "alter"@,
        "with"@ != "drop"@,
{
    reveal_strlit("alter");
    reveal_strlit("begin");
    reveal_strlit("create");
    reveal_strlit("declare");
    reveal_strlit("delete");
    reveal_strlit("drop");
    reveal_strlit("editionable");
    reveal_strlit("function");
    reveal_strlit("index");
    reveal_strlit("insert");
    reveal_strlit("merge");
    reveal_strlit("noneditionable");
    reveal_strlit("or");
    reveal_strlit("package");
    reveal_strlit("procedure");
    reveal_strlit("replace");
    reveal_strlit("select");
    reveal_strlit("sequence");
    reveal_strlit("synonym");
    reveal_strlit("table");
    reveal_strlit("trigger");
    reveal_strlit("type");
    reveal_strlit("update");
    reveal_strlit("user");
    reveal_strlit("view");
    reveal_strlit("with");
    assert("procedure"@[0] != "or"@[0]);
    assert("procedure"@[0] != "replace"@[0]);
    assert("procedure"@[0] != "editionable"@[0]);
    assert("procedure"@[0] != "noneditionable"@[0]);
    assert("function"@[0] != "or"@[0]);
    assert("function"@[0] != "replace"@[0]);
    assert("function"@[0] != "editionable"@[0]);
    assert("function"@[0] != "noneditionable"@[0]);
    assert("package"@[0] != "or"@[0]);
    assert("package"@[0] != "replace"@[0]);
    assert("package"@[0] != "editionable"@[0]);
    assert("package"@[0] != "noneditionable"@[0]);
    assert("trigger"@[0] != "or"@[0]);
    assert("trigger"@[0] != "replace"@[0]);
    assert("trigger"@[0] != "editionable"@[0]);
    assert("trigger"@[0] != "noneditionable"@[0]);
    assert("type"@[0] != "or"@[0]);
    assert("type"@[0] != "replace"@[0]);
    assert("type"@[0] != "editionable"@[0]);
    assert("type"@[0] != "noneditionable"@[0]);
    assert("table"@[0] != "or"@[0]);
    assert("table"@[0] != "replace"@[0]);
    assert("table"@[0] != "editionable"@[0]);
    assert("table"@[0] != "noneditionable"@[0]);
    assert("index"@[0] != "or"@[0]);
    assert("index"@[0] != "replace"@[0]);
    assert("index"@[0] != "editionable"@[0]);
    assert("index"@[0] != "noneditionable"@[0]);
    assert("view"@[0] != "or"@[0]);
    assert("view"@[0] != "replace"@[0]);
    assert("view"@[0] != "editionable"@[0]);
    assert("view"@[0] != "noneditionable"@[0]);
    assert("sequence"@[0] != "or"@[0]);
    assert("sequence"@[0] != "replace"@[0]);
    assert("sequence"@[0] != "editionable"@[0]);
    assert("sequence"@[0] != "noneditionable"@[0]);
    assert("synonym"@[0] != "or"@[0]);
    assert("synonym"@[0] != "replace"@[0]);
    assert("synonym"@[0] != "editionable"@[0]);
    assert("synonym"@[0] != "noneditionable"@[0]);
    assert("user"@[0] != "or"@[0]);
    assert("user"@[0] != "replace"@[0]);
    assert("user"@[0] != "editionable"@[0]);
    assert("user"@[0] != "noneditionable"@[0]);
    assert("table"@[0] != "procedure"@[0]);
    assert("table"@[0] != "function"@[0]);
    assert("table"@[0] != "package"@[0]);
    assert("table"@[1] != "trigger"@[1]);
    assert("table"@[1] != "type"@[1]);
    assert("index"@[0] != "procedure"@[0]);
    assert("index"@[0] != "function"@[0]);
    assert("index"@[0] != "package"@[0]);
    assert("index"@[0] != "trigger"@[0]);
    assert("index"@[0] != "type"@[0]);
    assert("view"@[0] != "procedure"@[0]);
    assert("view"@[0] != "function"@[0]);
    assert("view"@[0] != "package"@[0]);
    assert("view"@[0] != "trigger"@[0]);
    assert("view"@[0] != "type"@[0]);
    assert("sequence"@[0] != "procedure"@[0]);
    assert("sequence"@[0] != "function"@[0]);
    assert("sequence"@[0] != "package"@[0]);
    assert("sequence"@[0] != "trigger"@[0]);
    assert("sequence"@[0] != "type"@[0]);
    assert("synonym"@[0] != "procedure"@[0]);
    assert("synonym"@[0] != "function"@[0]);
    assert("synonym"@[0] != "package"@[0]);
    assert("synonym"@[0] != "trigger"@[0]);
    assert("synonym"@[0] != "type"@[0]);
    assert("user"@[0] != "procedure"@[0]);
    assert("user"@[0] != "function"@[0]);
    assert("user"@[0] != "package"@[0]);
    assert("user"@[0] != "trigger"@[0]);
    assert("user"@[0] != "type"@[0]);
    assert("begin"@[0] != "declare"@[0]);
    assert("begin"@[0] != "create"@[0]);
    assert("declare"@[0] != "create"@[0]);
    assert("select"@[0] != "begin"@[0]);
    assert("select"@[0] != "declare"@[0]);
    assert("select"@[0] != "create"@[0]);
    assert("with"@[0] != "begin"@[0]);
    assert("with"@[0] != "declare"@[0]);
    assert("with"@[0] != "create"@[0]);
    assert("insert"@[0] != "begin"@[0]);
    assert("insert"@[0] != "declare"@[0]);
    assert("insert"@[0] != "create"@[0]);
    assert("update"@[0] != "begin"@[0]);
    assert("update"@[0] != "declare"@[0]);
    assert("update"@[0] != "create"@[0]);
    assert("delete"@[0] != "begin"@[0]);
    assert("delete"@[2] != "declare"@[2]);
    assert("delete"@[0] != "create"@[0]);
    assert("merge"@[0] != "begin"@[0]);
    assert("merge"@[0] != "declare"@[0]);
    assert("merge"@[0] != "create"@[0]);
    assert("alter"@[0] != "begin"@[0]);
    assert("alter"@[0] != "declare"@[0]);
    assert("alter"@[0] != "create"@[0]);
    assert("drop"@[0] != "begin"@[0]);
    assert("drop"@[1] != "declare"@[1]);
    assert("drop"@[0] != "create"@[0]);
    assert("select"@[0] != "insert"@[0]);
    assert("select"@[0] != "update"@[0]);
    assert("select"@[0] != "delete"@[0]);
    assert("select"@[0] != "merge"@[0]);
    assert("select"@[0] != "alter"@[0]);
    assert("select"@[0] != "drop"@[0]);
    assert("with"@[0] != "insert"@[0]);
    assert("with"@[0] != "update"@[0]);
    assert("with"@[0] != "delete"@[0]);
    assert("with"@[0] != "merge"@[0]);
    assert("with"@[0] != "alter"@[0]);
    assert("with"@[0] != "drop"@[0]);
}

/// How a statement is classified by its first keywords, in any case:
/// - `BEGIN` and `DECLARE` open a PL/SQL block;
/// - `CREATE` of a procedure, function, package, trigger or type, also
///   after `OR REPLACE`, `EDITIONABLE` or `NONEDITIONABLE`, defines stored
///   PL/SQL code;
/// - `CREATE` of a table, index, view, sequence, synonym or user, and a
///   statement led by SELECT, WITH, INSERT, UPDATE, DELETE, MERGE, ALTER or
///   DROP, is plain SQL;
/// - only a statement led by SELECT or WITH returns rows.
pub proof fn lemma_statement_kinds(s: Seq<char>)
    ensures
        ({
            let k = keywords_spec(s, 5);
            &&& k.len() > 0 && (k[0] == "begin"@ || k[0] == "declare"@) ==> is_plsql_spec(s)
            &&& k.len() >= 2 && k[0] == "create"@ && (k[1] == "procedure"@ || k[1] == "function"@ || k[1] == "package"@ || k[1] == "trigger"@ || k[1] == "type"@) ==> is_plsql_spec(s)
            &&& k.len() >= 3 && k[0] == "create"@ && (k[1] == "editionable"@ || k[1] == "noneditionable"@) && (k[2] == "procedure"@ || k[2] == "function"@ || k[2] == "package"@ || k[2] == "trigger"@ || k[2] == "type"@) ==> is_plsql_spec(s)
            &&& k.len() >= 4 && k[0] == "create"@ && k[1] == "or"@ && k[2] == "replace"@ && (k[3] == "procedure"@ || k[3] == "function"@ || k[3] == "package"@ || k[3] == "trigger"@ || k[3] == "type"@) ==> is_plsql_spec(s)
            &&& k.len() >= 5 && k[0] == "create"@ && k[1] == "or"@ && k[2] == "replace"@ && (k[3] == "editionable"@ || k[3] == "noneditionable"@) && (k[4] == "procedure"@ || k[4] == "function"@ || k[4] == "package"@ || k[4] == "trigger"@ || k[4] == "type"@) ==> is_plsql_spec(s)
            &&& k.len() >= 2 && k[0] == "create"@ && (k[1] == "table"@ || k[1] == "index"@ || k[1] == "view"@ || k[1] == "sequence"@ || k[1] == "synonym"@ || k[1] == "user"@) ==> !is_plsql_spec(s)
            &&& k.len() > 0 && (k[0] == "select"@ || k[0] == "with"@ || k[0] == "insert"@ || k[0] == "update"@ || k[0] == "delete"@ || k[0] == "merge"@ || k[0] == "alter"@ || k[0] == "drop"@) ==> !is_plsql_spec(s)
            &&& k.len() == 0 ==> !is_plsql_spec(s) && !returns_rows_spec(s)
            &&& k.len() > 0 ==> (returns_rows_spec(s) <==> (k[0] == "select"@ || k[0] == "with"@))
        }),
{
    lemma_sql_words_distinct();
    reveal_with_fuel(object_kind, 4);
    let k = keywords_spec(s, 5);
    let t = tokens(s);
    if t.len() > 0 {
        assert(k[0] == lower(t[0]));
        assert(first_keyword_spec(s) == k[0]);
    }
    if k.len() > 0 {
        assert(t.len() > 0);
    } else {
        if t.len() > 0 {
            assert(k.len() > 0);
        }
        assert(first_keyword_spec(s) == Seq::<char>::empty());
        reveal_strlit("select");
        reveal_strlit("with");
        assert("select"@.len() > 0 && "with"@.len() > 0);
    }
    if k.len() >= 2 {
        assert(k.drop_first()[0] == k[1]);
    }
    if k.len() >= 3 {
        assert(k.drop_first().drop_first()[0] == k[2]);
    }
    if k.len() >= 4 {
        assert(k.drop_first().drop_first().drop_first()[0] == k[3]);
    }
    if k.len() >= 5 {
        assert(k.drop_first().drop_first().drop_first().drop_first()[0] == k[4]);
    }
}

} // verus!
