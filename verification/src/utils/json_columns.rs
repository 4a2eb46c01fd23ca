//! Workaround for fetching Oracle `JSON` columns.
//!
//! The Oracle driver cannot create fetch buffers for the native JSON type
//! introduced in Oracle 21c: any SELECT touching a JSON column fails at
//! define time with "unsupported Oracle type JSON", before a single row (or
//! even the column list) is available.
//!
//! The recovery path:
//!
//! 1. catch that specific error,
//! 2. describe the statement server-side with `DBMS_SQL.PARSE` +
//!    `DESCRIBE_COLUMNS2` (parsing never creates fetch buffers, and describing
//!    needs no bind values),
//! 3. re-run the query wrapped as
//!    `SELECT ..., JSON_SERIALIZE("COL" RETURNING CLOB) AS "COL", ... FROM (query)`
//!    so JSON columns come back as CLOB text, which fetches fine.
//!
//! `JSON_SERIALIZE` exists on every server that has the JSON type (21c+), so
//! the rewrite never runs against a server that cannot handle it.
use vstd::prelude::*;
use vstd::string::StrSliceExecFns;

use crate::text::{
    chars_of, contains, dec, find_char, index_of, is_digit, join, lemma_dec_digits, lemma_dec_value,
    lemma_find_char_unique, lemma_join_step, parse_u32, parse_u32_spec, push_str, seq_contains,
    string_of,
};
use crate::utils::identifiers::{quote, quote_spec};

verus! {

/// Oracle's internal datatype code for the native JSON type, as reported in
/// `DBMS_SQL.DESC_TAB2.col_type`.
pub const JSON_TYPE_CODE: u32 = 119;

/// Anonymous block that describes an arbitrary statement without executing
/// it. Bind 1 (IN): the SQL text. Bind 2 (OUT): one `<col_type>:<col_name>`
/// entry per column, terminated by CHR(1).
pub const DESCRIBE_COLUMNS_BLOCK: &'static str = "DECLARE
  cur PLS_INTEGER;
  col_count PLS_INTEGER;
  cols DBMS_SQL.DESC_TAB2;
  buf VARCHAR2(32767);
BEGIN
  cur := DBMS_SQL.OPEN_CURSOR;
  BEGIN
    DBMS_SQL.PARSE(cur, :1, DBMS_SQL.NATIVE);
    DBMS_SQL.DESCRIBE_COLUMNS2(cur, col_count, cols);
    FOR i IN 1 .. col_count LOOP
      buf := buf || cols(i).col_type || ':' || cols(i).col_name || CHR(1);
    END LOOP;
    DBMS_SQL.CLOSE_CURSOR(cur);
  EXCEPTION WHEN OTHERS THEN
    DBMS_SQL.CLOSE_CURSOR(cur);
    RAISE;
  END;
  :2 := buf;
END;";

/// Is this the define-time failure the driver raises for JSON columns?
pub fn is_unsupported_json_error(message: &str) -> (r: bool)
    ensures
        r == seq_contains(message@, "unsupported Oracle type JSON"@),
{
    contains(message, "unsupported Oracle type JSON")
}

/// The pieces of `s` between CHR(1) separators, the first one continuing
/// `cur` (empty pieces included, as `str::split` yields them).
pub open spec fn pieces_from(s: Seq<char>, cur: Seq<char>) -> Seq<Seq<char>>
    decreases s.len(),
{
    if s.len() == 0 {
        seq![cur]
    } else if s[0] == '\u{1}' {
        seq![cur] + pieces_from(s.drop_first(), seq![])
    } else {
        pieces_from(s.drop_first(), cur.push(s[0]))
    }
}

/// One `<col_type>:<col_name>` entry: the type code before the first `:`,
/// the name after it. Empty and malformed entries give nothing.
pub open spec fn describe_entry(p: Seq<char>) -> Option<(u32, Seq<char>)> {
    let k = find_char(p, ':');
    if p.len() == 0 || k == p.len() {
        None
    } else {
        match parse_u32_spec(p.take(k)) {
            Some(code) => Some((code, p.skip(k + 1))),
            None => None,
        }
    }
}

/// The entries of a sequence of pieces, malformed ones skipped.
pub open spec fn describe_all(ps: Seq<Seq<char>>) -> Seq<(u32, Seq<char>)>
    decreases ps.len(),
{
    if ps.len() == 0 {
        seq![]
    } else {
        describe_all(ps.drop_last()) + match describe_entry(ps.last()) {
            Some(e) => seq![e],
            None => seq![],
        }
    }
}

/// What [`parse_describe`] returns for an OUT buffer.
pub open spec fn parse_describe_spec(buf: Seq<char>) -> Seq<(u32, Seq<char>)> {
    describe_all(pieces_from(buf, seq![]))
}

/// The views of described columns.
pub open spec fn column_views(cols: Seq<(u32, String)>) -> Seq<(u32, Seq<char>)> {
    cols.map_values(|e: (u32, String)| (e.0, e.1@))
}

/// Appends the entry of the piece `buf[start..end]`, if it is well formed.
fn describe_piece(buf: &str, v: &Vec<char>, start: usize, end: usize, out: &mut Vec<(u32, String)>)
    requires
        v@ == buf@,
        start <= end <= v@.len(),
    ensures
        column_views(final(out)@) == column_views(old(out)@) + match describe_entry(
            v@.subrange(start as int, end as int),
        ) {
            Some(e) => seq![e],
            None => seq![],
        },
{
    let ghost p = v@.subrange(start as int, end as int);
    if start == end {
        assert(column_views(out@) =~= column_views(out@) + Seq::<(u32, Seq<char>)>::empty());
        return ;
    }
    let k = index_of(v, start, end, ':');
    if k == end {
        assert(column_views(out@) =~= column_views(out@) + Seq::<(u32, Seq<char>)>::empty());
        return ;
    }
    let code_text = buf.substring_char(start, k);
    assert(code_text@ =~= p.take(k - start));
    match parse_u32(code_text) {
        Some(code) => {
            let name_text = buf.substring_char(k + 1, end);
            assert(name_text@ =~= p.skip(k - start + 1));
            let name = string_of(name_text);
            let ghost before = out@;
            out.push((code, name));
            assert(column_views(out@) =~= column_views(before) + seq![(code, name_text@)]);
        },
        None => {
            assert(column_views(out@) =~= column_views(out@) + Seq::<(u32, Seq<char>)>::empty());
        },
    }
}

/// Parse the OUT buffer produced by [`DESCRIBE_COLUMNS_BLOCK`] into
/// `(type_code, column_name)` pairs. Malformed entries are skipped.
pub fn parse_describe(buf: &str) -> (r: Vec<(u32, String)>)
    ensures
        column_views(r@) == parse_describe_spec(buf@),
{
    let v = chars_of(buf);
    let mut out: Vec<(u32, String)> = Vec::new();
    let ghost mut done: Seq<Seq<char>> = seq![];
    let mut start: usize = 0;
    let mut i: usize = 0;
    assert(v@.skip(0) =~= v@);
    assert(v@.subrange(0, 0) =~= Seq::<char>::empty());
    assert(column_views(out@) =~= describe_all(done));
    while i < v.len()
        invariant
            v@ == buf@,
            start <= i <= v@.len(),
            pieces_from(v@, seq![]) == done + pieces_from(
                v@.skip(i as int),
                v@.subrange(start as int, i as int),
            ),
            column_views(out@) == describe_all(done),
        decreases v@.len() - i,
    {
        let ghost rest = v@.skip(i as int);
        let ghost cur = v@.subrange(start as int, i as int);
        assert(rest[0] == v@[i as int]);
        assert(rest.drop_first() =~= v@.skip(i + 1));
        if v[i] == '\u{1}' {
            describe_piece(buf, &v, start, i, &mut out);
            proof {
                assert(done.push(cur).drop_last() =~= done);
                done = done.push(cur);
                assert(v@.subrange(i + 1, i + 1) =~= Seq::<char>::empty());
                assert(pieces_from(v@, seq![]) =~= done + pieces_from(
                    v@.skip(i + 1),
                    v@.subrange(i + 1, i + 1),
                ));
            }
            start = i + 1;
        } else {
            assert(cur.push(v@[i as int]) =~= v@.subrange(start as int, i + 1));
        }
        i = i + 1;
    }
    let ghost cur = v@.subrange(start as int, i as int);
    describe_piece(buf, &v, start, i, &mut out);
    proof {
        assert(v@.skip(i as int) =~= Seq::<char>::empty());
        assert(done.push(cur).drop_last() =~= done);
        assert(pieces_from(v@, seq![]) =~= done.push(cur));
    }
    out
}

/// One select-list item: JSON columns serialized to CLOB, others as-is.
pub open spec fn projection_item(type_code: u32, name: Seq<char>) -> Seq<char> {
    if type_code == JSON_TYPE_CODE {
        "JSON_SERIALIZE("@ + quote_spec(name) + " RETURNING CLOB) AS "@ + quote_spec(name)
    } else {
        quote_spec(name)
    }
}

/// The select list for described columns, or nothing when none is JSON.
pub open spec fn projection_spec(cols: Seq<(u32, Seq<char>)>) -> Option<Seq<char>> {
    if exists|j: int| 0 <= j < cols.len() && (#[trigger] cols[j]).0 == JSON_TYPE_CODE {
        Some(
            join(
                cols.map_values(|e: (u32, Seq<char>)| projection_item(e.0, e.1)),
                ", "@,
            ),
        )
    } else {
        None
    }
}

/// Build the select list that serializes JSON columns and passes everything
/// else through. Returns `None` when no column is JSON — the caller should
/// then keep the original error rather than retry pointlessly.
pub fn json_safe_projection(cols: &[(u32, String)]) -> (r: Option<String>)
    ensures
        match r {
            Some(s) => projection_spec(column_views(cols@)) == Some(s@),
            None => projection_spec(column_views(cols@)) is None,
        },
{
    let ghost cv = column_views(cols@);
    let mut any = false;
    let mut i: usize = 0;
    while i < cols.len()
        invariant
            i <= cols@.len(),
            cv == column_views(cols@),
            cv.len() == cols@.len(),
            any == exists|j: int| 0 <= j < i && (#[trigger] cv[j]).0 == JSON_TYPE_CODE,
        decreases cols@.len() - i,
    {
        assert(cv[i as int].0 == cols@[i as int].0);
        if cols[i].0 == JSON_TYPE_CODE {
            any = true;
        }
        i = i + 1;
    }
    if !any {
        return None;
    }
    let ghost items = cv.map_values(|e: (u32, Seq<char>)| projection_item(e.0, e.1));
    let mut out = String::new();
    let mut i: usize = 0;
    assert(items.take(0) =~= Seq::<Seq<char>>::empty());
    while i < cols.len()
        invariant
            i <= cols@.len(),
            cv == column_views(cols@),
            cv.len() == cols@.len(),
            items == cv.map_values(|e: (u32, Seq<char>)| projection_item(e.0, e.1)),
            out@ == join(items.take(i as int), ", "@),
        decreases cols@.len() - i,
    {
        proof {
            lemma_join_step(items, ", "@, i as int);
        }
        if i > 0 {
            push_str(&mut out, ", ");
        }
        let name = cols[i].1.as_str();
        let quoted = quote(name);
        assert(items[i as int] == projection_item(cols@[i as int].0, name@));
        if cols[i].0 == JSON_TYPE_CODE {
            push_str(&mut out, "JSON_SERIALIZE(");
            push_str(&mut out, quoted.as_str());
            push_str(&mut out, " RETURNING CLOB) AS ");
            push_str(&mut out, quoted.as_str());
        } else {
            push_str(&mut out, quoted.as_str());
        }
        assert(out@ =~= join(items.take(i + 1), ", "@));
        i = i + 1;
    }
    assert(items.take(cols@.len() as int) =~= items);
    Some(out)
}

/// The line the describe block writes for one column: its type code, `:`,
/// its name.
pub open spec fn describe_line(col: (u32, Seq<char>)) -> Seq<char> {
    dec(col.0 as nat) + seq![':'] + col.1
}

/// The OUT buffer the describe block writes for its columns: each line
/// terminated by CHR(1).
pub open spec fn describe_text(cols: Seq<(u32, Seq<char>)>) -> Seq<char>
    decreases cols.len(),
{
    if cols.len() == 0 {
        seq![]
    } else {
        describe_line(cols[0]) + seq!['\u{1}'] + describe_text(cols.drop_first())
    }
}

proof fn lemma_pieces_plain(a: Seq<char>, b: Seq<char>, cur: Seq<char>)
    requires
        !a.contains('\u{1}'),
    ensures
        pieces_from(a + b, cur) == pieces_from(b, cur + a),
    decreases a.len(),
{
    if a.len() == 0 {
        assert(a + b =~= b);
        assert(cur + a =~= cur);
    } else {
        assert((a + b)[0] == a[0]);
        assert((a + b).drop_first() =~= a.drop_first() + b);
        assert(!a.drop_first().contains('\u{1}')) by {
            if a.drop_first().contains('\u{1}') {
                let j = choose|j: int| 0 <= j < a.drop_first().len() && a.drop_first()[j] == '\u{1}';
                assert(a[j + 1] == '\u{1}');
            }
        }
        lemma_pieces_plain(a.drop_first(), b, cur.push(a[0]));
        assert(cur.push(a[0]) + a.drop_first() =~= cur + a);
    }
}

proof fn lemma_pieces_of_text(cols: Seq<(u32, Seq<char>)>)
    requires
        forall|i: int| 0 <= i < cols.len() ==> !(#[trigger] cols[i]).1.contains('\u{1}'),
    ensures
        pieces_from(describe_text(cols), seq![]) == cols.map_values(
            |c: (u32, Seq<char>)| describe_line(c),
        ) + seq![Seq::<char>::empty()],
    decreases cols.len(),
{
    if cols.len() == 0 {
        assert(cols.map_values(|c: (u32, Seq<char>)| describe_line(c)) + seq![
            Seq::<char>::empty(),
        ] =~= seq![Seq::<char>::empty()]);
    } else {
        let line = describe_line(cols[0]);
        let rest = cols.drop_first();
        assert forall|i: int| 0 <= i < rest.len() implies !(#[trigger] rest[i]).1.contains(
            '\u{1}',
        ) by {
            assert(rest[i] == cols[i + 1]);
        }
        lemma_pieces_of_text(rest);
        assert(!line.contains('\u{1}')) by {
            let d = dec(cols[0].0 as nat);
            lemma_dec_digits(cols[0].0 as nat);
            assert(!cols[0].1.contains('\u{1}'));
            if line.contains('\u{1}') {
                let j = choose|j: int| 0 <= j < line.len() && line[j] == '\u{1}';
                if j < d.len() {
                    assert(line[j] == d[j]);
                    assert(is_digit(d[j]));
                } else if j == d.len() {
                    assert(line[j] == ':');
                } else {
                    assert(line[j] == cols[0].1[j - d.len() - 1]);
                }
            }
        }
        let tail = seq!['\u{1}'] + describe_text(rest);
        assert(describe_text(cols) =~= line + tail);
        lemma_pieces_plain(line, tail, seq![]);
        assert(Seq::<char>::empty() + line =~= line);
        assert(tail[0] == '\u{1}');
        assert(tail.drop_first() =~= describe_text(rest));
        assert(cols.map_values(|c: (u32, Seq<char>)| describe_line(c)) =~= seq![line]
            + rest.map_values(|c: (u32, Seq<char>)| describe_line(c)));
        assert(pieces_from(describe_text(cols), seq![]) =~= cols.map_values(
            |c: (u32, Seq<char>)| describe_line(c),
        ) + seq![Seq::<char>::empty()]);
    }
}

proof fn lemma_describe_all_append(a: Seq<Seq<char>>, b: Seq<Seq<char>>)
    ensures
        describe_all(a + b) == describe_all(a) + describe_all(b),
    decreases b.len(),
{
    if b.len() == 0 {
        assert(a + b =~= a);
        assert(describe_all(a) + describe_all(b) =~= describe_all(a));
    } else {
        assert((a + b).drop_last() =~= a + b.drop_last());
        assert((a + b).last() == b.last());
        lemma_describe_all_append(a, b.drop_last());
        assert(describe_all(a + b) =~= describe_all(a) + describe_all(b));
    }
}

proof fn lemma_describe_line(col: (u32, Seq<char>))
    ensures
        describe_entry(describe_line(col)) == Some(col),
{
    let d = dec(col.0 as nat);
    let line = describe_line(col);
    lemma_dec_digits(col.0 as nat);
    lemma_dec_value(col.0 as nat);
    assert(line[d.len() as int] == ':');
    assert forall|j: int| 0 <= j < d.len() implies line[j] != ':' by {
        assert(line[j] == d[j]);
        assert(is_digit(d[j]));
    }
    lemma_find_char_unique(line, ':', d.len() as int);
    assert(line.take(d.len() as int) =~= d);
    assert(line.skip(d.len() as int + 1) =~= col.1);
    assert(is_digit(d[0]));
    assert(crate::text::unsigned_text(d) == Some(col.0 as int));
}

proof fn lemma_describe_lines(cols: Seq<(u32, Seq<char>)>)
    ensures
        describe_all(cols.map_values(|c: (u32, Seq<char>)| describe_line(c))) == cols,
    decreases cols.len(),
{
    if cols.len() > 0 {
        let m = cols.map_values(|c: (u32, Seq<char>)| describe_line(c));
        assert(m.drop_last() =~= cols.drop_last().map_values(
            |c: (u32, Seq<char>)| describe_line(c),
        ));
        lemma_describe_lines(cols.drop_last());
        lemma_describe_line(cols.last());
        assert(describe_all(m) =~= cols);
    } else {
        assert(cols.map_values(|c: (u32, Seq<char>)| describe_line(c)) =~= Seq::<
            Seq<char>,
        >::empty());
        assert(cols =~= Seq::<(u32, Seq<char>)>::empty());
    }
}

/// Parsing the buffer the describe block writes gives its columns back,
/// as long as no column name holds the CHR(1) terminator.
pub proof fn lemma_parse_describe_round_trip(cols: Seq<(u32, Seq<char>)>)
    requires
        forall|i: int| 0 <= i < cols.len() ==> !(#[trigger] cols[i]).1.contains('\u{1}'),
    ensures
        parse_describe_spec(describe_text(cols)) == cols,
{
    lemma_pieces_of_text(cols);
    let m = cols.map_values(|c: (u32, Seq<char>)| describe_line(c));
    lemma_describe_all_append(m, seq![Seq::<char>::empty()]);
    lemma_describe_lines(cols);
    let last: Seq<Seq<char>> = seq![Seq::<char>::empty()];
    assert(last.drop_last() =~= Seq::<Seq<char>>::empty());
    assert(describe_entry(last.last()) is None);
    assert(describe_all(last.drop_last()) =~= Seq::<(u32, Seq<char>)>::empty());
    assert(describe_all(last) =~= Seq::<(u32, Seq<char>)>::empty());
    assert(describe_all(m) + describe_all(last) =~= cols);
}

/// The JSON-safe select list exists exactly when some described column has
/// the JSON type code 119; it then lists every column in order, a JSON
/// column as `JSON_SERIALIZE("C" RETURNING CLOB) AS "C"` and any other as
/// its quoted name, separated by `, `.
pub proof fn lemma_projection(cols: Seq<(u32, Seq<char>)>)
    ensures
        projection_spec(cols) is Some <==> exists|j: int|
            0 <= j < cols.len() && (#[trigger] cols[j]).0 == 119,
        projection_spec(cols) is Some ==> projection_spec(cols)->0 == join(
            Seq::new(
                cols.len(),
                |j: int|
                    if cols[j].0 == 119 {
                        "JSON_SERIALIZE("@ + quote_spec(cols[j].1) + " RETURNING CLOB) AS "@
                            + quote_spec(cols[j].1)
                    } else {
                        quote_spec(cols[j].1)
                    },
            ),
            ", "@,
        ),
{
    if projection_spec(cols) is Some {
        assert(cols.map_values(|e: (u32, Seq<char>)| projection_item(e.0, e.1)) =~= Seq::new(
            cols.len(),
            |j: int|
                if cols[j].0 == 119 {
                    "JSON_SERIALIZE("@ + quote_spec(cols[j].1) + " RETURNING CLOB) AS "@
                        + quote_spec(cols[j].1)
                } else {
                    quote_spec(cols[j].1)
                },
        ));
    }
}

} // verus!
