use vstd::prelude::*;
use vstd::hash_map::StringHashMap;
use crate::text::{push_char, pop_char};

verus! {

broadcast use vstd::string::group_string_axioms;

/// The game database: title id to (region, content id).
pub type TitleTable = StringHashMap<(String, String)>;

/// The pieces of `s` between occurrences of `sep`, as `str::split` yields them:
/// there is always at least one piece, and `k` separators give `k + 1` pieces.
pub open spec fn split_on(s: Seq<char>, sep: char) -> Seq<Seq<char>>
    decreases s.len(),
{
    if s.len() == 0 {
        seq![Seq::<char>::empty()]
    } else {
        let prev = split_on(s.drop_last(), sep);
        if s.last() == sep {
            prev.push(Seq::<char>::empty())
        } else {
            prev.update(prev.len() - 1, prev.last().push(s.last()))
        }
    }
}

/// A line that was ended by `'\n'` loses one trailing `'\r'`.
pub open spec fn strip_cr(line: Seq<char>) -> Seq<char> {
    if line.len() > 0 && line.last() == '\r' {
        line.drop_last()
    } else {
        line
    }
}

/// The lines of `s` as `str::lines` yields them: split at `'\n'`, one `'\r'`
/// before each `'\n'` removed, and no empty line after a final `'\n'`.
pub open spec fn text_lines(s: Seq<char>) -> Seq<Seq<char>> {
    let segs = split_on(s, '\n');
    let ended = segs.drop_last().map_values(|l: Seq<char>| strip_cr(l));
    if segs.last().len() == 0 {
        ended
    } else {
        ended.push(segs.last())
    }
}

/// The table that a sequence of TSV lines describes: every line with at least
/// six tab-separated fields maps its first field to its second and sixth;
/// a later line for the same title id replaces an earlier one.
pub open spec fn tsv_entries(lines: Seq<Seq<char>>) -> Map<Seq<char>, (Seq<char>, Seq<char>)>
    decreases lines.len(),
{
    if lines.len() == 0 {
        Map::empty()
    } else {
        let prev = tsv_entries(lines.drop_last());
        let fields = split_on(lines.last(), '\t');
        if fields.len() >= 6 {
            prev.insert(fields[0], (fields[1], fields[5]))
        } else {
            prev
        }
    }
}

/// The title table of a whole TSV text.
pub open spec fn tsv_table(s: Seq<char>) -> Map<Seq<char>, (Seq<char>, Seq<char>)> {
    tsv_entries(text_lines(s))
}

/// The title table that a map of `(region, content id)` strings holds, by views.
pub open spec fn table_view(m: Map<Seq<char>, (String, String)>) -> Map<Seq<char>, (Seq<char>, Seq<char>)> {
    Map::new(|k: Seq<char>| m.dom().contains(k), |k: Seq<char>| (m[k].0@, m[k].1@))
}

pub proof fn lemma_split_on_nonempty(s: Seq<char>, sep: char)
    ensures
        split_on(s, sep).len() >= 1,
    decreases s.len(),
{
    if s.len() > 0 {
        lemma_split_on_nonempty(s.drop_last(), sep);
    }
}

proof fn lemma_split_on_push(s: Seq<char>, c: char, sep: char)
    ensures
        split_on(s.push(c), sep) == (if c == sep {
            split_on(s, sep).push(Seq::<char>::empty())
        } else {
            split_on(s, sep).update(split_on(s, sep).len() - 1, split_on(s, sep).last().push(c))
        }),
{
    assert(s.push(c).drop_last() =~= s);
}

/// The last piece of a split, read off the last character of the text.
proof fn lemma_split_on_last(s: Seq<char>, sep: char)
    ensures
        split_on(s, sep).len() >= 1,
        s.len() > 0 && s.last() != sep ==> split_on(s, sep).last().len() > 0,
        split_on(s, sep).last().len() > 0 ==> {
            &&& s.len() > 0
            &&& s.last() != sep
            &&& s.last() == split_on(s, sep).last().last()
            &&& split_on(s.drop_last(), sep) == split_on(s, sep).update(
                split_on(s, sep).len() - 1,
                split_on(s, sep).last().drop_last(),
            )
        },
{
    lemma_split_on_nonempty(s, sep);
    if s.len() > 0 {
        lemma_split_on_nonempty(s.drop_last(), sep);
        let prev = split_on(s.drop_last(), sep);
        if s.last() != sep {
            assert(prev.last().push(s.last()).drop_last() =~= prev.last());
            assert(split_on(s, sep).update(split_on(s, sep).len() - 1, split_on(s, sep).last().drop_last()) =~= prev);
        }
    }
}

proof fn lemma_table_view_insert(m: Map<Seq<char>, (String, String)>, k: Seq<char>, v: (String, String))
    ensures
        table_view(m.insert(k, v)) == table_view(m).insert(k, (v.0@, v.1@)),
{
    assert(table_view(m.insert(k, v)) =~= table_view(m).insert(k, (v.0@, v.1@)));
}

/// The fields of a line, given as the completed fields and the field in progress.
spec fn fields_view(done: Seq<String>, field: String) -> Seq<Seq<char>> {
    done.map_values(|f: String| f@).push(field@)
}

/// Records the line whose fields are `done` followed by `field`, if it has at least six.
fn record_line(
    table: &mut StringHashMap<(String, String)>,
    done: &Vec<String>,
    field: &String,
)
    ensures
        table_view(final(table)@) == ({
            let f = fields_view(done@, *field);
            if f.len() >= 6 {
                table_view(old(table)@).insert(f[0], (f[1], f[5]))
            } else {
                table_view(old(table)@)
            }
        }),
{
    let ghost f = fields_view(done@, *field);
    if done.len() >= 5 {
        let titleid = done[0].clone();
        let region = done[1].clone();
        let content_id = if done.len() >= 6 {
            done[5].clone()
        } else {
            field.clone()
        };
        assert(f[0] == titleid@);
        assert(f[1] == region@);
        assert(f[5] == content_id@);
        proof {
            lemma_table_view_insert(table@, titleid@, (region, content_id));
        }
        table.insert(titleid, (region, content_id));
    }
}

/// Parses the tab-separated game database: for each line with at least six
/// fields, the first field (the title id) maps to the second (the region) and
/// the sixth (the content id). Shorter lines are skipped, and a later line for
/// the same title id wins.
pub fn parse_tsv(tsv: &str) -> (map: StringHashMap<(String, String)>)
    ensures
        table_view(map@) == tsv_table(tsv@),
{
    let mut table: StringHashMap<(String, String)> = StringHashMap::new();
    let mut done: Vec<String> = Vec::new();
    let mut field = String::new();
    let mut in_line = false;
    let ghost mut cur: Seq<char> = Seq::empty();
    proof {
        assert(tsv@.take(0) =~= Seq::<char>::empty());
        assert(fields_view(done@, field) =~= seq![Seq::<char>::empty()]);
        assert(split_on(Seq::<char>::empty(), '\n').drop_last() =~= Seq::<Seq<char>>::empty());
        assert(split_on(Seq::<char>::empty(), '\n').drop_last().map_values(|l: Seq<char>| strip_cr(l))
            =~= Seq::<Seq<char>>::empty());
        assert(table_view(table@) =~= Map::empty());
    }
    for c in it: tsv.chars()
        invariant
            it.seq() == tsv@,
            split_on(tsv@.take(it.index() as int), '\n').last() == cur,
            split_on(cur, '\t') == fields_view(done@, field),
            in_line == (cur.len() > 0),
            table_view(table@) == tsv_entries(
                split_on(tsv@.take(it.index() as int), '\n').drop_last().map_values(
                    |l: Seq<char>| strip_cr(l),
                ),
            ),
    {
        let ghost i = it.index() as int;
        let ghost prefix = tsv@.take(i);
        let ghost segs = split_on(prefix, '\n');
        proof {
            assert(tsv@.take(i + 1) =~= prefix.push(c));
            lemma_split_on_push(prefix, c, '\n');
            lemma_split_on_nonempty(prefix, '\n');
            lemma_split_on_push(cur, c, '\t');
            lemma_split_on_nonempty(cur, '\t');
        }
        if c == '\n' {
            let ghost line = cur;
            let ghost old_field = field@;
            proof {
                lemma_split_on_last(line, '\t');
                assert(old_field == split_on(line, '\t').last());
            }
            match pop_char(&mut field) {
                Some(last) => {
                    if last != '\r' {
                        push_char(&mut field, last);
                        assert(field@ =~= old_field);
                    }
                },
                None => {},
            }
            proof {
                assert(fields_view(done@, field) =~= split_on(strip_cr(line), '\t'));
            }
            record_line(&mut table, &done, &field);
            done = Vec::new();
            field = String::new();
            in_line = false;
            proof {
                cur = Seq::empty();
                assert(fields_view(done@, field) =~= seq![Seq::<char>::empty()]);
                let segs2 = split_on(prefix.push(c), '\n');
                assert(segs2.drop_last() =~= segs);
                assert(segs.map_values(|l: Seq<char>| strip_cr(l)) =~= segs.drop_last().map_values(
                    |l: Seq<char>| strip_cr(l),
                ).push(strip_cr(line)));
                assert(segs.map_values(|l: Seq<char>| strip_cr(l)).drop_last() =~= segs.drop_last().map_values(
                    |l: Seq<char>| strip_cr(l)));
            }
        } else if c == '\t' {
            done.push(field);
            field = String::new();
            in_line = true;
            proof {
                cur = cur.push(c);
                assert(fields_view(done@, field) =~= split_on(cur, '\t'));
                assert(split_on(prefix.push(c), '\n').drop_last() =~= segs.drop_last());
            }
        } else {
            push_char(&mut field, c);
            in_line = true;
            proof {
                cur = cur.push(c);
                assert(fields_view(done@, field) =~= split_on(cur, '\t'));
                assert(split_on(prefix.push(c), '\n').drop_last() =~= segs.drop_last());
            }
        }
    }
    proof {
        assert(tsv@.take(tsv@.len() as int) =~= tsv@);
        lemma_split_on_nonempty(tsv@, '\n');
    }
    let ghost segs = split_on(tsv@, '\n');
    let ghost ended = segs.drop_last().map_values(|l: Seq<char>| strip_cr(l));
    if in_line {
        record_line(&mut table, &done, &field);
        proof {
            assert(ended.push(segs.last()).drop_last() =~= ended);
        }
    }
    table
}

/// Splitting a text that follows a separator continues the split of what came before.
proof fn lemma_split_on_append(a: Seq<char>, b: Seq<char>, sep: char)
    requires
        a.len() > 0,
        a.last() == sep,
    ensures
        split_on(a + b, sep) == split_on(a, sep).drop_last() + split_on(b, sep),
    decreases b.len(),
{
    lemma_split_on_nonempty(a, sep);
    lemma_split_on_nonempty(b, sep);
    if b.len() == 0 {
        assert(a + b =~= a);
        lemma_split_on_push(a.drop_last(), sep, sep);
        assert(a.drop_last().push(sep) =~= a);
        assert(split_on(a, sep).drop_last() + split_on(b, sep) =~= split_on(a, sep));
    } else {
        let b0 = b.drop_last();
        let c = b.last();
        lemma_split_on_append(a, b0, sep);
        assert(a + b =~= (a + b0).push(c));
        assert(b =~= b0.push(c));
        lemma_split_on_push(a + b0, c, sep);
        lemma_split_on_push(b0, c, sep);
        lemma_split_on_nonempty(b0, sep);
        let front = split_on(a, sep).drop_last();
        if c == sep {
            assert(split_on(a + b, sep) =~= front + split_on(b, sep));
        } else {
            assert(split_on(a + b, sep) =~= front + split_on(b, sep));
        }
    }
}

/// The lines of two texts joined after a line end are the lines of each.
proof fn lemma_text_lines_append(a: Seq<char>, b: Seq<char>)
    requires
        a.len() == 0 || a.last() == '\n',
    ensures
        text_lines(a + b) == text_lines(a) + text_lines(b),
{
    lemma_split_on_nonempty(a, '\n');
    lemma_split_on_nonempty(b, '\n');
    if a.len() == 0 {
        assert(a + b =~= b);
        assert(split_on(a, '\n') =~= seq![Seq::<char>::empty()]);
        assert(text_lines(a) =~= Seq::<Seq<char>>::empty());
        assert(text_lines(a) + text_lines(b) =~= text_lines(b));
    } else {
        lemma_split_on_append(a, b, '\n');
        lemma_split_on_push(a.drop_last(), '\n', '\n');
        assert(a.drop_last().push('\n') =~= a);
        let sa = split_on(a, '\n');
        let sb = split_on(b, '\n');
        let sab = split_on(a + b, '\n');
        assert(sa.last().len() == 0);
        assert(sab.last() == sb.last());
        assert(sab.drop_last() =~= sa.drop_last() + sb.drop_last());
        let f = |l: Seq<char>| strip_cr(l);
        assert((sa.drop_last() + sb.drop_last()).map_values(f) =~= sa.drop_last().map_values(f)
            + sb.drop_last().map_values(f));
        if sb.last().len() == 0 {
            assert(text_lines(a + b) =~= text_lines(a) + text_lines(b));
        } else {
            assert(text_lines(a + b) =~= text_lines(a) + text_lines(b));
        }
    }
}

/// The table of two runs of lines is the table of the first, updated by the table of the second.
proof fn lemma_tsv_entries_append(l1: Seq<Seq<char>>, l2: Seq<Seq<char>>)
    ensures
        tsv_entries(l1 + l2) == tsv_entries(l1).union_prefer_right(tsv_entries(l2)),
    decreases l2.len(),
{
    if l2.len() == 0 {
        assert(l1 + l2 =~= l1);
        assert(tsv_entries(l1).union_prefer_right(tsv_entries(l2)) =~= tsv_entries(l1));
    } else {
        lemma_tsv_entries_append(l1, l2.drop_last());
        assert((l1 + l2).drop_last() =~= l1 + l2.drop_last());
        assert((l1 + l2).last() == l2.last());
        let fields = split_on(l2.last(), '\t');
        if fields.len() >= 6 {
            assert(tsv_entries(l1 + l2) =~= tsv_entries(l1).union_prefer_right(tsv_entries(l2)));
        } else {
            assert(tsv_entries(l1 + l2) =~= tsv_entries(l1).union_prefer_right(tsv_entries(l2)));
        }
    }
}

/// Reading a database in two parts, the first ending at a line end, gives the
/// table of the first part updated by the table of the second: an entry in
/// the second part replaces one for the same title id in the first.
pub proof fn law_tsv_table_append(a: Seq<char>, b: Seq<char>)
    requires
        a.len() == 0 || a.last() == '\n',
    ensures
        tsv_table(a + b) == tsv_table(a).union_prefer_right(tsv_table(b)),
{
    lemma_text_lines_append(a, b);
    lemma_tsv_entries_append(text_lines(a), text_lines(b));
}

/// A line with fewer than six fields leaves the table as it was.
pub proof fn law_short_line_ignored(a: Seq<char>, line: Seq<char>)
    requires
        a.len() == 0 || a.last() == '\n',
        !line.contains('\n'),
        split_on(line, '\t').len() < 6,
    ensures
        tsv_table(a + line.push('\n')) == tsv_table(a),
{
    law_tsv_table_append(a, line.push('\n'));
    lemma_split_on_push(line, '\n', '\n');
    lemma_split_on_no_sep(line, '\n');
    let segs = split_on(line.push('\n'), '\n');
    assert(segs =~= seq![line, Seq::<char>::empty()]);
    assert(text_lines(line.push('\n')) =~= seq![strip_cr(line)]);
    lemma_strip_cr_fields(line);
    let lines = text_lines(line.push('\n'));
    assert(lines.drop_last() =~= Seq::<Seq<char>>::empty());
    assert(tsv_entries(lines.drop_last()) == Map::<Seq<char>, (Seq<char>, Seq<char>)>::empty());
    assert(lines.last() == strip_cr(line));
    assert(tsv_table(line.push('\n')) =~= Map::empty());
    assert(tsv_table(a).union_prefer_right(Map::empty()) =~= tsv_table(a));
}

/// A line with at least six fields sets its title id to its region and content id.
pub proof fn law_full_line_sets_entry(a: Seq<char>, line: Seq<char>)
    requires
        a.len() == 0 || a.last() == '\n',
        !line.contains('\n'),
        split_on(strip_cr(line), '\t').len() >= 6,
    ensures
        ({
            let f = split_on(strip_cr(line), '\t');
            tsv_table(a + line.push('\n')) == tsv_table(a).insert(f[0], (f[1], f[5]))
        }),
{
    law_tsv_table_append(a, line.push('\n'));
    lemma_split_on_push(line, '\n', '\n');
    lemma_split_on_no_sep(line, '\n');
    let segs = split_on(line.push('\n'), '\n');
    assert(segs =~= seq![line, Seq::<char>::empty()]);
    assert(text_lines(line.push('\n')) =~= seq![strip_cr(line)]);
    let lines = text_lines(line.push('\n'));
    assert(lines.drop_last() =~= Seq::<Seq<char>>::empty());
    assert(tsv_entries(lines.drop_last()) == Map::<Seq<char>, (Seq<char>, Seq<char>)>::empty());
    assert(lines.last() == strip_cr(line));
    let f = split_on(strip_cr(line), '\t');
    assert(tsv_table(line.push('\n')) =~= Map::empty().insert(f[0], (f[1], f[5])));
    assert(tsv_table(a).union_prefer_right(Map::empty().insert(f[0], (f[1], f[5]))) =~= tsv_table(
        a,
    ).insert(f[0], (f[1], f[5])));
}

/// A text without the separator is a single piece.
proof fn lemma_split_on_no_sep(s: Seq<char>, sep: char)
    requires
        !s.contains(sep),
    ensures
        split_on(s, sep) == seq![s],
    decreases s.len(),
{
    if s.len() == 0 {
        assert(s =~= Seq::<char>::empty());
    } else {
        assert(!s.drop_last().contains(sep)) by {
            if s.drop_last().contains(sep) {
                let j = choose|j: int| 0 <= j < s.drop_last().len() && s.drop_last()[j] == sep;
                assert(s[j] == sep);
            }
        }
        lemma_split_on_no_sep(s.drop_last(), sep);
        assert(s.last() != sep) by {
            assert(s[s.len() - 1] == s.last());
        }
        assert(s.drop_last().push(s.last()) =~= s);
        let prev = split_on(s.drop_last(), sep);
        assert(prev.update(prev.len() - 1, prev.last().push(s.last())) =~= seq![s]);
    }
}

/// Dropping a final `'\r'` never adds fields.
proof fn lemma_strip_cr_fields(line: Seq<char>)
    ensures
        split_on(strip_cr(line), '\t').len() <= split_on(line, '\t').len(),
{
    if line.len() > 0 && line.last() == '\r' {
        lemma_split_on_last(line, '\t');
    }
}

} // verus!
