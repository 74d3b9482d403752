//! The `config.txt` format: lines of `name=value`. A line counts as an entry
//! when it holds exactly one `=`; every other line is ignored when the file is
//! read and dropped when it is rewritten.
use vstd::prelude::*;

use crate::text::{lemma_split_append_sep, lemma_split_no_sep, lemma_split_pieces_avoid, split, split_on, views};

verus! {

/// A config entry as text: its name and its value.
pub type EntryView = (Seq<char>, Seq<char>);

/// The entry a line holds, if it holds one.
pub open spec fn line_entry(line: Seq<char>) -> Option<EntryView> {
    let fields = split(line, '=');
    if fields.len() == 2 {
        Some((fields[0], fields[1]))
    } else {
        None
    }
}

/// The entries of a sequence of lines, in order.
pub open spec fn entries_of_lines(lines: Seq<Seq<char>>) -> Seq<EntryView>
    decreases lines.len(),
{
    if lines.len() == 0 {
        Seq::<EntryView>::empty()
    } else {
        let prev = entries_of_lines(lines.drop_last());
        match line_entry(lines.last()) {
            Some(e) => prev.push(e),
            None => prev,
        }
    }
}

/// The entries of a config file's contents, in the order of their lines.
pub open spec fn config_entries_of(contents: Seq<char>) -> Seq<EntryView> {
    entries_of_lines(split(contents, '\n'))
}

/// The line that holds an entry.
pub open spec fn entry_line(e: EntryView) -> Seq<char> {
    e.0 + seq!['='] + e.1
}

/// Entries written one per line, each line ended by a newline.
pub open spec fn render(es: Seq<EntryView>) -> Seq<char>
    decreases es.len(),
{
    if es.len() == 0 {
        Seq::<char>::empty()
    } else {
        render(es.drop_last()) + entry_line(es.last()) + seq!['\n']
    }
}

/// The entries with every value under `name` replaced by `value`.
pub open spec fn set_value(es: Seq<EntryView>, name: Seq<char>, value: Seq<char>) -> Seq<EntryView> {
    es.map_values(|e: EntryView| if e.0 == name { (e.0, value) } else { e })
}

/// Whether some entry has the given name.
pub open spec fn has_name(es: Seq<EntryView>, name: Seq<char>) -> bool {
    exists|i: int| 0 <= i < es.len() && (#[trigger] es[i]).0 == name
}

/// The contents of the config file after `name` is set to `value`: the entries
/// rewritten one per line, with every value under `name` replaced; where no entry
/// has that name, `name=value` is added at the end, with no newline after it.
pub open spec fn updated_config(contents: Seq<char>, name: Seq<char>, value: Seq<char>) -> Seq<char> {
    let es = config_entries_of(contents);
    render(set_value(es, name, value)) + if has_name(es, name) {
        Seq::<char>::empty()
    } else {
        entry_line((name, value))
    }
}

/// Text that can stand as a name or a value in the file without changing its lines.
pub open spec fn is_plain_field(s: Seq<char>) -> bool {
    !s.contains('=') && !s.contains('\n')
}

/// Every entry of the lines has a plain name and value when no line holds a newline.
proof fn lemma_entries_plain(lines: Seq<Seq<char>>)
    requires
        forall|i: int| 0 <= i < lines.len() ==> !(#[trigger] lines[i]).contains('\n'),
    ensures
        forall|i: int|
            0 <= i < entries_of_lines(lines).len() ==> is_plain_field((#[trigger] entries_of_lines(lines)[i]).0)
                && is_plain_field(entries_of_lines(lines)[i].1),
    decreases lines.len(),
{
    if lines.len() > 0 {
        let t = lines.drop_last();
        assert forall|i: int| 0 <= i < t.len() implies !(#[trigger] t[i]).contains('\n') by {
            assert(t[i] == lines[i]);
        }
        lemma_entries_plain(t);
        let line = lines.last();
        assert(!line.contains('\n')) by {
            assert(lines[lines.len() - 1] == line);
        }
        lemma_split_pieces_avoid(line, '=', '\n');
        let prev = entries_of_lines(t);
        let fields = split(line, '=');
        if fields.len() == 2 {
            assert(!fields[0].contains('=') && !fields[0].contains('\n'));
            assert(!fields[1].contains('=') && !fields[1].contains('\n'));
            let e: EntryView = (fields[0], fields[1]);
            assert(entries_of_lines(lines) == prev.push(e));
            assert forall|i: int| 0 <= i < prev.push(e).len() implies is_plain_field((#[trigger] prev.push(e)[i]).0)
                && is_plain_field(prev.push(e)[i].1) by {
                if i < prev.len() {
                    assert(prev.push(e)[i] == prev[i]);
                }
            }
        }
    }
}

/// The entries of a config file all have plain names and values.
proof fn lemma_config_entries_plain(contents: Seq<char>)
    ensures
        forall|i: int|
            0 <= i < config_entries_of(contents).len() ==> is_plain_field((#[trigger] config_entries_of(contents)[i]).0)
                && is_plain_field(config_entries_of(contents)[i].1),
{
    lemma_split_pieces_avoid(contents, '\n', '\n');
    lemma_entries_plain(split(contents, '\n'));
}

/// The lines that hold the entries.
pub open spec fn entry_lines(es: Seq<EntryView>) -> Seq<Seq<char>> {
    es.map_values(|e: EntryView| entry_line(e))
}

/// Rendered entries split back into their lines, followed by the pieces of what comes after.
proof fn lemma_split_render(es: Seq<EntryView>, tail: Seq<char>)
    requires
        forall|i: int| 0 <= i < es.len() ==> is_plain_field((#[trigger] es[i]).0) && is_plain_field(es[i].1),
    ensures
        split(render(es) + tail, '\n') == entry_lines(es) + split(tail, '\n'),
    decreases es.len(),
{
    if es.len() > 0 {
        let t = es.drop_last();
        let e = es.last();
        let line = entry_line(e);
        assert(is_plain_field(e.0) && is_plain_field(e.1)) by {
            assert(es[es.len() - 1] == e);
        }
        assert(!line.contains('\n')) by {
            if line.contains('\n') {
                let k = choose|k: int| 0 <= k < line.len() && line[k] == '\n';
                if k < e.0.len() {
                    assert(e.0[k] == '\n');
                } else if k > e.0.len() {
                    assert(e.1[k - e.0.len() - 1] == '\n');
                }
            }
        }
        lemma_split_render(t, line);
        lemma_split_no_sep(line, '\n');
        lemma_split_append_sep(render(t) + line, tail, '\n');
        assert(render(es) + tail =~= (render(t) + line) + seq!['\n'] + tail);
        assert(entry_lines(es) =~= entry_lines(t) + seq![line]);
        assert(entry_lines(t) + seq![line] + split(tail, '\n') =~= entry_lines(t) + split(line, '\n')
            + split(tail, '\n'));
    } else {
        assert(render(es) + tail =~= tail);
        assert(entry_lines(es) + split(tail, '\n') =~= split(tail, '\n'));
    }
}

/// The entries of consecutive lines are the entries of each part.
proof fn lemma_entries_append(a: Seq<Seq<char>>, b: Seq<Seq<char>>)
    ensures
        entries_of_lines(a + b) == entries_of_lines(a) + entries_of_lines(b),
    decreases b.len(),
{
    if b.len() == 0 {
        assert(a + b =~= a);
        assert(entries_of_lines(a) + entries_of_lines(b) =~= entries_of_lines(a));
    } else {
        lemma_entries_append(a, b.drop_last());
        assert((a + b).drop_last() =~= a + b.drop_last());
        assert((a + b).last() == b.last());
        match line_entry(b.last()) {
            Some(e) => {
                assert(entries_of_lines(a) + entries_of_lines(b.drop_last()).push(e) =~= (entries_of_lines(a)
                    + entries_of_lines(b.drop_last())).push(e));
            },
            None => {},
        }
    }
}

/// The entries of a single line.
proof fn lemma_entries_single(line: Seq<char>)
    ensures
        entries_of_lines(seq![line]) == match line_entry(line) {
            Some(e) => seq![e],
            None => Seq::<EntryView>::empty(),
        },
{
    assert(seq![line].drop_last() =~= Seq::<Seq<char>>::empty());
    assert(seq![line].last() == line);
    assert(entries_of_lines(Seq::<Seq<char>>::empty()) =~= Seq::<EntryView>::empty());
    match line_entry(line) {
        Some(e) => {
            assert(Seq::<EntryView>::empty().push(e) =~= seq![e]);
        },
        None => {},
    }
}

/// The line of a plain entry holds that entry.
proof fn lemma_line_entry_of_entry_line(e: EntryView)
    requires
        is_plain_field(e.0),
        is_plain_field(e.1),
    ensures
        line_entry(entry_line(e)) == Some(e),
{
    lemma_split_append_sep(e.0, e.1, '=');
    lemma_split_no_sep(e.0, '=');
    lemma_split_no_sep(e.1, '=');
    assert(seq![e.0] + seq![e.1] =~= seq![e.0, e.1]);
}

/// Reading back the lines of plain entries gives the entries.
proof fn lemma_entries_of_entry_lines(es: Seq<EntryView>)
    requires
        forall|i: int| 0 <= i < es.len() ==> is_plain_field((#[trigger] es[i]).0) && is_plain_field(es[i].1),
    ensures
        entries_of_lines(entry_lines(es)) == es,
    decreases es.len(),
{
    if es.len() > 0 {
        let t = es.drop_last();
        lemma_entries_of_entry_lines(t);
        assert(entry_lines(es).drop_last() =~= entry_lines(t));
        assert(es[es.len() - 1] == es.last());
        lemma_line_entry_of_entry_line(es.last());
        assert(t.push(es.last()) =~= es);
    } else {
        assert(entry_lines(es) =~= Seq::<Seq<char>>::empty());
    }
}

/// Setting a value keeps names and values plain.
proof fn lemma_set_value_plain(es: Seq<EntryView>, name: Seq<char>, value: Seq<char>)
    requires
        is_plain_field(value),
        forall|i: int| 0 <= i < es.len() ==> is_plain_field((#[trigger] es[i]).0) && is_plain_field(es[i].1),
    ensures
        forall|i: int|
            0 <= i < set_value(es, name, value).len() ==> is_plain_field((#[trigger] set_value(es, name, value)[i]).0)
                && is_plain_field(set_value(es, name, value)[i].1),
{
    assert forall|i: int| 0 <= i < set_value(es, name, value).len() implies is_plain_field(
        (#[trigger] set_value(es, name, value)[i]).0,
    ) && is_plain_field(set_value(es, name, value)[i].1) by {
        assert(is_plain_field(es[i].0));
    }
}

/// What `read` lists after `write`: when the name and the value are plain text,
/// the entries of the rewritten file are the old entries with every value under
/// the name replaced, or, where no entry had that name, the old entries followed
/// by the new one. Lines that held no entry are gone and no other entry changes.
pub proof fn lemma_update_config_entries(contents: Seq<char>, name: Seq<char>, value: Seq<char>)
    requires
        is_plain_field(name),
        is_plain_field(value),
    ensures
        config_entries_of(updated_config(contents, name, value)) == if has_name(
            config_entries_of(contents),
            name,
        ) {
            set_value(config_entries_of(contents), name, value)
        } else {
            config_entries_of(contents).push((name, value))
        },
{
    let es = config_entries_of(contents);
    lemma_config_entries_plain(contents);
    lemma_set_value_plain(es, name, value);
    let ns = set_value(es, name, value);
    let tail = if has_name(es, name) {
        Seq::<char>::empty()
    } else {
        entry_line((name, value))
    };
    lemma_split_render(ns, tail);
    lemma_entries_append(entry_lines(ns), split(tail, '\n'));
    lemma_entries_of_entry_lines(ns);
    if has_name(es, name) {
        assert(split(tail, '\n') =~= seq![Seq::<char>::empty()]);
        assert(split(Seq::<char>::empty(), '=') =~= seq![Seq::<char>::empty()]);
        assert(seq![Seq::<char>::empty()].drop_last() =~= Seq::<Seq<char>>::empty());
        assert(seq![Seq::<char>::empty()].last() == Seq::<char>::empty());
        assert(line_entry(Seq::<char>::empty()) is None);
        lemma_entries_single(Seq::<char>::empty());
        assert(entries_of_lines(split(tail, '\n')) =~= Seq::<EntryView>::empty());
        assert(ns + Seq::<EntryView>::empty() =~= ns);
    } else {
        assert(!tail.contains('\n')) by {
            if tail.contains('\n') {
                let k = choose|k: int| 0 <= k < tail.len() && tail[k] == '\n';
                if k < name.len() {
                    assert(name[k] == '\n');
                } else if k > name.len() {
                    assert(value[k - name.len() - 1] == '\n');
                }
            }
        }
        lemma_split_no_sep(tail, '\n');
        lemma_line_entry_of_entry_line((name, value));
        lemma_entries_single(tail);
        assert(entries_of_lines(seq![tail]) =~= seq![(name, value)]);
        assert(ns =~= es) by {
            assert forall|i: int| 0 <= i < es.len() implies ns[i] == es[i] by {
                if es[i].0 == name {
                    assert(has_name(es, name));
                }
            }
        }
        assert(es + seq![(name, value)] =~= es.push((name, value)));
    }
}

/// A value written is the value read back: after `name` is set to `value`, the
/// file has an entry under `name`, and every entry under `name` holds `value`.
pub proof fn lemma_update_config_read_back(contents: Seq<char>, name: Seq<char>, value: Seq<char>)
    requires
        is_plain_field(name),
        is_plain_field(value),
    ensures
        has_name(config_entries_of(updated_config(contents, name, value)), name),
        forall|i: int|
            0 <= i < config_entries_of(updated_config(contents, name, value)).len() && (#[trigger] config_entries_of(
                updated_config(contents, name, value),
            )[i]).0 == name ==> config_entries_of(updated_config(contents, name, value))[i].1 == value,
{
    lemma_update_config_entries(contents, name, value);
    let es = config_entries_of(contents);
    let after = config_entries_of(updated_config(contents, name, value));
    if has_name(es, name) {
        let j = choose|j: int| 0 <= j < es.len() && (#[trigger] es[j]).0 == name;
        assert(after[j].0 == name);
    } else {
        assert(after[es.len() as int].0 == name);
    }
}

/// The last write wins: setting `name` to `first` and then to `second` leaves
/// the same entries as setting it to `second` alone.
pub proof fn lemma_update_config_last_write_wins(
    contents: Seq<char>,
    name: Seq<char>,
    first: Seq<char>,
    second: Seq<char>,
)
    requires
        is_plain_field(name),
        is_plain_field(first),
        is_plain_field(second),
    ensures
        config_entries_of(updated_config(updated_config(contents, name, first), name, second))
            == config_entries_of(updated_config(contents, name, second)),
{
    let es = config_entries_of(contents);
    lemma_update_config_entries(contents, name, first);
    lemma_update_config_entries(contents, name, second);
    let mid = updated_config(contents, name, first);
    lemma_update_config_entries(mid, name, second);
    lemma_update_config_read_back(contents, name, first);
    let ms = config_entries_of(mid);
    if has_name(es, name) {
        assert(set_value(ms, name, second) =~= set_value(es, name, second));
    } else {
        assert(set_value(ms, name, second) =~= es.push((name, second))) by {
            assert forall|i: int| 0 <= i < es.len() implies es[i].0 != name by {
                if es[i].0 == name {
                    assert(has_name(es, name));
                }
            }
        }
        assert(set_value(es, name, second) =~= es) by {
            assert forall|i: int| 0 <= i < es.len() implies set_value(es, name, second)[i] == es[i] by {
                if es[i].0 == name {
                    assert(has_name(es, name));
                }
            }
        }
    }
}

/// Writing the same entry a third time changes nothing: once `name` has been
/// set to `value` twice, the text is a fixed point of setting it again (the
/// first write may still differ from the second by a final newline).
pub proof fn lemma_update_config_fixed_point(contents: Seq<char>, name: Seq<char>, value: Seq<char>)
    requires
        is_plain_field(name),
        is_plain_field(value),
    ensures
        updated_config(updated_config(updated_config(contents, name, value), name, value), name, value)
            == updated_config(updated_config(contents, name, value), name, value),
{
    let f1 = updated_config(contents, name, value);
    let f2 = updated_config(f1, name, value);
    let e1 = config_entries_of(f1);
    lemma_update_config_read_back(contents, name, value);
    lemma_update_config_entries(f1, name, value);
    lemma_update_config_read_back(f1, name, value);
    let e2 = config_entries_of(f2);
    assert(e2 == set_value(e1, name, value));
    assert(set_value(e2, name, value) =~= e2);
    assert(f2 == render(e2) + Seq::<char>::empty());
    assert(render(e2) + Seq::<char>::empty() =~= render(e2));
    assert(updated_config(f2, name, value) == render(set_value(e2, name, value)) + Seq::<char>::empty());
}

/// The lines of a written file: after `name` is set to `value`, one of its
/// lines is `name=value`, and every line that holds an entry under `name` is
/// exactly that line.
pub proof fn lemma_update_config_lines(contents: Seq<char>, name: Seq<char>, value: Seq<char>)
    requires
        is_plain_field(name),
        is_plain_field(value),
    ensures
        split(updated_config(contents, name, value), '\n').contains(entry_line((name, value))),
        forall|i: int|
            0 <= i < split(updated_config(contents, name, value), '\n').len() && (#[trigger] line_entry(
                split(updated_config(contents, name, value), '\n')[i],
            )) is Some && line_entry(split(updated_config(contents, name, value), '\n')[i]).unwrap().0 == name
                ==> split(updated_config(contents, name, value), '\n')[i] == entry_line((name, value)),
{
    let es = config_entries_of(contents);
    lemma_config_entries_plain(contents);
    lemma_set_value_plain(es, name, value);
    let ns = set_value(es, name, value);
    let tail = if has_name(es, name) {
        Seq::<char>::empty()
    } else {
        entry_line((name, value))
    };
    lemma_split_render(ns, tail);
    let lines = split(updated_config(contents, name, value), '\n');
    let el = entry_lines(ns);
    assert(!tail.contains('\n')) by {
        if tail.contains('\n') {
            let k = choose|k: int| 0 <= k < tail.len() && tail[k] == '\n';
            if k < name.len() {
                assert(name[k] == '\n');
            } else if k > name.len() {
                assert(value[k - name.len() - 1] == '\n');
            }
        }
    }
    lemma_split_no_sep(tail, '\n');
    assert(lines == el + seq![tail]);
    lemma_line_entry_of_entry_line((name, value));
    if has_name(es, name) {
        let j = choose|j: int| 0 <= j < es.len() && (#[trigger] es[j]).0 == name;
        assert(ns[j] == (name, value));
        assert(lines[j] == entry_line((name, value)));
    } else {
        assert(lines[lines.len() - 1] == entry_line((name, value)));
    }
    assert forall|i: int|
        0 <= i < lines.len() && (#[trigger] line_entry(lines[i])) is Some && line_entry(lines[i]).unwrap().0
            == name implies lines[i] == entry_line((name, value)) by {
        if i < el.len() {
            assert(is_plain_field(ns[i].0) && is_plain_field(ns[i].1));
            lemma_line_entry_of_entry_line(ns[i]);
            assert(lines[i] == entry_line(ns[i]));
        } else {
            assert(lines[i] == tail);
            if has_name(es, name) {
                assert(split(Seq::<char>::empty(), '=') =~= seq![Seq::<char>::empty()]);
            }
        }
    }
}

/// The views of exec entries.
pub open spec fn entry_views(v: Seq<(String, String)>) -> Seq<EntryView> {
    v.map_values(|e: (String, String)| (e.0@, e.1@))
}

/// The entries of the config file `contents`, as `read` lists them.
pub fn config_entries(contents: &str) -> (res: Vec<(String, String)>)
    ensures
        entry_views(res@) == config_entries_of(contents@),
{
    let lines = split_on(contents, '\n');
    let ghost ls = views(lines@);
    let mut res: Vec<(String, String)> = Vec::new();
    let mut i: usize = 0;
    proof {
        assert(ls.take(0) =~= Seq::<Seq<char>>::empty());
        assert(entry_views(res@) =~= Seq::<EntryView>::empty());
    }
    while i < lines.len()
        invariant
            ls == views(lines@),
            ls == split(contents@, '\n'),
            i <= lines.len(),
            entry_views(res@) == entries_of_lines(ls.take(i as int)),
        decreases lines.len() - i,
    {
        let fields = split_on(lines[i].as_str(), '=');
        proof {
            assert(ls.take(i as int + 1).drop_last() =~= ls.take(i as int));
            assert(ls.take(i as int + 1).last() == lines@[i as int]@);
        }
        if fields.len() == 2 {
            let e = (fields[0].clone(), fields[1].clone());
            proof {
                assert(views(fields@)[0] == fields@[0]@);
                assert(views(fields@)[1] == fields@[1]@);
                assert(entry_views(res@.push(e)) =~= entry_views(res@).push((e.0@, e.1@)));
            }
            res.push(e);
        }
        i = i + 1;
    }
    proof {
        assert(ls.take(lines.len() as int) =~= ls);
    }
    res
}

/// The line that reading a config file prints for an entry.
pub open spec fn report_line(e: EntryView) -> Seq<char> {
    "read line: "@ + e.0 + "="@ + e.1
}

/// The lines that reading the config file `contents` prints, one per entry.
pub fn read_report(contents: &str) -> (res: Vec<String>)
    ensures
        views(res@) == config_entries_of(contents@).map_values(|e: EntryView| report_line(e)),
{
    let entries = config_entries(contents);
    let ghost es = entry_views(entries@);
    let mut res: Vec<String> = Vec::new();
    for i in 0..entries.len()
        invariant
            es == entry_views(entries@),
            views(res@) == es.take(i as int).map_values(|e: EntryView| report_line(e)),
    {
        let mut line = "read line: ".to_owned();
        line.append(entries[i].0.as_str());
        line.append("=");
        line.append(entries[i].1.as_str());
        let ghost before = res@;
        res.push(line);
        proof {
            assert(es[i as int] == (entries@[i as int].0@, entries@[i as int].1@));
            assert(views(res@) =~= views(before).push(line@));
            assert(es.take(i as int + 1).map_values(|e: EntryView| report_line(e)) =~= es.take(i as int).map_values(
                |e: EntryView| report_line(e),
            ).push(report_line(es[i as int])));
        }
    }
    proof {
        assert(es.take(entries.len() as int) =~= es);
    }
    res
}

/// The compute part of `write`: the new contents of the config file when `name`
/// is set to `value`.
pub fn update_config(contents: &str, name: &str, value: &str) -> (res: String)
    ensures
        res@ == updated_config(contents@, name@, value@),
{
    let lines = split_on(contents, '\n');
    let ghost ls = views(lines@);
    let name_s = name.to_owned();
    let mut newfile = String::new();
    let mut written = false;
    let mut i: usize = 0;
    proof {
        assert(ls.take(0) =~= Seq::<Seq<char>>::empty());
        assert(set_value(Seq::<EntryView>::empty(), name@, value@) =~= Seq::<EntryView>::empty());
    }
    while i < lines.len()
        invariant
            ls == views(lines@),
            ls == split(contents@, '\n'),
            name_s@ == name@,
            i <= lines.len(),
            newfile@ == render(set_value(entries_of_lines(ls.take(i as int)), name@, value@)),
            written == has_name(entries_of_lines(ls.take(i as int)), name@),
        decreases lines.len() - i,
    {
        let fields = split_on(lines[i].as_str(), '=');
        let ghost prev = entries_of_lines(ls.take(i as int));
        proof {
            assert(ls.take(i as int + 1).drop_last() =~= ls.take(i as int));
            assert(ls.take(i as int + 1).last() == lines@[i as int]@);
        }
        if fields.len() == 2 {
            let ghost e: EntryView = (fields@[0]@, fields@[1]@);
            proof {
                assert(views(fields@)[0] == fields@[0]@);
                assert(views(fields@)[1] == fields@[1]@);
                assert(entries_of_lines(ls.take(i as int + 1)) == prev.push(e));
                let new_e: EntryView = if e.0 == name@ { (e.0, value@) } else { e };
                assert(set_value(prev.push(e), name@, value@) =~= set_value(prev, name@, value@).push(new_e));
                assert(set_value(prev, name@, value@).push(new_e).drop_last() =~= set_value(prev, name@, value@));
                if has_name(prev.push(e), name@) && !has_name(prev, name@) {
                    let j = choose|j: int| 0 <= j < prev.push(e).len() && (#[trigger] prev.push(e)[j]).0 == name@;
                    assert(j == prev.len());
                }
                if has_name(prev, name@) {
                    let j = choose|j: int| 0 <= j < prev.len() && (#[trigger] prev[j]).0 == name@;
                    assert(prev.push(e)[j] == prev[j]);
                }
                if e.0 == name@ {
                    assert(prev.push(e)[prev.len() as int] == e);
                }
            }
            newfile.append(fields[0].as_str());
            newfile.append("=");
            if fields[0] == name_s {
                newfile.append(value);
                written = true;
            } else {
                newfile.append(fields[1].as_str());
            }
            newfile.append("\n");
            proof {
                reveal_strlit("=");
                reveal_strlit("\n");
            }
        } else {
            proof {
                assert(entries_of_lines(ls.take(i as int + 1)) == prev);
            }
        }
        i = i + 1;
    }
    proof {
        assert(ls.take(lines.len() as int) =~= ls);
    }
    if !written {
        newfile.append(name);
        newfile.append("=");
        newfile.append(value);
        proof {
            reveal_strlit("=");
        }
    }
    newfile
}

} // verus!
