//! Reading blocks and tables out of annotated TOML text.
//!
//! A line holding `###` marks a block: `### BEGIN <name>` opens the block
//! `<name>` and `### END <name>` closes it. A table title is a line with `[[`
//! and `]]` and neither `=` nor `#`.
use vstd::prelude::*;

use crate::text::{
    chars_of, contains_chars, has_substr, lemma_chars_deep_view, push_all, split_lines,
    string_from_chars, text_lines,
};

verus! {

/// The marker that every block line carries.
pub open spec fn marker_hash() -> Seq<char> {
    seq!['#', '#', '#']
}

/// The word that opens a block.
pub open spec fn marker_begin() -> Seq<char> {
    seq!['B', 'E', 'G', 'I', 'N']
}

/// The word that closes a block.
pub open spec fn marker_end() -> Seq<char> {
    seq!['E', 'N', 'D']
}

/// `line` is a `###` line that holds `word` and the block's name.
pub open spec fn is_block_marker(line: Seq<char>, word: Seq<char>, name: Seq<char>) -> bool {
    &&& has_substr(line, marker_hash())
    &&& has_substr(line, word)
    &&& has_substr(line, name)
}

/// The text collected from `lines`, having collected `acc` so far and being
/// inside the block when `inside` holds: every line inside the block is kept,
/// followed by a line feed; the marker lines are not.
pub open spec fn block_scan(acc: Seq<char>, inside: bool, lines: Seq<Seq<char>>, name: Seq<char>) -> Seq<char>
    decreases lines.len(),
{
    if lines.len() == 0 {
        acc
    } else {
        let line = lines[0];
        let rest = lines.drop_first();
        if inside {
            if is_block_marker(line, marker_end(), name) {
                block_scan(acc, false, rest, name)
            } else {
                block_scan(acc + line.push('\n'), true, rest, name)
            }
        } else if is_block_marker(line, marker_begin(), name) {
            block_scan(acc, true, rest, name)
        } else {
            block_scan(acc, false, rest, name)
        }
    }
}

/// The block `name` of `raw`; the whole of `raw` when the block is empty or missing.
pub open spec fn block_text(raw: Seq<char>, name: Seq<char>) -> Seq<char> {
    let found = block_scan(seq![], false, text_lines(raw), name);
    if found.len() == 0 {
        raw
    } else {
        found
    }
}

/// `line` is a table title: it holds `[[` and `]]` and neither `=` nor `#`.
pub open spec fn is_table_title(line: Seq<char>) -> bool {
    &&& !has_substr(line, seq!['='])
    &&& !has_substr(line, seq!['#'])
    &&& has_substr(line, seq!['[', '['])
    &&& has_substr(line, seq![']', ']'])
}

/// Whether a title line lets the collection of tables go on.
pub open spec fn title_selects(line: Seq<char>, name: Seq<char>) -> bool {
    has_substr(line, name) || name.len() == 0
}

/// The tables collected from `lines`, having closed `done`, with `cur` the
/// table being collected and `on` whether tables are being collected: a title
/// line closes the current table while collecting, and decides whether to
/// collect from there on; other lines are appended to the current table, each
/// after a line feed. The table being collected at the end is closed too.
pub open spec fn table_scan(
    done: Seq<Seq<char>>,
    cur: Seq<char>,
    on: bool,
    lines: Seq<Seq<char>>,
    name: Seq<char>,
) -> Seq<Seq<char>>
    decreases lines.len(),
{
    if lines.len() == 0 {
        done.push(cur)
    } else {
        let line = lines[0];
        let rest = lines.drop_first();
        if on {
            if is_table_title(line) {
                table_scan(done.push(cur), seq![], title_selects(line, name), rest, name)
            } else {
                table_scan(done, cur + seq!['\n'] + line, true, rest, name)
            }
        } else if is_table_title(line) {
            table_scan(done, cur, title_selects(line, name), rest, name)
        } else {
            table_scan(done, cur, false, rest, name)
        }
    }
}

/// The tables `table` inside the block `block` of `raw`.
pub open spec fn table_texts(raw: Seq<char>, block: Seq<char>, table: Seq<char>) -> Seq<Seq<char>> {
    table_scan(seq![], seq![], false, text_lines(block_text(raw, block)), table)
}

/// What a decoder holds.
pub struct TomlDecoderView {
    pub id: u64,
    pub raw: Seq<char>,
    pub block_name: Seq<char>,
    pub table_name: Seq<char>,
}

/// Decoder of blocks (`### BEGIN name` .. `### END name`) and tables (`[[name]]`)
/// of a configuration text.
pub struct TomlDecoderE {
    id: u64,
    raw: String,
    block_name: String,
    table_name: String,
}

impl View for TomlDecoderE {
    type V = TomlDecoderView;

    closed spec fn view(&self) -> TomlDecoderView {
        TomlDecoderView {
            id: self.id,
            raw: self.raw@,
            block_name: self.block_name@,
            table_name: self.table_name@,
        }
    }
}

impl Default for TomlDecoderE {
    fn default() -> (d: Self)
        ensures
            d@.id == 0,
            d@.raw == Seq::<char>::empty(),
            d@.block_name == Seq::<char>::empty(),
            d@.table_name == Seq::<char>::empty(),
    {
        TomlDecoderE { id: 0, raw: String::new(), block_name: String::new(), table_name: String::new() }
    }
}

fn word_hash() -> (w: Vec<char>)
    ensures
        w@ == marker_hash(),
{
    let w = vec!['#', '#', '#'];
    assert(w@ =~= marker_hash());
    w
}

fn word_begin() -> (w: Vec<char>)
    ensures
        w@ == marker_begin(),
{
    let w = vec!['B', 'E', 'G', 'I', 'N'];
    assert(w@ =~= marker_begin());
    w
}

fn word_end() -> (w: Vec<char>)
    ensures
        w@ == marker_end(),
{
    let w = vec!['E', 'N', 'D'];
    assert(w@ =~= marker_end());
    w
}

fn block_marker(line: &Vec<char>, word: &Vec<char>, name: &Vec<char>) -> (b: bool)
    ensures
        b == is_block_marker(line@, word@, name@),
{
    let hash = word_hash();
    contains_chars(line, &hash) && contains_chars(line, word) && contains_chars(line, name)
}

fn table_title(line: &Vec<char>) -> (b: bool)
    ensures
        b == is_table_title(line@),
{
    let eq = vec!['='];
    let hash = vec!['#'];
    let open = vec!['[', '['];
    let close = vec![']', ']'];
    assert(eq@ =~= seq!['=']);
    assert(hash@ =~= seq!['#']);
    assert(open@ =~= seq!['[', '[']);
    assert(close@ =~= seq![']', ']']);
    !contains_chars(line, &eq) && !contains_chars(line, &hash) && contains_chars(line, &open)
        && contains_chars(line, &close)
}

/// The block `name` of `raw`, as characters (empty when the block is empty or missing).
fn scan_block(raw: &Vec<char>, name: &Vec<char>) -> (found: Vec<char>)
    ensures
        found@ == block_scan(seq![], false, text_lines(raw@), name@),
{
    let lines = split_lines(raw);
    let begin = word_begin();
    let end = word_end();
    let ghost all = lines.deep_view();
    let mut found: Vec<char> = Vec::new();
    let mut inside = false;
    let mut i: usize = 0;
    assert(all.skip(0) =~= all);
    while i < lines.len()
        invariant
            i <= lines.len(),
            all == lines.deep_view(),
            all == text_lines(raw@),
            begin@ == marker_begin(),
            end@ == marker_end(),
            block_scan(seq![], false, all, name@) == block_scan(found@, inside, all.skip(i as int), name@),
        decreases lines.len() - i,
    {
        let line = &lines[i];
        proof {
            lemma_chars_deep_view(line);
            assert(all.skip(i as int)[0] == line@);
            assert(all.skip(i as int).drop_first() =~= all.skip(i + 1));
        }
        if inside {
            if block_marker(line, &end, name) {
                inside = false;
            } else {
                push_all(&mut found, line);
                found.push('\n');
            }
        } else if block_marker(line, &begin, name) {
            inside = true;
        }
        i += 1;
    }
    assert(all.skip(i as int) =~= Seq::<Seq<char>>::empty());
    found
}

impl TomlDecoderE {
    /// A decoder with nothing in it.
    pub fn build() -> (d: Self)
        ensures
            d@.id == 0,
            d@.raw == Seq::<char>::empty(),
            d@.block_name == Seq::<char>::empty(),
            d@.table_name == Seq::<char>::empty(),
    {
        Self::default()
    }

    /// The decoder with `raw_in` as its text.
    pub fn build_raw(self, raw_in: String) -> (d: Self)
        ensures
            d@ == (TomlDecoderView { raw: raw_in@, ..self@ }),
    {
        let mut d = self;
        d.raw = raw_in;
        d
    }

    /// The decoder with `block_in` as the name of the block to read.
    pub fn build_specify_block(self, block_in: String) -> (d: Self)
        ensures
            d@ == (TomlDecoderView { block_name: block_in@, ..self@ }),
    {
        let mut d = self;
        d.block_name = block_in;
        d
    }

    /// The decoder with `table_in` as the name of the tables to read.
    pub fn build_specify_table(self, table_in: String) -> (d: Self)
        ensures
            d@ == (TomlDecoderView { table_name: table_in@, ..self@ }),
    {
        let mut d = self;
        d.table_name = table_in;
        d
    }

    /// The lines of the block named by the decoder, each followed by a line
    /// feed; the whole text when that block is empty or missing.
    pub fn into_block(self) -> (r: String)
        ensures
            r@ == block_text(self@.raw, self@.block_name),
    {
        let raw = chars_of(self.raw.as_str());
        let name = chars_of(self.block_name.as_str());
        let found = scan_block(&raw, &name);
        if found.len() == 0 {
            self.raw
        } else {
            string_from_chars(&found)
        }
    }

    /// The tables named by the decoder inside its block; the text of each is
    /// its lines after its title, each preceded by a line feed.
    pub fn into_table(self) -> (r: Vec<String>)
        ensures
            r.deep_view() == table_texts(self@.raw, self@.block_name, self@.table_name),
    {
        let table_name = chars_of(self.table_name.as_str());
        let ghost raw = self@.raw;
        let ghost block_name = self@.block_name;
        let block = self.into_block();
        let block_chars = chars_of(block.as_str());
        let lines = split_lines(&block_chars);
        let ghost all = lines.deep_view();
        let mut tables: Vec<String> = Vec::new();
        let mut cur: Vec<char> = Vec::new();
        let mut on = false;
        let mut i: usize = 0;
        assert(all.skip(0) =~= all);
        assert(tables.deep_view() =~= Seq::<Seq<char>>::empty());
        assert(cur@ =~= Seq::<char>::empty());
        while i < lines.len()
            invariant
                i <= lines.len(),
                all == lines.deep_view(),
                all == text_lines(block_text(raw, block_name)),
                table_scan(seq![], seq![], false, all, table_name@) == table_scan(
                    tables.deep_view(),
                    cur@,
                    on,
                    all.skip(i as int),
                    table_name@,
                ),
            decreases lines.len() - i,
        {
            let line = &lines[i];
            proof {
                lemma_chars_deep_view(line);
                assert(all.skip(i as int)[0] == line@);
                assert(all.skip(i as int).drop_first() =~= all.skip(i + 1));
            }
            let title = table_title(line);
            if on {
                if title {
                    let closed = string_from_chars(&cur);
                    let ghost before = tables.deep_view();
                    tables.push(closed);
                    assert(tables.deep_view() =~= before.push(cur@));
                    cur = Vec::new();
                    if !contains_chars(line, &table_name) && table_name.len() != 0 {
                        on = false;
                    }
                } else {
                    let ghost before = cur@;
                    cur.push('\n');
                    push_all(&mut cur, line);
                    assert(cur@ =~= before + seq!['\n'] + line@);
                }
            } else if title {
                if contains_chars(line, &table_name) || table_name.len() == 0 {
                    on = true;
                }
            }
            i += 1;
        }
        assert(all.skip(i as int) =~= Seq::<Seq<char>>::empty());
        let last = string_from_chars(&cur);
        let ghost before = tables.deep_view();
        tables.push(last);
        assert(tables.deep_view() =~= before.push(cur@));
        tables
    }
}

/// Each of `lines` followed by a line feed, one after another.
pub open spec fn joined_lines(lines: Seq<Seq<char>>) -> Seq<char>
    decreases lines.len(),
{
    if lines.len() == 0 {
        seq![]
    } else {
        lines[0].push('\n') + joined_lines(lines.drop_first())
    }
}

/// Outside the block, lines that do not open it are skipped.
proof fn lemma_skip_outside(acc: Seq<char>, lines: Seq<Seq<char>>, rest: Seq<Seq<char>>, name: Seq<char>)
    requires
        forall|k: int| 0 <= k < lines.len() ==> !is_block_marker(#[trigger] lines[k], marker_begin(), name),
    ensures
        block_scan(acc, false, lines + rest, name) == block_scan(acc, false, rest, name),
    decreases lines.len(),
{
    if lines.len() > 0 {
        assert((lines + rest)[0] == lines[0]);
        assert((lines + rest).drop_first() =~= lines.drop_first() + rest);
        lemma_skip_outside(acc, lines.drop_first(), rest, name);
    } else {
        assert(lines + rest =~= rest);
    }
}

/// Inside the block, lines that do not close it are kept.
proof fn lemma_keep_inside(acc: Seq<char>, lines: Seq<Seq<char>>, rest: Seq<Seq<char>>, name: Seq<char>)
    requires
        forall|k: int| 0 <= k < lines.len() ==> !is_block_marker(#[trigger] lines[k], marker_end(), name),
    ensures
        block_scan(acc, true, lines + rest, name) == block_scan(acc + joined_lines(lines), true, rest, name),
    decreases lines.len(),
{
    if lines.len() > 0 {
        assert((lines + rest)[0] == lines[0]);
        assert((lines + rest).drop_first() =~= lines.drop_first() + rest);
        lemma_keep_inside(acc + lines[0].push('\n'), lines.drop_first(), rest, name);
        assert(acc + lines[0].push('\n') + joined_lines(lines.drop_first()) =~= acc + joined_lines(
            lines,
        ));
    } else {
        assert(lines + rest =~= rest);
        assert(acc + joined_lines(lines) =~= acc);
    }
}

/// A text in which no line opens the block `name` is its own block: reading
/// the block gives back the whole text.
pub proof fn lemma_unmarked_text_is_its_own_block(raw: Seq<char>, name: Seq<char>)
    requires
        forall|k: int|
            0 <= k < text_lines(raw).len() ==> !is_block_marker(
                #[trigger] text_lines(raw)[k],
                marker_begin(),
                name,
            ),
    ensures
        block_text(raw, name) == raw,
{
    let lines = text_lines(raw);
    lemma_skip_outside(seq![], lines, seq![], name);
    assert(lines + Seq::<Seq<char>>::empty() =~= lines);
}

/// When the text holds one block `name`, opened by the line `open` and closed
/// by the line `close`, with no line before `open` or after `close` that opens
/// it again and no line between them that closes it, reading the block gives
/// the lines between the two markers, each followed by a line feed; when there
/// are no such lines, it gives back the whole text.
pub proof fn lemma_single_block(
    raw: Seq<char>,
    name: Seq<char>,
    before: Seq<Seq<char>>,
    open: Seq<char>,
    body: Seq<Seq<char>>,
    close: Seq<char>,
    after: Seq<Seq<char>>,
)
    requires
        text_lines(raw) == before + seq![open] + body + seq![close] + after,
        forall|k: int| 0 <= k < before.len() ==> !is_block_marker(#[trigger] before[k], marker_begin(), name),
        is_block_marker(open, marker_begin(), name),
        forall|k: int| 0 <= k < body.len() ==> !is_block_marker(#[trigger] body[k], marker_end(), name),
        is_block_marker(close, marker_end(), name),
        forall|k: int| 0 <= k < after.len() ==> !is_block_marker(#[trigger] after[k], marker_begin(), name),
    ensures
        body.len() > 0 ==> block_text(raw, name) == joined_lines(body),
        body.len() == 0 ==> block_text(raw, name) == raw,
{
    let tail = seq![open] + body + seq![close] + after;
    assert(text_lines(raw) =~= before + tail);
    lemma_skip_outside(seq![], before, tail, name);
    assert(tail[0] == open);
    assert(tail.drop_first() =~= body + (seq![close] + after));
    lemma_keep_inside(seq![], body, seq![close] + after, name);
    let closing = seq![close] + after;
    assert(closing[0] == close);
    assert(closing.drop_first() =~= after + Seq::<Seq<char>>::empty());
    assert(Seq::<char>::empty() + joined_lines(body) =~= joined_lines(body));
    lemma_skip_outside(joined_lines(body), after, seq![], name);
    if body.len() > 0 {
        assert(joined_lines(body).len() > 0);
    } else {
        assert(joined_lines(body) =~= Seq::<char>::empty());
    }
}

proof fn lemma_table_scan_closes(
    done: Seq<Seq<char>>,
    cur: Seq<char>,
    on: bool,
    lines: Seq<Seq<char>>,
    name: Seq<char>,
)
    ensures
        table_scan(done, cur, on, lines, name).len() > done.len(),
    decreases lines.len(),
{
    if lines.len() > 0 {
        let line = lines[0];
        let rest = lines.drop_first();
        if on {
            if is_table_title(line) {
                lemma_table_scan_closes(done.push(cur), seq![], title_selects(line, name), rest, name);
            } else {
                lemma_table_scan_closes(done, cur + seq!['\n'] + line, true, rest, name);
            }
        } else {
            lemma_table_scan_closes(done, cur, is_table_title(line) && title_selects(line, name), rest, name);
        }
    }
}

/// Reading tables always yields at least one table: the one being collected
/// when the text ends.
pub proof fn lemma_tables_never_empty(raw: Seq<char>, block: Seq<char>, table: Seq<char>)
    ensures
        table_texts(raw, block, table).len() >= 1,
{
    lemma_table_scan_closes(seq![], seq![], false, text_lines(block_text(raw, block)), table);
}

proof fn lemma_no_title_scan(cur: Seq<char>, lines: Seq<Seq<char>>, name: Seq<char>)
    requires
        forall|k: int| 0 <= k < lines.len() ==> !is_table_title(#[trigger] lines[k]),
    ensures
        table_scan(seq![], cur, false, lines, name) == seq![cur],
    decreases lines.len(),
{
    if lines.len() > 0 {
        assert(!is_table_title(lines[0]));
        let rest = lines.drop_first();
        assert forall|k: int| 0 <= k < rest.len() implies !is_table_title(#[trigger] rest[k]) by {
            assert(rest[k] == lines[k + 1]);
        }
        lemma_no_title_scan(cur, rest, name);
    } else {
        assert(Seq::<Seq<char>>::empty().push(cur) =~= seq![cur]);
    }
}

/// A block without any table title yields exactly one table, and it is empty.
pub proof fn lemma_untitled_block_has_one_empty_table(raw: Seq<char>, block: Seq<char>, table: Seq<char>)
    requires
        forall|k: int|
            0 <= k < text_lines(block_text(raw, block)).len() ==> !is_table_title(
                #[trigger] text_lines(block_text(raw, block))[k],
            ),
    ensures
        table_texts(raw, block, table) == seq![Seq::<char>::empty()],
{
    lemma_no_title_scan(seq![], text_lines(block_text(raw, block)), table);
}

proof fn lemma_unselected_scan(cur: Seq<char>, lines: Seq<Seq<char>>, name: Seq<char>)
    requires
        name.len() > 0,
        forall|k: int|
            0 <= k < lines.len() && is_table_title(#[trigger] lines[k]) ==> !has_substr(lines[k], name),
    ensures
        table_scan(seq![], cur, false, lines, name) == seq![cur],
    decreases lines.len(),
{
    if lines.len() > 0 {
        let rest = lines.drop_first();
        if is_table_title(lines[0]) {
            assert(!has_substr(lines[0], name));
        }
        assert forall|k: int| 0 <= k < rest.len() && is_table_title(#[trigger] rest[k]) implies !has_substr(
            rest[k],
            name,
        ) by {
            assert(rest[k] == lines[k + 1]);
        }
        lemma_unselected_scan(cur, rest, name);
    } else {
        assert(Seq::<Seq<char>>::empty().push(cur) =~= seq![cur]);
    }
}

/// A table title that does not hold the (non-empty) table name starts no
/// table: when no title of the block holds the name, reading the tables
/// yields exactly one table, and it is empty, whatever lines follow those
/// titles.
pub proof fn lemma_unnamed_titles_collect_nothing(raw: Seq<char>, block: Seq<char>, table: Seq<char>)
    requires
        table.len() > 0,
        forall|k: int|
            0 <= k < text_lines(block_text(raw, block)).len() && is_table_title(
                #[trigger] text_lines(block_text(raw, block))[k],
            ) ==> !has_substr(text_lines(block_text(raw, block))[k], table),
    ensures
        table_texts(raw, block, table) == seq![Seq::<char>::empty()],
{
    lemma_unselected_scan(seq![], text_lines(block_text(raw, block)), table);
}

/// Each of `lines` after a line feed, one after another: the text of a table
/// made of those lines.
pub open spec fn table_body(lines: Seq<Seq<char>>) -> Seq<char>
    decreases lines.len(),
{
    if lines.len() == 0 {
        seq![]
    } else {
        seq!['\n'] + lines[0] + table_body(lines.drop_first())
    }
}

proof fn lemma_collect_body(done: Seq<Seq<char>>, cur: Seq<char>, body: Seq<Seq<char>>, name: Seq<char>)
    requires
        forall|k: int| 0 <= k < body.len() ==> !is_table_title(#[trigger] body[k]),
    ensures
        table_scan(done, cur, true, body, name) == done.push(cur + table_body(body)),
    decreases body.len(),
{
    if body.len() == 0 {
        assert(cur + table_body(body) =~= cur);
    } else {
        let rest = body.drop_first();
        assert(!is_table_title(body[0]));
        assert forall|k: int| 0 <= k < rest.len() implies !is_table_title(#[trigger] rest[k]) by {
            assert(rest[k] == body[k + 1]);
        }
        lemma_collect_body(done, cur + seq!['\n'] + body[0], rest, name);
        assert(cur + seq!['\n'] + body[0] + table_body(rest) =~= cur + table_body(body));
    }
}

/// A table title that holds the table name starts a table made of the lines
/// below it: a block of such a title followed by lines that are no titles
/// yields exactly that table.
pub proof fn lemma_named_title_collects_its_lines(
    raw: Seq<char>,
    block: Seq<char>,
    table: Seq<char>,
    title: Seq<char>,
    body: Seq<Seq<char>>,
)
    requires
        text_lines(block_text(raw, block)) == seq![title] + body,
        is_table_title(title),
        has_substr(title, table),
        forall|k: int| 0 <= k < body.len() ==> !is_table_title(#[trigger] body[k]),
    ensures
        table_texts(raw, block, table) == seq![table_body(body)],
{
    let lines = seq![title] + body;
    assert(lines[0] == title);
    assert(lines.drop_first() =~= body);
    lemma_collect_body(seq![], seq![], body, table);
    assert(Seq::<Seq<char>>::empty().push(Seq::<char>::empty() + table_body(body)) =~= seq![table_body(body)]);
}

} // verus!
