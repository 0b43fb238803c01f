use vstd::prelude::*;

verus! {

/// `pat` occurs in `s` as a contiguous run of characters starting at index `i`.
pub open spec fn occurs_at(s: Seq<char>, pat: Seq<char>, i: int) -> bool {
    0 <= i && i + pat.len() <= s.len() && s.subrange(i, i + pat.len()) == pat
}

/// `pat` occurs somewhere in `s` (the empty pattern occurs in every text).
pub open spec fn has_substr(s: Seq<char>, pat: Seq<char>) -> bool {
    exists|i: int| occurs_at(s, pat, i)
}

/// A line as a line iterator hands it out: a carriage return that stood
/// right before the line feed is not part of the line.
pub open spec fn strip_cr(line: Seq<char>) -> Seq<char> {
    if line.len() > 0 && line.last() == '\r' {
        line.drop_last()
    } else {
        line
    }
}

/// The lines of `cur + rest`, where `cur` is the part of the current line read so far.
/// Lines end at `\n` (or `\r\n`); the last line ending is optional.
pub open spec fn lines_from(cur: Seq<char>, rest: Seq<char>) -> Seq<Seq<char>>
    decreases rest.len(),
{
    if rest.len() == 0 {
        if cur.len() == 0 {
            seq![]
        } else {
            seq![cur]
        }
    } else if rest[0] == '\n' {
        seq![strip_cr(cur)] + lines_from(seq![], rest.drop_first())
    } else {
        lines_from(cur.push(rest[0]), rest.drop_first())
    }
}

/// The lines of a text, as `str::lines` documents them.
pub open spec fn text_lines(s: Seq<char>) -> Seq<Seq<char>> {
    lines_from(seq![], s)
}

/// Calls `str::chars` and collects the characters; std documents `chars` as the
/// string's characters in order, which is the string's view.
#[verifier::external_body]
pub(crate) fn chars_of(s: &str) -> (v: Vec<char>)
    ensures
        v@ == s@,
{
    s.chars().collect()
}

/// Collects characters into a `String` (`FromIterator<&char>` for `String`);
/// std documents that the string holds exactly these characters in order.
#[verifier::external_body]
pub(crate) fn string_from_chars(v: &Vec<char>) -> (s: String)
    ensures
        s@ == v@,
{
    v.iter().collect()
}

/// Appends every character of `src` to `dst`.
pub(crate) fn push_all(dst: &mut Vec<char>, src: &Vec<char>)
    ensures
        final(dst)@ == old(dst)@ + src@,
{
    let ghost init = dst@;
    let mut i: usize = 0;
    while i < src.len()
        invariant
            i <= src.len(),
            dst@ == init + src@.subrange(0, i as int),
        decreases src.len() - i,
    {
        dst.push(src[i]);
        i += 1;
        assert(dst@ =~= init + src@.subrange(0, i as int));
    }
    assert(src@.subrange(0, i as int) =~= src@);
}

fn matches_at(s: &Vec<char>, pat: &Vec<char>, i: usize) -> (b: bool)
    requires
        i + pat.len() <= s.len(),
    ensures
        b == (s@.subrange(i as int, i + pat.len()) == pat@),
{
    let mut j: usize = 0;
    while j < pat.len()
        invariant
            j <= pat.len(),
            i + pat.len() <= s.len(),
            forall|k: int| 0 <= k < j ==> s@[i + k] == pat@[k],
        decreases pat.len() - j,
    {
        if s[i + j] != pat[j] {
            assert(s@.subrange(i as int, i + pat.len())[j as int] != pat@[j as int]);
            return false;
        }
        j += 1;
    }
    assert(s@.subrange(i as int, i + pat.len()) =~= pat@);
    true
}

/// Whether `pat` occurs in `s`.
pub(crate) fn contains_chars(s: &Vec<char>, pat: &Vec<char>) -> (b: bool)
    ensures
        b == has_substr(s@, pat@),
{
    if pat.len() > s.len() {
        return false;
    }
    let last = s.len() - pat.len();
    let mut i: usize = 0;
    loop
        invariant
            last == s.len() - pat.len(),
            pat.len() <= s.len(),
            i <= last,
            forall|k: int| 0 <= k < i ==> !occurs_at(s@, pat@, k),
        decreases last - i,
    {
        if matches_at(s, pat, i) {
            assert(occurs_at(s@, pat@, i as int));
            return true;
        }
        if i == last {
            assert forall|k: int| !occurs_at(s@, pat@, k) by {
                if 0 <= k && k < i {
                }
            }
            return false;
        }
        i += 1;
    }
}

/// The deep view of a vector of characters is its view.
pub(crate) proof fn lemma_chars_deep_view(v: &Vec<char>)
    ensures
        v.deep_view() == v@,
{
    assert(v.deep_view() =~= v@);
}

/// Splits a text into its lines, as `str::lines` does.
pub(crate) fn split_lines(s: &Vec<char>) -> (lines: Vec<Vec<char>>)
    ensures
        lines.deep_view() == text_lines(s@),
{
    let mut lines: Vec<Vec<char>> = Vec::new();
    let mut cur: Vec<char> = Vec::new();
    let mut i: usize = 0;
    assert(s@.skip(0) =~= s@);
    while i < s.len()
        invariant
            i <= s.len(),
            text_lines(s@) == lines.deep_view() + lines_from(cur@, s@.skip(i as int)),
        decreases s.len() - i,
    {
        let ghost rest = s@.skip(i as int);
        assert(rest[0] == s@[i as int]);
        assert(rest.drop_first() =~= s@.skip(i + 1));
        let c = s[i];
        if c == '\n' {
            let ghost before = cur@;
            if cur.len() > 0 && cur[cur.len() - 1] == '\r' {
                cur.pop();
            }
            assert(cur@ =~= strip_cr(before));
            let ghost old_lines = lines.deep_view();
            proof {
                lemma_chars_deep_view(&cur);
            }
            lines.push(cur);
            assert(lines.deep_view() =~= old_lines.push(strip_cr(before)));
            cur = Vec::new();
            assert(lines_from(before, rest) == seq![strip_cr(before)] + lines_from(
                seq![],
                rest.drop_first(),
            ));
            assert(text_lines(s@) =~= lines.deep_view() + lines_from(cur@, s@.skip(i + 1)));
        } else {
            let ghost before = cur@;
            cur.push(c);
            assert(lines_from(before, rest) == lines_from(cur@, rest.drop_first()));
        }
        i += 1;
    }
    assert(s@.skip(i as int) =~= Seq::<char>::empty());
    if cur.len() > 0 {
        let ghost old_lines = lines.deep_view();
        let ghost last = cur@;
        proof {
            lemma_chars_deep_view(&cur);
        }
        lines.push(cur);
        assert(lines.deep_view() =~= old_lines.push(last));
        assert(text_lines(s@) =~= lines.deep_view());
    } else {
        assert(text_lines(s@) =~= lines.deep_view());
    }
    lines
}

/// `s` with every occurrence of `pat` replaced by `rep`, occurrences taken
/// from left to right without overlap (as `str::replace` documents).
pub open spec fn replaced(s: Seq<char>, pat: Seq<char>, rep: Seq<char>) -> Seq<char>
    decreases s.len(),
{
    if s.len() == 0 {
        seq![]
    } else if pat.len() > 0 && pat.len() <= s.len() && s.subrange(0, pat.len() as int) == pat {
        rep + replaced(s.skip(pat.len() as int), pat, rep)
    } else {
        seq![s[0]] + replaced(s.drop_first(), pat, rep)
    }
}

/// Replaces every occurrence of `pat` (which is not empty) by `rep`.
pub(crate) fn replace_chars(s: &Vec<char>, pat: &Vec<char>, rep: &Vec<char>) -> (out: Vec<char>)
    requires
        pat@.len() > 0,
    ensures
        out@ == replaced(s@, pat@, rep@),
{
    let mut out: Vec<char> = Vec::new();
    let mut i: usize = 0;
    assert(s@.skip(0) =~= s@);
    while i < s.len()
        invariant
            i <= s.len(),
            pat@.len() > 0,
            replaced(s@, pat@, rep@) == out@ + replaced(s@.skip(i as int), pat@, rep@),
        decreases s.len() - i,
    {
        let ghost rest = s@.skip(i as int);
        if pat.len() <= s.len() - i && matches_at(s, pat, i) {
            assert(rest.subrange(0, pat@.len() as int) =~= s@.subrange(i as int, i + pat@.len()));
            assert(rest.skip(pat@.len() as int) =~= s@.skip(i + pat@.len()));
            let ghost before = out@;
            push_all(&mut out, rep);
            assert(before + (rep@ + replaced(rest.skip(pat@.len() as int), pat@, rep@)) =~= out@
                + replaced(s@.skip(i + pat@.len()), pat@, rep@));
            i += pat.len();
        } else {
            assert(pat@.len() <= rest.len() ==> rest.subrange(0, pat@.len() as int) =~= s@.subrange(
                i as int,
                i + pat@.len(),
            ));
            assert(rest[0] == s@[i as int]);
            assert(rest.drop_first() =~= s@.skip(i + 1));
            let ghost before = out@;
            out.push(s[i]);
            assert(before + (seq![s@[i as int]] + replaced(rest.drop_first(), pat@, rep@)) =~= out@
                + replaced(s@.skip(i + 1), pat@, rep@));
            i += 1;
        }
    }
    assert(s@.skip(i as int) =~= Seq::<char>::empty());
    assert(out@ + Seq::<char>::empty() =~= out@);
    out
}

proof fn lemma_final_line_ending_from(cur: Seq<char>, rest: Seq<char>)
    requires
        (cur + rest).len() > 0,
        (cur + rest).last() != '\n',
        (cur + rest).last() != '\r',
    ensures
        lines_from(cur, rest.push('\n')) == lines_from(cur, rest),
    decreases rest.len(),
{
    if rest.len() == 0 {
        assert(cur + rest =~= cur);
        assert(rest.push('\n') =~= seq!['\n']);
        assert(seq!['\n'].drop_first() =~= Seq::<char>::empty());
        assert(strip_cr(cur) == cur);
        assert(lines_from(seq![], Seq::<char>::empty()) =~= Seq::<Seq<char>>::empty());
        assert(lines_from(cur, seq!['\n']) == seq![strip_cr(cur)] + lines_from(
            seq![],
            seq!['\n'].drop_first(),
        ));
        assert(lines_from(cur, rest.push('\n')) =~= seq![cur]);
    } else {
        let r = rest.push('\n');
        assert(r[0] == rest[0]);
        assert(r.drop_first() =~= rest.drop_first().push('\n'));
        if rest[0] == '\n' {
            assert((cur + rest).last() == rest.last());
            assert(rest.len() > 1);
            assert(Seq::<char>::empty() + rest.drop_first() =~= rest.drop_first());
            assert(rest.drop_first().last() == rest.last());
            lemma_final_line_ending_from(seq![], rest.drop_first());
        } else {
            assert(cur.push(rest[0]) + rest.drop_first() =~= cur + rest);
            lemma_final_line_ending_from(cur.push(rest[0]), rest.drop_first());
        }
    }
}

/// A text that does not already end a line reads as the same lines with or
/// without a final line ending.
pub proof fn lemma_final_line_ending_is_optional(s: Seq<char>)
    requires
        s.len() > 0,
        s.last() != '\n',
        s.last() != '\r',
    ensures
        text_lines(s.push('\n')) == text_lines(s),
{
    assert(Seq::<char>::empty() + s =~= s);
    lemma_final_line_ending_from(seq![], s);
}

/// Replacing a pattern by itself leaves every text as it was.
pub proof fn lemma_replacing_by_itself_changes_nothing(s: Seq<char>, pat: Seq<char>)
    ensures
        replaced(s, pat, pat) == s,
    decreases s.len(),
{
    if s.len() > 0 {
        if pat.len() > 0 && pat.len() <= s.len() && s.subrange(0, pat.len() as int) == pat {
            lemma_replacing_by_itself_changes_nothing(s.skip(pat.len() as int), pat);
            assert(pat + s.skip(pat.len() as int) =~= s);
        } else {
            lemma_replacing_by_itself_changes_nothing(s.drop_first(), pat);
            assert(seq![s[0]] + s.drop_first() =~= s);
        }
    }
}

/// A text in which the pattern does not occur is left as it was.
pub proof fn lemma_absent_pattern_changes_nothing(s: Seq<char>, pat: Seq<char>, rep: Seq<char>)
    requires
        !has_substr(s, pat),
    ensures
        replaced(s, pat, rep) == s,
    decreases s.len(),
{
    if s.len() > 0 {
        if pat.len() > 0 && pat.len() <= s.len() && s.subrange(0, pat.len() as int) == pat {
            assert(occurs_at(s, pat, 0));
        } else {
            let t = s.drop_first();
            assert forall|i: int| !occurs_at(t, pat, i) by {
                if occurs_at(t, pat, i) {
                    assert(s.subrange(i + 1, i + 1 + pat.len()) =~= t.subrange(i, i + pat.len()));
                    assert(occurs_at(s, pat, i + 1));
                }
            }
            lemma_absent_pattern_changes_nothing(t, pat, rep);
            assert(seq![s[0]] + t =~= s);
        }
    }
}

} // verus!
