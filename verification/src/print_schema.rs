use vstd::prelude::*;
use vstd::string::*;

verus! {

// ----------------------------------------------------------------------
// The SDL clean-up, specified over sequences of characters.
//
// The SDL printer of the schema library emits the built-in `@include` and
// `@skip` directive definitions (each possibly under a docstring), leaves
// runs of blank lines, and indents with tabs. The cleaned form drops those
// directive definitions with their docstrings, collapses blank-line runs to
// one, widens leading-tab indentation to two spaces per tab, and trims the
// result.
// ----------------------------------------------------------------------

/// The whitespace the clean-up strips: the ASCII blanks of SDL text.
pub open spec fn spec_is_ws(c: char) -> bool {
    c == ' ' || c == '\t' || c == '\r' || c == '\n'
}

pub open spec fn spec_trim_start(s: Seq<char>) -> Seq<char>
    decreases s.len(),
{
    if s.len() == 0 {
        s
    } else if spec_is_ws(s[0]) {
        spec_trim_start(s.skip(1))
    } else {
        s
    }
}

pub open spec fn spec_trim_end(s: Seq<char>) -> Seq<char>
    decreases s.len(),
{
    if s.len() == 0 {
        s
    } else if spec_is_ws(s.last()) {
        spec_trim_end(s.drop_last())
    } else {
        s
    }
}

/// A line with its leading and trailing blanks stripped.
pub open spec fn spec_trim(s: Seq<char>) -> Seq<char> {
    spec_trim_end(spec_trim_start(s))
}

pub open spec fn spec_starts_with(s: Seq<char>, p: Seq<char>) -> bool {
    s.len() >= p.len() && s.take(p.len() as int) == p
}

/// Every tab widened to two spaces.
pub open spec fn spec_replace_tabs(s: Seq<char>) -> Seq<char>
    decreases s.len(),
{
    if s.len() == 0 {
        Seq::empty()
    } else if s[0] == '\t' {
        seq![' ', ' '] + spec_replace_tabs(s.skip(1))
    } else {
        seq![s[0]] + spec_replace_tabs(s.skip(1))
    }
}

/// The text split at newlines: the segments accumulated so far, the rest,
/// and the currently open segment.
pub open spec fn spec_split_rest(s: Seq<char>, cur: Seq<char>) -> Seq<Seq<char>>
    decreases s.len(),
{
    if s.len() == 0 {
        seq![cur]
    } else if s[0] == '\n' {
        seq![cur] + spec_split_rest(s.skip(1), Seq::empty())
    } else {
        spec_split_rest(s.skip(1), cur.push(s[0]))
    }
}

/// The lines of the text: split at `\n`, a trailing newline yielding no
/// final empty line, and empty text no line at all.
pub open spec fn spec_lines(s: Seq<char>) -> Seq<Seq<char>> {
    if s.len() == 0 {
        Seq::empty()
    } else {
        let segs = spec_split_rest(s, Seq::empty());
        if segs.last().len() == 0 {
            segs.drop_last()
        } else {
            segs
        }
    }
}

/// The first index at or after `j` whose trimmed line opens a docstring
/// fence, or the number of lines when none does.
pub open spec fn spec_doc_end(lines: Seq<Seq<char>>, j: int) -> int
    decreases lines.len() - j,
{
    if j >= lines.len() {
        lines.len() as int
    } else if spec_starts_with(spec_trim(lines[j]), "\"\"\""@) {
        j
    } else {
        spec_doc_end(lines, j + 1)
    }
}

pub proof fn lemma_doc_end_bounds(lines: Seq<Seq<char>>, j: int)
    requires
        j <= lines.len(),
    ensures
        j <= spec_doc_end(lines, j) <= lines.len(),
    decreases lines.len() - j,
{
    if j < lines.len() && !spec_starts_with(spec_trim(lines[j]), "\"\"\""@) {
        lemma_doc_end_bounds(lines, j + 1);
    }
}

/// Whether the line at `i` is a lone docstring fence whose docstring
/// precedes a built-in `@include` or `@skip` directive definition.
pub open spec fn spec_doc_skip_applies(lines: Seq<Seq<char>>, i: int) -> bool {
    &&& spec_trim(lines[i]) == "\"\"\""@
    &&& {
        let j = spec_doc_end(lines, i + 1);
        &&& j + 1 < lines.len()
        &&& (spec_starts_with(spec_trim(lines[j + 1]), "directive @include"@)
            || spec_starts_with(spec_trim(lines[j + 1]), "directive @skip"@))
    }
}

/// What one kept line contributes: its text, with leading-tab lines
/// widened.
pub open spec fn spec_line_out(line: Seq<char>) -> Seq<char> {
    if line.len() > 0 && line[0] == '\t' {
        spec_replace_tabs(line)
    } else {
        line
    }
}

/// The cleaned text of the lines from `i` on, given whether the previous
/// kept line was blank: docstring-plus-directive blocks and directive lines
/// are dropped, runs of blank lines collapse to one newline, every kept
/// line ends in a newline.
pub open spec fn spec_clean(lines: Seq<Seq<char>>, i: int, prev_empty: bool) -> Seq<char>
    decreases lines.len() - i,
    via spec_clean_dec
{
    if i >= lines.len() {
        Seq::empty()
    } else if spec_doc_skip_applies(lines, i) {
        spec_clean(lines, spec_doc_end(lines, i + 1) + 2, prev_empty)
    } else if spec_starts_with(spec_trim(lines[i]), "directive @include"@)
        || spec_starts_with(spec_trim(lines[i]), "directive @skip"@) {
        spec_clean(lines, i + 1, prev_empty)
    } else if spec_trim(lines[i]).len() == 0 {
        (if prev_empty {
            Seq::<char>::empty()
        } else {
            seq!['\n']
        }) + spec_clean(lines, i + 1, true)
    } else {
        spec_line_out(lines[i]) + seq!['\n'] + spec_clean(lines, i + 1, false)
    }
}

#[via_fn]
proof fn spec_clean_dec(lines: Seq<Seq<char>>, i: int, prev_empty: bool) {
    if i < lines.len() && spec_doc_skip_applies(lines, i) {
        lemma_doc_end_bounds(lines, i + 1);
    }
}

/// The cleaned SDL of the raw text: the per-line clean-up over its lines,
/// trimmed as a whole.
pub open spec fn spec_print_schema(sdl: Seq<char>) -> Seq<char> {
    spec_trim(spec_clean(spec_lines(sdl), 0, false))
}

/// A trimmed-from-the-front text has no leading blank.
proof fn lemma_trim_start_no_leading_ws(s: Seq<char>)
    ensures
        spec_trim_start(s).len() > 0 ==> !spec_is_ws(spec_trim_start(s)[0]),
    decreases s.len(),
{
    if s.len() > 0 && spec_is_ws(s[0]) {
        lemma_trim_start_no_leading_ws(s.skip(1));
    }
}

/// Trimming from the back keeps the first character.
proof fn lemma_trim_end_keeps_head(s: Seq<char>)
    ensures
        spec_trim_end(s).len() > 0 ==> spec_trim_end(s)[0] == s[0],
    decreases s.len(),
{
    if s.len() > 0 && spec_is_ws(s.last()) {
        lemma_trim_end_keeps_head(s.drop_last());
    }
}

/// A trimmed-from-the-back text has no trailing blank.
proof fn lemma_trim_end_no_trailing_ws(s: Seq<char>)
    ensures
        spec_trim_end(s).len() > 0 ==> !spec_is_ws(spec_trim_end(s).last()),
    decreases s.len(),
{
    if s.len() > 0 && spec_is_ws(s.last()) {
        lemma_trim_end_no_trailing_ws(s.drop_last());
    }
}

/// Trimming is idempotent: a trimmed text trims to itself.
pub proof fn lemma_trim_idempotent(s: Seq<char>)
    ensures
        spec_trim(spec_trim(s)) == spec_trim(s),
{
    let u = spec_trim_start(s);
    let t = spec_trim_end(u);
    if t.len() == 0 {
        assert(spec_trim_start(t) == t);
        assert(spec_trim_end(spec_trim_start(t)) == t);
    } else {
        lemma_trim_start_no_leading_ws(s);
        lemma_trim_end_keeps_head(u);
        assert(!spec_is_ws(t[0]));
        assert(spec_trim_start(t) == t);
        lemma_trim_end_no_trailing_ws(u);
        assert(spec_trim_end(t) == t);
    }
}

/// The cleaned SDL is fully trimmed: it carries no leading or trailing
/// blanks, so cleaning an already-cleaned text's framing changes nothing.
pub proof fn lemma_print_schema_trimmed(sdl: Seq<char>)
    ensures
        spec_trim(spec_print_schema(sdl)) == spec_print_schema(sdl),
{
    lemma_trim_idempotent(spec_clean(spec_lines(sdl), 0, false));
}

/// The views of a vector of lines.
pub open spec fn line_views(lines: Seq<Vec<char>>) -> Seq<Seq<char>> {
    Seq::new(lines.len(), |k: int| lines[k]@)
}

// ----------------------------------------------------------------------
// Verified executable helpers.
// ----------------------------------------------------------------------

/// The characters of a string slice, in order.
fn str_to_chars(s: &str) -> (r: Vec<char>)
    ensures
        r@ == s@,
{
    let n = s.unicode_len();
    let mut r: Vec<char> = Vec::new();
    let mut i: usize = 0;
    while i < n
        invariant
            i <= n,
            n == s@.len(),
            r@ == s@.take(i as int),
        decreases n - i,
    {
        let c = s.get_char(i);
        r.push(c);
        proof {
            assert(s@.take(i as int).push(s@[i as int]) =~= s@.take(i as int + 1));
        }
        i += 1;
    }
    proof {
        assert(s@.take(n as int) =~= s@);
    }
    r
}

fn is_ws(c: char) -> (r: bool)
    ensures
        r == spec_is_ws(c),
{
    c == ' ' || c == '\t' || c == '\r' || c == '\n'
}

fn is_ws_at(s: &Vec<char>, i: usize) -> (r: bool)
    requires
        i < s@.len(),
    ensures
        r == spec_is_ws(s@[i as int]),
{
    is_ws(s[i])
}

/// Character-wise equality of two lines.
fn chars_eq(a: &Vec<char>, b: &Vec<char>) -> (r: bool)
    ensures
        r == (a@ == b@),
{
    if a.len() != b.len() {
        return false;
    }
    let n = a.len();
    let mut i: usize = 0;
    while i < n
        invariant
            i <= n,
            n == a@.len(),
            n == b@.len(),
            forall|k: int| 0 <= k < i ==> a@[k] == b@[k],
        decreases n - i,
    {
        if a[i] != b[i] {
            return false;
        }
        i += 1;
    }
    proof {
        assert(a@ =~= b@);
    }
    true
}

/// Whether `s` starts with `p`.
fn starts_with_chars(s: &Vec<char>, p: &Vec<char>) -> (r: bool)
    ensures
        r == spec_starts_with(s@, p@),
{
    let m = p.len();
    if s.len() < m {
        return false;
    }
    let mut i: usize = 0;
    while i < m
        invariant
            i <= m,
            m == p@.len(),
            s@.len() >= m,
            forall|k: int| 0 <= k < i ==> s@[k] == p@[k],
        decreases m - i,
    {
        if s[i] != p[i] {
            proof {
                assert(s@.take(m as int)[i as int] != p@[i as int]);
            }
            return false;
        }
        i += 1;
    }
    proof {
        assert(s@.take(m as int) =~= p@);
    }
    true
}

/// A copy of `s` with leading and trailing blanks stripped.
fn trim_chars(s: &Vec<char>) -> (r: Vec<char>)
    ensures
        r@ == spec_trim(s@),
{
    let n = s.len();
    proof {
        assert(s@.skip(0) =~= s@);
    }
    let mut a: usize = 0;
    while a < n && is_ws_at(s, a)
        invariant
            a <= n,
            n == s@.len(),
            spec_trim_start(s@) == spec_trim_start(s@.skip(a as int)),
        decreases n - a,
    {
        proof {
            assert(s@.skip(a as int).skip(1) =~= s@.skip(a as int + 1));
        }
        a += 1;
    }
    proof {
        if a == n {
            assert(s@.skip(a as int) =~= Seq::<char>::empty());
        }
        assert(spec_trim_start(s@) == s@.skip(a as int));
    }
    let mut b: usize = n;
    while b > a && is_ws_at(s, b - 1)
        invariant
            a <= b <= n,
            n == s@.len(),
            spec_trim_start(s@) == s@.skip(a as int),
            spec_trim_end(s@.skip(a as int)) == spec_trim_end(s@.subrange(a as int, b as int)),
        decreases b,
    {
        proof {
            assert(s@.subrange(a as int, b as int).last() == s@[b - 1]);
            assert(s@.subrange(a as int, b as int).drop_last() =~= s@.subrange(
                a as int,
                b as int - 1,
            ));
        }
        b -= 1;
    }
    proof {
        if b == a {
            assert(s@.subrange(a as int, b as int) =~= Seq::<char>::empty());
        }
        assert(spec_trim(s@) == s@.subrange(a as int, b as int));
    }
    let mut r: Vec<char> = Vec::new();
    let mut i: usize = a;
    while i < b
        invariant
            a <= i <= b <= n,
            n == s@.len(),
            r@ == s@.subrange(a as int, i as int),
        decreases b - i,
    {
        r.push(s[i]);
        proof {
            assert(s@.subrange(a as int, i as int).push(s@[i as int]) =~= s@.subrange(
                a as int,
                i as int + 1,
            ));
        }
        i += 1;
    }
    r
}

/// A copy of `s` with every tab widened to two spaces.
fn replace_tabs(s: &Vec<char>) -> (r: Vec<char>)
    ensures
        r@ == spec_replace_tabs(s@),
{
    let n = s.len();
    let mut r: Vec<char> = Vec::new();
    proof {
        assert(s@.skip(0) =~= s@);
        assert(r@ + spec_replace_tabs(s@) =~= spec_replace_tabs(s@));
    }
    let mut i: usize = 0;
    while i < n
        invariant
            i <= n,
            n == s@.len(),
            spec_replace_tabs(s@) == r@ + spec_replace_tabs(s@.skip(i as int)),
        decreases n - i,
    {
        proof {
            assert(s@.skip(i as int).skip(1) =~= s@.skip(i as int + 1));
        }
        let ghost prefix = r@;
        let c = s[i];
        if c == '\t' {
            r.push(' ');
            r.push(' ');
            proof {
                assert(r@ =~= prefix + seq![' ', ' ']);
                assert((prefix + seq![' ', ' ']) + spec_replace_tabs(s@.skip(i as int + 1))
                    =~= prefix + (seq![' ', ' '] + spec_replace_tabs(s@.skip(i as int + 1))));
            }
        } else {
            r.push(c);
            proof {
                assert(r@ =~= prefix + seq![c]);
                assert((prefix + seq![c]) + spec_replace_tabs(s@.skip(i as int + 1)) =~= prefix + (
                seq![c] + spec_replace_tabs(s@.skip(i as int + 1))));
            }
        }
        i += 1;
    }
    proof {
        assert(s@.skip(n as int) =~= Seq::<char>::empty());
        assert(r@ + Seq::<char>::empty() =~= r@);
    }
    r
}

/// The lines of the text, split at newlines.
fn split_lines(s: &Vec<char>) -> (r: Vec<Vec<char>>)
    ensures
        line_views(r@) == spec_lines(s@),
{
    let n = s.len();
    if n == 0 {
        let r: Vec<Vec<char>> = Vec::new();
        proof {
            assert(line_views(r@) =~= spec_lines(s@));
        }
        return r;
    }
    let mut segs: Vec<Vec<char>> = Vec::new();
    let mut cur: Vec<char> = Vec::new();
    proof {
        assert(s@.skip(0) =~= s@);
        assert(line_views(segs@) + spec_split_rest(s@, cur@) =~= spec_split_rest(s@, cur@));
        assert(cur@ =~= Seq::<char>::empty());
    }
    let mut i: usize = 0;
    while i < n
        invariant
            i <= n,
            n == s@.len(),
            spec_split_rest(s@, Seq::empty()) == line_views(segs@) + spec_split_rest(
                s@.skip(i as int),
                cur@,
            ),
        decreases n - i,
    {
        proof {
            assert(s@.skip(i as int).skip(1) =~= s@.skip(i as int + 1));
        }
        let ghost old_segs = line_views(segs@);
        let ghost old_cur = cur@;
        let c = s[i];
        if c == '\n' {
            segs.push(cur);
            cur = Vec::new();
            proof {
                assert(line_views(segs@) =~= old_segs + seq![old_cur]);
                assert((old_segs + seq![old_cur]) + spec_split_rest(s@.skip(i as int + 1), cur@)
                    =~= old_segs + (seq![old_cur] + spec_split_rest(s@.skip(i as int + 1), cur@)));
            }
        } else {
            cur.push(c);
        }
        i += 1;
    }
    proof {
        assert(s@.skip(n as int) =~= Seq::<char>::empty());
    }
    let last_empty = cur.len() == 0;
    let ghost all = line_views(segs@) + seq![cur@];
    proof {
        assert(spec_split_rest(s@, Seq::empty()) == all);
        assert(all.last() == cur@);
    }
    if last_empty {
        proof {
            assert(line_views(segs@) =~= all.drop_last());
            assert(spec_lines(s@) == all.drop_last());
        }
        segs
    } else {
        let ghost pre = line_views(segs@);
        segs.push(cur);
        proof {
            assert(line_views(segs@) =~= pre + seq![all.last()]);
            assert(line_views(segs@) =~= all);
        }
        segs
    }
}

/// Append a copy of `piece` to `out`.
fn push_all(out: &mut Vec<char>, piece: &Vec<char>)
    ensures
        final(out)@ == old(out)@ + piece@,
{
    let m = piece.len();
    let mut k: usize = 0;
    while k < m
        invariant
            k <= m,
            m == piece@.len(),
            out@ == old(out)@ + piece@.take(k as int),
        decreases m - k,
    {
        out.push(piece[k]);
        proof {
            assert((old(out)@ + piece@.take(k as int)).push(piece@[k as int]) =~= old(out)@
                + piece@.take(k as int + 1));
        }
        k += 1;
    }
    proof {
        assert(old(out)@ + piece@.take(m as int) =~= old(out)@ + piece@);
    }
}

/// Whether the trimmed line at `j` opens a docstring fence.
fn fence_at(lines: &Vec<Vec<char>>, j: usize, quotes: &Vec<char>) -> (r: bool)
    requires
        j < lines@.len(),
    ensures
        r == spec_starts_with(spec_trim(line_views(lines@)[j as int]), quotes@),
{
    let t = trim_chars(&lines[j]);
    starts_with_chars(&t, quotes)
}

/// The per-line clean-up over the split lines.
fn clean_lines(lines: &Vec<Vec<char>>) -> (r: Vec<char>)
    ensures
        r@ == spec_clean(line_views(lines@), 0, false),
{
    let quotes = str_to_chars("\"\"\"");
    let inc = str_to_chars("directive @include");
    let skp = str_to_chars("directive @skip");
    let n = lines.len();
    let ghost lv = line_views(lines@);
    let mut out: Vec<char> = Vec::new();
    let mut prev_empty = false;
    let mut i: usize = 0;
    proof {
        assert(out@ + spec_clean(lv, 0, false) =~= spec_clean(lv, 0, false));
    }
    while i < n
        invariant
            i <= n,
            n == lines@.len(),
            lv == line_views(lines@),
            quotes@ == "\"\"\""@,
            inc@ == "directive @include"@,
            skp@ == "directive @skip"@,
            spec_clean(lv, 0, false) == out@ + spec_clean(lv, i as int, prev_empty),
        decreases n - i,
    {
        let ghost out_pre = out@;
        let trimmed = trim_chars(&lines[i]);
        let mut doc_skip = false;
        let mut next_i = i + 1;
        if chars_eq(&trimmed, &quotes) {
            let mut j = i + 1;
            while j < n && !fence_at(lines, j, &quotes)
                invariant
                    i + 1 <= j <= n,
                    n == lines@.len(),
                    lv == line_views(lines@),
                    quotes@ == "\"\"\""@,
                    spec_doc_end(lv, i as int + 1) == spec_doc_end(lv, j as int),
                decreases n - j,
            {
                j += 1;
            }
            proof {
                assert(spec_doc_end(lv, i as int + 1) == j as int);
            }
            if j < n {
                if j + 1 < n {
                    let t2 = trim_chars(&lines[j + 1]);
                    if starts_with_chars(&t2, &inc) || starts_with_chars(&t2, &skp) {
                        doc_skip = true;
                        next_i = j + 2;
                        proof {
                            assert(spec_doc_skip_applies(lv, i as int));
                        }
                    }
                }
            }
        }
        if doc_skip {
            proof {
                assert(spec_clean(lv, i as int, prev_empty) == spec_clean(
                    lv,
                    next_i as int,
                    prev_empty,
                ));
            }
            i = next_i;
        } else {
            proof {
                assert(!spec_doc_skip_applies(lv, i as int));
            }
            if starts_with_chars(&trimmed, &inc) || starts_with_chars(&trimmed, &skp) {
                proof {
                    assert(spec_clean(lv, i as int, prev_empty) == spec_clean(
                        lv,
                        i as int + 1,
                        prev_empty,
                    ));
                }
            } else if trimmed.len() == 0 {
                let ghost contribution: Seq<char> = if prev_empty {
                    Seq::empty()
                } else {
                    seq!['\n']
                };
                if !prev_empty {
                    out.push('\n');
                }
                proof {
                    assert(out@ =~= out_pre + contribution);
                    assert((out_pre + contribution) + spec_clean(lv, i as int + 1, true)
                        =~= out_pre + (contribution + spec_clean(lv, i as int + 1, true)));
                }
                prev_empty = true;
            } else {
                let has_tab = lines[i].len() > 0 && first_is_tab(&lines[i]);
                if has_tab {
                    let rep = replace_tabs(&lines[i]);
                    push_all(&mut out, &rep);
                } else {
                    push_all(&mut out, &lines[i]);
                }
                out.push('\n');
                proof {
                    assert(out@ =~= out_pre + (spec_line_out(lv[i as int]) + seq!['\n']));
                    assert((out_pre + (spec_line_out(lv[i as int]) + seq!['\n'])) + spec_clean(
                        lv,
                        i as int + 1,
                        false,
                    ) =~= out_pre + ((spec_line_out(lv[i as int]) + seq!['\n']) + spec_clean(
                        lv,
                        i as int + 1,
                        false,
                    )));
                }
                prev_empty = false;
            }
            i = next_i;
        }
    }
    proof {
        assert(out@ + spec_clean(lv, n as int, prev_empty) =~= out@);
    }
    out
}

fn first_is_tab(line: &Vec<char>) -> (r: bool)
    requires
        line@.len() > 0,
    ensures
        r == (line@[0] == '\t'),
{
    line[0] == '\t'
}

#[verifier::external_type_specification]
#[verifier::external_body]
pub struct ExSchema(async_graphql::dynamic::Schema);

/// The SDL text the schema library exports for a schema, with sorted
/// fields: a function of the schema value alone (the registry behind the
/// export is an ordered map, so the text is deterministic).
pub uninterp spec fn sdl_text(schema: async_graphql::dynamic::Schema) -> Seq<char>;

/// Relies on async_graphql's `Schema::sdl_with_options` with sorted fields:
/// the characters of the exported SDL, handed on unchanged.
#[verifier::external_body]
fn schema_sdl_chars(schema: &async_graphql::dynamic::Schema) -> (r: Vec<char>)
    ensures
        r@ == sdl_text(*schema),
{
    schema
        .sdl_with_options(async_graphql::SDLExportOptions::new().sorted_fields())
        .chars()
        .collect()
}

/// Relies on `String`'s `FromIterator` impl: collecting characters gives
/// the string of exactly those characters.
#[verifier::external_body]
fn chars_to_string(v: &Vec<char>) -> (r: String)
    ensures
        r@ == v@,
{
    v.iter().collect()
}

/// Clean one SDL text: drop the built-in `@include`/`@skip` directive
/// definitions with their docstrings, collapse blank-line runs, widen
/// leading-tab indentation, and trim the whole.
pub fn clean_sdl(sdl: &Vec<char>) -> (r: Vec<char>)
    ensures
        r@ == spec_print_schema(sdl@),
        spec_trim(r@) == r@,
{
    proof {
        lemma_print_schema_trimmed(sdl@);
    }
    let lines = split_lines(sdl);
    let cleaned = clean_lines(&lines);
    trim_chars(&cleaned)
}

/// The SDL returned by the schema library isn't standard; export it and
/// clean it up before returning: the result is exactly the cleaned form of
/// the schema's exported SDL, with no leading or trailing blanks.
pub fn print_schema(schema: async_graphql::dynamic::Schema) -> (r: String)
    ensures
        r@ == spec_print_schema(sdl_text(schema)),
        spec_trim(r@) == r@,
{
    let chars = schema_sdl_chars(&schema);
    let cleaned = clean_sdl(&chars);
    chars_to_string(&cleaned)
}

} // verus!
