//! Reading the identifier table of the rendered-surface reference page.
//!
//! The reference page lists every static identifier in a Markdown table
//! whose rows start with `` | `snora-...` ``. Only table rows count: a
//! prose mention of the dynamic `snora-toast-{id}` pattern elsewhere on
//! the page must not match.

use vstd::prelude::*;

verus! {

/// Whether `c` has the Unicode `White_Space` property: the tab, line
/// feed, vertical tab, form feed and carriage return controls, the
/// space, next line, no-break space, Ogham space mark, the en quad to
/// hair space range, line and paragraph separator, narrow no-break
/// space, medium mathematical space and ideographic space.
pub open spec fn white_space(c: char) -> bool {
    let n = c as u32;
    ||| 0x9 <= n <= 0xD
    ||| n == 0x20
    ||| n == 0x85
    ||| n == 0xA0
    ||| n == 0x1680
    ||| 0x2000 <= n <= 0x200A
    ||| n == 0x2028
    ||| n == 0x2029
    ||| n == 0x202F
    ||| n == 0x205F
    ||| n == 0x3000
}

/// Whether `c` is white space, as `char::is_whitespace` answers it.
fn is_white_space(c: char) -> (b: bool)
    ensures
        b == white_space(c),
{
    let n = c as u32;
    (0x9 <= n && n <= 0xD) || n == 0x20 || n == 0x85 || n == 0xA0 || n == 0x1680 || (0x2000 <= n
        && n <= 0x200A) || n == 0x2028 || n == 0x2029 || n == 0x202F || n == 0x205F || n == 0x3000
}

/// `s` without its leading white space.
pub open spec fn trim_start(s: Seq<char>) -> Seq<char>
    decreases s.len(),
{
    if s.len() > 0 && white_space(s[0]) {
        trim_start(s.drop_first())
    } else {
        s
    }
}

/// `s` without its trailing white space.
pub open spec fn trim_end(s: Seq<char>) -> Seq<char>
    decreases s.len(),
{
    if s.len() > 0 && white_space(s.last()) {
        trim_end(s.drop_last())
    } else {
        s
    }
}

/// `s` without leading or trailing white space.
pub open spec fn trim(s: Seq<char>) -> Seq<char> {
    trim_end(trim_start(s))
}

/// The position of the first `c` in `s`, or `s.len()` if there is none.
pub open spec fn index_of(s: Seq<char>, c: char) -> nat
    decreases s.len(),
{
    if s.len() == 0 {
        0
    } else if s[0] == c {
        0
    } else {
        1 + index_of(s.drop_first(), c)
    }
}

/// The lines of `doc`, split at each `'\n'`.
pub open spec fn split_lines(doc: Seq<char>) -> Seq<Seq<char>>
    decreases doc.len(),
{
    let m = index_of(doc, '\n');
    if m >= doc.len() {
        seq![doc]
    } else {
        seq![doc.take(m as int)] + split_lines(doc.skip(m as int + 1))
    }
}

/// Whether `s` begins with `prefix`.
pub open spec fn starts_with(s: Seq<char>, prefix: Seq<char>) -> bool {
    s.len() >= prefix.len() && s.take(prefix.len() as int) == prefix
}

/// The identifier named by one line of the page, if the line is a table
/// row whose first cell is a back-quoted `snora-` name.
pub open spec fn table_row_name(line: Seq<char>) -> Option<Seq<char>> {
    let t = trim(line);
    if starts_with(t, "| `"@) {
        let rest = t.skip(3);
        let end = index_of(rest, '`');
        if end < rest.len() && starts_with(rest.take(end as int), "snora-"@) {
            Some(rest.take(end as int))
        } else {
            None
        }
    } else {
        None
    }
}

/// Every identifier listed in the page's table, in page order.
pub open spec fn documented_names(doc: Seq<char>) -> Seq<Seq<char>> {
    split_lines(doc).filter_map(row_name_fn())
}

/// [`table_row_name`] as a value.
pub open spec fn row_name_fn() -> spec_fn(Seq<char>) -> Option<Seq<char>> {
    |line: Seq<char>| table_row_name(line)
}

proof fn index_of_is(s: Seq<char>, c: char, m: int)
    requires
        0 <= m <= s.len(),
        forall|k: int| 0 <= k < m ==> s[k] != c,
        m == s.len() || s[m] == c,
    ensures
        index_of(s, c) == m,
    decreases m,
{
    if m > 0 {
        index_of_is(s.drop_first(), c, m - 1);
    }
}

proof fn trim_start_is(s: Seq<char>, k: int)
    requires
        0 <= k <= s.len(),
        forall|i: int| 0 <= i < k ==> white_space(s[i]),
        k == s.len() || !white_space(s[k]),
    ensures
        trim_start(s) == s.skip(k),
    decreases k,
{
    if k == 0 {
        assert(s.skip(0) =~= s);
    } else {
        trim_start_is(s.drop_first(), k - 1);
        assert(s.drop_first().skip(k - 1) =~= s.skip(k));
    }
}

proof fn trim_end_is(s: Seq<char>, k: int)
    requires
        0 <= k <= s.len(),
        forall|i: int| k <= i < s.len() ==> white_space(s[i]),
        k == 0 || !white_space(s[k - 1]),
    ensures
        trim_end(s) == s.take(k),
    decreases s.len() - k,
{
    if k == s.len() {
        assert(s.take(k) =~= s);
    } else {
        trim_end_is(s.drop_last(), k);
        assert(s.drop_last().take(k) =~= s.take(k));
    }
}

/// Whether the characters of `doc` from `at` on begin with `prefix`.
fn matches_at(doc: &str, doc_len: usize, at: usize, end: usize, prefix: &str) -> (b: bool)
    requires
        doc_len == doc@.len(),
        at <= end <= doc_len,
    ensures
        b == starts_with(doc@.subrange(at as int, end as int), prefix@),
{
    let plen = prefix.unicode_len();
    if end - at < plen {
        return false;
    }
    let mut i: usize = 0;
    while i < plen
        invariant
            plen == prefix@.len(),
            at + plen <= end <= doc_len,
            doc_len == doc@.len(),
            i <= plen,
            forall|k: int| 0 <= k < i ==> doc@[at + k] == prefix@[k],
        decreases plen - i,
    {
        if doc.get_char(at + i) != prefix.get_char(i) {
            assert(doc@.subrange(at as int, end as int).take(plen as int)[i as int] != prefix@[i as int]);
            return false;
        }
        i = i + 1;
    }
    assert(doc@.subrange(at as int, end as int).take(plen as int) =~= prefix@);
    true
}

/// The identifier on the line `doc[start..end]`, if it is a table row.
fn row_name(doc: &str, doc_len: usize, start: usize, end: usize) -> (name: Option<String>)
    requires
        doc_len == doc@.len(),
        start <= end <= doc_len,
    ensures
        name matches Some(n) ==> table_row_name(doc@.subrange(start as int, end as int)) == Some(
            n@,
        ),
        name is None ==> table_row_name(doc@.subrange(start as int, end as int)) is None,
{
    let ghost line = doc@.subrange(start as int, end as int);
    let mut a = start;
    while a < end && is_white_space(doc.get_char(a))
        invariant
            start <= a <= end <= doc_len,
            doc_len == doc@.len(),
            forall|i: int| start <= i < a ==> white_space(doc@[i]),
        decreases end - a,
    {
        a = a + 1;
    }
    proof {
        trim_start_is(line, a - start);
        assert(line.skip(a - start) =~= doc@.subrange(a as int, end as int));
    }
    let mut b = end;
    while b > a && is_white_space(doc.get_char(b - 1))
        invariant
            start <= a <= b <= end <= doc_len,
            doc_len == doc@.len(),
            forall|i: int| b <= i < end ==> white_space(doc@[i]),
        decreases b - a,
    {
        b = b - 1;
    }
    let ghost trimmed = doc@.subrange(a as int, b as int);
    proof {
        let rest = doc@.subrange(a as int, end as int);
        trim_end_is(rest, b - a);
        assert(rest.take(b - a) =~= trimmed);
        assert(trim(line) == trimmed);
    }
    proof {
        reveal_strlit("| `");
        reveal_strlit("snora-");
    }
    if !matches_at(doc, doc_len, a, b, "| `") {
        return None;
    }
    let rest_start = a + 3;
    let ghost rest = doc@.subrange(rest_start as int, b as int);
    assert(trimmed.skip(3) =~= rest);
    let mut e = rest_start;
    while e < b && doc.get_char(e) != '`'
        invariant
            rest_start <= e <= b <= doc_len,
            doc_len == doc@.len(),
            forall|i: int| rest_start <= i < e ==> doc@[i] != '`',
        decreases b - e,
    {
        e = e + 1;
    }
    proof {
        index_of_is(rest, '`', e - rest_start);
    }
    if e >= b {
        return None;
    }
    assert(rest.take(e - rest_start) =~= doc@.subrange(rest_start as int, e as int));
    if !matches_at(doc, doc_len, rest_start, e, "snora-") {
        return None;
    }
    let name = doc.substring_char(rest_start, e);
    Some(String::from_str(name))
}

/// The views of a list of owned strings.
pub open spec fn strings_view(names: Seq<String>) -> Seq<Seq<char>> {
    names.map_values(|s: String| s@)
}

/// Every identifier listed in the reference page's identifier table, in
/// page order: for each line that, once trimmed, starts with `` | ` ``,
/// the text up to the next back quote, kept when it starts with `snora-`.
pub fn documented_identifiers(doc: &str) -> (names: Vec<String>)
    ensures
        strings_view(names@) == documented_names(doc@),
{
    let doc_len = doc.unicode_len();
    let ghost f = row_name_fn();
    let ghost mut done: Seq<Seq<char>> = Seq::empty();
    let mut names: Vec<String> = Vec::new();
    let mut pos: usize = 0;
    assert(doc@.skip(0) =~= doc@);
    loop
        invariant
            doc_len == doc@.len(),
            pos <= doc_len,
            split_lines(doc@) == done + split_lines(doc@.skip(pos as int)),
            strings_view(names@) == done.filter_map(f),
            f == row_name_fn(),
        decreases doc_len - pos,
    {
        let mut j = pos;
        while j < doc_len && doc.get_char(j) != '\n'
            invariant
                pos <= j <= doc_len,
                doc_len == doc@.len(),
                forall|i: int| pos <= i < j ==> doc@[i] != '\n',
            decreases doc_len - j,
        {
            j = j + 1;
        }
        let ghost tail = doc@.skip(pos as int);
        let ghost line = doc@.subrange(pos as int, j as int);
        proof {
            index_of_is(tail, '\n', j - pos);
            assert(tail.take(j - pos) =~= line);
        }
        let found = row_name(doc, doc_len, pos, j);
        let ghost before = names@;
        let ghost d2 = done.push(line);
        proof {
            assert(d2.drop_last() =~= done);
            assert(d2.last() == line);
        }
        match found {
            Some(n) => {
                let ghost nv = n@;
                names.push(n);
                proof {
                    assert(table_row_name(line) == Some(nv));
                    assert(f(line) == Some(nv));
                    assert(strings_view(names@) =~= strings_view(before).push(nv));
                    assert(d2.filter_map(f) == done.filter_map(f) + seq![nv]);
                }
            },
            None => {
                assert(table_row_name(line) is None);
                assert(f(line) is None);
                assert(d2.filter_map(f) == done.filter_map(f));
            },
        }
        proof {
            assert(strings_view(names@) =~= d2.filter_map(f));
            done = d2;
        }
        if j >= doc_len {
            assert(tail =~= line);
            assert(split_lines(tail) =~= seq![line]);
            assert(split_lines(doc@) =~= done);
            return names;
        }
        proof {
            assert(tail.skip(j - pos + 1) =~= doc@.skip(j + 1));
            assert(split_lines(doc@) =~= done + split_lines(doc@.skip(j + 1)));
        }
        pos = j + 1;
    }
}

} // verus!
