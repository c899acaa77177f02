use vstd::prelude::*;

use crate::text::{is_space_char, trim_back, trim_front, trimmed, trim_str};

verus! {

// ---------------------------------------------------------------------------
// Splitting text into lines
// ---------------------------------------------------------------------------

/// Index of the first line feed in `s`, or `s.len()` if there is none.
pub open spec fn first_nl(s: Seq<char>) -> nat
    decreases s.len(),
{
    if s.len() == 0 {
        0
    } else if s[0] == '\n' {
        0
    } else {
        1 + first_nl(s.drop_first())
    }
}

proof fn lemma_first_nl(s: Seq<char>)
    ensures
        first_nl(s) <= s.len(),
        forall|k: int| 0 <= k < first_nl(s) ==> s[k] != '\n',
        first_nl(s) < s.len() ==> s[first_nl(s) as int] == '\n',
    decreases s.len(),
{
    if s.len() > 0 && s[0] != '\n' {
        lemma_first_nl(s.drop_first());
        assert forall|k: int| 0 <= k < first_nl(s) implies s[k] != '\n' by {
            if k > 0 {
                assert(s.drop_first()[k - 1] != '\n');
            }
        }
    }
}

proof fn lemma_first_nl_is(s: Seq<char>, i: int)
    requires
        0 <= i <= s.len(),
        forall|k: int| 0 <= k < i ==> s[k] != '\n',
        i < s.len() ==> s[i] == '\n',
    ensures
        first_nl(s) == i,
    decreases i,
{
    if i > 0 {
        assert(s[0] != '\n');
        lemma_first_nl_is(s.drop_first(), i - 1);
    }
}

/// A line with a trailing carriage return loses it; line feeds are the
/// separators, so a `"\r\n"` ending strips down to nothing.
pub open spec fn strip_cr(l: Seq<char>) -> Seq<char> {
    if l.len() > 0 && l.last() == '\r' {
        l.drop_last()
    } else {
        l
    }
}

/// The lines of `s`, in the sense of `str::lines`: separated by `'\n'`, with
/// a `'\r'` immediately before a separator removed, and with no empty final
/// line when the text ends in a separator.
pub open spec fn lines_of(s: Seq<char>) -> Seq<Seq<char>>
    decreases s.len(),
{
    if s.len() == 0 {
        Seq::empty()
    } else {
        let i = first_nl(s);
        if i >= s.len() {
            seq![s]
        } else {
            seq![strip_cr(s.take(i as int))] + lines_of(s.skip(i + 1 as int))
        }
    }
}

/// Splits `s` into its lines.
pub fn split_lines(s: &str) -> (r: Vec<String>)
    ensures
        r.deep_view() == lines_of(s@),
{
    let n = s.unicode_len();
    let mut out: Vec<String> = Vec::new();
    let mut start: usize = 0;
    proof {
        assert(s@.skip(0) =~= s@);
        assert(out.deep_view() =~= Seq::<Seq<char>>::empty());
        assert(Seq::<Seq<char>>::empty() + lines_of(s@) =~= lines_of(s@));
    }
    while start < n
        invariant
            n == s@.len(),
            start <= n,
            lines_of(s@) == out.deep_view() + lines_of(s@.skip(start as int)),
        decreases n - start,
    {
        let mut end: usize = start;
        while end < n && s.get_char(end) != '\n'
            invariant
                n == s@.len(),
                start <= end <= n,
                forall|k: int| start <= k < end ==> s@[k] != '\n',
            decreases n - end,
        {
            end = end + 1;
        }
        let mut stop: usize = end;
        if end < n && stop > start && s.get_char(stop - 1) == '\r' {
            stop = stop - 1;
        }
        let line = String::from_str(s.substring_char(start, stop));
        proof {
            let t = s@.skip(start as int);
            lemma_first_nl_is(t, end - start);
            if end < n {
                assert(t.len() > 0);
                assert(first_nl(t) < t.len());
                assert(lines_of(t) == seq![strip_cr(t.take((end - start) as int))] + lines_of(
                    t.skip((end - start) + 1),
                ));
                assert(t.take((end - start) as int) =~= s@.subrange(start as int, end as int));
                assert(t.skip((end - start) + 1) =~= s@.skip(end + 1));
                if end > start && s@[end - 1] == '\r' {
                    assert(strip_cr(s@.subrange(start as int, end as int)) =~= s@.subrange(
                        start as int,
                        stop as int,
                    ));
                } else {
                    assert(strip_cr(s@.subrange(start as int, end as int)) =~= s@.subrange(
                        start as int,
                        stop as int,
                    ));
                }
                assert(lines_of(t) == seq![line@] + lines_of(s@.skip(end + 1)));
            } else {
                assert(first_nl(t) == t.len());
                assert(t.len() > 0);
                assert(lines_of(t) == seq![t]);
                assert(t =~= s@.subrange(start as int, stop as int));
            }
        }
        let ghost old_dv = out.deep_view();
        out.push(line);
        proof {
            assert(out.deep_view() =~= old_dv.push(line@));
            if end < n {
                assert(out.deep_view() + lines_of(s@.skip(end + 1)) =~= old_dv + (seq![line@]
                    + lines_of(s@.skip(end + 1))));
            } else {
                assert(out.deep_view() =~= old_dv + seq![line@]);
                assert(s@.skip(n as int).len() == 0);
                assert(lines_of(s@.skip(n as int)) =~= Seq::<Seq<char>>::empty());
                assert(out.deep_view() + Seq::<Seq<char>>::empty() =~= out.deep_view());
            }
        }
        if end < n {
            start = end + 1;
        } else {
            start = n;
        }
    }
    proof {
        assert(s@.skip(n as int).len() == 0);
        assert(lines_of(s@.skip(n as int)) =~= Seq::<Seq<char>>::empty());
        assert(out.deep_view() + Seq::<Seq<char>>::empty() =~= out.deep_view());
    }
    out
}

// ---------------------------------------------------------------------------
// Rendering one line
// ---------------------------------------------------------------------------

/// The presentation element for one line of lightweight markup, decided
/// after trimming surrounding whitespace, first match winning: heading
/// levels one to three, a line that is nothing but bold emphasis (markers
/// long enough not to overlap), a list item, a blank line, and otherwise a
/// plain paragraph — the fallback is never an error.
pub open spec fn render_line_spec(line: Seq<char>) -> Seq<char> {
    let t = trimmed(line);
    if t.len() >= 2 && t[0] == '#' && t[1] == ' ' {
        "<h1>"@ + t.skip(2) + "</h1>"@
    } else if t.len() >= 3 && t[0] == '#' && t[1] == '#' && t[2] == ' ' {
        "<h2>"@ + t.skip(3) + "</h2>"@
    } else if t.len() >= 4 && t[0] == '#' && t[1] == '#' && t[2] == '#' && t[3] == ' ' {
        "<h3>"@ + t.skip(4) + "</h3>"@
    } else if t.len() >= 4 && t[0] == '*' && t[1] == '*' && t[t.len() - 1] == '*' && t[t.len()
        - 2] == '*' {
        "<p><strong>"@ + t.subrange(2, t.len() - 2) + "</strong></p>"@
    } else if t.len() >= 2 && t[0] == '-' && t[1] == ' ' {
        "<li>"@ + t.skip(2) + "</li>"@
    } else if t.len() == 0 {
        "<br>"@
    } else {
        "<p>"@ + t + "</p>"@
    }
}

/// Renders one line of markup into its presentation element.
pub fn render_line(line: &str) -> (r: String)
    ensures
        r@ == render_line_spec(line@),
{
    let t = trim_str(line);
    let n = t.unicode_len();
    if n >= 2 && t.get_char(0) == '#' && t.get_char(1) == ' ' {
        let mut s = String::from_str("<h1>");
        s.append(t.substring_char(2, n));
        s.append("</h1>");
        s
    } else if n >= 3 && t.get_char(0) == '#' && t.get_char(1) == '#' && t.get_char(2) == ' ' {
        let mut s = String::from_str("<h2>");
        s.append(t.substring_char(3, n));
        s.append("</h2>");
        s
    } else if n >= 4 && t.get_char(0) == '#' && t.get_char(1) == '#' && t.get_char(2) == '#'
        && t.get_char(3) == ' ' {
        let mut s = String::from_str("<h3>");
        s.append(t.substring_char(4, n));
        s.append("</h3>");
        s
    } else if n >= 4 && t.get_char(0) == '*' && t.get_char(1) == '*' && t.get_char(n - 1) == '*'
        && t.get_char(n - 2) == '*' {
        let mut s = String::from_str("<p><strong>");
        s.append(t.substring_char(2, n - 2));
        s.append("</strong></p>");
        s
    } else if n >= 2 && t.get_char(0) == '-' && t.get_char(1) == ' ' {
        let mut s = String::from_str("<li>");
        s.append(t.substring_char(2, n));
        s.append("</li>");
        s
    } else if n == 0 {
        String::from_str("<br>")
    } else {
        let mut s = String::from_str("<p>");
        s.append(t);
        s.append("</p>");
        s
    }
}

/// A line in which no form is recognized always becomes a plain paragraph
/// element — the fallback, never an error. Rendering leaves such text as it
/// came, only wrapped.
pub proof fn lemma_plain_line_is_paragraph(line: Seq<char>)
    requires
        ({
            let t = trimmed(line);
            &&& t.len() > 0
            &&& !(t.len() >= 2 && t[0] == '#' && t[1] == ' ')
            &&& !(t.len() >= 3 && t[0] == '#' && t[1] == '#' && t[2] == ' ')
            &&& !(t.len() >= 4 && t[0] == '#' && t[1] == '#' && t[2] == '#' && t[3] == ' ')
            &&& !(t.len() >= 4 && t[0] == '*' && t[1] == '*' && t[t.len() - 1] == '*'
                && t[t.len() - 2] == '*')
            &&& !(t.len() >= 2 && t[0] == '-' && t[1] == ' ')
        }),
    ensures
        render_line_spec(line) == "<p>"@ + trimmed(line) + "</p>"@,
{
}

/// Round trip for headings: a level-one heading line built from any content
/// (non-empty, not ending in whitespace) renders to the level-one heading
/// element wrapping exactly that content.
pub proof fn lemma_heading_round_trip(c: Seq<char>)
    requires
        c.len() > 0,
        !is_space_char(c.last()),
    ensures
        render_line_spec(seq!['#', ' '] + c) == "<h1>"@ + c + "</h1>"@,
{
    let line = seq!['#', ' '] + c;
    assert(line[0] == '#');
    assert(!is_space_char('#'));
    assert(trim_front(line) == line);
    assert(line.last() == c.last());
    assert(trim_back(line) == line);
    assert(trimmed(line) == line);
    assert(line.skip(2) =~= c);
}

// ---------------------------------------------------------------------------
// The whole document
// ---------------------------------------------------------------------------

/// The lines joined back together with a line feed between each pair.
pub open spec fn join_lines(ls: Seq<Seq<char>>) -> Seq<char>
    decreases ls.len(),
{
    if ls.len() == 0 {
        Seq::empty()
    } else if ls.len() == 1 {
        ls[0]
    } else {
        ls[0] + seq!['\n'] + join_lines(ls.drop_first())
    }
}

proof fn lemma_join_push(ls: Seq<Seq<char>>, x: Seq<char>)
    requires
        ls.len() > 0,
    ensures
        join_lines(ls.push(x)) == join_lines(ls) + seq!['\n'] + x,
    decreases ls.len(),
{
    if ls.len() == 1 {
        assert(ls.push(x).drop_first() =~= seq![x]);
        assert(join_lines(seq![x]) == x);
        assert(ls.push(x)[0] == ls[0]);
        assert(join_lines(ls.push(x)) == ls[0] + seq!['\n'] + x);
    } else {
        lemma_join_push(ls.drop_first(), x);
        assert(ls.push(x).drop_first() =~= ls.drop_first().push(x));
        assert((ls[0] + seq!['\n']) + (join_lines(ls.drop_first()) + seq!['\n'] + x) =~= ((ls[0]
            + seq!['\n']) + join_lines(ls.drop_first())) + seq!['\n'] + x);
    }
}

/// Every line of the markup rendered to its element, in order.
pub open spec fn rendered_lines(ls: Seq<Seq<char>>) -> Seq<Seq<char>> {
    ls.map_values(|l: Seq<char>| render_line_spec(l))
}

/// The fixed document frame above the rendered lines.
pub open spec fn doc_head() -> Seq<char> {
    "<!DOCTYPE html>\n<html>\n<head>\n    <style>\n        body { font-family: -apple-system, BlinkMacSystemFont, 'Segoe UI', Roboto, sans-serif; max-width: 800px; margin: 0 auto; padding: 20px; line-height: 1.6; }\n        h1 { color: #1a1a1a; border-bottom: 2px solid #0066cc; padding-bottom: 10px; }\n        h2 { color: #333; margin-top: 24px; }\n        h3 { color: #555; }\n        li { margin: 8px 0; }\n        p { color: #444; }\n    </style>\n</head>\n<body>\n"@
}

/// The fixed document frame below the rendered lines.
pub open spec fn doc_tail() -> Seq<char> {
    "\n</body>\n</html>"@
}

/// The whole presentation document for the markup `md`: each line rendered
/// on its own, with no state carried across lines, embedded in the fixed
/// frame. A pure function of the input text.
pub open spec fn render_spec(md: Seq<char>) -> Seq<char> {
    doc_head() + join_lines(rendered_lines(lines_of(md))) + doc_tail()
}

/// Renders lightweight markup into a complete presentation document.
pub fn render_html(markdown: &str) -> (r: String)
    ensures
        r@ == render_spec(markdown@),
{
    let lines = split_lines(markdown);
    let mut body = String::new();
    let mut i: usize = 0;
    proof {
        assert(rendered_lines(lines.deep_view()).take(0) =~= Seq::<Seq<char>>::empty());
    }
    while i < lines.len()
        invariant
            lines.deep_view() == lines_of(markdown@),
            i <= lines.len(),
            body@ == join_lines(rendered_lines(lines.deep_view()).take(i as int)),
        decreases lines.len() - i,
    {
        let ghost rl = rendered_lines(lines.deep_view());
        let elem = render_line(lines[i].as_str());
        if i > 0 {
            body.append("\n");
            proof {
                reveal_strlit("\n");
                assert("\n"@ =~= seq!['\n']);
            }
        }
        body.append(elem.as_str());
        proof {
            assert(rl[i as int] == render_line_spec(lines.deep_view()[i as int]));
            assert(rl.take(i + 1 as int) =~= rl.take(i as int).push(rl[i as int]));
            if i > 0 {
                assert(rl.take(i as int).len() > 0);
                lemma_join_push(rl.take(i as int), rl[i as int]);
            } else {
                assert(rl.take(1) =~= seq![rl[0]]);
                assert(join_lines(seq![rl[0]]) == rl[0]);
                assert(body@ =~= rl[0]);
            }
        }
        i = i + 1;
    }
    proof {
        assert(rendered_lines(lines.deep_view()).take(lines.len() as int) =~= rendered_lines(
            lines.deep_view(),
        ));
    }
    let mut out = String::from_str(
        "<!DOCTYPE html>\n<html>\n<head>\n    <style>\n        body { font-family: -apple-system, BlinkMacSystemFont, 'Segoe UI', Roboto, sans-serif; max-width: 800px; margin: 0 auto; padding: 20px; line-height: 1.6; }\n        h1 { color: #1a1a1a; border-bottom: 2px solid #0066cc; padding-bottom: 10px; }\n        h2 { color: #333; margin-top: 24px; }\n        h3 { color: #555; }\n        li { margin: 8px 0; }\n        p { color: #444; }\n    </style>\n</head>\n<body>\n",
    );
    out.append(body.as_str());
    out.append("\n</body>\n</html>");
    out
}

} // verus!
