//! Laws of the log renderer, stated over its specification.
use vstd::prelude::*;
use crate::render::{
    footer_piece, header_pieces, line_effect, log_effect, show_line_spec, step, steps,
    wants_headers, LogFilterV, RenderV,
};
use crate::section::{parse_section, SectionType, SectionV};
use crate::status::Style;
use crate::text::contains_seq;

verus! {

/// The segments of a line written as plain text.
pub open spec fn plain_pieces(segs: Seq<Seq<char>>) -> Seq<(Style, Seq<char>)> {
    segs.map_values(|s: Seq<char>| (Style::Plain, s))
}

/// Lines written as plain text, each one's segments followed by a line break.
pub open spec fn plain_lines(body: Seq<Seq<Seq<char>>>) -> Seq<(Style, Seq<char>)>
    decreases body.len(),
{
    if body.len() == 0 {
        Seq::empty()
    } else {
        plain_lines(body.drop_last()) + plain_pieces(body.last()).push((Style::Plain, "\n"@))
    }
}

/// Whether no segment of any line is a section marker.
pub open spec fn no_markers(body: Seq<Seq<Seq<char>>>) -> bool {
    forall|i: int, j: int|
        0 <= i < body.len() && 0 <= j < body[i].len() ==> parse_section(#[trigger] body[i][j])
            is None
}

proof fn lemma_steps_two(f: LogFilterV, colored: bool, st: RenderV, x: Seq<char>, y: Seq<char>)
    ensures
        steps(f, colored, st, seq![x, y]) == step(f, colored, step(f, colored, st, x), y),
{
    assert(seq![x, y].drop_last() =~= seq![x]);
    assert(seq![x].drop_last() =~= Seq::<Seq<char>>::empty());
    assert(steps(f, colored, st, Seq::<Seq<char>>::empty()) == st);
    assert(steps(f, colored, st, seq![x]) == step(f, colored, st, x));
    assert(seq![x, y].last() == y);
}

proof fn lemma_steps_one(f: LogFilterV, colored: bool, st: RenderV, x: Seq<char>)
    ensures
        steps(f, colored, st, seq![x]) == step(f, colored, st, x),
{
    assert(seq![x].drop_last() =~= Seq::<Seq<char>>::empty());
    assert(steps(f, colored, st, Seq::<Seq<char>>::empty()) == st);
    assert(seq![x].last() == x);
}

proof fn lemma_log_empty(f: LogFilterV, colored: bool)
    ensures
        log_effect(f, colored, Seq::empty(), Seq::empty()) == (RenderV {
            pending: None,
            stack: Seq::empty(),
            show: false,
            out: Seq::empty(),
        }),
{
    reveal(log_effect);
}

proof fn lemma_log_snoc(
    f: LogFilterV,
    colored: bool,
    lines: Seq<Seq<char>>,
    segs: Seq<Seq<Seq<char>>>,
    l: Seq<char>,
    g: Seq<Seq<char>>,
)
    ensures
        ({
            let prev = log_effect(f, colored, lines, segs);
            log_effect(f, colored, lines.push(l), segs.push(g)) == line_effect(
                f,
                colored,
                prev.pending,
                prev.stack,
                prev.out,
                l,
                g,
            )
        }),
{
    reveal(log_effect);
    assert(lines.push(l).drop_last() =~= lines);
    assert(segs.push(g).drop_last() =~= segs);
}

/// Text segments under a shown line, in plain mode, are written one by one.
proof fn lemma_plain_text_steps(f: LogFilterV, st: RenderV, segs: Seq<Seq<char>>)
    requires
        st.pending is None,
        st.show,
        forall|j: int| 0 <= j < segs.len() ==> parse_section(#[trigger] segs[j]) is None,
    ensures
        steps(f, false, st, segs) == (RenderV { out: st.out + plain_pieces(segs), ..st }),
    decreases segs.len(),
{
    if segs.len() == 0 {
        assert(st.out + plain_pieces(segs) =~= st.out);
    } else {
        lemma_plain_text_steps(f, st, segs.drop_last());
        assert(parse_section(segs[segs.len() - 1]) is None);
        assert(st.out + plain_pieces(segs) =~= (st.out + plain_pieces(segs.drop_last())).push(
            (Style::Plain, segs.last()),
        ));
    }
}

/// The body lines of a section, with every line shown and no marker among them.
proof fn lemma_plain_body(
    f: LogFilterV,
    lines: Seq<Seq<char>>,
    segs: Seq<Seq<Seq<char>>>,
    body_lines: Seq<Seq<char>>,
    body: Seq<Seq<Seq<char>>>,
    k: int,
)
    requires
        f.show_all,
        0 <= k <= body.len(),
        body.len() == body_lines.len(),
        no_markers(body),
        log_effect(f, false, lines, segs).pending is None,
    ensures
        ({
            let e0 = log_effect(f, false, lines, segs);
            let e = log_effect(f, false, lines + body_lines.take(k), segs + body.take(k));
            e.pending is None && e.stack == e0.stack && e.out == e0.out + plain_lines(
                body.take(k),
            )
        }),
    decreases k,
{
    let e0 = log_effect(f, false, lines, segs);
    if k == 0 {
        assert(lines + body_lines.take(0) =~= lines);
        assert(segs + body.take(0) =~= segs);
        assert(e0.out + plain_lines(body.take(0)) =~= e0.out);
    } else {
        lemma_plain_body(f, lines, segs, body_lines, body, k - 1);
        let prev_l = lines + body_lines.take(k - 1);
        let prev_s = segs + body.take(k - 1);
        assert(lines + body_lines.take(k) =~= prev_l.push(body_lines[k - 1]));
        assert(segs + body.take(k) =~= prev_s.push(body[k - 1]));
        lemma_log_snoc(f, false, prev_l, prev_s, body_lines[k - 1], body[k - 1]);
        let p = log_effect(f, false, prev_l, prev_s);
        let st = RenderV { pending: p.pending, stack: p.stack, show: show_line_spec(p.stack, f), out: p.out };
        assert forall|j: int| 0 <= j < body[k - 1].len() implies parse_section(
            #[trigger] body[k - 1][j],
        ) is None by {
            assert(parse_section(body[k - 1][j]) is None);
        }
        lemma_plain_text_steps(f, st, body[k - 1]);
        assert(body.take(k).drop_last() =~= body.take(k - 1));
        assert(body.take(k).last() == body[k - 1]);
        assert(e0.out + plain_lines(body.take(k)) =~= p.out + plain_pieces(body[k - 1]).push(
            (Style::Plain, "\n"@),
        ));
    }
}

/// With every line shown and no colouring, a section whose first line holds its start
/// marker and title, whose body lines hold no marker, and whose last line holds only its
/// end marker, is written as its caption, then every body line's text once and in order,
/// each line ended by a line break.
pub proof fn lemma_show_all_keeps_text(
    f: LogFilterV,
    first: Seq<char>,
    open: Seq<char>,
    title: Seq<char>,
    body_lines: Seq<Seq<char>>,
    body: Seq<Seq<Seq<char>>>,
    last: Seq<char>,
    close: Seq<char>,
)
    requires
        f.show_all,
        parse_section(open) matches Some(s) && s.kind == SectionType::Start,
        parse_section(title) is None,
        parse_section(close) matches Some(e) && e.kind == SectionType::End,
        body.len() == body_lines.len(),
        no_markers(body),
    ensures
        log_effect(
            f,
            false,
            seq![first] + body_lines + seq![last],
            seq![seq![open, title]] + body + seq![seq![close]],
        ).out == header_pieces(title, (parse_section(open)->Some_0).name, true) + seq![
            (Style::Plain, "\n"@),
        ] + plain_lines(body) + seq![(Style::Plain, "\n"@)],
{
    let s = parse_section(open)->Some_0;
    lemma_log_empty(f, false);
    let l0 = seq![first];
    let g0 = seq![seq![open, title]];
    lemma_log_snoc(f, false, Seq::empty(), Seq::empty(), first, seq![open, title]);
    assert(Seq::<Seq<char>>::empty().push(first) =~= l0);
    assert(Seq::<Seq<Seq<char>>>::empty().push(seq![open, title]) =~= g0);
    let init = RenderV {
        pending: None,
        stack: Seq::empty(),
        show: show_line_spec(Seq::empty(), f),
        out: Seq::empty(),
    };
    lemma_steps_two(f, false, init, open, title);
    let e0 = log_effect(f, false, l0, g0);
    assert(e0.stack == seq![s]);
    assert(e0.pending is None);
    assert(e0.out == header_pieces(title, s.name, true).push((Style::Plain, "\n"@)));
    lemma_plain_body(f, l0, g0, body_lines, body, body.len() as int);
    assert(body_lines.take(body.len() as int) =~= body_lines);
    assert(body.take(body.len() as int) =~= body);
    let e1 = log_effect(f, false, l0 + body_lines, g0 + body);
    lemma_log_snoc(f, false, l0 + body_lines, g0 + body, last, seq![close]);
    assert(l0 + body_lines + seq![last] =~= (l0 + body_lines).push(last));
    assert(g0 + body + seq![seq![close]] =~= (g0 + body).push(seq![close]));
    let st = RenderV { pending: e1.pending, stack: e1.stack, show: show_line_spec(e1.stack, f), out: e1.out };
    lemma_steps_one(f, false, st, close);
    assert(header_pieces(title, s.name, true) + seq![(Style::Plain, "\n"@)] =~= header_pieces(title, s.name, true).push((Style::Plain, "\n"@)));
    assert(e1.out.push((Style::Plain, "\n"@)) =~= header_pieces(title, s.name, true) + seq![
        (Style::Plain, "\n"@),
    ] + plain_lines(body) + seq![(Style::Plain, "\n"@)]);
}

/// Nested sections balance: when section `A` opens, `B` opens inside it, then `B` closes
/// and `A` closes (each marker followed on its line by one more segment), no section is
/// left open at the end, whatever the filter and colour mode. With every line shown and
/// no colouring, each closing line reports the time since its own section opened.
pub proof fn lemma_nested_balance(
    f: LogFilterV,
    colored: bool,
    lines: Seq<Seq<char>>,
    open_a: Seq<char>,
    title_a: Seq<char>,
    open_b: Seq<char>,
    title_b: Seq<char>,
    close_b: Seq<char>,
    after_b: Seq<char>,
    close_a: Seq<char>,
    after_a: Seq<char>,
)
    requires
        lines.len() == 4,
        parse_section(open_a) matches Some(a) && a.kind == SectionType::Start,
        parse_section(open_b) matches Some(b) && b.kind == SectionType::Start,
        parse_section(close_b) matches Some(e) && e.kind == SectionType::End,
        parse_section(close_a) matches Some(e) && e.kind == SectionType::End,
        parse_section(title_a) is None,
        parse_section(title_b) is None,
        parse_section(after_b) is None,
        parse_section(after_a) is None,
    ensures
        ({
            let segs = seq![
                seq![open_a, title_a],
                seq![open_b, title_b],
                seq![close_b, after_b],
                seq![close_a, after_a],
            ];
            let e = log_effect(f, colored, lines, segs);
            let a = parse_section(open_a)->Some_0;
            let b = parse_section(open_b)->Some_0;
            let end_a = parse_section(close_a)->Some_0;
            let end_b = parse_section(close_b)->Some_0;
            &&& e.pending is None
            &&& e.stack.len() == 0
            &&& (f.show_all && !colored) ==> e.out == header_pieces(title_a, a.name, true) + seq![
                (Style::Plain, "\n"@),
            ] + header_pieces(title_b, b.name, true) + seq![
                (Style::Plain, "\n"@),
                footer_piece(end_b.timestamp, b.timestamp),
                (Style::Plain, "\n"@),
                footer_piece(end_a.timestamp, a.timestamp),
                (Style::Plain, "\n"@),
            ]
        }),
{
    let g1 = seq![open_a, title_a];
    let g2 = seq![open_b, title_b];
    let g3 = seq![close_b, after_b];
    let g4 = seq![close_a, after_a];
    let segs = seq![g1, g2, g3, g4];
    let a = parse_section(open_a)->Some_0;
    let b = parse_section(open_b)->Some_0;
    let end_a = parse_section(close_a)->Some_0;
    let end_b = parse_section(close_b)->Some_0;
    let e0 = Seq::<Seq<char>>::empty();
    let s0 = Seq::<Seq<Seq<char>>>::empty();
    lemma_log_empty(f, colored);
    let l1 = e0.push(lines[0]);
    let l2 = l1.push(lines[1]);
    let l3 = l2.push(lines[2]);
    let t1 = s0.push(g1);
    let t2 = t1.push(g2);
    let t3 = t2.push(g3);
    lemma_marker_line(f, colored, e0, s0, lines[0], open_a, title_a);
    lemma_marker_line(f, colored, l1, t1, lines[1], open_b, title_b);
    lemma_marker_line(f, colored, l2, t2, lines[2], close_b, after_b);
    lemma_marker_line(f, colored, l3, t3, lines[3], close_a, after_a);
    let r1 = log_effect(f, colored, l1, t1);
    let r2 = log_effect(f, colored, l2, t2);
    let r3 = log_effect(f, colored, l3, t3);
    let r4 = log_effect(f, colored, l3.push(lines[3]), t3.push(g4));
    assert(r1.stack =~= seq![a]);
    assert(r2.stack =~= seq![a, b]);
    assert(seq![a, b].drop_last() =~= seq![a]);
    assert(r3.stack =~= seq![a]);
    assert(seq![a].drop_last() =~= Seq::<SectionV>::empty());
    assert(r4.stack.len() == 0);
    assert(l3.push(lines[3]) =~= lines);
    assert(t3.push(g4) =~= segs);
    if f.show_all && !colored {
        let nl = (Style::Plain, "\n"@);
        assert(r4.out =~= header_pieces(title_a, a.name, true) + seq![nl] + header_pieces(title_b, b.name, true)
            + seq![
            nl,
            footer_piece(end_b.timestamp, b.timestamp),
            nl,
            footer_piece(end_a.timestamp, a.timestamp),
            nl,
        ]);
    }
}

/// A line made of a section marker and one more segment that is not a marker, read with
/// no marker pending: the marker takes effect at once.
proof fn lemma_marker_line(
    f: LogFilterV,
    colored: bool,
    lines: Seq<Seq<char>>,
    segs: Seq<Seq<Seq<char>>>,
    line: Seq<char>,
    marker: Seq<char>,
    after: Seq<char>,
)
    requires
        log_effect(f, colored, lines, segs).pending is None,
        parse_section(marker) is Some,
        parse_section(after) is None,
    ensures
        ({
            let p = log_effect(f, colored, lines, segs);
            let r = log_effect(f, colored, lines.push(line), segs.push(seq![marker, after]));
            let m = parse_section(marker)->Some_0;
            let nl = (Style::Plain, "\n"@);
            &&& r.pending is None
            &&& m.kind == SectionType::Start ==> r.stack == p.stack.push(m)
            &&& m.kind == SectionType::End ==> r.stack == if p.stack.len() > 0 {
                p.stack.drop_last()
            } else {
                p.stack
            }
            &&& (f.show_all && !colored && m.kind == SectionType::Start) ==> r.out == p.out
                + header_pieces(after, m.name, true).push(nl)
            &&& (f.show_all && !colored && m.kind == SectionType::End && p.stack.len() > 0)
                ==> r.out == p.out.push(footer_piece(m.timestamp, p.stack.last().timestamp)).push(
                nl,
            )
            &&& m.kind == SectionType::Start ==> r.out == p.out + (if wants_headers(f) {
                header_pieces(after, m.name, show_line_spec(p.stack.push(m), f))
            } else {
                Seq::empty()
            }) + (if show_line_spec(p.stack.push(m), f) {
                seq![nl]
            } else {
                Seq::empty()
            })
            &&& (m.kind == SectionType::End && p.stack.len() > 0) ==> r.out == (if wants_headers(
                f,
            ) {
                p.out.push(footer_piece(m.timestamp, p.stack.last().timestamp))
            } else {
                p.out
            }) + (if !colored && show_line_spec(p.stack.drop_last(), f) {
                seq![nl]
            } else {
                Seq::empty()
            })
        }),
{
    let p = log_effect(f, colored, lines, segs);
    lemma_log_snoc(f, colored, lines, segs, line, seq![marker, after]);
    lemma_steps_two(
        f,
        colored,
        RenderV { pending: None, stack: p.stack, show: show_line_spec(p.stack, f), out: p.out },
        marker,
        after,
    );
    let m = parse_section(marker)->Some_0;
    let nl = (Style::Plain, "\n"@);
    if f.show_all && !colored && m.kind == SectionType::Start {
        assert(p.out + header_pieces(after, m.name, true) + seq![nl] =~= p.out + header_pieces(after, m.name, true).push(nl));
    }
    let r = log_effect(f, colored, lines.push(line), segs.push(seq![marker, after]));
    if m.kind == SectionType::Start {
        let sh = show_line_spec(p.stack.push(m), f);
        let h = if wants_headers(f) {
            header_pieces(after, m.name, sh)
        } else {
            Seq::empty()
        };
        let tail = if sh {
            seq![nl]
        } else {
            Seq::<(Style, Seq<char>)>::empty()
        };
        assert(p.out + h =~= if wants_headers(f) {
            p.out + header_pieces(after, m.name, sh)
        } else {
            p.out
        });
        if sh && colored {
            assert(r.out =~= (p.out + h).push(nl));
        }
        if sh && !colored {
            assert(r.out =~= (p.out + h).push(nl));
        }
        assert(r.out =~= p.out + h + tail);
    }
    if m.kind == SectionType::End && p.stack.len() > 0 {
        let o1 = if wants_headers(f) {
            p.out.push(footer_piece(m.timestamp, p.stack.last().timestamp))
        } else {
            p.out
        };
        if !colored && show_line_spec(p.stack.drop_last(), f) {
            assert(r.out =~= o1 + seq![nl]);
        } else {
            assert(r.out =~= o1 + Seq::<(Style, Seq<char>)>::empty());
        }
    }
}

/// Text segments read while lines are hidden leave the state as it is.
proof fn lemma_hidden_text_steps(f: LogFilterV, colored: bool, st: RenderV, segs: Seq<Seq<char>>)
    requires
        st.pending is None,
        !st.show,
        forall|j: int| 0 <= j < segs.len() ==> parse_section(#[trigger] segs[j]) is None,
    ensures
        steps(f, colored, st, segs) == st,
    decreases segs.len(),
{
    if segs.len() > 0 {
        lemma_hidden_text_steps(f, colored, st, segs.drop_last());
        assert(parse_section(segs[segs.len() - 1]) is None);
    }
}

/// Collapsed sections stay hidden: unless every line is asked for, a line of plain text
/// read inside a collapsed section whose name does not contain the filter text writes
/// nothing, whether or not headers are asked for.
pub proof fn lemma_collapsed_hides_text(
    f: LogFilterV,
    colored: bool,
    stack: Seq<SectionV>,
    out: Seq<(Style, Seq<char>)>,
    line: Seq<char>,
    segs: Seq<Seq<char>>,
)
    requires
        !f.show_all,
        exists|i: int|
            0 <= i < stack.len() && stack[i].collapsed && !contains_seq(
                stack[i].name,
                f.name_substring,
            ),
        forall|j: int| 0 <= j < segs.len() ==> parse_section(#[trigger] segs[j]) is None,
    ensures
        !show_line_spec(stack, f),
        line_effect(f, colored, None, stack, out, line, segs).out == out,
        line_effect(f, colored, None, stack, out, line, segs).stack == stack,
{
    let st = RenderV { pending: None, stack, show: show_line_spec(stack, f), out };
    lemma_hidden_text_steps(f, colored, st, segs);
}

/// Lines written raw, each followed by a line break.
pub open spec fn raw_lines(ls: Seq<Seq<char>>) -> Seq<(Style, Seq<char>)>
    decreases ls.len(),
{
    if ls.len() == 0 {
        Seq::empty()
    } else {
        raw_lines(ls.drop_last()) + seq![(Style::Plain, ls.last()), (Style::Plain, "\n"@)]
    }
}

/// What lines of text write: nothing when hidden; when shown, each raw line in colour
/// mode, and each line's segments otherwise, every line ended by a line break.
pub open spec fn shown_text(
    show: bool,
    colored: bool,
    ls: Seq<Seq<char>>,
    body: Seq<Seq<Seq<char>>>,
) -> Seq<(Style, Seq<char>)> {
    if !show {
        Seq::empty()
    } else if colored {
        raw_lines(ls)
    } else {
        plain_lines(body)
    }
}

/// Text segments read with no marker pending: written one by one when the line is shown
/// in plain mode, and nothing otherwise.
proof fn lemma_text_steps(f: LogFilterV, colored: bool, st: RenderV, segs: Seq<Seq<char>>)
    requires
        st.pending is None,
        forall|j: int| 0 <= j < segs.len() ==> parse_section(#[trigger] segs[j]) is None,
    ensures
        steps(f, colored, st, segs) == (RenderV {
            out: st.out + (if st.show && !colored {
                plain_pieces(segs)
            } else {
                Seq::empty()
            }),
            ..st
        }),
    decreases segs.len(),
{
    if segs.len() == 0 {
        assert(st.out + plain_pieces(segs) =~= st.out);
        assert(st.out + Seq::<(Style, Seq<char>)>::empty() =~= st.out);
    } else {
        lemma_text_steps(f, colored, st, segs.drop_last());
        assert(parse_section(segs[segs.len() - 1]) is None);
        assert(st.out + plain_pieces(segs) =~= (st.out + plain_pieces(segs.drop_last())).push(
            (Style::Plain, segs.last()),
        ));
        assert(st.out + Seq::<(Style, Seq<char>)>::empty() =~= st.out);
    }
}

/// Body lines with no marker, read with no marker pending, leave the stack as it is and
/// write what [`shown_text`] says.
proof fn lemma_body(
    f: LogFilterV,
    colored: bool,
    lines: Seq<Seq<char>>,
    segs: Seq<Seq<Seq<char>>>,
    body_lines: Seq<Seq<char>>,
    body: Seq<Seq<Seq<char>>>,
    k: int,
)
    requires
        0 <= k <= body.len(),
        body.len() == body_lines.len(),
        no_markers(body),
        log_effect(f, colored, lines, segs).pending is None,
    ensures
        ({
            let e0 = log_effect(f, colored, lines, segs);
            let e = log_effect(f, colored, lines + body_lines.take(k), segs + body.take(k));
            e.pending is None && e.stack == e0.stack && e.out == e0.out + shown_text(
                show_line_spec(e0.stack, f),
                colored,
                body_lines.take(k),
                body.take(k),
            )
        }),
    decreases k,
{
    let e0 = log_effect(f, colored, lines, segs);
    let sh = show_line_spec(e0.stack, f);
    if k == 0 {
        assert(lines + body_lines.take(0) =~= lines);
        assert(segs + body.take(0) =~= segs);
        assert(e0.out + shown_text(sh, colored, body_lines.take(0), body.take(0)) =~= e0.out);
    } else {
        lemma_body(f, colored, lines, segs, body_lines, body, k - 1);
        let prev_l = lines + body_lines.take(k - 1);
        let prev_s = segs + body.take(k - 1);
        assert(lines + body_lines.take(k) =~= prev_l.push(body_lines[k - 1]));
        assert(segs + body.take(k) =~= prev_s.push(body[k - 1]));
        lemma_log_snoc(f, colored, prev_l, prev_s, body_lines[k - 1], body[k - 1]);
        let p = log_effect(f, colored, prev_l, prev_s);
        let st = RenderV { pending: p.pending, stack: p.stack, show: show_line_spec(p.stack, f), out: p.out };
        assert forall|j: int| 0 <= j < body[k - 1].len() implies parse_section(
            #[trigger] body[k - 1][j],
        ) is None by {
            assert(parse_section(body[k - 1][j]) is None);
        }
        lemma_text_steps(f, colored, st, body[k - 1]);
        assert(body.take(k).drop_last() =~= body.take(k - 1));
        assert(body_lines.take(k).drop_last() =~= body_lines.take(k - 1));
        assert(body.take(k).last() == body[k - 1]);
        assert(body_lines.take(k).last() == body_lines[k - 1]);
        let e = log_effect(f, colored, lines + body_lines.take(k), segs + body.take(k));
        if !sh {
            assert(e.out =~= e0.out + shown_text(sh, colored, body_lines.take(k), body.take(k)));
        } else if colored {
            assert(e.out =~= e0.out + shown_text(sh, colored, body_lines.take(k), body.take(k)));
        } else {
            assert(e.out =~= e0.out + shown_text(sh, colored, body_lines.take(k), body.take(k)));
        }
    }
}

/// The opening line and body of a section: after the line with its start marker and
/// title, and after body lines with no marker.
proof fn lemma_open_and_body(
    f: LogFilterV,
    colored: bool,
    first: Seq<char>,
    open: Seq<char>,
    title: Seq<char>,
    body_lines: Seq<Seq<char>>,
    body: Seq<Seq<Seq<char>>>,
)
    requires
        parse_section(open) matches Some(s) && s.kind == SectionType::Start,
        parse_section(title) is None,
        body.len() == body_lines.len(),
        no_markers(body),
    ensures
        ({
            let s = parse_section(open)->Some_0;
            let sh = show_line_spec(seq![s], f);
            let e = log_effect(f, colored, seq![first] + body_lines, seq![seq![open, title]] + body);
            &&& e.pending is None
            &&& e.stack == seq![s]
            &&& e.out == (if wants_headers(f) {
                header_pieces(title, s.name, sh)
            } else {
                Seq::empty()
            }) + (if sh {
                seq![(Style::Plain, "\n"@)]
            } else {
                Seq::empty()
            }) + shown_text(sh, colored, body_lines, body)
        }),
{
    let s = parse_section(open)->Some_0;
    let e0l = Seq::<Seq<char>>::empty();
    let e0s = Seq::<Seq<Seq<char>>>::empty();
    lemma_log_empty(f, colored);
    lemma_marker_line(f, colored, e0l, e0s, first, open, title);
    assert(e0l.push(first) =~= seq![first]);
    assert(e0s.push(seq![open, title]) =~= seq![seq![open, title]]);
    assert(Seq::<SectionV>::empty().push(s) =~= seq![s]);
    assert(Seq::<(Style, Seq<char>)>::empty() + (if wants_headers(f) {
        header_pieces(title, s.name, show_line_spec(seq![s], f))
    } else {
        Seq::empty()
    }) =~= (if wants_headers(f) {
        header_pieces(title, s.name, show_line_spec(seq![s], f))
    } else {
        Seq::empty()
    }));
    lemma_body(f, colored, seq![first], seq![seq![open, title]], body_lines, body, body.len() as int);
    assert(body_lines.take(body.len() as int) =~= body_lines);
    assert(body.take(body.len() as int) =~= body);
}

/// The closing line of a section, read with only that section open: its end marker and
/// one more segment.
proof fn lemma_close_line(
    f: LogFilterV,
    colored: bool,
    lines: Seq<Seq<char>>,
    segs: Seq<Seq<Seq<char>>>,
    last: Seq<char>,
    close: Seq<char>,
    after: Seq<char>,
    s: SectionV,
)
    requires
        log_effect(f, colored, lines, segs).pending is None,
        log_effect(f, colored, lines, segs).stack == seq![s],
        parse_section(close) matches Some(e) && e.kind == SectionType::End,
        parse_section(after) is None,
    ensures
        ({
            let p = log_effect(f, colored, lines, segs);
            let e = parse_section(close)->Some_0;
            let r = log_effect(f, colored, lines + seq![last], segs + seq![seq![close, after]]);
            &&& r.pending is None
            &&& r.stack.len() == 0
            &&& r.out == (if wants_headers(f) {
                p.out.push(footer_piece(e.timestamp, s.timestamp))
            } else {
                p.out
            }) + (if !colored && show_line_spec(Seq::empty(), f) {
                seq![(Style::Plain, "\n"@)]
            } else {
                Seq::empty()
            })
        }),
{
    lemma_marker_line(f, colored, lines, segs, last, close, after);
    assert(lines + seq![last] =~= lines.push(last));
    assert(segs + seq![seq![close, after]] =~= segs.push(seq![close, after]));
    assert(seq![s].drop_last() =~= Seq::<SectionV>::empty());
}

/// With every line asked for, in plain and in colour mode: a section whose first line
/// holds its start marker and title, whose body lines hold no marker, and whose last line
/// holds its end marker and one more segment, is written as its caption, then every body
/// line once and in order (raw in colour mode, as its segments otherwise), then the line
/// that reports the section's duration.
pub proof fn lemma_show_all_round_trip(
    f: LogFilterV,
    colored: bool,
    first: Seq<char>,
    open: Seq<char>,
    title: Seq<char>,
    body_lines: Seq<Seq<char>>,
    body: Seq<Seq<Seq<char>>>,
    last: Seq<char>,
    close: Seq<char>,
    after: Seq<char>,
)
    requires
        f.show_all,
        parse_section(open) matches Some(s) && s.kind == SectionType::Start,
        parse_section(title) is None,
        parse_section(close) matches Some(e) && e.kind == SectionType::End,
        parse_section(after) is None,
        body.len() == body_lines.len(),
        no_markers(body),
    ensures
        ({
            let s = parse_section(open)->Some_0;
            let e = parse_section(close)->Some_0;
            log_effect(
                f,
                colored,
                seq![first] + body_lines + seq![last],
                seq![seq![open, title]] + body + seq![seq![close, after]],
            ).out == header_pieces(title, s.name, true) + seq![(Style::Plain, "\n"@)]
                + shown_text(true, colored, body_lines, body) + seq![
                footer_piece(e.timestamp, s.timestamp),
            ] + (if colored {
                Seq::empty()
            } else {
                seq![(Style::Plain, "\n"@)]
            })
        }),
{
    let s = parse_section(open)->Some_0;
    let e = parse_section(close)->Some_0;
    lemma_open_and_body(f, colored, first, open, title, body_lines, body);
    let l1 = seq![first] + body_lines;
    let g1 = seq![seq![open, title]] + body;
    lemma_close_line(f, colored, l1, g1, last, close, after, s);
    let p = log_effect(f, colored, l1, g1);
    let nl = (Style::Plain, "\n"@);
    assert(p.out.push(footer_piece(e.timestamp, s.timestamp)) + (if !colored {
        seq![nl]
    } else {
        Seq::empty()
    }) =~= header_pieces(title, s.name, true) + seq![nl] + shown_text(
        true,
        colored,
        body_lines,
        body,
    ) + seq![footer_piece(e.timestamp, s.timestamp)] + (if colored {
        Seq::empty()
    } else {
        seq![nl]
    }));
}

/// A section whose lines are hidden although headers are asked for, in plain and in
/// colour mode: only its caption and the line reporting its duration are written, then
/// a line break in plain mode; no body line appears.
pub proof fn lemma_hidden_section(
    f: LogFilterV,
    colored: bool,
    first: Seq<char>,
    open: Seq<char>,
    title: Seq<char>,
    body_lines: Seq<Seq<char>>,
    body: Seq<Seq<Seq<char>>>,
    last: Seq<char>,
    close: Seq<char>,
    after: Seq<char>,
)
    requires
        wants_headers(f),
        !f.show_all,
        parse_section(open) matches Some(s) && s.kind == SectionType::Start && !show_line_spec(
            seq![s],
            f,
        ),
        parse_section(title) is None,
        parse_section(close) matches Some(e) && e.kind == SectionType::End,
        parse_section(after) is None,
        body.len() == body_lines.len(),
        no_markers(body),
    ensures
        ({
            let s = parse_section(open)->Some_0;
            let e = parse_section(close)->Some_0;
            log_effect(
                f,
                colored,
                seq![first] + body_lines + seq![last],
                seq![seq![open, title]] + body + seq![seq![close, after]],
            ).out == header_pieces(title, s.name, false) + seq![
                footer_piece(e.timestamp, s.timestamp),
            ] + (if colored {
                Seq::empty()
            } else {
                seq![(Style::Plain, "\n"@)]
            })
        }),
{
    let s = parse_section(open)->Some_0;
    let e = parse_section(close)->Some_0;
    lemma_open_and_body(f, colored, first, open, title, body_lines, body);
    let l1 = seq![first] + body_lines;
    let g1 = seq![seq![open, title]] + body;
    lemma_close_line(f, colored, l1, g1, last, close, after, s);
    assert(show_line_spec(Seq::<SectionV>::empty(), f));
    let nl = (Style::Plain, "\n"@);
    let p = log_effect(f, colored, l1, g1);
    assert(p.out =~= header_pieces(title, s.name, false));
    assert(p.out.push(footer_piece(e.timestamp, s.timestamp)) + (if !colored {
        seq![nl]
    } else {
        Seq::empty()
    }) =~= header_pieces(title, s.name, false) + seq![footer_piece(e.timestamp, s.timestamp)]
        + (if colored {
        Seq::empty()
    } else {
        seq![nl]
    }));
}

/// With only the headers asked for, in plain and in colour mode, a section is written as
/// its caption and the line reporting its duration; no body line appears.
pub proof fn lemma_only_headers_both_modes(
    f: LogFilterV,
    colored: bool,
    first: Seq<char>,
    open: Seq<char>,
    title: Seq<char>,
    body_lines: Seq<Seq<char>>,
    body: Seq<Seq<Seq<char>>>,
    last: Seq<char>,
    close: Seq<char>,
    after: Seq<char>,
)
    requires
        f.show_only_headers,
        !f.show_all,
        parse_section(open) matches Some(s) && s.kind == SectionType::Start,
        parse_section(title) is None,
        parse_section(close) matches Some(e) && e.kind == SectionType::End,
        parse_section(after) is None,
        body.len() == body_lines.len(),
        no_markers(body),
    ensures
        ({
            let s = parse_section(open)->Some_0;
            let e = parse_section(close)->Some_0;
            log_effect(
                f,
                colored,
                seq![first] + body_lines + seq![last],
                seq![seq![open, title]] + body + seq![seq![close, after]],
            ).out == header_pieces(title, s.name, false) + seq![
                footer_piece(e.timestamp, s.timestamp),
            ] + (if colored {
                Seq::empty()
            } else {
                seq![(Style::Plain, "\n"@)]
            })
        }),
{
    let s = parse_section(open)->Some_0;
    assert(!show_line_spec(seq![s], f));
    lemma_hidden_section(f, colored, first, open, title, body_lines, body, last, close, after);
}

/// With headers asked for, a collapsed section whose name does not contain the filter
/// text is written, in plain and in colour mode, as its caption and the line reporting
/// its duration; no body line appears.
pub proof fn lemma_collapsed_section(
    f: LogFilterV,
    colored: bool,
    first: Seq<char>,
    open: Seq<char>,
    title: Seq<char>,
    body_lines: Seq<Seq<char>>,
    body: Seq<Seq<Seq<char>>>,
    last: Seq<char>,
    close: Seq<char>,
    after: Seq<char>,
)
    requires
        f.show_headers,
        !f.show_all,
        parse_section(open) matches Some(s) && s.kind == SectionType::Start && s.collapsed
            && !contains_seq(s.name, f.name_substring),
        parse_section(title) is None,
        parse_section(close) matches Some(e) && e.kind == SectionType::End,
        parse_section(after) is None,
        body.len() == body_lines.len(),
        no_markers(body),
    ensures
        ({
            let s = parse_section(open)->Some_0;
            let e = parse_section(close)->Some_0;
            log_effect(
                f,
                colored,
                seq![first] + body_lines + seq![last],
                seq![seq![open, title]] + body + seq![seq![close, after]],
            ).out == header_pieces(title, s.name, false) + seq![
                footer_piece(e.timestamp, s.timestamp),
            ] + (if colored {
                Seq::empty()
            } else {
                seq![(Style::Plain, "\n"@)]
            })
        }),
{
    let s = parse_section(open)->Some_0;
    assert(seq![s][0] == s);
    assert(!show_line_spec(seq![s], f));
    lemma_hidden_section(f, colored, first, open, title, body_lines, body, last, close, after);
}

/// Nested sections with headers asked for, in plain and in colour mode: when `A` opens,
/// `B` opens inside it, `B` closes and `A` closes (each marker followed on its line by one
/// more segment), then a text line follows, each close writes the time since its own
/// section opened, `B`'s first, no section is left open, and the text line after `A`
/// closes is shown as a top-level line.
pub proof fn lemma_nested_headers(
    f: LogFilterV,
    colored: bool,
    lines: Seq<Seq<char>>,
    open_a: Seq<char>,
    title_a: Seq<char>,
    open_b: Seq<char>,
    title_b: Seq<char>,
    close_b: Seq<char>,
    after_b: Seq<char>,
    close_a: Seq<char>,
    after_a: Seq<char>,
    text: Seq<Seq<char>>,
)
    requires
        wants_headers(f),
        lines.len() == 5,
        parse_section(open_a) matches Some(a) && a.kind == SectionType::Start,
        parse_section(open_b) matches Some(b) && b.kind == SectionType::Start,
        parse_section(close_b) matches Some(e) && e.kind == SectionType::End,
        parse_section(close_a) matches Some(e) && e.kind == SectionType::End,
        parse_section(title_a) is None,
        parse_section(title_b) is None,
        parse_section(after_b) is None,
        parse_section(after_a) is None,
        forall|j: int| 0 <= j < text.len() ==> parse_section(#[trigger] text[j]) is None,
    ensures
        ({
            let segs = seq![
                seq![open_a, title_a],
                seq![open_b, title_b],
                seq![close_b, after_b],
                seq![close_a, after_a],
                text,
            ];
            let a = parse_section(open_a)->Some_0;
            let b = parse_section(open_b)->Some_0;
            let end_a = parse_section(close_a)->Some_0;
            let end_b = parse_section(close_b)->Some_0;
            let nl = (Style::Plain, "\n"@);
            let opened = log_effect(f, colored, lines.take(2), segs.take(2));
            let e = log_effect(f, colored, lines, segs);
            &&& opened.stack == seq![a, b]
            &&& e.pending is None
            &&& e.stack.len() == 0
            &&& e.out == opened.out + seq![footer_piece(end_b.timestamp, b.timestamp)] + (if !colored
                && show_line_spec(seq![a], f) {
                seq![nl]
            } else {
                Seq::empty()
            }) + seq![footer_piece(end_a.timestamp, a.timestamp)] + (if !colored {
                seq![nl]
            } else {
                Seq::empty()
            }) + (if colored {
                seq![(Style::Plain, lines[4]), nl]
            } else {
                plain_pieces(text).push(nl)
            })
        }),
{
    let g1 = seq![open_a, title_a];
    let g2 = seq![open_b, title_b];
    let g3 = seq![close_b, after_b];
    let g4 = seq![close_a, after_a];
    let segs = seq![g1, g2, g3, g4, text];
    let a = parse_section(open_a)->Some_0;
    let b = parse_section(open_b)->Some_0;
    let end_a = parse_section(close_a)->Some_0;
    let end_b = parse_section(close_b)->Some_0;
    let nl = (Style::Plain, "\n"@);
    let e0 = Seq::<Seq<char>>::empty();
    let s0 = Seq::<Seq<Seq<char>>>::empty();
    lemma_log_empty(f, colored);
    let l1 = e0.push(lines[0]);
    let l2 = l1.push(lines[1]);
    let l3 = l2.push(lines[2]);
    let l4 = l3.push(lines[3]);
    let t1 = s0.push(g1);
    let t2 = t1.push(g2);
    let t3 = t2.push(g3);
    let t4 = t3.push(g4);
    lemma_marker_line(f, colored, e0, s0, lines[0], open_a, title_a);
    lemma_marker_line(f, colored, l1, t1, lines[1], open_b, title_b);
    lemma_marker_line(f, colored, l2, t2, lines[2], close_b, after_b);
    lemma_marker_line(f, colored, l3, t3, lines[3], close_a, after_a);
    let r1 = log_effect(f, colored, l1, t1);
    let r2 = log_effect(f, colored, l2, t2);
    let r3 = log_effect(f, colored, l3, t3);
    let r4 = log_effect(f, colored, l4, t4);
    assert(r1.stack =~= seq![a]);
    assert(r2.stack =~= seq![a, b]);
    assert(seq![a, b].drop_last() =~= seq![a]);
    assert(r3.stack =~= seq![a]);
    assert(seq![a].drop_last() =~= Seq::<SectionV>::empty());
    assert(r4.stack.len() == 0);
    assert(lines.take(2) =~= l2);
    assert(segs.take(2) =~= t2);
    lemma_log_snoc(f, colored, l4, t4, lines[4], text);
    assert(l4.push(lines[4]) =~= lines);
    assert(t4.push(text) =~= segs);
    assert(show_line_spec(Seq::<SectionV>::empty(), f));
    let st = RenderV { pending: r4.pending, stack: r4.stack, show: show_line_spec(r4.stack, f), out: r4.out };
    lemma_text_steps(f, colored, st, text);
    let e = log_effect(f, colored, lines, segs);
    let mid = if !colored && show_line_spec(seq![a], f) {
        seq![nl]
    } else {
        Seq::<(Style, Seq<char>)>::empty()
    };
    let end = if !colored {
        seq![nl]
    } else {
        Seq::<(Style, Seq<char>)>::empty()
    };
    assert(r3.out =~= r2.out.push(footer_piece(end_b.timestamp, b.timestamp)) + mid);
    assert(r4.out =~= r3.out.push(footer_piece(end_a.timestamp, a.timestamp)) + end);
    if colored {
        assert(e.out =~= r2.out + seq![footer_piece(end_b.timestamp, b.timestamp)] + mid + seq![
            footer_piece(end_a.timestamp, a.timestamp),
        ] + end + seq![(Style::Plain, lines[4]), nl]);
    } else {
        assert(e.out =~= r2.out + seq![footer_piece(end_b.timestamp, b.timestamp)] + mid + seq![
            footer_piece(end_a.timestamp, a.timestamp),
        ] + end + plain_pieces(text).push(nl));
    }
}

} // verus!
