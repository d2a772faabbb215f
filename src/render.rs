//! The filtered renderer of CI job logs: it follows section markers, keeps the stack of
//! open sections and decides, segment by segment, what reaches the output.
use vstd::prelude::*;
use crate::section::{is_digit, parse_section, Section, SectionType, SectionV};
use crate::status::Style;
use crate::text::{chars_of, contains_seq, duration_text, format_duration, str_contains};

verus! {

/// Which parts of a log to show.
pub struct LogFilter {
    /// Show every line.
    pub show_all: bool,
    /// Show the section headers.
    pub show_headers: bool,
    /// Show only the section headers.
    pub show_only_headers: bool,
    /// Sections whose name contains this text are shown even when collapsed.
    pub name_substring: String,
}

/// Mathematical view of a [`LogFilter`].
pub struct LogFilterV {
    pub show_all: bool,
    pub show_headers: bool,
    pub show_only_headers: bool,
    pub name_substring: Seq<char>,
}

impl View for LogFilter {
    type V = LogFilterV;

    open spec fn view(&self) -> LogFilterV {
        LogFilterV {
            show_all: self.show_all,
            show_headers: self.show_headers,
            show_only_headers: self.show_only_headers,
            name_substring: self.name_substring@,
        }
    }
}

/// Whether section headers and durations are printed.
pub open spec fn wants_headers(f: LogFilterV) -> bool {
    f.show_all || f.show_headers || f.show_only_headers
}

/// Whether lines are shown under the stack `stack` of open sections.
pub open spec fn show_line_spec(stack: Seq<SectionV>, f: LogFilterV) -> bool {
    f.show_all || ((f.show_only_headers || f.show_headers) && stack.len() == 0) || (
    !f.show_only_headers && (forall|i: int|
        0 <= i < stack.len() ==> !stack[i].collapsed || contains_seq(
            stack[i].name,
            f.name_substring,
        )) && (exists|i: int|
        0 <= i < stack.len() && contains_seq(stack[i].name, f.name_substring)))
}

/// One piece of styled output text.
pub struct Piece {
    pub style: Style,
    pub text: String,
}

impl View for Piece {
    type V = (Style, Seq<char>);

    open spec fn view(&self) -> (Style, Seq<char>) {
        (self.style, self.text@)
    }
}

/// The view of a sequence of pieces.
pub open spec fn pieces_view(v: Seq<Piece>) -> Seq<(Style, Seq<char>)> {
    v.map_values(|p: Piece| p@)
}

/// The view of a stack of sections.
pub open spec fn sections_view(v: Seq<Section>) -> Seq<SectionV> {
    v.map_values(|s: Section| s@)
}

/// Parse sub-state: reading text, or holding a marker whose title comes next.
pub enum LogState {
    Text,
    Section(Section),
}

/// State of the renderer between two segments.
pub struct LogContext {
    pub state: LogState,
    pub sections: Vec<Section>,
}

impl Default for LogContext {
    fn default() -> (r: LogContext)
        ensures
            r.pending() is None,
            r.stack() == Seq::<SectionV>::empty(),
    {
        LogContext::new()
    }
}

/// Mathematical view of the renderer's state and what it has written.
pub struct RenderV {
    pub pending: Option<SectionV>,
    pub stack: Seq<SectionV>,
    pub show: bool,
    pub out: Seq<(Style, Seq<char>)>,
}

impl LogContext {
    pub open spec fn pending(&self) -> Option<SectionV> {
        match self.state {
            LogState::Text => None,
            LogState::Section(s) => Some(s@),
        }
    }

    pub open spec fn stack(&self) -> Seq<SectionV> {
        sections_view(self.sections@)
    }

    /// A context in the text state with no open section.
    pub fn new() -> (r: LogContext)
        ensures
            r.pending() is None,
            r.stack() == Seq::<SectionV>::empty(),
    {
        let r = LogContext { state: LogState::Text, sections: Vec::new() };
        assert(r.stack() =~= Seq::<SectionV>::empty());
        r
    }

    /// Decides whether the current line is shown.
    pub fn show_line(&self, args: &LogFilter) -> (r: bool)
        ensures
            r == show_line_spec(self.stack(), args@),
    {
        if args.show_all {
            return true;
        }
        if (args.show_only_headers || args.show_headers) && self.sections.len() == 0 {
            return true;
        }
        if args.show_only_headers {
            return false;
        }
        let ghost st = self.stack();
        let mut all_ok = true;
        let mut any = false;
        let mut i: usize = 0;
        while i < self.sections.len()
            invariant
                st == self.stack(),
                i <= self.sections.len(),
                all_ok == (forall|k: int|
                    0 <= k < i ==> !st[k].collapsed || contains_seq(
                        st[k].name,
                        args@.name_substring,
                    )),
                any == (exists|k: int|
                    0 <= k < i && contains_seq(st[k].name, args@.name_substring)),
            decreases self.sections.len() - i,
        {
            let sec = &self.sections[i];
            assert(st[i as int] == sec@);
            let hit = str_contains(sec.name.as_str(), args.name_substring.as_str());
            all_ok = all_ok && (!sec.collapsed || hit);
            any = any || hit;
            i = i + 1;
        }
        all_ok && any
    }
}

/// The caption written when a section opens.
pub open spec fn header_pieces(title: Seq<char>, name: Seq<char>, show: bool) -> Seq<
    (Style, Seq<char>),
> {
    seq![
        (Style::Warning, "\n> "@ + title + " ["@),
        (Style::Literal, name),
        (Style::Warning, "]"@),
        (Style::Plain, " "@),
    ] + if show {
        seq![(Style::Plain, "\n"@)]
    } else {
        Seq::empty()
    }
}

/// The line written when a section that opened at `open` closes at `close`.
pub open spec fn footer_piece(close: i64, open: i64) -> (Style, Seq<char>) {
    (Style::Warning, "< ["@ + duration_text(close.wrapping_sub(open)) + "]\n"@)
}

/// The effect of one segment of a line.
pub open spec fn step(f: LogFilterV, colored: bool, st: RenderV, seg: Seq<char>) -> RenderV {
    match st.pending {
        None => match parse_section(seg) {
            Some(sec) => RenderV { pending: Some(sec), ..st },
            None => if st.show && !colored {
                RenderV { out: st.out.push((Style::Plain, seg)), ..st }
            } else {
                st
            },
        },
        Some(sec) => {
            if sec.kind == SectionType::Start {
                let stack = st.stack.push(sec);
                let show = show_line_spec(stack, f);
                let out1 = if wants_headers(f) {
                    st.out + header_pieces(seg, sec.name, show)
                } else {
                    st.out
                };
                let out2 = if colored && show {
                    out1.push((Style::Plain, "\n"@))
                } else {
                    out1
                };
                RenderV { pending: parse_section(seg), stack, show: show && !colored, out: out2 }
            } else {
                let stack = if st.stack.len() > 0 {
                    st.stack.drop_last()
                } else {
                    st.stack
                };
                let out1 = if wants_headers(f) && st.stack.len() > 0 {
                    st.out.push(footer_piece(sec.timestamp, st.stack.last().timestamp))
                } else {
                    st.out
                };
                RenderV {
                    pending: parse_section(seg),
                    stack,
                    show: show_line_spec(stack, f) && !colored,
                    out: out1,
                }
            }
        },
    }
}

/// The effect of a run of segments.
pub open spec fn steps(f: LogFilterV, colored: bool, st: RenderV, segs: Seq<Seq<char>>) -> RenderV
    decreases segs.len(),
{
    if segs.len() == 0 {
        st
    } else {
        step(f, colored, steps(f, colored, st, segs.drop_last()), segs.last())
    }
}

/// The effect of one line, given its raw text and its segments.
pub open spec fn line_effect(
    f: LogFilterV,
    colored: bool,
    pending: Option<SectionV>,
    stack: Seq<SectionV>,
    out: Seq<(Style, Seq<char>)>,
    line: Seq<char>,
    segs: Seq<Seq<char>>,
) -> RenderV {
    let st = steps(
        f,
        colored,
        RenderV { pending, stack, show: show_line_spec(stack, f), out },
        segs,
    );
    let out2 = if st.show {
        if colored {
            st.out + seq![(Style::Plain, line), (Style::Plain, "\n"@)]
        } else {
            st.out.push((Style::Plain, "\n"@))
        }
    } else {
        st.out
    };
    RenderV { out: out2, ..st }
}

/// The views of a sequence of strings.
pub open spec fn strings_view(v: Seq<String>) -> Seq<Seq<char>> {
    v.map_values(|s: String| s@)
}

/// The views of the segments of each line.
pub open spec fn segments_view(v: Seq<Vec<String>>) -> Seq<Seq<Seq<char>>> {
    v.map_values(|l: Vec<String>| strings_view(l@))
}

/// The effect of a whole log from the initial state, one line after another.
#[verifier::opaque]
pub open spec fn log_effect(
    f: LogFilterV,
    colored: bool,
    lines: Seq<Seq<char>>,
    segs: Seq<Seq<Seq<char>>>,
) -> RenderV
    decreases lines.len(),
{
    if lines.len() == 0 || segs.len() == 0 {
        RenderV { pending: None, stack: Seq::empty(), show: false, out: Seq::empty() }
    } else {
        let prev = log_effect(f, colored, lines.drop_last(), segs.drop_last());
        line_effect(f, colored, prev.pending, prev.stack, prev.out, lines.last(), segs.last())
    }
}

/// The renderer's state as a [`RenderV`].
pub open spec fn render_view(ctx: LogContext, show: bool, out: Seq<Piece>) -> RenderV {
    RenderV { pending: ctx.pending(), stack: ctx.stack(), show, out: pieces_view(out) }
}

/// Appends one piece.
fn emit(out: &mut Vec<Piece>, style: Style, text: String)
    ensures
        pieces_view(final(out)@) == pieces_view(old(out)@).push((style, text@)),
{
    let ghost t = text@;
    out.push(Piece { style, text });
    assert(pieces_view(out@) =~= pieces_view(old(out)@).push((style, t)));
}

/// Writes the caption of a section that opens with the title `title`.
fn emit_header(out: &mut Vec<Piece>, title: &str, name: String, show: bool)
    ensures
        pieces_view(final(out)@) == pieces_view(old(out)@) + header_pieces(title@, name@, show),
{
    let ghost o = pieces_view(out@);
    let ghost n = name@;
    let caption = String::from_str("\n> ").concat(title).concat(" [");
    emit(out, Style::Warning, caption);
    emit(out, Style::Literal, name);
    emit(out, Style::Warning, String::from_str("]"));
    emit(out, Style::Plain, String::from_str(" "));
    if show {
        emit(out, Style::Plain, String::from_str("\n"));
    }
    assert(pieces_view(out@) =~= o + header_pieces(title@, n, show));
}

/// Handles one segment of a line.
fn render_segment(
    ctx: &mut LogContext,
    show: &mut bool,
    out: &mut Vec<Piece>,
    f: &LogFilter,
    colored: bool,
    seg: &str,
)
    ensures
        render_view(*final(ctx), *final(show), final(out)@) == step(
            f@,
            colored,
            render_view(*old(ctx), *old(show), old(out)@),
            seg@,
        ),
{
    let ghost st = render_view(*ctx, *show, out@);
    let mut state = LogState::Text;
    std::mem::swap(&mut ctx.state, &mut state);
    match state {
        LogState::Text => {
            match Section::parse(seg) {
                Some(sec) => {
                    ctx.state = LogState::Section(sec);
                },
                None => {
                    if *show && !colored {
                        emit(out, Style::Plain, String::from_str(seg));
                    }
                },
            }
        },
        LogState::Section(sec) => {
            let next = Section::parse(seg);
            let ghost sv = sec@;
            if sec.kind == SectionType::Start {
                let name = sec.name.clone();
                ctx.sections.push(sec);
                assert(ctx.stack() =~= st.stack.push(sv));
                let now = ctx.show_line(f);
                if f.show_all || f.show_headers || f.show_only_headers {
                    emit_header(out, seg, name, now);
                }
                if colored && now {
                    emit(out, Style::Plain, String::from_str("\n"));
                }
                *show = now && !colored;
            } else {
                let prev = ctx.sections.pop();
                proof {
                    if st.stack.len() > 0 {
                        assert(ctx.stack() =~= st.stack.drop_last());
                    } else {
                        assert(ctx.stack() =~= st.stack);
                    }
                }
                if f.show_all || f.show_headers || f.show_only_headers {
                    match prev {
                        Some(p) => {
                            let d = format_duration(sec.timestamp.wrapping_sub(p.timestamp));
                            let line = String::from_str("< [").concat(d.as_str()).concat("]\n");
                            emit(out, Style::Warning, line);
                        },
                        None => {},
                    }
                }
                *show = ctx.show_line(f) && !colored;
            }
            match next {
                Some(n) => {
                    ctx.state = LogState::Section(n);
                },
                None => {},
            }
        },
    }
}

/// Handles one line of the log: `line` is its raw text and `segs` its segments.
pub fn render_line(
    ctx: &mut LogContext,
    out: &mut Vec<Piece>,
    f: &LogFilter,
    colored: bool,
    line: &str,
    segs: &Vec<String>,
)
    ensures
        ({
            let r = line_effect(
                f@,
                colored,
                old(ctx).pending(),
                old(ctx).stack(),
                pieces_view(old(out)@),
                line@,
                strings_view(segs@),
            );
            final(ctx).pending() == r.pending && final(ctx).stack() == r.stack && pieces_view(
                final(out)@,
            ) == r.out
        }),
{
    let ghost sv = strings_view(segs@);
    let mut show = ctx.show_line(f);
    let ghost st0 = render_view(*ctx, show, out@);
    let mut i: usize = 0;
    while i < segs.len()
        invariant
            i <= segs.len(),
            sv == strings_view(segs@),
            render_view(*ctx, show, out@) == steps(f@, colored, st0, sv.take(i as int)),
        decreases segs.len() - i,
    {
        render_segment(ctx, &mut show, out, f, colored, segs[i].as_str());
        assert(sv.take(i + 1).drop_last() =~= sv.take(i as int));
        i = i + 1;
    }
    assert(sv.take(i as int) =~= sv);
    if show {
        if colored {
            emit(out, Style::Plain, String::from_str(line));
        }
        emit(out, Style::Plain, String::from_str("\n"));
    }
    proof {
        let r = steps(f@, colored, st0, sv);
        if r.show && colored {
            assert(pieces_view(out@) =~= r.out + seq![(Style::Plain, line@), (Style::Plain, "\n"@)]);
        }
    }
}

/// Renders a log whose lines are `lines` and whose segments per line are `segs`.
pub fn render_segmented(
    lines: &Vec<String>,
    segs: &Vec<Vec<String>>,
    filter: &LogFilter,
    colored: bool,
) -> (r: Vec<Piece>)
    requires
        lines.len() == segs.len(),
    ensures
        pieces_view(r@) == log_effect(
            filter@,
            colored,
            strings_view(lines@),
            segments_view(segs@),
        ).out,
{
    let ghost lv = strings_view(lines@);
    let ghost gv = segments_view(segs@);
    let mut ctx = LogContext::new();
    let mut out: Vec<Piece> = Vec::new();
    let mut i: usize = 0;
    assert(lv.take(0) =~= Seq::<Seq<char>>::empty());
    proof {
        reveal(log_effect);
    }
    assert(pieces_view(out@) =~= Seq::<(Style, Seq<char>)>::empty());
    while i < lines.len()
        invariant
            i <= lines.len(),
            lines.len() == segs.len(),
            lv == strings_view(lines@),
            gv == segments_view(segs@),
            ({
                let e = log_effect(filter@, colored, lv.take(i as int), gv.take(i as int));
                ctx.pending() == e.pending && ctx.stack() == e.stack && pieces_view(out@)
                    == e.out
            }),
        decreases lines.len() - i,
    {
        render_line(&mut ctx, &mut out, filter, colored, lines[i].as_str(), &segs[i]);
        proof {
            reveal(log_effect);
        }
        assert(lv.take(i + 1).drop_last() =~= lv.take(i as int));
        assert(gv.take(i + 1).drop_last() =~= gv.take(i as int));
        i = i + 1;
    }
    assert(lv.take(i as int) =~= lv);
    assert(gv.take(i as int) =~= gv);
    out
}

/// The text segments of a line once its SGR escape sequences are cut out, as
/// `yew_ansi::get_sgr_segments` yields them.
pub uninterp spec fn sgr_segments_of(line: Seq<char>) -> Seq<Seq<char>>;

/// Whether every run of ASCII digits in `s` is at most 13 long.
pub open spec fn short_digit_runs(s: Seq<char>) -> bool {
    forall|i: int| 0 <= i && i + 14 <= s.len() ==> #[trigger] breaks_within(s, i)
}

/// Whether one of the 14 characters of `s` from `i` on is not a digit.
pub open spec fn breaks_within(s: Seq<char>, i: int) -> bool {
    exists|k: int| i <= k < i + 14 && !is_digit(#[trigger] s[k])
}

/// The segments a line is rendered from: its SGR segments when its digit runs are short,
/// and the whole line as one segment otherwise.
pub open spec fn line_segments(line: Seq<char>) -> Seq<Seq<char>> {
    if short_digit_runs(line) {
        sgr_segments_of(line)
    } else {
        seq![line]
    }
}

/// Whether every run of ASCII digits in `line` is at most 13 long.
pub fn has_short_digit_runs(line: &str) -> (r: bool)
    ensures
        r == short_digit_runs(line@),
{
    let cs = chars_of(line);
    let ghost s = line@;
    let mut run: usize = 0;
    let mut i: usize = 0;
    while i < cs.len()
        invariant
            cs@ == s,
            s == line@,
            i <= cs.len(),
            run <= 13,
            run <= i,
            forall|k: int| i - run <= k < i ==> is_digit(s[k]),
            i - run == 0 || !is_digit(s[i - run - 1]),
            forall|j: int| 0 <= j && j + 14 <= i ==> #[trigger] breaks_within(s, j),
        decreases cs.len() - i,
    {
        let c = cs[i];
        if '0' <= c && c <= '9' {
            if run == 13 {
                assert(is_digit(s[i as int]));
                assert forall|k: int| i - 13 <= k < i + 1 implies is_digit(s[k]) by {
                    if k < i {
                        assert(i - run <= k);
                    }
                }
                assert(!breaks_within(s, i - 13));
                assert(!short_digit_runs(s));
                return false;
            }
            proof {
                assert forall|j: int| 0 <= j && j + 14 <= i + 1 implies #[trigger] breaks_within(s, j) by {
                    if j + 14 == i + 1 {
                        assert(!is_digit(s[i - run - 1]));
                    }
                }
            }
            run = run + 1;
        } else {
            proof {
                assert forall|j: int| 0 <= j && j + 14 <= i + 1 implies #[trigger] breaks_within(s, j) by {
                    if j + 14 == i + 1 {
                        assert(!is_digit(s[i as int]));
                    }
                }
            }
            run = 0;
        }
        i = i + 1;
    }
    true
}

/// Relies on `yew_ansi::get_sgr_segments` to split a line at its ANSI escape sequences.
/// Its source yields only non-empty text that holds no escape character, and a line
/// without an escape character as one segment (none when the line is empty). It adds up
/// the three numbers of a `38;2;r;g;b` colour in `usize`, which overflows for numbers of
/// 20 digits; numbers of at most 13 digits stay below 2^44 and cannot.
#[verifier::external_body]
fn sgr_segments(line: &str) -> (r: Vec<String>)
    requires
        short_digit_runs(line@),
    ensures
        strings_view(r@) == sgr_segments_of(line@),
        forall|i: int|
            0 <= i < r.len() ==> r@[i]@.len() > 0 && !r@[i]@.contains('\u{1b}'),
        !line@.contains('\u{1b}') ==> strings_view(r@) == (if line@.len() == 0 {
            Seq::<Seq<char>>::empty()
        } else {
            seq![line@]
        }),
{
    yew_ansi::get_sgr_segments(line).map(|(_, s)| s.to_owned()).collect()
}

/// The segments a line is rendered from.
fn segments_of_line(line: &String) -> (r: Vec<String>)
    ensures
        strings_view(r@) == line_segments(line@),
        !line@.contains('\u{1b}') ==> strings_view(r@) == (if line@.len() == 0 {
            Seq::<Seq<char>>::empty()
        } else {
            seq![line@]
        }),
{
    if has_short_digit_runs(line.as_str()) {
        sgr_segments(line.as_str())
    } else {
        let mut v: Vec<String> = Vec::new();
        v.push(line.clone());
        assert(strings_view(v@) =~= seq![line@]);
        assert(line@.len() > 0);
        v
    }
}

/// Renders the lines of a job log: each line is cut into its segments, then the whole
/// log goes through the section state machine. A line holding a run of more than 13
/// digits is taken as one plain segment; a line without escape character is one segment
/// as it stands (none when empty).
pub fn render_log(lines: &Vec<String>, filter: &LogFilter, colored: bool) -> (r: Vec<Piece>)
    ensures
        pieces_view(r@) == log_effect(
            filter@,
            colored,
            strings_view(lines@),
            strings_view(lines@).map_values(|l: Seq<char>| line_segments(l)),
        ).out,
        forall|k: int|
            0 <= k < lines.len() && !lines@[k]@.contains('\u{1b}') ==> #[trigger] line_segments(
                lines@[k]@,
            ) == (if lines@[k]@.len() == 0 {
                Seq::<Seq<char>>::empty()
            } else {
                seq![lines@[k]@]
            }),
{
    let mut segs: Vec<Vec<String>> = Vec::new();
    let mut i: usize = 0;
    while i < lines.len()
        invariant
            i <= lines.len(),
            segs.len() == i,
            forall|k: int|
                0 <= k < i ==> strings_view(#[trigger] segs@[k]@) == line_segments(lines@[k]@),
            forall|k: int|
                0 <= k < i && !lines@[k]@.contains('\u{1b}') ==> #[trigger] line_segments(
                    lines@[k]@,
                ) == (if lines@[k]@.len() == 0 {
                    Seq::<Seq<char>>::empty()
                } else {
                    seq![lines@[k]@]
                }),
        decreases lines.len() - i,
    {
        segs.push(segments_of_line(&lines[i]));
        i = i + 1;
    }
    assert(segments_view(segs@) =~= strings_view(lines@).map_values(
        |l: Seq<char>| line_segments(l),
    ));
    render_segmented(lines, &segs, filter, colored)
}

} // verus!
