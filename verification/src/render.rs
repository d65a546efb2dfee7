use vstd::prelude::*;

use crate::errors::RenderError;
use crate::task::{views_of, Task, TaskView};
use crate::urgency::{classify, classify_day_spec, color_of, color_spec, rfc3339_day, TermColor};
use crate::wrap::{texts_view, wrap_block, wrapped_lines};

verus! {

/// One piece of the rendered output: a text run and the foreground color it
/// is shown in. The rendered panel is a sequence of such pieces, written to
/// the terminal in order.
#[derive(Debug, PartialEq, Eq)]
pub struct Segment {
    pub color: TermColor,
    pub text: String,
}

/// The mathematical view of an output piece.
pub ghost struct SegmentView {
    pub color: TermColor,
    pub text: Seq<char>,
}

impl View for Segment {
    type V = SegmentView;

    open spec fn view(&self) -> SegmentView {
        SegmentView { color: self.color, text: self.text@ }
    }
}

/// The view of a sequence of output pieces.
pub open spec fn segs_view(segs: Seq<Segment>) -> Seq<SegmentView> {
    segs.map_values(|s: Segment| s@)
}

/// `s` repeated `n` times, or empty when `n` is not positive.
pub open spec fn repeat_seq(s: Seq<char>, n: int) -> Seq<char>
    decreases n,
{
    if n <= 0 {
        Seq::empty()
    } else {
        repeat_seq(s, n - 1) + s
    }
}

/// How many space columns pad a line of `len` columns to the box's content
/// width of `width - 3` columns. A line too long for the box gets no
/// padding: it overflows rather than being truncated.
pub open spec fn pad_cols(len: int, width: int) -> int {
    if len <= width - 3 {
        width - 3 - len
    } else {
        0
    }
}

/// A content line padded with spaces to the box's content width.
pub open spec fn padded_line(line: Seq<char>, width: int) -> Seq<char> {
    line + repeat_seq(" "@, pad_cols(line.len() as int, width))
}

/// A horizontal border: a corner, `width - 3` dashes, a corner.
pub open spec fn border_row(left: Seq<char>, right: Seq<char>, width: int) -> Seq<char> {
    left + repeat_seq("─"@, width - 3) + right
}

/// A content row between its two border columns, without its newline.
pub open spec fn content_row(line: Seq<char>, width: int) -> Seq<char> {
    "│"@ + padded_line(line, width) + "│"@
}

/// The top border piece, newline included.
pub open spec fn top_row(width: int) -> Seq<char> {
    border_row("┌"@, "┐"@, width) + "\n"@
}

/// The bottom border piece; no trailing newline.
pub open spec fn bottom_row(width: int) -> Seq<char> {
    border_row("└"@, "┘"@, width)
}

/// The output pieces of one content row: the left border in neutral color,
/// the padded line in the row's color, the right border and newline in
/// neutral color.
pub open spec fn row_segments(line: Seq<char>, color: TermColor, width: int) -> Seq<SegmentView> {
    seq![
        SegmentView { color: TermColor::White, text: "│"@ },
        SegmentView { color: color, text: padded_line(line, width) },
        SegmentView { color: TermColor::White, text: "│\n"@ },
    ]
}

/// The output pieces of a block of content rows, one row per line, all in
/// one color.
pub open spec fn rows_segments(lines: Seq<Seq<char>>, color: TermColor, width: int) -> Seq<
    SegmentView,
>
    decreases lines.len(),
{
    if lines.len() == 0 {
        Seq::empty()
    } else {
        rows_segments(lines.drop_last(), color, width) + row_segments(lines.last(), color, width)
    }
}

/// The title text of a task; an absent title reads as empty text.
pub open spec fn title_text(t: TaskView) -> Seq<char> {
    match t.title {
        Some(s) => s,
        None => Seq::empty(),
    }
}

/// Whether the task's due field, if present, parses as a
/// date-time-with-offset.
pub open spec fn due_parses(t: TaskView) -> bool {
    match t.due {
        Some(s) => rfc3339_day(s) is Some,
        None => true,
    }
}

/// The color a task's rows are shown in, from its due-date urgency.
pub open spec fn task_color(t: TaskView, now_day: i32) -> TermColor {
    match t.due {
        None => TermColor::White,
        Some(s) => color_spec(classify_day_spec(rfc3339_day(s), now_day)),
    }
}

/// The wrapped title lines of a task: a bullet on the first line, an
/// aligning indent on every later one, within the interior width.
pub open spec fn title_lines(t: TaskView, width: int) -> Seq<Seq<char>> {
    wrapped_lines(title_text(t), width - 6, "• "@, "   "@)
}

/// The wrapped note lines of a task: an indented bullet on the first line,
/// a deeper indent on every later one, within the interior width.
pub open spec fn note_lines(notes: Seq<char>, width: int) -> Seq<Seq<char>> {
    wrapped_lines(notes, width - 6, "  • "@, "     "@)
}

/// All output pieces of one task: its title rows in its urgency color,
/// then, if it has notes, its note rows in grey.
pub open spec fn task_segments(t: TaskView, width: int, now_day: i32) -> Seq<SegmentView> {
    rows_segments(title_lines(t, width), task_color(t, now_day), width) + match t.notes {
        Some(n) => rows_segments(note_lines(n, width), TermColor::Grey, width),
        None => Seq::empty(),
    }
}

/// The output pieces of all tasks, in input order.
pub open spec fn tasks_segments(tasks: Seq<TaskView>, width: int, now_day: i32) -> Seq<SegmentView>
    decreases tasks.len(),
{
    if tasks.len() == 0 {
        Seq::empty()
    } else {
        tasks_segments(tasks.drop_last(), width, now_day) + task_segments(
            tasks.last(),
            width,
            now_day,
        )
    }
}

/// The whole rendered panel: top border, every task's rows, bottom border.
pub open spec fn render_segments(tasks: Seq<TaskView>, width: int, now_day: i32) -> Seq<
    SegmentView,
> {
    seq![SegmentView { color: TermColor::White, text: top_row(width) }] + tasks_segments(
        tasks,
        width,
        now_day,
    ) + seq![SegmentView { color: TermColor::White, text: bottom_row(width) }]
}

/// Repetition of a one-character piece has one column per repetition.
pub proof fn lemma_repeat_one_len(s: Seq<char>, n: int)
    requires
        s.len() == 1,
    ensures
        repeat_seq(s, n).len() == if n <= 0 {
            0int
        } else {
            n
        },
    decreases n,
{
    if n > 0 {
        lemma_repeat_one_len(s, n - 1);
    }
}

/// Builds an owned text of `n` copies of `piece`.
fn repeat_piece(piece: &str, n: usize) -> (r: String)
    ensures
        r@ == repeat_seq(piece@, n as int),
{
    let mut s = String::new();
    let mut i: usize = 0;
    while i < n
        invariant
            i <= n,
            s@ == repeat_seq(piece@, i as int),
        decreases n - i,
    {
        s.append(piece);
        i = i + 1;
    }
    s
}

/// Pads a content line with spaces to the box's content width. A line too
/// long for the box is handed back unpadded.
fn padded(line: &str, width: u16) -> (r: String)
    requires
        7 <= width,
    ensures
        r@ == padded_line(line@, width as int),
{
    let len = line.unicode_len();
    let avail: usize = (width - 3) as usize;
    let pad: usize = if len <= avail {
        avail - len
    } else {
        0
    };
    let mut s = line.to_owned();
    let spaces = repeat_piece(" ", pad);
    s.append(spaces.as_str());
    s
}

/// Builds a horizontal border between the two given corners.
fn border_string(left: &str, right: &str, width: u16) -> (r: String)
    requires
        7 <= width,
    ensures
        r@ == border_row(left@, right@, width as int),
{
    let mut s = left.to_owned();
    let dashes = repeat_piece("─", (width - 3) as usize);
    s.append(dashes.as_str());
    s.append(right);
    s
}

/// Appends one content row per line, all in one color: left border, padded
/// line, right border with its newline.
fn push_rows(segs: &mut Vec<Segment>, lines: &Vec<String>, color: TermColor, width: u16)
    requires
        7 <= width,
    ensures
        segs_view(final(segs)@) == segs_view(old(segs)@) + rows_segments(
            texts_view(lines@),
            color,
            width as int,
        ),
{
    let ghost base = segs_view(segs@);
    let n = lines.len();
    let mut i: usize = 0;
    while i < n
        invariant
            i <= n,
            n == lines@.len(),
            7 <= width,
            segs_view(segs@) == base + rows_segments(
                texts_view(lines@.subrange(0, i as int)),
                color,
                width as int,
            ),
        decreases n - i,
    {
        let ghost sv = segs_view(segs@);
        let line: &String = &lines[i];
        segs.push(Segment { color: TermColor::White, text: String::from_str("│") });
        segs.push(Segment { color: color, text: padded(line.as_str(), width) });
        segs.push(Segment { color: TermColor::White, text: String::from_str("│\n") });
        proof {
            let prev = texts_view(lines@.subrange(0, i as int));
            let cur = texts_view(lines@.subrange(0, i as int + 1));
            assert(cur.drop_last() =~= prev);
            assert(cur.last() == lines@[i as int]@);
            assert(cur.len() == i as int + 1);
            assert(rows_segments(cur, color, width as int) == rows_segments(
                prev,
                color,
                width as int,
            ) + row_segments(lines@[i as int]@, color, width as int));
            assert(segs_view(segs@) =~= sv + row_segments(lines@[i as int]@, color, width as int));
            assert(sv + row_segments(lines@[i as int]@, color, width as int) =~= base
                + rows_segments(cur, color, width as int));
        }
        i = i + 1;
    }
    proof {
        assert(lines@.subrange(0, n as int) =~= lines@);
    }
}

/// A fixed-width, box-drawn panel over a borrowed task list.
pub struct Boxed<'a> {
    pub width: u16,
    pub tasks: &'a Vec<Task>,
}

impl<'a> Boxed<'a> {
    /// Builds a panel of the given total width over the given tasks. The
    /// panel does not draw a heading of its own yet.
    pub fn new(width: u16, _title: &str, tasks: &'a Vec<Task>) -> (r: Self)
        ensures
            r.width == width,
            r.tasks == tasks,
    {
        Boxed { width, tasks }
    }

    /// Renders the panel: the top border, then for every task its wrapped
    /// title rows in its urgency color and, where notes are present, its
    /// wrapped note rows in grey, each row padded to the box's content
    /// width, and the bottom border. A width below seven columns is
    /// rejected before anything is produced; a due text that does not parse
    /// aborts the render.
    pub fn draw(&self, now_day: i32) -> (r: Result<Vec<Segment>, RenderError>)
        ensures
            match r {
                Ok(segs) => 7 <= self.width && (forall|j: int|
                    0 <= j < self.tasks@.len() ==> #[trigger] due_parses(self.tasks@[j]@))
                    && segs_view(segs@) == render_segments(
                    views_of(self.tasks@),
                    self.width as int,
                    now_day,
                ),
                Err(e) => match e {
                    RenderError::InvalidWidth => self.width < 7,
                    RenderError::MalformedDueDate => 7 <= self.width && (exists|j: int|
                        0 <= j < self.tasks@.len() && !(#[trigger] due_parses(self.tasks@[j]@))),
                },
            },
    {
        let width = self.width;
        if width < 7 {
            return Err(RenderError::InvalidWidth);
        }
        let w: usize = width as usize;
        let mut segs: Vec<Segment> = Vec::new();
        let mut top = border_string("┌", "┐", width);
        top.append("\n");
        segs.push(Segment { color: TermColor::White, text: top });
        proof {
            assert(views_of(self.tasks@.subrange(0, 0)) =~= Seq::<TaskView>::empty());
            assert(segs_view(segs@) =~= seq![
                SegmentView { color: TermColor::White, text: top_row(width as int) },
            ] + tasks_segments(views_of(self.tasks@.subrange(0, 0)), width as int, now_day));
        }
        let n = self.tasks.len();
        let mut idx: usize = 0;
        while idx < n
            invariant
                idx <= n,
                n == self.tasks@.len(),
                7 <= width,
                width == self.width,
                w == width as usize,
                forall|j: int| 0 <= j < idx ==> #[trigger] due_parses(self.tasks@[j]@),
                segs_view(segs@) == seq![
                    SegmentView { color: TermColor::White, text: top_row(width as int) },
                ] + tasks_segments(
                    views_of(self.tasks@.subrange(0, idx as int)),
                    width as int,
                    now_day,
                ),
            decreases n - idx,
        {
            let task: &Task = &self.tasks[idx];
            let urgency = match classify(&task.due, now_day) {
                Ok(c) => c,
                Err(e) => {
                    proof {
                        assert(!due_parses(self.tasks@[idx as int]@));
                    }
                    return Err(e);
                },
            };
            let color = color_of(urgency);
            proof {
                assert(color == task_color(task@, now_day));
            }
            let ghost sv = segs_view(segs@);
            let title_ref: &str = match &task.title {
                Some(s) => s.as_str(),
                None => "",
            };
            proof {
                reveal_strlit("");
                assert(""@ =~= Seq::<char>::empty());
                assert(title_ref@ == title_text(task@));
            }
            let tlines = wrap_block(title_ref, w - 6, "• ", "   ");
            push_rows(&mut segs, &tlines, color, width);
            proof {
                assert(texts_view(tlines@) == title_lines(task@, width as int));
            }
            match &task.notes {
                Some(notes) => {
                    let nlines = wrap_block(notes.as_str(), w - 6, "  • ", "     ");
                    push_rows(&mut segs, &nlines, TermColor::Grey, width);
                    proof {
                        assert(texts_view(nlines@) == note_lines(notes@, width as int));
                    }
                },
                None => {},
            }
            proof {
                assert(segs_view(segs@) =~= sv + task_segments(task@, width as int, now_day));
                let prev = views_of(self.tasks@.subrange(0, idx as int));
                let cur = views_of(self.tasks@.subrange(0, idx as int + 1));
                assert(cur.drop_last() =~= prev);
                assert(cur.last() == self.tasks@[idx as int]@);
                assert(cur.len() == idx as int + 1);
                assert(tasks_segments(cur, width as int, now_day) == tasks_segments(
                    prev,
                    width as int,
                    now_day,
                ) + task_segments(self.tasks@[idx as int]@, width as int, now_day));
                assert(sv + task_segments(task@, width as int, now_day) =~= seq![
                    SegmentView { color: TermColor::White, text: top_row(width as int) },
                ] + tasks_segments(cur, width as int, now_day));
            }
            idx = idx + 1;
        }
        let bottom = border_string("└", "┘", width);
        segs.push(Segment { color: TermColor::White, text: bottom });
        proof {
            assert(self.tasks@.subrange(0, n as int) =~= self.tasks@);
            assert(segs_view(segs@) =~= render_segments(
                views_of(self.tasks@),
                width as int,
                now_day,
            ));
        }
        Ok(segs)
    }
}

/// The texts of a content row's three output pieces, read in order, spell
/// exactly the content row followed by its newline: what reaches the
/// terminal for each row is the row the alignment laws speak of.
pub proof fn lemma_row_segments_text(line: Seq<char>, color: TermColor, width: int)
    ensures
        row_segments(line, color, width).len() == 3,
        row_segments(line, color, width)[0].text + row_segments(line, color, width)[1].text
            + row_segments(line, color, width)[2].text == content_row(line, width) + "\n"@,
{
    reveal_strlit("│");
    reveal_strlit("│\n");
    reveal_strlit("\n");
    assert(row_segments(line, color, width)[0].text + row_segments(line, color, width)[1].text
        + row_segments(line, color, width)[2].text =~= content_row(line, width) + "\n"@);
}

/// Law (border alignment): at every valid width, the top border, the bottom
/// border and every content row whose line fits the interior span the same
/// number of display columns, one column less than the configured width —
/// the exact arithmetic the box is drawn with, so all rows align.
pub proof fn lemma_border_alignment(line: Seq<char>, width: int)
    requires
        7 <= width,
        line.len() <= width - 3,
    ensures
        border_row("┌"@, "┐"@, width).len() == width - 1,
        border_row("└"@, "┘"@, width).len() == width - 1,
        content_row(line, width).len() == width - 1,
{
    reveal_strlit("┌");
    reveal_strlit("┐");
    reveal_strlit("└");
    reveal_strlit("┘");
    reveal_strlit("─");
    reveal_strlit("│");
    reveal_strlit(" ");
    lemma_repeat_one_len("─"@, width - 3);
    lemma_repeat_one_len(" "@, pad_cols(line.len() as int, width));
}

/// Law (padding invariant): in every content row whose line fits the
/// interior, the left border column, the line's columns, the padding
/// columns and the right border column add up to the row's full span.
pub proof fn lemma_padding_invariant(line: Seq<char>, width: int)
    requires
        7 <= width,
        line.len() <= width - 3,
    ensures
        content_row(line, width).len() == 1 + line.len() + pad_cols(line.len() as int, width) + 1,
        1 + line.len() + pad_cols(line.len() as int, width) + 1 == width - 1,
{
    reveal_strlit("│");
    reveal_strlit(" ");
    lemma_repeat_one_len(" "@, pad_cols(line.len() as int, width));
}

} // verus!
