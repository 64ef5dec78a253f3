//! The memo: a few lines of text, some of them checkboxes, some of them bold.

use vstd::prelude::*;
use crate::keys::{any_commit, commits, line_breaks, push_line_breaks, KeyEvent};
use crate::text::{
    chars_of, contains, count_leading_spaces, find, is_first_match, is_space, join_lines,
    join_with_newlines, leading_spaces, leading_spaces_bounds, lines_of, matches_at, occurs_at,
    replace_all, replace_all_in, replace_first, replace_first_at, replace_first_in, rows, splice, split_lines,
    space_end_is, string_of, tail_from, trim_start, trim_start_of,
};

verus! {

/// The mark of an open checkbox, `- [ ]`.
pub open spec fn box_open() -> Seq<char> {
    seq!['-', ' ', '[', ' ', ']']
}

/// The mark of a ticked checkbox, `- [x]`.
pub open spec fn box_ticked() -> Seq<char> {
    seq!['-', ' ', '[', 'x', ']']
}

/// The other mark of a ticked checkbox, `- [X]`.
pub open spec fn box_ticked_upper() -> Seq<char> {
    seq!['-', ' ', '[', 'X', ']']
}

/// The mark of bold text, `**`.
pub open spec fn bold_mark() -> Seq<char> {
    seq!['*', '*']
}

/// One line of the memo as it is shown.
#[derive(Clone, Debug)]
pub enum Line {
    /// A checkbox with the text beside it.
    Checkbox { checked: bool, label: String },
    /// Text shown in bold.
    Bold { text: String },
    /// Text shown as it is.
    Plain { text: String },
}

/// What a shown line holds.
pub enum LineView {
    Checkbox { checked: bool, label: Seq<char> },
    Bold { text: Seq<char> },
    Plain { text: Seq<char> },
}

impl View for Line {
    type V = LineView;

    open spec fn view(&self) -> LineView {
        match self {
            Line::Checkbox { checked, label } => LineView::Checkbox {
                checked: *checked,
                label: label@,
            },
            Line::Bold { text } => LineView::Bold { text: text@ },
            Line::Plain { text } => LineView::Plain { text: text@ },
        }
    }
}

/// A ticked mark, of either kind, stands in `s` at index `i`.
pub open spec fn ticked_at(s: Seq<char>, i: int) -> bool {
    matches_at(s, box_ticked(), i) || matches_at(s, box_ticked_upper(), i)
}

/// The line is a checkbox: after its leading white space comes one of the
/// three marks.
pub open spec fn is_checkbox(line: Seq<char>) -> bool {
    matches_at(trim_start(line), box_open(), 0) || ticked_at(trim_start(line), 0)
}

/// How a line of the memo is shown. A line that begins, after white space,
/// with a checkbox mark is a checkbox, ticked for `x` and `X`, and its label
/// is what follows the mark, without leading white space. Any other line
/// with `**` in it is bold, and loses every `**`. The rest is plain.
pub open spec fn classify(line: Seq<char>) -> LineView {
    let t = trim_start(line);
    if matches_at(t, box_open(), 0) {
        LineView::Checkbox { checked: false, label: trim_start(t.skip(5)) }
    } else if ticked_at(t, 0) {
        LineView::Checkbox { checked: true, label: trim_start(t.skip(5)) }
    } else if contains(line, bold_mark()) {
        LineView::Bold { text: replace_all(line, bold_mark(), Seq::empty()) }
    } else {
        LineView::Plain { text: line }
    }
}

/// The line after a click on its checkbox. An open box has its leftmost
/// `- [ ]` turned into `- [x]`; a ticked one has its leftmost `- [x]` or
/// `- [X]`, whichever comes first, turned into `- [ ]`. A line that is no
/// checkbox stays as it is.
pub open spec fn toggled(line: Seq<char>) -> Seq<char> {
    let t = trim_start(line);
    if matches_at(t, box_open(), 0) {
        replace_first(line, box_open(), box_ticked())
    } else if ticked_at(t, 0) {
        let i = choose|i: int| is_first_ticked(line, i);
        splice(line, i, 5, box_open())
    } else {
        line
    }
}

/// `i` is the leftmost index of `s` at which a ticked mark stands.
pub open spec fn is_first_ticked(s: Seq<char>, i: int) -> bool {
    &&& ticked_at(s, i)
    &&& forall|j: int| 0 <= j < i ==> !ticked_at(s, j)
}

/// A mark found at the start of the trimmed line stands in the line itself
/// right after the leading white space.
pub proof fn mark_position(line: Seq<char>, pat: Seq<char>)
    ensures
        matches_at(trim_start(line), pat, 0) <==> matches_at(line, pat, leading_spaces(line)),
{
    leading_spaces_bounds(line);
    let k = leading_spaces(line);
    if k + pat.len() <= line.len() {
        assert(line.skip(k).subrange(0, pat.len() as int) =~= line.subrange(k, k + pat.len()));
    }
}

/// No checkbox mark stands where white space is: each mark begins with a
/// hyphen.
pub proof fn no_mark_in_leading_spaces(line: Seq<char>, j: int)
    requires
        0 <= j < leading_spaces(line),
    ensures
        !matches_at(line, box_open(), j),
        !ticked_at(line, j),
{
    leading_spaces_bounds(line);
    assert(is_space(line[j]));
    assert(!is_space('-'));
    if matches_at(line, box_open(), j) {
        assert(line.subrange(j, j + 5)[0] == box_open()[0]);
    }
    if matches_at(line, box_ticked(), j) {
        assert(line.subrange(j, j + 5)[0] == box_ticked()[0]);
    }
    if matches_at(line, box_ticked_upper(), j) {
        assert(line.subrange(j, j + 5)[0] == box_ticked_upper()[0]);
    }
}

/// On a checkbox line a click changes one character and no other: the one
/// between the brackets of the mark that begins the line. It becomes `x`
/// in an open box and a blank in a ticked one.
pub proof fn toggled_flips_marker(line: Seq<char>)
    requires
        is_checkbox(line),
    ensures
        leading_spaces(line) + 5 <= line.len(),
        toggled(line) == line.update(
            leading_spaces(line) + 3,
            if matches_at(trim_start(line), box_open(), 0) {
                'x'
            } else {
                ' '
            },
        ),
{
    let k = leading_spaces(line);
    let t = trim_start(line);
    leading_spaces_bounds(line);
    mark_position(line, box_open());
    mark_position(line, box_ticked());
    mark_position(line, box_ticked_upper());
    assert forall|j: int| 0 <= j < k implies !matches_at(line, box_open(), j) && !ticked_at(
        line,
        j,
    ) by {
        no_mark_in_leading_spaces(line, j);
    }
    if matches_at(t, box_open(), 0) {
        assert(is_first_match(line, box_open(), 0, k));
        replace_first_at(line, box_open(), box_ticked(), k);
        assert forall|n: int| 0 <= n < 5 implies line[k + n] == #[trigger] box_open()[n] by {
            assert(line.subrange(k, k + 5)[n] == box_open()[n]);
        }
        assert(splice(line, k, 5, box_ticked()) =~= line.update(k + 3, 'x'));
    } else {
        assert(ticked_at(line, k));
        assert(is_first_ticked(line, k));
        let i = choose|i: int| is_first_ticked(line, i);
        assert(i == k);
        if matches_at(line, box_ticked(), k) {
            assert forall|n: int| 0 <= n < 5 implies line[k + n] == #[trigger] box_ticked()[n] by {
                assert(line.subrange(k, k + 5)[n] == box_ticked()[n]);
            }
        } else {
            assert forall|n: int| 0 <= n < 5 implies line[k + n]
                == #[trigger] box_ticked_upper()[n] by {
                assert(line.subrange(k, k + 5)[n] == box_ticked_upper()[n]);
            }
        }
        assert(splice(line, k, 5, box_open()) =~= line.update(k + 3, ' '));
    }
}

/// Changing the character between the brackets leaves the line a checkbox
/// with the same leading white space, and puts the new mark at its start.
pub proof fn marker_update(line: Seq<char>, c: char)
    requires
        is_checkbox(line),
    ensures
        leading_spaces(line.update(leading_spaces(line) + 3, c)) == leading_spaces(line),
        trim_start(line.update(leading_spaces(line) + 3, c)).skip(5) == trim_start(line).skip(5),
        matches_at(
            trim_start(line.update(leading_spaces(line) + 3, c)),
            seq!['-', ' ', '[', c, ']'],
            0,
        ),
{
    let k = leading_spaces(line);
    let changed = line.update(k + 3, c);
    let mark = seq!['-', ' ', '[', c, ']'];
    leading_spaces_bounds(line);
    mark_position(line, box_open());
    mark_position(line, box_ticked());
    mark_position(line, box_ticked_upper());
    assert(line.subrange(k, k + 5).len() == 5);
    assert(line[k] == '-' && line[k + 1] == ' ' && line[k + 2] == '[' && line[k + 4] == ']') by {
        let w = line.subrange(k, k + 5);
        assert(w[0] == line[k] && w[1] == line[k + 1] && w[2] == line[k + 2] && w[4] == line[k
            + 4]);
    }
    assert(!is_space('-'));
    assert forall|j: int| 0 <= j < k implies is_space(#[trigger] changed[j]) by {
        assert(is_space(line[j]));
    }
    space_end_is(changed, 0, k);
    assert(changed.skip(k).skip(5) =~= line.skip(k).skip(5));
    assert(changed.subrange(k, k + 5) =~= mark);
    mark_position(changed, mark);
}

/// A click on a checkbox ticks an open box and opens a ticked one, and
/// leaves the label as it was.
pub proof fn toggled_flips_checked(line: Seq<char>)
    requires
        is_checkbox(line),
    ensures
        classify(toggled(line)) == (LineView::Checkbox {
            checked: !(classify(line)->Checkbox_checked),
            label: classify(line)->Checkbox_label,
        }),
{
    toggled_flips_marker(line);
    if matches_at(trim_start(line), box_open(), 0) {
        marker_update(line, 'x');
        let t2 = trim_start(toggled(line));
        assert(t2.subrange(0, 5)[3] == 'x');
        assert(!matches_at(t2, box_open(), 0)) by {
            if matches_at(t2, box_open(), 0) {
                assert(t2.subrange(0, 5)[3] == box_open()[3]);
            }
        }
    } else {
        marker_update(line, ' ');
        assert(!matches_at(trim_start(line), box_open(), 0));
    }
}

/// Two clicks on a checkbox give the line back, character for character.
/// The one exception is a box ticked with a capital `X`: it comes back
/// ticked with a small one, so such a line is left out here.
pub proof fn toggle_twice_restores(line: Seq<char>)
    requires
        is_checkbox(line),
        !matches_at(trim_start(line), box_ticked_upper(), 0),
    ensures
        toggled(toggled(line)) == line,
{
    let k = leading_spaces(line);
    leading_spaces_bounds(line);
    mark_position(line, box_open());
    mark_position(line, box_ticked());
    toggled_flips_marker(line);
    let once = toggled(line);
    if matches_at(trim_start(line), box_open(), 0) {
        marker_update(line, 'x');
        assert(line.subrange(k, k + 5)[3] == box_open()[3]);
        let t2 = trim_start(once);
        assert(ticked_at(t2, 0));
        assert(!matches_at(t2, box_open(), 0)) by {
            assert(t2.subrange(0, 5)[3] == 'x');
            if matches_at(t2, box_open(), 0) {
                assert(t2.subrange(0, 5)[3] == box_open()[3]);
            }
        }
        toggled_flips_marker(once);
        assert(once.update(k + 3, ' ') =~= line);
    } else {
        marker_update(line, ' ');
        assert(line.subrange(k, k + 5)[3] == box_ticked()[3]);
        toggled_flips_marker(once);
        assert(once.update(k + 3, 'x') =~= line);
    }
}

/// A box ticked with a capital `X` comes back from two clicks ticked with a
/// small `x`, and is otherwise the same line.
pub proof fn toggle_twice_lowers_mark(line: Seq<char>)
    requires
        matches_at(trim_start(line), box_ticked_upper(), 0),
    ensures
        toggled(toggled(line)) == line.update(leading_spaces(line) + 3, 'x'),
{
    let k = leading_spaces(line);
    leading_spaces_bounds(line);
    mark_position(line, box_open());
    mark_position(line, box_ticked_upper());
    toggled_flips_marker(line);
    let once = toggled(line);
    assert(!matches_at(trim_start(line), box_open(), 0)) by {
        assert(line.subrange(k, k + 5)[3] == box_ticked_upper()[3]);
        if matches_at(trim_start(line), box_open(), 0) {
            assert(line.subrange(k, k + 5)[3] == box_open()[3]);
        }
    }
    marker_update(line, ' ');
    toggled_flips_marker(once);
    assert(once.update(k + 3, 'x') =~= line.update(k + 3, 'x'));
}

/// The mark `- [c]`.
fn box_mark(c: char) -> (v: Vec<char>)
    ensures
        v@ == seq!['-', ' ', '[', c, ']'],
{
    let mut v: Vec<char> = Vec::new();
    v.push('-');
    v.push(' ');
    v.push('[');
    v.push(c);
    v.push(']');
    assert(v@ =~= seq!['-', ' ', '[', c, ']']);
    v
}

/// Which checkbox mark stands after the leading white space of `line`, if
/// any: `false` for an open box, `true` for a ticked one. With it comes the
/// number of white space characters before the mark.
fn checkbox_state(line: &Vec<char>) -> (r: (Option<bool>, usize))
    ensures
        r.1 == leading_spaces(line@),
        r.0 is Some <==> is_checkbox(line@),
        r.0 == Some(false) <==> matches_at(trim_start(line@), box_open(), 0),
        r.0 is Some ==> r.1 + 5 <= line.len(),
{
    let k = count_leading_spaces(line);
    proof {
        mark_position(line@, box_open());
        mark_position(line@, box_ticked());
        mark_position(line@, box_ticked_upper());
        if matches_at(line@, box_open(), k as int) && ticked_at(line@, k as int) {
            assert(line@.subrange(k as int, k + 5)[3] == box_open()[3]);
        }
    }
    if occurs_at(line, &box_mark(' '), k) {
        (Some(false), k)
    } else if occurs_at(line, &box_mark('x'), k) || occurs_at(line, &box_mark('X'), k) {
        (Some(true), k)
    } else {
        (None, k)
    }
}

/// How the line `line` is shown.
pub fn classify_chars(line: &Vec<char>) -> (shown: Line)
    ensures
        shown@ == classify(line@),
{
    let (state, k) = checkbox_state(line);
    match state {
        Some(checked) => {
            let rest = tail_from(line, k + 5);
            assert(rest@ =~= trim_start(line@).skip(5));
            let label = string_of(&trim_start_of(&rest));
            Line::Checkbox { checked, label }
        },
        None => {
            let mut mark: Vec<char> = Vec::new();
            mark.push('*');
            mark.push('*');
            assert(mark@ =~= bold_mark());
            if find(line, &mark).is_some() {
                let nothing: Vec<char> = Vec::new();
                assert(nothing@ =~= Seq::<char>::empty());
                Line::Bold { text: string_of(&replace_all_in(line, &mark, &nothing)) }
            } else {
                Line::Plain { text: string_of(line) }
            }
        },
    }
}

/// How the line `line` is shown.
pub fn classify_line(line: &str) -> (shown: Line)
    ensures
        shown@ == classify(line@),
{
    classify_chars(&chars_of(line))
}

/// The line after a click on its checkbox.
pub fn toggle_chars(line: &Vec<char>) -> (out: Vec<char>)
    ensures
        out@ == toggled(line@),
{
    let (state, k) = checkbox_state(line);
    match state {
        Some(false) => replace_first_in(line, &box_mark(' '), &box_mark('x')),
        Some(true) => {
            proof {
                toggled_flips_marker(line@);
            }
            let mut out = line.clone();
            out.set(k + 3, ' ');
            out
        },
        None => line.clone(),
    }
}

/// The line after a click on its checkbox.
pub fn toggle_line(line: &str) -> (out: String)
    ensures
        out@ == toggled(line@),
{
    string_of(&toggle_chars(&chars_of(line)))
}

/// What each shown line holds.
pub open spec fn shown(lines: Seq<Line>) -> Seq<LineView> {
    Seq::new(lines.len(), |i: int| lines[i]@)
}

/// Each line of `text` as it is shown.
pub open spec fn rendered(text: Seq<char>) -> Seq<LineView> {
    Seq::new(lines_of(text).len(), |i: int| classify(lines_of(text)[i]))
}

/// The memo's lines as they are shown.
pub fn render(text: &str) -> (out: Vec<Line>)
    ensures
        shown(out@) == rendered(text@),
{
    let lines = split_lines(&chars_of(text));
    let mut out: Vec<Line> = Vec::new();
    let mut i: usize = 0;
    while i < lines.len()
        invariant
            i <= lines.len(),
            rows(lines@) == lines_of(text@),
            shown(out@) == rendered(text@).take(i as int),
        decreases lines.len() - i,
    {
        let ghost before = shown(out@);
        assert(rows(lines@).len() == lines.len());
        assert(rows(lines@)[i as int] == lines@[i as int]@);
        out.push(classify_chars(&lines[i]));
        assert(out@.len() == i + 1) by {
            assert(before.len() == i);
        }
        assert forall|j: int| 0 <= j <= i implies shown(out@)[j] == rendered(text@)[j] by {
            if j < i {
                assert(shown(out@)[j] == before[j]);
            }
        }
        i += 1;
        assert(shown(out@) =~= rendered(text@).take(i as int));
    }
    assert(rendered(text@).take(lines.len() as int) =~= rendered(text@));
    out
}

/// The memo: its text, and whether it is shown line by line or open in the
/// editor.
#[derive(Clone, Debug)]
pub struct Memo {
    pub text: String,
    pub editing: bool,
}

/// The text after a click on the checkbox of line `index`: the lines of
/// `text`, that one toggled, joined by line feeds. Without such a checkbox
/// the text is as it was.
pub open spec fn text_after_toggle(text: Seq<char>, index: int) -> Seq<char> {
    let lines = lines_of(text);
    if 0 <= index < lines.len() && is_checkbox(lines[index]) {
        join_lines(lines.update(index, toggled(lines[index])))
    } else {
        text
    }
}

/// At least one line is counted, also for a text without any.
pub open spec fn shown_line_count(text: Seq<char>) -> int {
    if lines_of(text).len() == 0 {
        1
    } else {
        lines_of(text).len() as int
    }
}

impl Memo {
    /// A memo with the text `text`, shown line by line.
    pub fn new(text: String) -> (m: Memo)
        ensures
            m.text@ == text@,
            !m.editing,
    {
        Memo { text, editing: false }
    }

    /// The memo's lines as they are shown.
    pub fn lines(&self) -> (out: Vec<Line>)
        ensures
            shown(out@) == rendered(self.text@),
    {
        render(self.text.as_str())
    }

    /// How many lines the memo takes on the screen: at least one.
    pub fn line_count(&self) -> (n: usize)
        ensures
            n == shown_line_count(self.text@),
    {
        let lines = split_lines(&chars_of(self.text.as_str()));
        assert(rows(lines@).len() == lines.len());
        if lines.len() == 0 {
            1
        } else {
            lines.len()
        }
    }

    /// A click on the checkbox of line `index`. Says whether there is such a
    /// checkbox; if so, that line is toggled and the text put together again
    /// from its lines.
    pub fn toggle(&mut self, index: usize) -> (done: bool)
        ensures
            done == (index < lines_of(old(self).text@).len() && is_checkbox(
                lines_of(old(self).text@)[index as int],
            )),
            final(self).text@ == text_after_toggle(old(self).text@, index as int),
            final(self).editing == old(self).editing,
    {
        let mut lines = split_lines(&chars_of(self.text.as_str()));
        assert(rows(lines@).len() == lines.len());
        if index >= lines.len() {
            return false;
        }
        assert(rows(lines@)[index as int] == lines@[index as int]@);
        let (state, _) = checkbox_state(&lines[index]);
        if state.is_none() {
            return false;
        }
        let ghost before = rows(lines@);
        let flipped = toggle_chars(&lines[index]);
        lines.set(index, flipped);
        assert(rows(lines@) =~= before.update(index as int, toggled(before[index as int])));
        self.text = string_of(&join_with_newlines(&lines));
        true
    }

    /// A click on a shown line opens the editor.
    pub fn line_clicked(&mut self)
        ensures
            final(self).text@ == old(self).text@,
            final(self).editing,
    {
        self.editing = true;
    }

    /// One round of the editor, which holds `buffer` after the round's
    /// typing. The memo takes over the buffer at once, with a line feed at
    /// its end for each Alt+Enter; Escape closes the editor and keeps the
    /// text. While the editor is closed nothing happens.
    pub fn edit(&mut self, buffer: &str, keys: &Vec<KeyEvent>)
        ensures
            old(self).editing ==> final(self).text@ == buffer@ + line_breaks(keys@),
            old(self).editing ==> final(self).editing == !commits(keys@),
            !old(self).editing ==> final(self).text@ == old(self).text@ && !final(self).editing,
    {
        if self.editing {
            let mut chars = chars_of(buffer);
            push_line_breaks(&mut chars, keys);
            self.text = string_of(&chars);
            if any_commit(keys) {
                self.editing = false;
            }
        }
    }
}

} // verus!
