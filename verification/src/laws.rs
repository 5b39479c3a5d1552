//! What holds of the editing operations together.

use vstd::prelude::*;
use crate::buffermanager::ManagerState;
use crate::input::{CommandView, Key, parse};
use crate::model::{Direction, Mode, TAB_SIZE, Visual};
use crate::state::{
    EditorState, first_match, first_match_from, found, occurs_at, range_end, range_start, without,
};

verus! {

/// After the cursor was clamped, its column is on its line or just past
/// the line's end.
pub proof fn lemma_clamp_cursor_in_line(s: EditorState)
    requires
        s.wf(),
    ensures
        0 <= s.clamp_cursor().cursor.x <= s.clamp_cursor().line().len(),
        s.clamp_cursor().lines == s.lines,
        s.clamp_cursor().cursor.y == s.cursor.y,
{
}

/// Typing a character and taking it out again at once gives back the
/// document and the cursor.
pub proof fn lemma_insert_then_remove(s: EditorState, character: char)
    requires
        s.wf(),
        s.clamped(),
        s.insert(character).wf(),
    ensures
        s.insert(character).remove().lines == s.lines,
        s.insert(character).remove().cursor == s.cursor,
{
    let typed = s.insert(character);
    let y = s.cursor.y as int;
    let x = s.cursor.x as int;
    assert(typed.lines[y] == s.line().insert(x, character));
    assert(typed.lines[y].len() == s.line().len() + 1);
    assert(typed.cursor.x == x + 1);
    assert(s.line().insert(x, character).remove(x) =~= s.line());
    assert(typed.remove().lines =~= s.lines);
}

/// Pasting right after copying puts a copy of the selection into the
/// document: whole lines right after the cursor's line, characters at the
/// cursor. Taking the pasted part out again gives the document back.
pub proof fn lemma_copy_then_paste(s: EditorState, visual: Visual)
    requires
        s.wf(),
        s.clamped(),
        s.span_fits(visual),
    ensures
        ({
            let pasted = s.copy(visual).paste(visual);
            let y = s.cursor.y as int;
            let x = s.cursor.x as int;
            if visual.select_line {
                let n = s.selected(visual).len() as int;
                &&& pasted.lines.subrange(y + 1, y + 1 + n) == s.selected(visual)
                &&& without(pasted.lines, y + 1, y + 1 + n) == s.lines
            } else {
                let n = s.selected(visual)[0].len() as int;
                &&& pasted.lines[y].subrange(x, x + n) == s.selected(visual)[0]
                &&& pasted.lines == s.lines.update(y, pasted.lines[y])
                &&& without(pasted.lines[y], x, x + n) == s.line()
            }
        }),
{
    let pasted = s.copy(visual).paste(visual);
    let y = s.cursor.y as int;
    let x = s.cursor.x as int;
    if visual.select_line {
        let n = s.selected(visual).len() as int;
        assert(pasted.lines.subrange(y + 1, y + 1 + n) =~= s.selected(visual));
        assert(without(pasted.lines, y + 1, y + 1 + n) =~= s.lines);
    } else {
        let n = s.selected(visual)[0].len() as int;
        assert(s.copy(visual).clipboard[0] == s.selected(visual)[0]);
        assert(pasted.lines[y].subrange(x, x + n) =~= s.selected(visual)[0]);
        assert(pasted.lines =~= s.lines.update(y, pasted.lines[y]));
        assert(without(pasted.lines[y], x, x + n) =~= s.line());
    }
}

/// Copying puts exactly the selection on the clipboard, in place of what
/// it held, and changes nothing else: for whole lines the lines of the
/// span in order, for characters the one stretch of the cursor's line.
pub proof fn lemma_copy_takes_the_selection(s: EditorState, visual: Visual)
    requires
        s.wf(),
        s.span_fits(visual),
    ensures
        s.copy(visual).clipboard == s.selected(visual),
        s.copy(visual).lines == s.lines,
        s.copy(visual).cursor == s.cursor,
        s.copy(visual) == (EditorState { clipboard: s.copy(visual).clipboard, ..s }),
        visual.select_line ==> s.selected(visual) == s.lines.subrange(
            range_start(visual.y as int, s.cursor.y as int),
            range_end(visual.y as int, s.cursor.y as int),
        ),
        !visual.select_line ==> s.selected(visual) == seq![
            s.line().subrange(
                range_start(visual.x as int, s.cursor.x as int),
                range_end(visual.x as int, s.cursor.x as int),
            ),
        ],
{
}

/// Taking whole lines out of a document of several lines takes out exactly
/// the lines of the span and leaves the others in their order. At least a
/// line is left, and the cursor lands at the start of what was taken out,
/// or on the last line that is left where that start lies below it.
pub proof fn lemma_delete_lines(s: EditorState, visual: Visual)
    requires
        s.wf(),
        visual.select_line,
        s.selection_fits(visual),
        s.lines.len() > 1,
    ensures
        ({
            let start = range_start(visual.y as int, s.cursor.y as int);
            let end = range_end(visual.y as int, s.cursor.y as int);
            let left = s.delete(visual);
            &&& left.lines == s.lines.subrange(0, start) + s.lines.subrange(
                end,
                s.lines.len() as int,
            )
            &&& left.lines.len() == s.lines.len() - (end - start)
            &&& left.lines.len() >= 1
            &&& left.cursor.y == if start < left.lines.len() {
                start
            } else {
                left.lines.len() - 1
            }
            &&& left.cursor.x == s.cursor.x
            &&& left.screen.y <= left.cursor.y
            &&& left.wf()
        }),
{
}

/// Taking characters out takes out exactly the span of the cursor's line
/// and leaves the other lines; with the anchor first the cursor goes back
/// to the anchor, else it stays.
pub proof fn lemma_delete_characters(s: EditorState, visual: Visual)
    requires
        s.wf(),
        !visual.select_line,
        s.selection_fits(visual),
    ensures
        ({
            let start = range_start(visual.x as int, s.cursor.x as int);
            let end = range_end(visual.x as int, s.cursor.x as int);
            let left = s.delete(visual);
            &&& left.lines == s.lines.update(
                s.cursor.y as int,
                s.line().subrange(0, start) + s.line().subrange(end, s.line().len() as int),
            )
            &&& left.cursor.y == s.cursor.y
            &&& left.cursor.x == start
        }),
{
}

/// Stepping to the next match moves the index on by one, but not past the
/// last match, and puts the cursor on the match that the index stands at
/// then; the matches and the document stay, and the view is drawn again.
pub proof fn lemma_next_match(s: EditorState)
    requires
        s.matches.matches.len() > 0,
        s.matches.index < s.matches.matches.len(),
        s.matches.matches.len() <= usize::MAX,
    ensures
        ({
            let next = s.next_match();
            let n = s.matches.matches.len();
            &&& next.matches.index == if s.matches.index + 1 < n {
                s.matches.index + 1
            } else {
                n - 1
            }
            &&& next.matches.index < n
            &&& next.cursor == s.matches.matches[next.matches.index as int]
            &&& next.matches.matches == s.matches.matches
            &&& next.lines == s.lines
            &&& next.refresh
        }),
{
}

/// Stepping to the previous match moves the index back by one, but not
/// before the first match, where nothing changes, and puts the cursor on
/// the match that the index stands at then.
pub proof fn lemma_previous_match(s: EditorState)
    requires
        s.matches.wf(),
    ensures
        s.matches.index == 0 ==> s.previous_match() == s,
        s.matches.index > 0 ==> {
            &&& s.previous_match().matches.index == s.matches.index - 1
            &&& s.previous_match().cursor == s.matches.matches[s.matches.index - 1]
            &&& s.previous_match().matches.matches == s.matches.matches
            &&& s.previous_match().refresh
        },
{
}

/// Cutting a selection of characters that runs forward to the cursor and
/// pasting it at once gives back the line and the cursor.
pub proof fn lemma_cut_then_paste(s: EditorState, visual: Visual)
    requires
        s.wf(),
        s.clamped(),
        !visual.select_line,
        visual.x < s.cursor.x,
    ensures
        s.copy(visual).delete(visual).paste(visual).lines == s.lines,
        s.copy(visual).delete(visual).paste(visual).cursor == s.cursor,
{
    let cut = s.copy(visual).delete(visual);
    let y = s.cursor.y as int;
    assert(cut.lines[y] =~= without(s.line(), visual.x as int, s.cursor.x as int));
    assert(cut.paste(visual).lines[y] =~= s.line());
    assert(cut.paste(visual).lines =~= s.lines);
}

/// Closing a buffer when it is the only one changes nothing.
pub proof fn lemma_close_only_buffer(m: ManagerState)
    requires
        m.wf(),
        m.buffers.len() == 1,
    ensures
        m.close_buffer() == m,
{
}

/// Closing a buffer when there are others leaves one buffer less, and the
/// current index on a buffer.
pub proof fn lemma_close_buffer(m: ManagerState)
    requires
        m.wf(),
        m.buffers.len() > 1,
    ensures
        m.close_buffer().buffers.len() == m.buffers.len() - 1,
        m.close_buffer().wf(),
{
}

/// Where no line holds the text, the first lines hold no match of it.
proof fn lemma_found_nothing(lines: Seq<Seq<char>>, query: Seq<char>, n: int)
    requires
        n <= lines.len(),
        forall|y: int| 0 <= y < lines.len() ==> first_match(#[trigger] lines[y], query) is None,
    ensures
        found(lines, query, n).len() == 0,
    decreases n,
{
    if n > 0 {
        lemma_found_nothing(lines, query, n - 1);
    }
}

/// A search for a text that stands in no line finds no match and leaves
/// the cursor and the viewport where they are.
pub proof fn lemma_search_without_match(s: EditorState, query: Seq<char>)
    requires
        s.wf(),
        forall|y: int| 0 <= y < s.lines.len() ==> first_match(#[trigger] s.lines[y], query) is None,
    ensures
        s.search(query).matches.matches.len() == 0,
        s.search(query).cursor == s.cursor,
        s.search(query).screen == s.screen,
        s.search(query).lines == s.lines,
{
    lemma_found_nothing(s.lines, query, s.lines.len() as int);
}

/// With no matches, stepping to the next or the previous match changes
/// nothing.
pub proof fn lemma_step_without_matches(s: EditorState)
    requires
        s.wf(),
        s.matches.matches.len() == 0,
    ensures
        s.next_match() == s,
        s.previous_match() == s,
{
}

/// Every match that a search finds lies in the document, and the matches
/// come in line order, at most one from a line.
pub proof fn lemma_found_in_order(lines: Seq<Seq<char>>, query: Seq<char>, n: int)
    requires
        0 <= n <= lines.len() <= usize::MAX,
    ensures
        found(lines, query, n).len() <= n,
        forall|i: int|
            0 <= i < found(lines, query, n).len() ==> (#[trigger] found(lines, query, n)[i]).y < n,
        forall|i: int, j: int|
            0 <= i < j < found(lines, query, n).len() ==> (#[trigger] found(lines, query, n)[i]).y
                < (#[trigger] found(lines, query, n)[j]).y,
    decreases n,
{
    if n > 0 {
        lemma_found_in_order(lines, query, n - 1);
    }
}

/// What `first_match_from` gives is the first column at or after `from`
/// where the text stands.
proof fn lemma_first_match_from(line: Seq<char>, query: Seq<char>, from: int)
    requires
        0 <= from,
    ensures
        match first_match_from(line, query, from) {
            Some(x) => from <= x && occurs_at(line, query, x) && forall|j: int|
                from <= j < x ==> !occurs_at(line, query, j),
            None => forall|j: int| from <= j ==> !occurs_at(line, query, j),
        },
    decreases line.len() + 1 - from,
{
    if from + query.len() <= line.len() && !occurs_at(line, query, from) {
        lemma_first_match_from(line, query, from + 1);
    }
}

/// The match that a search finds in a line is the first column where the
/// text stands in it; it finds none only where the text stands nowhere in
/// the line.
pub proof fn lemma_first_match(line: Seq<char>, query: Seq<char>)
    ensures
        match first_match(line, query) {
            Some(x) => occurs_at(line, query, x) && forall|j: int|
                0 <= j < x ==> !occurs_at(line, query, j),
            None => forall|j: int| !occurs_at(line, query, j),
        },
{
    lemma_first_match_from(line, query, 0);
}

/// Saving the live state, switching to the next buffer and later back to
/// the previous one brings back the cursor, the viewport, the matches and
/// the clamp column as they were saved, whatever was done and saved in the
/// other buffer and whatever the file holds by then. It takes a buffer to
/// switch to: from the last of several buffers the way leads elsewhere.
pub proof fn lemma_switch_and_back(
    m: ManagerState,
    live: EditorState,
    other: EditorState,
    lines: Seq<Seq<char>>,
)
    requires
        m.wf(),
        m.current + 1 < m.buffers.len(),
    ensures
        ({
            let there = m.save_buffer(live).next_buffer();
            let back = there.save_buffer(other).previous_buffer();
            let restored = back.reload(other, lines);
            &&& back.current == m.current
            &&& restored.cursor == live.cursor
            &&& restored.screen == live.screen
            &&& restored.matches == live.matches
            &&& restored.clamp == live.clamp
            &&& restored.filename == live.filename
        }),
{
}

/// Bringing a buffer back right after saving the live state into it keeps
/// the cursor, the viewport and the matches.
pub proof fn lemma_save_then_reload(m: ManagerState, live: EditorState, lines: Seq<Seq<char>>)
    requires
        m.wf(),
    ensures
        m.save_buffer(live).reload(live, lines).cursor == live.cursor,
        m.save_buffer(live).reload(live, lines).screen == live.screen,
        m.save_buffer(live).reload(live, lines).matches == live.matches,
{
}

/// Bringing a buffer back leaves the clipboard, the mode and the command
/// line as they are, and asks for the whole view to be drawn again.
pub proof fn lemma_reload_keeps_clipboard(m: ManagerState, live: EditorState, lines: Seq<Seq<char>>)
    ensures
        m.reload(live, lines).clipboard == live.clipboard,
        m.reload(live, lines).mode == live.mode,
        m.reload(live, lines).command == live.command,
        m.reload(live, lines).refresh,
        m.reload(live, lines).lines.len() > 0,
{
}

/// A step of the cursor keeps the cursor's line in the viewport, which
/// scrolls by at most one line.
pub proof fn lemma_move_cursor_stays_in_view(s: EditorState, direction: Direction)
    requires
        s.wf(),
        s.in_view(),
    ensures
        s.move_cursor(direction).in_view(),
        s.move_cursor(direction).wf(),
        s.screen.y - 1 <= s.move_cursor(direction).screen.y <= s.screen.y + 1,
        s.move_cursor(direction).screen.y != s.screen.y ==> s.move_cursor(direction).refresh,
{
}

/// Whatever key is handled, the document keeps a line and the cursor
/// stays on a line of it and in the viewport, as long as no jump to a
/// search match leads out of the document.
pub proof fn lemma_handle_key_keeps_cursor_in_view(s: EditorState, m: ManagerState, key: Key)
    requires
        s.wf(),
        s.in_view(),
        s.accepts(key),
        s.handle_key(m, key).editor.fits(),
        s.jumps(key) ==> forall|i: int|
            0 <= i < s.matches.matches.len() ==> (#[trigger] s.matches.matches[i]).y
                < s.lines.len(),
    ensures
        s.handle_key(m, key).editor.wf(),
        s.handle_key(m, key).editor.in_view(),
{
    match key {
        Key::Enter => {
            if s.mode == Mode::Command {
                let left = EditorState { mode: Mode::Normal, command: Seq::empty(), ..s };
                lemma_command_keeps_cursor_in_view(left, m, s.command);
            }
        },
        Key::Tab => {
            if s.mode == Mode::Insert {
                lemma_insert_spaces(s, TAB_SIZE as nat);
            }
        },
        Key::Char(character) => {
            if s.mode == Mode::Normal && character == 'd' {
                let anchored = EditorState { visual: s.line_selection(), ..s };
                assert(anchored.copy(s.line_selection()).selection_fits(s.line_selection()));
            }
        },
        _ => {},
    }
}

/// Typing spaces changes neither the cursor's line number nor the
/// viewport, and leaves the cursor on its line.
proof fn lemma_insert_spaces(s: EditorState, n: nat)
    requires
        s.wf(),
        s.clamped(),
    ensures
        s.insert_spaces(n).lines.len() == s.lines.len(),
        s.insert_spaces(n).cursor.y == s.cursor.y,
        s.insert_spaces(n).screen == s.screen,
        s.insert_spaces(n).matches == s.matches,
        s.insert_spaces(n).cursor.x <= s.insert_spaces(n).line().len(),
    decreases n,
{
    if n > 0 {
        lemma_insert_spaces(s, (n - 1) as nat);
    }
}

/// A command keeps the document and the cursor in it and in the viewport.
proof fn lemma_command_keeps_cursor_in_view(s: EditorState, m: ManagerState, cmd: Seq<char>)
    requires
        s.lines.len() > 0,
        s.lines.len() <= usize::MAX,
        s.cursor.y < s.lines.len(),
        s.in_view(),
    ensures
        s.command(m, cmd).editor.lines == s.lines,
        s.command(m, cmd).editor.cursor.y < s.lines.len(),
        s.command(m, cmd).editor.in_view(),
        s.command(m, cmd).editor.matches.wf() || s.command(m, cmd).editor.matches == s.matches,
{
    match parse(cmd) {
        Some(CommandView::Search(text)) => {
            lemma_found_in_order(s.lines, text, s.lines.len() as int);
        },
        _ => {},
    }
}

/// The editing operations keep the document from becoming empty and the
/// cursor on a line of it.
pub proof fn lemma_editing_keeps_cursor_in_document(s: EditorState, character: char, cut: bool)
    requires
        s.wf(),
        s.clamped(),
    ensures
        0 < s.remove().lines.len() && s.remove().cursor.y < s.remove().lines.len(),
        0 < s.newline(cut).lines.len() && s.newline(cut).cursor.y < s.newline(cut).lines.len(),
        0 < s.insert(character).lines.len() && s.insert(character).cursor.y < s.insert(
            character,
        ).lines.len(),
{
}

} // verus!
