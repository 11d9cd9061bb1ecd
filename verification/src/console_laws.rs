//! What holds of the console for every text: what appears where, when the
//! screen scrolls, and where the cursor ends up.

use vstd::prelude::*;
use crate::vga_text::{
    glyph_for, glyphs, ColorCode, ConsoleState, ScreenChar, BUFFER_HEIGHT, BUFFER_WIDTH, NEWLINE,
    PLACEHOLDER,
};

verus! {

/// No byte of the sequence is a line feed.
pub open spec fn no_line_feed(bytes: Seq<u8>) -> bool {
    forall|i: int| 0 <= i < bytes.len() ==> bytes[i] != NEWLINE
}

/// Every byte of the sequence is printable ASCII.
pub open spec fn all_printable(bytes: Seq<u8>) -> bool {
    forall|i: int| 0 <= i < bytes.len() ==> 0x20 <= #[trigger] bytes[i] <= 0x7e
}

/// No byte of the sequence is printable ASCII or a line feed.
pub open spec fn none_printable(bytes: Seq<u8>) -> bool {
    forall|i: int|
        0 <= i < bytes.len() ==> !(0x20 <= #[trigger] bytes[i] <= 0x7e) && bytes[i] != NEWLINE
}

/// The bottom row of `after` is that of `before` with the given glyphs, in
/// the colors of `before`, in the cells from `before`'s fill mark on; every
/// other row is as it was.
pub open spec fn shown_in_row(before: ConsoleState, after: ConsoleState, shown: Seq<u8>) -> bool {
    let bottom = BUFFER_HEIGHT - 1;
    let from = before.filled() as int;
    &&& after.wf()
    &&& after.color_code == before.color_code
    &&& after.filled() == before.filled() + shown.len()
    &&& forall|r: int| 0 <= r < bottom ==> #[trigger] after.rows[r] == before.rows[r]
    &&& forall|c: int|
        0 <= c < BUFFER_WIDTH ==> #[trigger] after.rows[bottom][c] == if from <= c < from
            + shown.len() {
            ScreenChar { ascii_character: shown[c - from], color_code: before.color_code }
        } else {
            before.rows[bottom][c]
        }
}

/// `after` is `before` scrolled once: every row but the last shows what the
/// row below it showed.
pub open spec fn scrolled_once(before: ConsoleState, after: ConsoleState) -> bool {
    forall|r: int| 0 <= r < BUFFER_HEIGHT - 1 ==> #[trigger] after.rows[r] == before.rows[r + 1]
}

/// Writing a sequence of bytes is writing its front part, then its back part.
pub proof fn lemma_write_bytes_concat(state: ConsoleState, front: Seq<u8>, back: Seq<u8>)
    ensures
        state.write_bytes(front + back) == state.write_bytes(front).write_bytes(back),
    decreases back.len(),
{
    if back.len() == 0 {
        assert(front + back =~= front);
    } else {
        lemma_write_bytes_concat(state, front, back.drop_last());
        assert((front + back).drop_last() =~= front + back.drop_last());
        assert((front + back).last() == back.last());
    }
}

/// Writing bytes and then one more is writing the bytes and then that byte.
pub proof fn lemma_write_bytes_push(state: ConsoleState, bytes: Seq<u8>, byte: u8)
    ensures
        state.write_bytes(bytes.push(byte)) == state.write_bytes(bytes).write_byte(byte),
{
    assert(bytes.push(byte).drop_last() =~= bytes);
}

/// Printable bytes are their own glyphs, and bytes that are neither printable
/// nor line feeds all have the placeholder as their glyph.
pub proof fn lemma_glyphs_of_text(text: Seq<u8>)
    ensures
        glyphs(text).len() == text.len(),
        all_printable(text) ==> glyphs(text) == text && no_line_feed(text),
        none_printable(text) ==> glyphs(text) == Seq::new(text.len(), |i: int| PLACEHOLDER)
            && no_line_feed(text),
{
    if all_printable(text) {
        assert(glyphs(text) =~= text);
        assert forall|i: int| 0 <= i < text.len() implies text[i] != NEWLINE by {
            assert(0x20 <= text[i]);
        }
    }
    if none_printable(text) {
        assert(glyphs(text) =~= Seq::new(text.len(), |i: int| PLACEHOLDER));
        assert forall|i: int| 0 <= i < text.len() implies text[i] != NEWLINE by {
            assert(!(0x20 <= text[i] <= 0x7e));
        }
    }
}

/// Bytes other than line feeds that fit into what is left of the bottom row
/// are written there as their glyphs, one cell each, and nothing scrolls.
pub proof fn lemma_bytes_within_row(state: ConsoleState, bytes: Seq<u8>)
    requires
        state.wf(),
        no_line_feed(bytes),
        state.filled() + bytes.len() <= BUFFER_WIDTH,
    ensures
        shown_in_row(state, state.write_bytes(bytes), glyphs(bytes)),
    decreases bytes.len(),
{
    let bottom = BUFFER_HEIGHT - 1;
    if bytes.len() == 0 {
        assert(state.write_bytes(bytes) == state);
    } else {
        let front = bytes.drop_last();
        let mid = state.write_bytes(front);
        lemma_bytes_within_row(state, front);
        let after = mid.write_byte(bytes.last());
        assert(after == state.write_bytes(bytes));
        assert(!mid.wrap_pending);
        assert(after.rows[bottom] == mid.rows[bottom].update(
            mid.column as int,
            ScreenChar { ascii_character: glyph_for(bytes.last()), color_code: mid.color_code },
        ));
        assert forall|r: int| 0 <= r < bottom implies #[trigger] after.rows[r] == state.rows[r] by {
            assert(after.rows[r] == mid.rows[r]);
        }
        let from = state.filled() as int;
        let shown = glyphs(bytes);
        assert forall|c: int| 0 <= c < BUFFER_WIDTH implies #[trigger] after.rows[bottom][c] == if from
            <= c < from + shown.len() {
            ScreenChar { ascii_character: shown[c - from], color_code: state.color_code }
        } else {
            state.rows[bottom][c]
        } by {
            if c != mid.column {
                assert(after.rows[bottom][c] == mid.rows[bottom][c]);
                if from <= c < from + front.len() {
                    assert(glyphs(front)[c - from] == shown[c - from]);
                }
            }
        }
    }
}

/// A text of printable ASCII that fits into what is left of the bottom row
/// appears there byte for byte, in the current colors, and nothing else on
/// the screen changes.
pub proof fn lemma_printable_text_verbatim(state: ConsoleState, text: Seq<u8>)
    requires
        state.wf(),
        all_printable(text),
        state.filled() + text.len() <= BUFFER_WIDTH,
    ensures
        shown_in_row(state, state.write_bytes(text), text),
{
    lemma_glyphs_of_text(text);
    lemma_bytes_within_row(state, text);
}

/// A text without printable bytes and without line feeds that fits into what
/// is left of the bottom row appears there as one placeholder for each of
/// its bytes.
pub proof fn lemma_unprintable_text_as_placeholders(state: ConsoleState, text: Seq<u8>)
    requires
        state.wf(),
        none_printable(text),
        state.filled() + text.len() <= BUFFER_WIDTH,
    ensures
        shown_in_row(state, state.write_bytes(text), Seq::new(text.len(), |i: int| PLACEHOLDER)),
{
    lemma_glyphs_of_text(text);
    lemma_bytes_within_row(state, text);
}

/// A line feed scrolls the screen exactly once, blanks the bottom row in the
/// current colors and puts the cursor at column 0.
pub proof fn lemma_line_feed_scrolls_once(state: ConsoleState)
    requires
        state.wf(),
    ensures
        state.write_byte(NEWLINE) == state.new_line(),
        scrolled_once(state, state.new_line()),
        state.new_line().rows[BUFFER_HEIGHT - 1] == ConsoleState::blank_row(state.color_code),
        state.new_line().filled() == 0,
        state.new_line().wf(),
{
}

/// A character written when the bottom row is full scrolls the screen exactly
/// once and then stands alone at the start of the bottom row.
pub proof fn lemma_wrap_scrolls_once(state: ConsoleState, byte: u8)
    requires
        state.wf(),
        state.wrap_pending,
        byte != NEWLINE,
    ensures
        scrolled_once(state, state.write_byte(byte)),
        shown_in_row(state.new_line(), state.write_byte(byte), seq![glyph_for(byte)]),
{
    let scrolled = state.new_line();
    assert(scrolled.wf());
    assert(scrolled.write_bytes(seq![byte]) == state.write_byte(byte)) by {
        assert(seq![byte].drop_last() =~= Seq::<u8>::empty());
        assert(scrolled.write_bytes(Seq::<u8>::empty()) == scrolled);
        assert(scrolled.write_byte(byte) == state.write_byte(byte));
    }
    lemma_bytes_within_row(scrolled, seq![byte]);
    assert(glyphs(seq![byte]) =~= seq![glyph_for(byte)]);
    let after = state.write_byte(byte);
    assert forall|r: int| 0 <= r < BUFFER_HEIGHT - 1 implies #[trigger] after.rows[r]
        == state.rows[r + 1] by {
        assert(after.rows[r] == scrolled.rows[r]);
    }
}

/// Text that fills the bottom row exactly leaves the cursor at column 0 of
/// that same row and scrolls nothing; the row is then full.
pub proof fn lemma_full_row_does_not_scroll(state: ConsoleState, text: Seq<u8>)
    requires
        state.wf(),
        state.filled() == 0,
        no_line_feed(text),
        text.len() == BUFFER_WIDTH,
    ensures
        shown_in_row(state, state.write_bytes(text), glyphs(text)),
        state.write_bytes(text).column == 0,
        state.write_bytes(text).wrap_pending,
{
    lemma_bytes_within_row(state, text);
}

/// One character more than fills the bottom row scrolls the screen exactly
/// once: the row above the bottom then shows the full row, and the last
/// character stands alone on the bottom row with the cursor behind it.
pub proof fn lemma_one_past_full_row_scrolls_once(state: ConsoleState, text: Seq<u8>)
    requires
        state.wf(),
        state.filled() == 0,
        no_line_feed(text),
        text.len() == BUFFER_WIDTH + 1,
    ensures
        scrolled_once(state.write_bytes(text.take(BUFFER_WIDTH as int)), state.write_bytes(text)),
        shown_in_row(
            state.write_bytes(text.take(BUFFER_WIDTH as int)).new_line(),
            state.write_bytes(text),
            seq![glyph_for(text[BUFFER_WIDTH as int])],
        ),
        state.write_bytes(text).column == 1,
        !state.write_bytes(text).wrap_pending,
{
    let front = text.take(BUFFER_WIDTH as int);
    let last = text[BUFFER_WIDTH as int];
    assert(no_line_feed(front));
    lemma_full_row_does_not_scroll(state, front);
    let full = state.write_bytes(front);
    assert(text.drop_last() =~= front);
    assert(state.write_bytes(text) == full.write_byte(last));
    lemma_wrap_scrolls_once(full, last);
}

/// What has been written and is still on the screen, in reading order: the
/// rows above the bottom row, and of the bottom row the cells before the
/// fill mark.
pub open spec fn flow(state: ConsoleState) -> Seq<ScreenChar> {
    Seq::new(
        ((BUFFER_HEIGHT - 1) * BUFFER_WIDTH + state.filled()) as nat,
        |i: int| state.rows[i / (BUFFER_WIDTH as int)][i % (BUFFER_WIDTH as int)],
    )
}

/// The cells that a sequence of glyphs makes in given colors.
pub open spec fn cells(shown: Seq<u8>, color_code: ColorCode) -> Seq<ScreenChar> {
    Seq::new(shown.len(), |i: int| ScreenChar { ascii_character: shown[i], color_code })
}

/// How often the screen scrolls while `count` characters are written behind
/// `filled` cells of the bottom row.
pub open spec fn scrolls(filled: nat, count: nat) -> int {
    if count == 0 {
        0
    } else {
        (filled + count - 1) / (BUFFER_WIDTH as int)
    }
}

proof fn lemma_glyph_joins_the_flow(state: ConsoleState, byte: u8)
    requires
        state.wf(),
        byte != NEWLINE,
    ensures
        state.write_byte(byte).wf(),
        state.write_byte(byte).color_code == state.color_code,
        state.write_byte(byte).filled() == if state.wrap_pending {
            1
        } else {
            state.filled() + 1
        },
        flow(state.write_byte(byte)) == flow(state).push(
            ScreenChar { ascii_character: glyph_for(byte), color_code: state.color_code },
        ).skip(
            if state.wrap_pending {
                BUFFER_WIDTH as int
            } else {
                0
            },
        ),
{
    let width = BUFFER_WIDTH as int;
    let after = state.write_byte(byte);
    let cell = ScreenChar { ascii_character: glyph_for(byte), color_code: state.color_code };
    state.lemma_write_byte_wf(byte);
    let expected = flow(state).push(cell).skip(
        if state.wrap_pending {
            width
        } else {
            0
        },
    );
    assert(flow(after).len() == expected.len());
    assert forall|i: int| 0 <= i < expected.len() implies flow(after)[i] == expected[i] by {
        let shift = if state.wrap_pending {
            1int
        } else {
            0int
        };
        assert((i + shift * width) / width == i / width + shift);
        assert((i + shift * width) % width == i % width);
        if i < expected.len() - 1 {
            assert(expected[i] == state.rows[i / width + shift][i % width]);
            assert(after.rows[i / width][i % width] == state.rows[i / width + shift][i % width]);
        }
    }
    assert(flow(after) =~= expected);
}

/// A text without line feeds joins what is on the screen glyph by glyph, in
/// order, one cell for each byte, in the current colors; what scrolls off is
/// whole rows from the top, one for each wrap.
pub proof fn lemma_bytes_flow_in_order(state: ConsoleState, bytes: Seq<u8>)
    requires
        state.wf(),
        no_line_feed(bytes),
    ensures
        state.write_bytes(bytes).wf(),
        state.write_bytes(bytes).color_code == state.color_code,
        bytes.len() > 0 ==> state.write_bytes(bytes).filled() == (state.filled() + bytes.len() - 1)
            % (BUFFER_WIDTH as int) + 1,
        flow(state.write_bytes(bytes)) == (flow(state) + cells(
            glyphs(bytes),
            state.color_code,
        )).skip(BUFFER_WIDTH * scrolls(state.filled(), bytes.len())),
    decreases bytes.len(),
{
    let width = BUFFER_WIDTH as int;
    let all = flow(state) + cells(glyphs(bytes), state.color_code);
    if bytes.len() == 0 {
        assert(all =~= flow(state));
        assert(all.skip(0) =~= all);
    } else {
        let front = bytes.drop_last();
        let mid = state.write_bytes(front);
        let cell = ScreenChar {
            ascii_character: glyph_for(bytes.last()),
            color_code: state.color_code,
        };
        lemma_bytes_flow_in_order(state, front);
        lemma_glyph_joins_the_flow(mid, bytes.last());
        let before = flow(state) + cells(glyphs(front), state.color_code);
        let done = scrolls(state.filled(), front.len());
        assert(before.push(cell) =~= all);
        assert(0 <= width * done <= before.len()) by {
            if front.len() > 0 {
                assert(flow(mid).len() == (BUFFER_HEIGHT - 1) * BUFFER_WIDTH + mid.filled());
            }
        }
        assert(before.skip(width * done).push(cell) =~= all.skip(width * done));
        if mid.wrap_pending {
            assert(scrolls(state.filled(), bytes.len()) == done + 1);
            assert(all.skip(width * done).skip(width) =~= all.skip(width * (done + 1)));
        } else {
            assert(scrolls(state.filled(), bytes.len()) == done);
            assert(all.skip(width * done).skip(0) =~= all.skip(width * done));
        }
    }
}

/// A text of printable ASCII without line feeds joins what is on the screen
/// byte for byte, however long it is.
pub proof fn lemma_printable_text_flows_verbatim(state: ConsoleState, text: Seq<u8>)
    requires
        state.wf(),
        all_printable(text),
    ensures
        flow(state.write_bytes(text)) == (flow(state) + cells(text, state.color_code)).skip(
            BUFFER_WIDTH * scrolls(state.filled(), text.len()),
        ),
{
    lemma_glyphs_of_text(text);
    lemma_bytes_flow_in_order(state, text);
}

/// A text without printable bytes and without line feeds joins what is on the
/// screen as one placeholder for each of its bytes, however long it is.
pub proof fn lemma_unprintable_text_flows_as_placeholders(state: ConsoleState, text: Seq<u8>)
    requires
        state.wf(),
        none_printable(text),
    ensures
        flow(state.write_bytes(text)) == (flow(state) + cells(
            Seq::new(text.len(), |i: int| PLACEHOLDER),
            state.color_code,
        )).skip(BUFFER_WIDTH * scrolls(state.filled(), text.len())),
{
    lemma_glyphs_of_text(text);
    lemma_bytes_flow_in_order(state, text);
}

} // verus!
