//! The display: a 64x32 monochrome framebuffer, bit-packed into the last 256
//! bytes of memory, and the XOR drawing primitive.

use vstd::prelude::*;

verus! {

/// Width of the display in pixels.
pub const WIDTH: usize = 64;

/// Height of the display in pixels.
pub const HEIGHT: usize = 32;

/// Address of the first framebuffer byte.
pub const SCREEN_START: usize = 0xf00;

/// The bit that stands for the `offset`-th pixel of a framebuffer byte,
/// counted from the left: the most significant bit comes first.
pub open spec fn bit_mask(offset: int) -> u8 {
    0x80u8 >> (offset as u8)
}

/// Whether the `offset`-th bit of `byte`, counted from the most significant
/// one, is set.
pub open spec fn bit_is_set(byte: u8, offset: int) -> bool {
    byte & bit_mask(offset) != 0
}

/// The address of the byte that holds pixel `(x, y)`.
pub open spec fn pixel_address(x: int, y: int) -> int {
    SCREEN_START as int + (y * 64 + x) / 8
}

/// The position of pixel `(x, y)` inside its byte, counted from the left.
pub open spec fn pixel_offset(x: int, y: int) -> int {
    (y * 64 + x) % 8
}

/// Whether pixel `(x, y)` is lit in a memory image.
pub open spec fn pixel_at(memory: Seq<u8>, x: int, y: int) -> bool {
    bit_is_set(memory[pixel_address(x, y)], pixel_offset(x, y))
}

/// The memory image after flipping pixel `(x mod 64, y mod 32)`, and whether
/// the pixel was lit before.
pub open spec fn xor_pixel(memory: Seq<u8>, x: int, y: int) -> (Seq<u8>, bool) {
    let px = x % 64;
    let py = y % 32;
    let address = pixel_address(px, py);
    (
        memory.update(address, memory[address] ^ bit_mask(pixel_offset(px, py))),
        pixel_at(memory, px, py),
    )
}

/// Plots the first `columns` pixels of the sprite row `line` with its left
/// end at `(x, y)`: every set bit flips its pixel. Gives the new memory image
/// and whether any lit pixel was put out.
pub open spec fn draw_row(memory: Seq<u8>, line: u8, x: int, y: int, columns: nat) -> (
    Seq<u8>,
    bool,
)
    decreases columns,
{
    if columns == 0 {
        (memory, false)
    } else {
        let column = columns - 1;
        let before = draw_row(memory, line, x, y, column as nat);
        if bit_is_set(line, column) {
            let plotted = xor_pixel(before.0, x + column, y);
            (plotted.0, before.1 || plotted.1)
        } else {
            before
        }
    }
}

/// Plots the first `rows` rows of the sprite stored at address `index` with
/// its top left corner at `(x, y)`. Each row is read from memory when its
/// turn comes, so a sprite that lies inside the framebuffer sees what the
/// rows before it have drawn.
pub open spec fn draw_sprite(memory: Seq<u8>, index: int, x: int, y: int, rows: nat) -> (
    Seq<u8>,
    bool,
)
    decreases rows,
{
    if rows == 0 {
        (memory, false)
    } else {
        let row = rows - 1;
        let before = draw_sprite(memory, index, x, y, row as nat);
        let plotted = draw_row(before.0, before.0[index + row], x, y + row, 8);
        (plotted.0, before.1 || plotted.1)
    }
}

/// The memory image with the bytes from `from` up to, not including, `to`
/// cleared.
pub open spec fn zeroed(memory: Seq<u8>, from: int, to: int) -> Seq<u8> {
    Seq::new(
        memory.len(),
        |address: int|
            if from <= address < to {
                0u8
            } else {
                memory[address]
            },
    )
}

/// The memory image with every framebuffer byte cleared.
pub open spec fn clear_screen(memory: Seq<u8>) -> Seq<u8> {
    zeroed(memory, SCREEN_START as int, memory.len() as int)
}

/// One byte per pixel, row by row: `0xff` for a lit pixel, `0x00` for a dark
/// one.
pub open spec fn grayscale(memory: Seq<u8>) -> Seq<u8> {
    Seq::new(
        (WIDTH * HEIGHT) as nat,
        |pixel: int| if pixel_at(memory, pixel % 64, pixel / 64) { 0xffu8 } else { 0x00u8 },
    )
}

/// Whether `(x, y)` is a position on the display.
pub open spec fn on_screen(x: int, y: int) -> bool {
    0 <= x < WIDTH && 0 <= y < HEIGHT
}

/// Flipping bit `k` of a byte flips what a test of bit `k` says and leaves
/// the test of every other bit as it was.
proof fn lemma_toggle_bit(byte: u8, k: u8, j: u8)
    by (bit_vector)
    requires
        k < 8,
        j < 8,
    ensures
        ((byte ^ (0x80u8 >> k)) & (0x80u8 >> j) != 0) == ((byte & (0x80u8 >> j) != 0) != (k
            == j)),
{
}

/// Two bytes that agree in each of their eight bits are equal.
proof fn lemma_byte_by_bits(a: u8, b: u8)
    by (bit_vector)
    requires
        (a & (0x80u8 >> 0u8) != 0) == (b & (0x80u8 >> 0u8) != 0),
        (a & (0x80u8 >> 1u8) != 0) == (b & (0x80u8 >> 1u8) != 0),
        (a & (0x80u8 >> 2u8) != 0) == (b & (0x80u8 >> 2u8) != 0),
        (a & (0x80u8 >> 3u8) != 0) == (b & (0x80u8 >> 3u8) != 0),
        (a & (0x80u8 >> 4u8) != 0) == (b & (0x80u8 >> 4u8) != 0),
        (a & (0x80u8 >> 5u8) != 0) == (b & (0x80u8 >> 5u8) != 0),
        (a & (0x80u8 >> 6u8) != 0) == (b & (0x80u8 >> 6u8) != 0),
        (a & (0x80u8 >> 7u8) != 0) == (b & (0x80u8 >> 7u8) != 0),
    ensures
        a == b,
{
}

/// Flipping a pixel changes that pixel and nothing else: no other pixel, and
/// no byte below the framebuffer.
pub proof fn lemma_xor_pixel(memory: Seq<u8>, x: int, y: int)
    requires
        memory.len() == 4096,
    ensures
        xor_pixel(memory, x, y).0.len() == 4096,
        xor_pixel(memory, x, y).1 == pixel_at(memory, x % 64, y % 32),
        forall|address: int|
            0 <= address < SCREEN_START ==> xor_pixel(memory, x, y).0[address]
                == memory[address],
        forall|qx: int, qy: int|
            on_screen(qx, qy) ==> #[trigger] pixel_at(xor_pixel(memory, x, y).0, qx, qy) == (
            pixel_at(memory, qx, qy) != (qx == x % 64 && qy == y % 32)),
{
    let px = x % 64;
    let py = y % 32;
    let after = xor_pixel(memory, x, y).0;
    assert forall|qx: int, qy: int| on_screen(qx, qy) implies #[trigger] pixel_at(
        after,
        qx,
        qy,
    ) == (pixel_at(memory, qx, qy) != (qx == px && qy == py)) by {
        let k = pixel_offset(px, py);
        let j = pixel_offset(qx, qy);
        if pixel_address(qx, qy) == pixel_address(px, py) {
            lemma_toggle_bit(memory[pixel_address(px, py)], k as u8, j as u8);
            assert((k == j) == (qx == px && qy == py));
        }
    }
}

/// Whether the first `columns` pixels of the sprite row `line`, drawn with
/// its left end at `(x, y)`, reach the display position `(qx, qy)` with a
/// set bit.
pub open spec fn row_covers(line: u8, x: int, y: int, columns: nat, qx: int, qy: int) -> bool {
    let column = (qx - x) % 64;
    qy == y % 32 && column < columns && bit_is_set(line, column)
}

/// Whether bit `column` of the sprite row `line`, drawn with its left end
/// at `(x, y)`, is set and falls on a lit pixel.
pub open spec fn row_hits(memory: Seq<u8>, line: u8, x: int, y: int, column: int) -> bool {
    bit_is_set(line, column) && pixel_at(memory, (x + column) % 64, y % 32)
}

/// Row `row` of the sprite at `index`.
pub open spec fn sprite_row(memory: Seq<u8>, index: int, row: int) -> u8 {
    memory[index + row]
}

/// Whether bit `column` of row `row` of the sprite at `index` is set.
pub open spec fn sprite_bit(memory: Seq<u8>, index: int, row: int, column: int) -> bool {
    bit_is_set(sprite_row(memory, index, row), column)
}

/// Whether the first `rows` rows of the sprite at `index`, drawn with its
/// top left corner at `(x, y)`, reach the display position `(qx, qy)` with a
/// set bit.
pub open spec fn sprite_covers(
    memory: Seq<u8>,
    index: int,
    x: int,
    y: int,
    rows: nat,
    qx: int,
    qy: int,
) -> bool {
    let row = (qy - y) % 32;
    let column = (qx - x) % 64;
    row < rows && column < 8 && sprite_bit(memory, index, row, column)
}

/// Whether the pixel is lit on which bit `column` of row `row` of a sprite
/// falls that is drawn with its top left corner at `(x, y)`.
pub open spec fn pixel_under(memory: Seq<u8>, x: int, y: int, row: int, column: int) -> bool {
    pixel_at(memory, (x + column) % 64, (y + row) % 32)
}

/// Whether bit `column` of row `row` of the sprite at `index`, drawn with
/// its top left corner at `(x, y)`, is set and falls on a pixel that is lit
/// (`lit`) or dark (`!lit`).
pub open spec fn sprite_meets(
    memory: Seq<u8>,
    index: int,
    x: int,
    y: int,
    row: int,
    column: int,
    lit: bool,
) -> bool {
    sprite_bit(memory, index, row, column) && pixel_under(memory, x, y, row, column) == lit
}

/// Whether some set bit of the first `rows` rows of the sprite at `index`,
/// drawn with its top left corner at `(x, y)`, falls on a pixel that is lit
/// (`lit`) or dark (`!lit`).
pub open spec fn sprite_meets_any(
    memory: Seq<u8>,
    index: int,
    x: int,
    y: int,
    rows: nat,
    lit: bool,
) -> bool {
    exists|row: int, column: int|
        0 <= row < rows && 0 <= column < 8 && #[trigger] sprite_meets(
            memory,
            index,
            x,
            y,
            row,
            column,
            lit,
        )
}

/// The column `c` of a sprite at `x` falls on the display column `qx` just
/// when `c` is `qx - x` reduced to the width of the display; likewise for
/// rows and its height.
proof fn lemma_wrap(x: int, c: int, qx: int, y: int, r: int, qy: int)
    requires
        0 <= c < 64,
        0 <= qx < 64,
        0 <= r < 32,
        0 <= qy < 32,
    ensures
        ((qx - x) % 64 == c) == (qx == (x + c) % 64),
        ((qy - y) % 32 == r) == (qy == (y + r) % 32),
        0 <= (qx - x) % 64 < 64,
        0 <= (qy - y) % 32 < 32,
        on_screen((x + c) % 64, (y + r) % 32),
{
}

/// What drawing one sprite row does to the display: every pixel that a set
/// bit of the row reaches is flipped, every other pixel and every byte below
/// the framebuffer stays, and a collision is reported just when a set bit
/// falls on a lit pixel.
pub proof fn lemma_draw_row(memory: Seq<u8>, line: u8, x: int, y: int, columns: nat)
    requires
        memory.len() == 4096,
        columns <= 8,
    ensures
        draw_row(memory, line, x, y, columns).0.len() == 4096,
        forall|address: int|
            0 <= address < SCREEN_START ==> draw_row(memory, line, x, y, columns).0[address]
                == memory[address],
        forall|qx: int, qy: int|
            on_screen(qx, qy) ==> #[trigger] pixel_at(
                draw_row(memory, line, x, y, columns).0,
                qx,
                qy,
            ) == (pixel_at(memory, qx, qy) != row_covers(line, x, y, columns, qx, qy)),
        draw_row(memory, line, x, y, columns).1 == (exists|column: int|
            0 <= column < columns && #[trigger] row_hits(memory, line, x, y, column)),
    decreases columns,
{
    if columns > 0 {
        let c = columns - 1;
        let before = draw_row(memory, line, x, y, c as nat);
        let after = draw_row(memory, line, x, y, columns);
        lemma_draw_row(memory, line, x, y, c as nat);
        lemma_wrap(x, c, 0, y, 0, 0);
        let px = (x + c) % 64;
        let py = y % 32;
        if bit_is_set(line, c) {
            lemma_xor_pixel(before.0, x + c, y);
        }
        assert forall|qx: int, qy: int| on_screen(qx, qy) implies #[trigger] pixel_at(
            after.0,
            qx,
            qy,
        ) == (pixel_at(memory, qx, qy) != row_covers(line, x, y, columns, qx, qy)) by {
            lemma_wrap(x, c, qx, y, 0, qy);
            assert(pixel_at(before.0, qx, qy) == (pixel_at(memory, qx, qy) != row_covers(
                line,
                x,
                y,
                c as nat,
                qx,
                qy,
            )));
        }
        assert(pixel_at(before.0, px, py) == (pixel_at(memory, px, py) != row_covers(
            line,
            x,
            y,
            c as nat,
            px,
            py,
        )));
        assert(!row_covers(line, x, y, c as nat, px, py));
        assert(after.1 == (before.1 || row_hits(memory, line, x, y, c)));
        if before.1 {
            let w = choose|column: int|
                0 <= column < c && #[trigger] row_hits(memory, line, x, y, column);
            assert(0 <= w < columns && row_hits(memory, line, x, y, w));
        }
    }
}

/// What drawing a sprite that lies below the framebuffer does to the
/// display: every pixel that a set bit of the sprite reaches is flipped,
/// every other pixel and every byte below the framebuffer stays, and a
/// collision is reported just when a set bit falls on a lit pixel.
pub proof fn lemma_draw_sprite(memory: Seq<u8>, index: int, x: int, y: int, rows: nat)
    requires
        memory.len() == 4096,
        0 <= index,
        index + rows <= SCREEN_START,
        rows <= 32,
    ensures
        draw_sprite(memory, index, x, y, rows).0.len() == 4096,
        forall|address: int|
            0 <= address < SCREEN_START ==> draw_sprite(memory, index, x, y, rows).0[address]
                == memory[address],
        forall|qx: int, qy: int|
            on_screen(qx, qy) ==> #[trigger] pixel_at(
                draw_sprite(memory, index, x, y, rows).0,
                qx,
                qy,
            ) == (pixel_at(memory, qx, qy) != sprite_covers(memory, index, x, y, rows, qx, qy)),
        draw_sprite(memory, index, x, y, rows).1 == sprite_meets_any(
            memory,
            index,
            x,
            y,
            rows,
            true,
        ),
    decreases rows,
{
    if rows > 0 {
        let r = rows - 1;
        let before = draw_sprite(memory, index, x, y, r as nat);
        let after = draw_sprite(memory, index, x, y, rows);
        lemma_draw_sprite(memory, index, x, y, r as nat);
        let line = memory[index + r];
        assert(before.0[index + r] == line);
        let plotted = draw_row(before.0, line, x, y + r, 8);
        lemma_draw_row(before.0, line, x, y + r, 8);
        assert forall|qx: int, qy: int| on_screen(qx, qy) implies #[trigger] pixel_at(
            after.0,
            qx,
            qy,
        ) == (pixel_at(memory, qx, qy) != sprite_covers(memory, index, x, y, rows, qx, qy)) by {
            lemma_wrap(x, 0, qx, y, r, qy);
            assert(pixel_at(before.0, qx, qy) == (pixel_at(memory, qx, qy) != sprite_covers(
                memory,
                index,
                x,
                y,
                r as nat,
                qx,
                qy,
            )));
        }
        // on the row that is drawn now, the rows before have changed nothing
        assert forall|column: int| 0 <= column < 8 implies #[trigger] row_hits(
            before.0,
            line,
            x,
            y + r,
            column,
        ) == sprite_meets(memory, index, x, y, r, column, true) by {
            let px = (x + column) % 64;
            let py = (y + r) % 32;
            lemma_wrap(x, column, px, y, r, py);
            assert(pixel_at(before.0, px, py) == (pixel_at(memory, px, py) != sprite_covers(
                memory,
                index,
                x,
                y,
                r as nat,
                px,
                py,
            )));
        }
        if before.1 {
            let (wr, wc) = choose|row: int, column: int|
                0 <= row < r && 0 <= column < 8 && #[trigger] sprite_meets(
                    memory,
                    index,
                    x,
                    y,
                    row,
                    column,
                    true,
                );
            assert(0 <= wr < rows && sprite_meets(memory, index, x, y, wr, wc, true));
        }
        if plotted.1 {
            let wc = choose|column: int|
                0 <= column < 8 && #[trigger] row_hits(before.0, line, x, y + r, column);
            assert(sprite_meets(memory, index, x, y, r, wc, true));
        }
        if sprite_meets_any(memory, index, x, y, rows, true) {
            let (wr, wc) = choose|row: int, column: int|
                0 <= row < rows && 0 <= column < 8 && #[trigger] sprite_meets(
                    memory,
                    index,
                    x,
                    y,
                    row,
                    column,
                    true,
                );
            if wr == r {
                assert(row_hits(before.0, line, x, y + r, wc));
            } else {
                assert(0 <= wr < r && sprite_meets(memory, index, x, y, wr, wc, true));
            }
        }
    }
}

/// Wherever the sprite lies, drawing keeps memory at its size and changes no
/// byte below the framebuffer.
pub proof fn lemma_draw_sprite_frame(memory: Seq<u8>, index: int, x: int, y: int, rows: nat)
    requires
        memory.len() == 4096,
    ensures
        draw_sprite(memory, index, x, y, rows).0.len() == 4096,
        forall|address: int|
            0 <= address < SCREEN_START ==> draw_sprite(memory, index, x, y, rows).0[address]
                == memory[address],
    decreases rows,
{
    if rows > 0 {
        let r = rows - 1;
        lemma_draw_sprite_frame(memory, index, x, y, r as nat);
        let before = draw_sprite(memory, index, x, y, r as nat);
        lemma_draw_row(before.0, before.0[index + r], x, y + r, 8);
    }
}

/// Whether two memory images show the same display: they agree in every
/// byte of the framebuffer.
pub open spec fn same_display(a: Seq<u8>, b: Seq<u8>) -> bool {
    forall|address: int| SCREEN_START <= address < 4096 ==> a[address] == b[address]
}

/// Drawing a sprite row looks at nothing but the display: on two memory
/// images that show the same display it reports the same collision and
/// leaves the same display.
pub proof fn lemma_draw_row_reads(
    a: Seq<u8>,
    b: Seq<u8>,
    line: u8,
    x: int,
    y: int,
    columns: nat,
)
    requires
        a.len() == 4096,
        b.len() == 4096,
        columns <= 8,
        same_display(a, b),
    ensures
        draw_row(a, line, x, y, columns).1 == draw_row(b, line, x, y, columns).1,
        same_display(draw_row(a, line, x, y, columns).0, draw_row(b, line, x, y, columns).0),
    decreases columns,
{
    if columns > 0 {
        let c = columns - 1;
        lemma_draw_row_reads(a, b, line, x, y, c as nat);
        lemma_draw_row(a, line, x, y, c as nat);
        lemma_draw_row(b, line, x, y, c as nat);
        lemma_wrap(x, c, 0, y, 0, 0);
    }
}

/// Drawing a sprite looks at nothing but the sprite and the display: on two
/// memory images that hold the same sprite and show the same display it
/// reports the same collision and leaves the same display.
pub proof fn lemma_draw_sprite_reads(
    a: Seq<u8>,
    b: Seq<u8>,
    index: int,
    x: int,
    y: int,
    rows: nat,
)
    requires
        a.len() == 4096,
        b.len() == 4096,
        0 <= index,
        rows > 0 ==> index + rows <= 4096,
        same_display(a, b),
        forall|row: int|
            0 <= row < rows ==> #[trigger] sprite_row(a, index, row) == sprite_row(b, index, row),
    ensures
        draw_sprite(a, index, x, y, rows).1 == draw_sprite(b, index, x, y, rows).1,
        same_display(draw_sprite(a, index, x, y, rows).0, draw_sprite(b, index, x, y, rows).0),
    decreases rows,
{
    if rows > 0 {
        let r = rows - 1;
        let before_a = draw_sprite(a, index, x, y, r as nat);
        let before_b = draw_sprite(b, index, x, y, r as nat);
        lemma_draw_sprite_reads(a, b, index, x, y, r as nat);
        lemma_draw_sprite_frame(a, index, x, y, r as nat);
        lemma_draw_sprite_frame(b, index, x, y, r as nat);
        // the row that is drawn now is the same in both: below the
        // framebuffer nothing has been drawn, and inside it the same
        assert(before_a.0[index + r] == before_b.0[index + r]) by {
            assert(sprite_row(a, index, r) == sprite_row(b, index, r));
        }
        lemma_draw_row_reads(before_a.0, before_b.0, before_a.0[index + r], x, y + r, 8);
    }
}

/// Two memory images of full size that agree below the framebuffer and in
/// every pixel are equal.
pub proof fn lemma_memory_by_pixels(a: Seq<u8>, b: Seq<u8>)
    requires
        a.len() == 4096,
        b.len() == 4096,
        forall|address: int| 0 <= address < SCREEN_START ==> a[address] == b[address],
        forall|qx: int, qy: int|
            on_screen(qx, qy) ==> #[trigger] pixel_at(a, qx, qy) == pixel_at(b, qx, qy),
    ensures
        a == b,
{
    assert forall|address: int| 0 <= address < 4096 implies a[address] == b[address] by {
        if address >= SCREEN_START {
            let first = (address - SCREEN_START) * 8;
            assert forall|k: int| 0 <= k < 8 implies bit_is_set(a[address], k) == bit_is_set(
                b[address],
                k,
            ) by {
                let qx = (first + k) % 64;
                let qy = (first + k) / 64;
                // the pixel that bit `k` of this byte stands for
                assert(pixel_address(qx, qy) == address && pixel_offset(qx, qy) == k);
                assert(pixel_at(a, qx, qy) == pixel_at(b, qx, qy));
            }
            assert(bit_is_set(a[address], 0) == bit_is_set(b[address], 0));
            assert(bit_is_set(a[address], 1) == bit_is_set(b[address], 1));
            assert(bit_is_set(a[address], 2) == bit_is_set(b[address], 2));
            assert(bit_is_set(a[address], 3) == bit_is_set(b[address], 3));
            assert(bit_is_set(a[address], 4) == bit_is_set(b[address], 4));
            assert(bit_is_set(a[address], 5) == bit_is_set(b[address], 5));
            assert(bit_is_set(a[address], 6) == bit_is_set(b[address], 6));
            assert(bit_is_set(a[address], 7) == bit_is_set(b[address], 7));
            lemma_byte_by_bits(a[address], b[address]);
        }
    }
    assert(a =~= b);
}

/// Drawing the same sprite twice at the same place puts the display back as
/// it was: the second draw flips again every pixel that the first one
/// flipped. The first draw reports a collision just when a set bit of the
/// sprite falls on a lit pixel, the second just when one falls on a pixel
/// that was dark before the first draw.
///
/// The sprite lies below the framebuffer, so that drawing does not change
/// the sprite itself.
pub proof fn lemma_draw_twice(memory: Seq<u8>, index: int, x: int, y: int, rows: nat)
    requires
        memory.len() == 4096,
        0 <= index,
        index + rows <= SCREEN_START,
        rows <= 32,
    ensures
        ({
            let first = draw_sprite(memory, index, x, y, rows);
            let second = draw_sprite(first.0, index, x, y, rows);
            &&& second.0 == memory
            &&& first.1 == sprite_meets_any(memory, index, x, y, rows, true)
            &&& second.1 == sprite_meets_any(memory, index, x, y, rows, false)
        }),
{
    let first = draw_sprite(memory, index, x, y, rows);
    let second = draw_sprite(first.0, index, x, y, rows);
    lemma_draw_sprite(memory, index, x, y, rows);
    lemma_draw_sprite(first.0, index, x, y, rows);
    assert forall|qx: int, qy: int| on_screen(qx, qy) implies #[trigger] pixel_at(
        second.0,
        qx,
        qy,
    ) == pixel_at(memory, qx, qy) by {
        lemma_wrap(x, 0, qx, y, 0, qy);
        assert(pixel_at(first.0, qx, qy) == (pixel_at(memory, qx, qy) != sprite_covers(
            memory,
            index,
            x,
            y,
            rows,
            qx,
            qy,
        )));
        assert(sprite_covers(first.0, index, x, y, rows, qx, qy) == sprite_covers(
            memory,
            index,
            x,
            y,
            rows,
            qx,
            qy,
        ));
    }
    lemma_memory_by_pixels(second.0, memory);
    // a set bit falls on a lit pixel after the first draw just when it fell
    // on a dark one before
    assert forall|row: int, column: int| 0 <= row < rows && 0 <= column < 8 implies sprite_meets(
        first.0,
        index,
        x,
        y,
        row,
        column,
        true,
    ) == sprite_meets(memory, index, x, y, row, column, false) by {
        let px = (x + column) % 64;
        let py = (y + row) % 32;
        lemma_wrap(x, column, px, y, row, py);
        assert(pixel_at(first.0, px, py) == (pixel_at(memory, px, py) != sprite_covers(
            memory,
            index,
            x,
            y,
            rows,
            px,
            py,
        )));
    }
    if sprite_meets_any(first.0, index, x, y, rows, true) {
        let (wr, wc) = choose|row: int, column: int|
            0 <= row < rows && 0 <= column < 8 && #[trigger] sprite_meets(
                first.0,
                index,
                x,
                y,
                row,
                column,
                true,
            );
        assert(sprite_meets(memory, index, x, y, wr, wc, false));
    }
    if sprite_meets_any(memory, index, x, y, rows, false) {
        let (wr, wc) = choose|row: int, column: int|
            0 <= row < rows && 0 <= column < 8 && #[trigger] sprite_meets(
                memory,
                index,
                x,
                y,
                row,
                column,
                false,
            );
        assert(sprite_meets(first.0, index, x, y, wr, wc, true));
    }
}

/// Drawing a sprite whose rows are all set over dark pixels, twice at the
/// same place: the first draw reports no collision, the second reports one,
/// and the display is back as it was.
pub proof fn lemma_draw_solid_twice(memory: Seq<u8>, index: int, x: int, y: int, rows: nat)
    requires
        memory.len() == 4096,
        0 <= index,
        index + rows <= SCREEN_START,
        1 <= rows <= 32,
        forall|row: int| 0 <= row < rows ==> #[trigger] sprite_row(memory, index, row) == 0xff,
        forall|row: int, column: int|
            0 <= row < rows && 0 <= column < 8 ==> !#[trigger] pixel_under(
                memory,
                x,
                y,
                row,
                column,
            ),
    ensures
        ({
            let first = draw_sprite(memory, index, x, y, rows);
            let second = draw_sprite(first.0, index, x, y, rows);
            &&& !first.1
            &&& second.1
            &&& second.0 == memory
        }),
{
    lemma_draw_twice(memory, index, x, y, rows);
    assert(0xffu8 & (0x80u8 >> 0u8) != 0) by (bit_vector);
    assert(sprite_row(memory, index, 0) == 0xff);
    assert(!pixel_under(memory, x, y, 0, 0));
    assert(sprite_meets(memory, index, x, y, 0, 0, false));
    if sprite_meets_any(memory, index, x, y, rows, true) {
        let (wr, wc) = choose|row: int, column: int|
            0 <= row < rows && 0 <= column < 8 && #[trigger] sprite_meets(
                memory,
                index,
                x,
                y,
                row,
                column,
                true,
            );
        assert(pixel_under(memory, x, y, wr, wc));
    }
}

} // verus!
