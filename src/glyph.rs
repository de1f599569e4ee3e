use vstd::prelude::*;

verus! {

/// The glyph that stands for an iteration count, by the fixed bucket table:
/// each range is inclusive and the last bucket takes every larger count.
pub open spec fn glyph_of(n: nat) -> char {
    if n <= 2 {
        ' '
    } else if n <= 5 {
        '.'
    } else if n <= 10 {
        '\u{2022}'
    } else if n <= 30 {
        '*'
    } else if n <= 100 {
        '+'
    } else if n <= 200 {
        'x'
    } else if n <= 400 {
        '$'
    } else if n <= 700 {
        '#'
    } else {
        '%'
    }
}

/// Looks up the glyph for one iteration count.
pub fn glyph_for(count: usize) -> (c: char)
    ensures
        c == glyph_of(count as nat),
{
    match count {
        0..=2 => ' ',
        3..=5 => '.',
        6..=10 => '\u{2022}',
        11..=30 => '*',
        31..=100 => '+',
        101..=200 => 'x',
        201..=400 => '$',
        401..=700 => '#',
        _ => '%',
    }
}

/// Relies on String::push: the character is appended at the end.
#[verifier::external_body]
fn push_char(s: &mut String, c: char)
    ensures
        final(s)@ == old(s)@.push(c),
{
    s.push(c)
}

/// The text line of one grid row: one glyph per cell, in column order.
pub open spec fn line_of(row: Seq<usize>) -> Seq<char> {
    row.map_values(|v: usize| glyph_of(v as nat))
}

/// Renders one row of iteration counts as a line of glyphs.
pub fn render_line(row: &Vec<usize>) -> (line: String)
    ensures
        line@ == line_of(row@),
        line@.len() == row@.len(),
{
    let mut line = String::new();
    let mut j: usize = 0;
    while j < row.len()
        invariant
            j <= row@.len(),
            line@ == line_of(row@.subrange(0, j as int)),
        decreases row@.len() - j,
    {
        let c = glyph_for(row[j]);
        push_char(&mut line, c);
        assert(row@.subrange(0, j + 1) =~= row@.subrange(0, j as int).push(row@[j as int]));
        assert(line_of(row@.subrange(0, j + 1)) =~= line_of(row@.subrange(0, j as int)).push(c));
        j += 1;
    }
    assert(row@.subrange(0, j as int) =~= row@);
    line
}

/// Renders a grid of iteration counts as one text line per row, in row order.
pub fn render_mandelbrot(values: &Vec<Vec<usize>>) -> (lines: Vec<String>)
    ensures
        lines@.len() == values@.len(),
        forall|r: int| 0 <= r < values@.len() ==> #[trigger] lines@[r]@ == line_of(values@[r]@),
{
    let mut lines: Vec<String> = Vec::new();
    let mut r: usize = 0;
    while r < values.len()
        invariant
            r <= values@.len(),
            lines@.len() == r,
            forall|k: int| 0 <= k < r ==> #[trigger] lines@[k]@ == line_of(values@[k]@),
        decreases values@.len() - r,
    {
        let line = render_line(&values[r]);
        lines.push(line);
        r += 1;
    }
    lines
}

/// The nine glyphs of the bucket table, from the lowest bucket up.
pub open spec fn palette() -> Seq<char> {
    seq![' ', '.', '\u{2022}', '*', '+', 'x', '$', '#', '%']
}

/// Every iteration count maps to exactly one of the nine glyphs: the glyph of
/// its bucket stands in the palette, and the palette holds no glyph twice.
pub proof fn lemma_glyph_in_palette(n: nat)
    ensures
        palette().contains(glyph_of(n)),
        forall|i: int, j: int| 0 <= i < j < 9 ==> palette()[i] != palette()[j],
{
    let p = palette();
    if n <= 2 {
        assert(p[0] == glyph_of(n));
    } else if n <= 5 {
        assert(p[1] == glyph_of(n));
    } else if n <= 10 {
        assert(p[2] == glyph_of(n));
    } else if n <= 30 {
        assert(p[3] == glyph_of(n));
    } else if n <= 100 {
        assert(p[4] == glyph_of(n));
    } else if n <= 200 {
        assert(p[5] == glyph_of(n));
    } else if n <= 400 {
        assert(p[6] == glyph_of(n));
    } else if n <= 700 {
        assert(p[7] == glyph_of(n));
    } else {
        assert(p[8] == glyph_of(n));
    }
}

/// A grid of `height` rows of `width` cells renders as `height` lines of
/// `width` glyphs each, also where either dimension is zero.
pub proof fn lemma_rendered_shape(values: Seq<Vec<usize>>, width: nat, height: nat)
    requires
        crate::grid::has_shape(values, width, height),
    ensures
        forall|r: int| 0 <= r < height ==> (#[trigger] line_of(values[r]@)).len() == width,
{
    assert forall|r: int| 0 <= r < height implies (#[trigger] line_of(values[r]@)).len() == width by {
        assert(values[r]@.len() == width);
    }
}

} // verus!
