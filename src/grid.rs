use vstd::prelude::*;

verus! {

/// `values` has `height` rows of `width` cells each.
pub open spec fn has_shape(values: Seq<Vec<usize>>, width: nat, height: nat) -> bool {
    &&& values.len() == height
    &&& forall|r: int| 0 <= r < height ==> (#[trigger] values[r])@.len() == width
}

/// Samples a `width` by `height` grid of pixels in row order (increasing y),
/// each row in column order (increasing x): the cell at row `y` and column `x`
/// holds what `sample(x, y)` returned.
pub fn calculate_mandelbrot<F: Fn(usize, usize) -> usize>(width: usize, height: usize, sample: F) -> (values: Vec<Vec<usize>>)
    requires
        forall|x: usize, y: usize| x < width && y < height ==> #[trigger] sample.requires((x, y)),
    ensures
        has_shape(values@, width as nat, height as nat),
        forall|x: usize, y: usize|
            x < width && y < height ==> #[trigger] sample.ensures((x, y), values@[y as int]@[x as int]),
{
    let mut rows: Vec<Vec<usize>> = Vec::new();
    let mut img_y: usize = 0;
    while img_y < height
        invariant
            img_y <= height,
            forall|x: usize, y: usize| x < width && y < height ==> #[trigger] sample.requires((x, y)),
            rows@.len() == img_y,
            forall|r: int| 0 <= r < img_y ==> (#[trigger] rows@[r])@.len() == width,
            forall|x: usize, y: usize|
                x < width && y < img_y ==> #[trigger] sample.ensures((x, y), rows@[y as int]@[x as int]),
        decreases height - img_y,
    {
        let mut row: Vec<usize> = Vec::new();
        let mut img_x: usize = 0;
        while img_x < width
            invariant
                img_x <= width,
                img_y < height,
                forall|x: usize, y: usize| x < width && y < height ==> #[trigger] sample.requires((x, y)),
                row@.len() == img_x,
                forall|x: usize| x < img_x ==> #[trigger] sample.ensures((x, img_y), row@[x as int]),
            decreases width - img_x,
        {
            let escaped_at = sample(img_x, img_y);
            row.push(escaped_at);
            img_x += 1;
        }
        rows.push(row);
        img_y += 1;
    }
    rows
}

} // verus!
