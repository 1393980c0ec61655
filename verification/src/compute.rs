use vstd::prelude::*;
use crate::color::{Channel, Color, color_wf};

verus! {

/// Threads per workgroup axis: the kernel runs in 8 x 8 x 1 workgroups.
pub const WORKGROUP_SIZE: u32 = 8;

/// The kernel's color at pixel (x, y) of a width x height image:
/// (x / width, y / height, 1/2, 1) in normalized RGBA.
pub open spec fn kernel_color(x: u32, y: u32, width: u32, height: u32) -> Color {
    Color {
        r: Channel { num: x, den: width },
        g: Channel { num: y, den: height },
        b: Channel { num: 1, den: 2 },
        a: Channel { num: 1, den: 1 },
    }
}

/// The whole off-screen image after a dispatch, as rows of pixels:
/// row y holds the kernel's color for each (x, y).
pub open spec fn image_spec(width: u32, height: u32) -> Seq<Seq<Color>> {
    Seq::new(
        height as nat,
        |y: int| Seq::new(width as nat, |x: int| kernel_color(x as u32, y as u32, width, height)),
    )
}

/// Workgroups needed to cover n invocations along one axis: ceil(n / 8).
pub open spec fn workgroups_for(n: u32) -> int {
    (n + WORKGROUP_SIZE - 1) / (WORKGROUP_SIZE as int)
}

/// One axis of the dispatch grid.
pub fn workgroup_count(n: u32) -> (r: u32)
    ensures
        r == workgroups_for(n),
{
    ((n as u64 + (WORKGROUP_SIZE as u64) - 1) / (WORKGROUP_SIZE as u64)) as u32
}

/// One invocation of the kernel: the color it writes at (x, y).
pub fn kernel_pixel(x: u32, y: u32, width: u32, height: u32) -> (c: Color)
    requires
        x < width,
        y < height,
    ensures
        c == kernel_color(x, y, width, height),
        color_wf(c),
{
    Color {
        r: Channel { num: x, den: width },
        g: Channel { num: y, den: height },
        b: Channel { num: 1, den: 2 },
        a: Channel { num: 1, den: 1 },
    }
}

/// A host-side rendering of the kernel's output: row y, column x holds
/// kernel_color(x, y, width, height).
pub fn generate_image(width: u32, height: u32) -> (rows: Vec<Vec<Color>>)
    requires
        0 < width,
        0 < height,
    ensures
        rows@.len() == height,
        forall|y: int| 0 <= y < height ==> rows@[y]@ == image_spec(width, height)[y],
{
    let mut rows: Vec<Vec<Color>> = Vec::new();
    let mut y: u32 = 0;
    while y < height
        invariant
            y <= height,
            0 < width,
            0 < height,
            rows@.len() == y,
            forall|j: int| 0 <= j < y ==> rows@[j]@ == image_spec(width, height)[j],
        decreases height - y,
    {
        let mut row: Vec<Color> = Vec::new();
        let mut x: u32 = 0;
        while x < width
            invariant
                x <= width,
                0 < width,
                0 < height,
                y < height,
                row@.len() == x,
                forall|i: int| 0 <= i < x ==> row@[i] == kernel_color(i as u32, y, width, height),
            decreases width - x,
        {
            let c = kernel_pixel(x, y, width, height);
            row.push(c);
            x = x + 1;
        }
        proof {
            assert(row@ =~= image_spec(width, height)[y as int]);
        }
        rows.push(row);
        y = y + 1;
    }
    rows
}

/// The compute stage: the off-screen image (fixed dimensions, set at
/// construction and never resized) and the pipeline that fills it.
pub struct ComputeState {
    pub width: u32,
    pub height: u32,
    pub rows: Vec<Vec<Color>>,
}

impl ComputeState {
    /// The image contents as a sequence of rows.
    pub open spec fn image(self) -> Seq<Seq<Color>> {
        Seq::new(self.rows@.len(), |y: int| self.rows@[y]@)
    }

    /// Whether the kernel has run at least once, so the image holds its output.
    pub open spec fn dispatched(self) -> bool {
        self.rows@.len() > 0
    }

    /// The image is either untouched or exactly one kernel output.
    pub open spec fn inv(self) -> bool {
        &&& 0 < self.width
        &&& 0 < self.height
        &&& (self.rows@.len() == 0 || self.image() == image_spec(self.width, self.height))
    }

    /// Creates the off-screen storage image and the compute pipeline over it.
    /// The dimensions are fixed here for the life of the stage.
    pub fn new(width: u32, height: u32) -> (s: Self)
        requires
            0 < width,
            0 < height,
        ensures
            s.width == width,
            s.height == height,
            !s.dispatched(),
            s.inv(),
    {
        ComputeState { width, height, rows: Vec::new() }
    }

    /// Records one compute pass over the whole image: issues a grid of
    /// ceil(width / 8) x ceil(height / 8) x 1 workgroups, and every pixel of
    /// the off-screen image is overwritten with the kernel's color — no
    /// accumulation across frames.
    pub fn dispatch(&mut self, width: u32, height: u32) -> (grid: (u32, u32))
        requires
            old(self).inv(),
            width == old(self).width,
            height == old(self).height,
        ensures
            final(self).width == old(self).width,
            final(self).height == old(self).height,
            grid.0 == workgroups_for(width),
            grid.1 == workgroups_for(height),
            final(self).image() == image_spec(width, height),
            final(self).dispatched(),
            final(self).inv(),
    {
        self.rows = generate_image(width, height);
        proof {
            assert(self.image() =~~= image_spec(width, height));
        }
        (workgroup_count(width), workgroup_count(height))
    }
}

/// After a dispatch, the pixel at (x, y) is exactly
/// (x / width, y / height, 1/2, 1): the gradient rises with x in red and
/// with y in green, blue stays at one half, and alpha is full.
pub proof fn lemma_dispatched_pixel(s: ComputeState, x: u32, y: u32)
    requires
        s.inv(),
        s.dispatched(),
        x < s.width,
        y < s.height,
    ensures
        s.image()[y as int][x as int] == kernel_color(x, y, s.width, s.height),
{
    assert(s.image() == image_spec(s.width, s.height));
    assert(image_spec(s.width, s.height)[y as int][x as int] == kernel_color(x, y, s.width, s.height));
}

/// Dispatching twice in a row with unchanged dimensions produces
/// bit-identical output both times: the kernel reads nothing but the
/// invocation coordinate, so its image is a function of the dimensions alone.
pub proof fn lemma_dispatch_idempotent(first: ComputeState, second: ComputeState)
    requires
        first.inv(),
        second.inv(),
        first.dispatched(),
        second.dispatched(),
        first.width == second.width,
        first.height == second.height,
    ensures
        first.image() == second.image(),
{
    assert(first.image() == image_spec(first.width, first.height));
    assert(second.image() == image_spec(first.width, first.height));
}

} // verus!
