use vstd::prelude::*;

use crate::color_algs::ColorAlg;

verus! {

/// The iteration cap a fresh state starts with.
pub const DEFAULT_MAX_ITERATIONS: i32 = 500;

/// A pixel position on the canvas, as the windowing layer reports it.
#[derive(Debug, Clone, Copy, PartialEq, Eq, Structural)]
pub struct Point {
    pub x: i32,
    pub y: i32,
}

/// The smaller of two coordinates.
pub open spec fn coord_min(a: i32, b: i32) -> int {
    if a <= b { a as int } else { b as int }
}

/// The larger of two coordinates.
pub open spec fn coord_max(a: i32, b: i32) -> int {
    if a <= b { b as int } else { a as int }
}

/// An axis-aligned rectangle of pixels: top-left corner, width and height.
#[derive(Debug, Clone, Copy, PartialEq, Eq, Structural)]
pub struct Selection {
    pub x: i32,
    pub y: i32,
    pub w: u64,
    pub h: u64,
}

impl Selection {
    /// The smallest rectangle holding both points, corners included, so at
    /// least one pixel wide and high.
    pub open spec fn spec_enclosing(a: Point, b: Point) -> Selection {
        Selection {
            x: coord_min(a.x, b.x) as i32,
            y: coord_min(a.y, b.y) as i32,
            w: (coord_max(a.x, b.x) - coord_min(a.x, b.x) + 1) as u64,
            h: (coord_max(a.y, b.y) - coord_min(a.y, b.y) + 1) as u64,
        }
    }

    /// Horizontal coordinate of the centre, halving the width downwards.
    pub open spec fn spec_center_x(self) -> int {
        self.x + self.w / 2
    }

    /// Vertical coordinate of the centre, halving the height downwards.
    pub open spec fn spec_center_y(self) -> int {
        self.y + self.h / 2
    }

    pub fn enclosing(a: Point, b: Point) -> (r: Selection)
        ensures
            r == Self::spec_enclosing(a, b),
            r.w >= 1,
            r.h >= 1,
    {
        let (x0, x1) = if a.x <= b.x { (a.x, b.x) } else { (b.x, a.x) };
        let (y0, y1) = if a.y <= b.y { (a.y, b.y) } else { (b.y, a.y) };
        let w: u64 = (x1 as i64 - x0 as i64 + 1) as u64;
        let h: u64 = (y1 as i64 - y0 as i64 + 1) as u64;
        Selection { x: x0, y: y0, w, h }
    }

    pub fn center_x(&self) -> (r: i128)
        ensures
            r == self.spec_center_x(),
    {
        self.x as i128 + (self.w / 2) as i128
    }

    pub fn center_y(&self) -> (r: i128)
        ensures
            r == self.spec_center_y(),
    {
        self.y as i128 + (self.h / 2) as i128
    }
}

/// How the pixels of one render pass are to be iterated.
#[derive(Debug, Clone, Copy, PartialEq, Eq, Structural)]
pub enum EscapeRule {
    /// Start from zero and add the pixel's own point at each step, for at
    /// most `cap` steps.
    Mandelbrot { cap: i32 },
    /// Start from the pixel's point and add the point under the reference
    /// pixel at each step, for at most `cap` steps.
    Julia { reference: Point, cap: i32 },
    /// Every pixel is background: Julia mode with no reference point yet.
    Background,
}

/// A zoom command resolved against the canvas: the selection it covers and
/// the direction. The new span is the old one times the scale
/// `scale_numerator() / canvas_width`; the new centre lies at the fraction
/// `center / canvas size` of the old window.
#[derive(Debug, Clone, Copy, PartialEq, Eq, Structural)]
pub struct ZoomPlan {
    pub selection: Selection,
    pub zoom_out: bool,
    pub canvas_width: u32,
    pub canvas_height: u32,
}

impl ZoomPlan {
    /// Zooming in scales by `w / W`; zooming out by `2 - w / W`, that is
    /// `(2 * W - w) / W`.
    pub open spec fn scale_numerator(self) -> int {
        if self.zoom_out {
            2 * self.canvas_width - self.selection.w
        } else {
            self.selection.w as int
        }
    }

    pub fn scale_num(&self) -> (r: i128)
        ensures
            r == self.scale_numerator(),
    {
        if self.zoom_out {
            2 * (self.canvas_width as i128) - self.selection.w as i128
        } else {
            self.selection.w as i128
        }
    }
}

/// The discrete part of the explorer's state: iteration cap, canvas size,
/// whether the current image is up to date, mode, colouring and the pointer
/// position that fixes the Julia reference point.
#[derive(Debug, Clone, Copy)]
pub struct Mandelbrot {
    max_iterations: i32,
    width: u32,
    height: u32,
    rendered: bool,
    julia: bool,
    color: ColorAlg,
    mouse_pos: Option<Point>,
}

impl Mandelbrot {
    pub closed spec fn max_iter_view(self) -> i32 {
        self.max_iterations
    }

    pub closed spec fn width_view(self) -> u32 {
        self.width
    }

    pub closed spec fn height_view(self) -> u32 {
        self.height
    }

    pub closed spec fn rendered_view(self) -> bool {
        self.rendered
    }

    pub closed spec fn julia_view(self) -> bool {
        self.julia
    }

    pub closed spec fn color_view(self) -> ColorAlg {
        self.color
    }

    pub closed spec fn mouse_pos_view(self) -> Option<Point> {
        self.mouse_pos
    }

    /// A usable state: a positive iteration cap on a non-empty canvas.
    pub open spec fn wf(self) -> bool {
        &&& self.max_iter_view() >= 1
        &&& self.width_view() > 0
        &&& self.height_view() > 0
    }

    /// Everything but the dirty flag is the same in both states.
    pub open spec fn same_but_rendered(self, other: Mandelbrot) -> bool {
        &&& self.max_iter_view() == other.max_iter_view()
        &&& self.width_view() == other.width_view()
        &&& self.height_view() == other.height_view()
        &&& self.julia_view() == other.julia_view()
        &&& self.color_view() == other.color_view()
        &&& self.mouse_pos_view() == other.mouse_pos_view()
    }

    /// The state a canvas of the given size starts in.
    pub open spec fn is_initial(self, width: u32, height: u32) -> bool {
        &&& self.max_iter_view() == DEFAULT_MAX_ITERATIONS
        &&& self.width_view() == width
        &&& self.height_view() == height
        &&& !self.rendered_view()
        &&& !self.julia_view()
        &&& self.color_view() == ColorAlg::DEFAULT
        &&& self.mouse_pos_view().is_none()
    }

    /// Julia renders use a tenth of the iteration budget.
    pub open spec fn spec_escape_rule(self) -> EscapeRule {
        if !self.julia_view() {
            EscapeRule::Mandelbrot { cap: self.max_iter_view() }
        } else {
            match self.mouse_pos_view() {
                Some(p) => EscapeRule::Julia { reference: p, cap: (self.max_iter_view() / 10) as i32 },
                None => EscapeRule::Background,
            }
        }
    }

    /// A zoom that changes nothing: the two positions coincide, so the
    /// selection has no area; or a zoom out on a selection at least twice
    /// the canvas width, whose scale `2 - w / W` would not be positive.
    pub open spec fn is_ignored_zoom(self, points: (Point, Point), zoom_out: bool) -> bool {
        ||| points.0 == points.1
        ||| zoom_out && Selection::spec_enclosing(points.0, points.1).w >= 2 * self.width_view()
    }

    /// The plan for a zoom on the rectangle enclosing two positions.
    pub open spec fn spec_zoom_plan(self, points: (Point, Point), zoom_out: bool) -> ZoomPlan {
        ZoomPlan {
            selection: Selection::spec_enclosing(points.0, points.1),
            zoom_out,
            canvas_width: self.width_view(),
            canvas_height: self.height_view(),
        }
    }

    pub fn new(width: u32, height: u32) -> (r: Mandelbrot)
        requires
            width > 0,
            height > 0,
        ensures
            r.is_initial(width, height),
            r.wf(),
    {
        Mandelbrot {
            max_iterations: DEFAULT_MAX_ITERATIONS,
            width,
            height,
            rendered: false,
            julia: false,
            color: ColorAlg::DEFAULT,
            mouse_pos: None,
        }
    }

    pub fn width(&self) -> (r: u32)
        ensures
            r == self.width_view(),
    {
        self.width
    }

    pub fn height(&self) -> (r: u32)
        ensures
            r == self.height_view(),
    {
        self.height
    }

    /// Back to the initial state, on the same canvas.
    pub fn reset(&mut self)
        requires
            old(self).wf(),
        ensures
            final(self).is_initial(old(self).width_view(), old(self).height_view()),
            final(self).wf(),
    {
        *self = Mandelbrot::new(self.width, self.height);
    }

    pub fn set_max_iter(&mut self, max_iterations: i32)
        requires
            max_iterations >= 1,
        ensures
            final(self).max_iter_view() == max_iterations,
            !final(self).rendered_view(),
            final(self).width_view() == old(self).width_view(),
            final(self).height_view() == old(self).height_view(),
            final(self).julia_view() == old(self).julia_view(),
            final(self).color_view() == old(self).color_view(),
            final(self).mouse_pos_view() == old(self).mouse_pos_view(),
    {
        self.max_iterations = max_iterations;
        self.rendered = false;
    }

    /// How far one keyboard step moves the iteration cap: a tenth of it,
    /// and at least two.
    pub fn iteration_step(&self) -> (r: i32)
        ensures
            r == if self.max_iter_view() / 10 >= 2 { self.max_iter_view() / 10 } else { 2 },
    {
        let tenth = self.max_iterations / 10;
        if tenth >= 2 {
            tenth
        } else {
            2
        }
    }

    pub fn get_max_iter(&self) -> (r: i32)
        ensures
            r == self.max_iter_view(),
    {
        self.max_iterations
    }

    /// Adds `max_iterations_change` to the cap; the caller keeps the result
    /// positive.
    pub fn change_max_iter(&mut self, max_iterations_change: i32)
        requires
            old(self).max_iter_view() + max_iterations_change >= 1,
            old(self).max_iter_view() + max_iterations_change <= i32::MAX,
        ensures
            final(self).max_iter_view() == old(self).max_iter_view() + max_iterations_change,
            !final(self).rendered_view(),
            final(self).width_view() == old(self).width_view(),
            final(self).height_view() == old(self).height_view(),
            final(self).julia_view() == old(self).julia_view(),
            final(self).color_view() == old(self).color_view(),
            final(self).mouse_pos_view() == old(self).mouse_pos_view(),
    {
        self.max_iterations = self.max_iterations + max_iterations_change;
        self.rendered = false;
    }

    /// Resolves a zoom on the rectangle enclosing two pointer positions and
    /// marks the image out of date. Two equal positions select no area, and a
    /// zoom out on a selection at least twice the canvas width has no
    /// positive scale: both leave the state as it is.
    pub fn zoom_between_points(&mut self, points: (Point, Point), zoom_out: bool) -> (r: Option<
        ZoomPlan,
    >)
        ensures
            old(self).is_ignored_zoom(points, zoom_out) ==> r.is_none() && *final(self) == *old(
                self,
            ),
            !old(self).is_ignored_zoom(points, zoom_out) ==> r == Some(
                old(self).spec_zoom_plan(points, zoom_out),
            ) && !final(self).rendered_view() && final(self).same_but_rendered(*old(self)),
            r matches Some(plan) ==> plan.selection.w >= 1 && plan.selection.h >= 1
                && plan.scale_numerator() > 0,
    {
        if points.0 == points.1 {
            return None;
        }
        let selection = Selection::enclosing(points.0, points.1);
        if zoom_out && selection.w >= 2 * (self.width as u64) {
            return None;
        }
        self.rendered = false;
        Some(ZoomPlan { selection, zoom_out, canvas_width: self.width, canvas_height: self.height })
    }

    pub fn set_rendered(&mut self, rendered: bool)
        ensures
            final(self).rendered_view() == rendered,
            final(self).same_but_rendered(*old(self)),
    {
        self.rendered = rendered;
    }

    pub fn is_rendered(&self) -> (r: bool)
        ensures
            r == self.rendered_view(),
    {
        self.rendered
    }

    /// Which iteration every pixel of the next pass runs.
    pub fn escape_rule(&self) -> (r: EscapeRule)
        requires
            self.wf(),
        ensures
            r == self.spec_escape_rule(),
    {
        if !self.julia {
            EscapeRule::Mandelbrot { cap: self.max_iterations }
        } else {
            match self.mouse_pos {
                Some(p) => EscapeRule::Julia { reference: p, cap: self.max_iterations / 10 },
                None => EscapeRule::Background,
            }
        }
    }

    pub fn toggle_julia(&mut self)
        ensures
            final(self).julia_view() == !old(self).julia_view(),
            !final(self).rendered_view(),
            final(self).max_iter_view() == old(self).max_iter_view(),
            final(self).width_view() == old(self).width_view(),
            final(self).height_view() == old(self).height_view(),
            final(self).color_view() == old(self).color_view(),
            final(self).mouse_pos_view() == old(self).mouse_pos_view(),
    {
        self.julia = !self.julia;
        self.set_rendered(false);
    }

    pub fn change_color(&mut self)
        ensures
            final(self).color_view() == old(self).color_view().spec_next(),
            !final(self).rendered_view(),
            final(self).max_iter_view() == old(self).max_iter_view(),
            final(self).width_view() == old(self).width_view(),
            final(self).height_view() == old(self).height_view(),
            final(self).julia_view() == old(self).julia_view(),
            final(self).mouse_pos_view() == old(self).mouse_pos_view(),
    {
        self.color = self.color.next();
        self.set_rendered(false);
    }

    pub fn color(&self) -> (r: ColorAlg)
        ensures
            r == self.color_view(),
    {
        self.color
    }

    pub fn is_julia(&self) -> (r: bool)
        ensures
            r == self.julia_view(),
    {
        self.julia
    }

    /// Records the pointer position; the image goes out of date only in
    /// Julia mode, where the position fixes the reference point.
    pub fn set_mouse_pos(&mut self, mouse_pos: Point)
        ensures
            final(self).mouse_pos_view() == Some(mouse_pos),
            final(self).rendered_view() == (old(self).rendered_view() && !old(self).julia_view()),
            final(self).max_iter_view() == old(self).max_iter_view(),
            final(self).width_view() == old(self).width_view(),
            final(self).height_view() == old(self).height_view(),
            final(self).julia_view() == old(self).julia_view(),
            final(self).color_view() == old(self).color_view(),
    {
        self.mouse_pos = Some(mouse_pos);
        if self.julia {
            self.set_rendered(false);
        }
    }
}

/// Every pixel of a `width` by `height` canvas, column by column: entry `k`
/// is the pixel at column `k / height`, row `k % height`.
pub fn canvas_pixels(width: u32, height: u32) -> (r: Vec<Point>)
    requires
        width <= i32::MAX,
        height <= i32::MAX,
        width * height <= usize::MAX,
    ensures
        r@.len() == width * height,
        forall|k: int|
            0 <= k < r@.len() ==> #[trigger] r@[k] == (Point {
                x: (k / height as int) as i32,
                y: (k % height as int) as i32,
            }),
{
    let mut r: Vec<Point> = Vec::new();
    let mut x: u32 = 0;
    while x < width
        invariant
            x <= width,
            width <= i32::MAX,
            height <= i32::MAX,
            width * height <= usize::MAX,
            r@.len() == x * height,
            forall|k: int|
                0 <= k < r@.len() ==> #[trigger] r@[k] == (Point {
                    x: (k / height as int) as i32,
                    y: (k % height as int) as i32,
                }),
        decreases width - x,
    {
        let mut y: u32 = 0;
        while y < height
            invariant
                x < width,
                y <= height,
                width <= i32::MAX,
                height <= i32::MAX,
                width * height <= usize::MAX,
                r@.len() == x * height + y,
                forall|k: int|
                    0 <= k < r@.len() ==> #[trigger] r@[k] == (Point {
                        x: (k / height as int) as i32,
                        y: (k % height as int) as i32,
                    }),
            decreases height - y,
        {
            proof {
                let k = x * height + y;
                assert(k / height as int == x as int && k % height as int == y as int) by (nonlinear_arith)
                    requires
                        k == x * height + y,
                        0 <= y < height,
                        x >= 0,
                ;
                assert((x + 1) * height <= width * height) by (nonlinear_arith)
                    requires
                        x < width,
                        height >= 0,
                ;
                assert(x * height + y < (x + 1) * height) by (nonlinear_arith)
                    requires
                        y < height,
                ;
            }
            r.push(Point { x: x as i32, y: y as i32 });
            y = y + 1;
        }
        proof {
            assert(x * height + height == (x + 1) * height) by (nonlinear_arith);
        }
        x = x + 1;
    }
    r
}

/// Zooming in on a selection `w` pixels wide and then out on one `2 * W - w`
/// pixels wide, on a canvas `W` pixels wide, applies the same scale `w / W`
/// twice: the span comes back exactly when the first selection is as wide as
/// the canvas.
pub proof fn lemma_zoom_round_trip_scale(m: Mandelbrot, zoom_in: (Point, Point), zoom_out: (Point, Point))
    requires
        m.wf(),
        m.spec_zoom_plan(zoom_out, true).selection.w == 2 * m.width_view() - m.spec_zoom_plan(
            zoom_in,
            false,
        ).selection.w,
    ensures
        m.spec_zoom_plan(zoom_out, true).scale_numerator() == m.spec_zoom_plan(
            zoom_in,
            false,
        ).scale_numerator(),
        m.spec_zoom_plan(zoom_in, false).scale_numerator() * m.spec_zoom_plan(
            zoom_out,
            true,
        ).scale_numerator() == m.width_view() * m.width_view() <==> m.spec_zoom_plan(
            zoom_in,
            false,
        ).selection.w == m.width_view(),
{
    let w = m.spec_zoom_plan(zoom_in, false).selection.w as int;
    let cw = m.width_view() as int;
    assert(w >= 1);
    assert(w * w == cw * cw <==> w == cw) by (nonlinear_arith)
        requires
            w >= 1,
            cw >= 1,
    {
        if w < cw {
            assert(w * w < cw * cw);
        } else if w > cw {
            assert(w * w > cw * cw);
        }
    }
}

} // verus!
