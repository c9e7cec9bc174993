use vstd::prelude::*;
use crate::geometry::{end_fits, end_point, get_end_coordinates, get_end_coordinates_precise, to_whole};
use crate::palette::{rgb, Color};

verus! {

/// One element of a canvas's scene, painted in scene order.
#[derive(Clone, Copy, Debug, PartialEq, Eq, Structural)]
pub enum Primitive {
    /// A solid rectangle covering the whole canvas.
    Background { width: u32, height: u32, fill: Color },
    /// A straight stroked segment from `(start_x, start_y)` to `(end_x, end_y)`.
    Line { start_x: i32, start_y: i32, end_x: i32, end_y: i32, color: Color },
}

/// What a canvas holds: its fixed size and its ordered scene.
pub struct ImageView {
    pub width: u32,
    pub height: u32,
    pub scene: Seq<Primitive>,
}

/// The black background that every canvas starts with.
pub open spec fn background(width: u32, height: u32) -> Primitive {
    Primitive::Background { width, height, fill: rgb(0, 0, 0) }
}

/// A canvas just made: its size and the background alone.
pub open spec fn fresh(width: u32, height: u32) -> ImageView {
    ImageView { width, height, scene: seq![background(width, height)] }
}

impl ImageView {
    /// The scene starts with the background for the canvas's size, and every later
    /// primitive is a line.
    pub open spec fn wf(self) -> bool {
        &&& self.width > 0
        &&& self.height > 0
        &&& self.scene.len() >= 1
        &&& self.scene[0] == background(self.width, self.height)
        &&& forall|i: int| 1 <= i < self.scene.len() ==> (#[trigger] self.scene[i]) is Line
    }
}

/// What one `draw_simple_line` call does to a canvas: where the end point fits in
/// `i32`, the line is appended after everything drawn so far; otherwise nothing
/// changes.
pub open spec fn draw_step(v: ImageView, x: i32, y: i32, direction: i32, length: i32, color: Color) -> ImageView {
    if end_fits(x as int, y as int, direction as int, length as int) {
        let e = end_point(x as int, y as int, direction as int, length as int);
        ImageView {
            scene: v.scene.push(
                Primitive::Line { start_x: x, start_y: y, end_x: e.0 as i32, end_y: e.1 as i32, color },
            ),
            ..v
        }
    } else {
        v
    }
}

/// A run of `draw_simple_line` calls, one for each `(x, y, direction, length, color)`.
pub open spec fn draw_all(v: ImageView, draws: Seq<(i32, i32, i32, i32, Color)>) -> ImageView
    decreases draws.len(),
{
    if draws.len() == 0 {
        v
    } else {
        let d = draws[0];
        draw_all(draw_step(v, d.0, d.1, d.2, d.3, d.4), draws.drop_first())
    }
}

/// How many calls of a run succeed.
pub open spec fn successes(draws: Seq<(i32, i32, i32, i32, Color)>) -> nat
    decreases draws.len(),
{
    if draws.len() == 0 {
        0
    } else {
        let d = draws[0];
        (if end_fits(d.0 as int, d.1 as int, d.2 as int, d.3 as int) {
            1nat
        } else {
            0nat
        }) + successes(draws.drop_first())
    }
}

/// A canvas under construction: a fixed size and an ordered scene of a background
/// and the lines drawn on it.
pub struct Image {
    width: u32,
    height: u32,
    scene: Vec<Primitive>,
}

impl View for Image {
    type V = ImageView;

    closed spec fn view(&self) -> ImageView {
        ImageView { width: self.width, height: self.height, scene: self.scene@ }
    }
}

impl Clone for Image {
    /// An independent copy with the same size and scene.
    fn clone(&self) -> (r: Image)
        ensures
            r@ == self@,
    {
        let scene = self.scene.clone();
        assert(scene@ =~= self.scene@);
        Image { width: self.width, height: self.height, scene }
    }
}

impl Image {
    /// Makes a `width` by `height` canvas whose scene is the black background alone.
    pub fn new(width: u32, height: u32) -> (r: Image)
        requires
            width > 0,
            height > 0,
        ensures
            r@ == fresh(width, height),
            r@.wf(),
    {
        let mut scene: Vec<Primitive> = Vec::new();
        scene.push(Primitive::Background { width, height, fill: Color::black() });
        let r = Image { width, height, scene };
        assert(r@.scene =~= seq![background(width, height)]);
        r
    }

    /// The size of the canvas as `(width, height)`.
    pub fn get_dimensions(&self) -> (r: (u32, u32))
        ensures
            r == (self@.width, self@.height),
    {
        (self.width, self.height)
    }

    /// The scene in painting order: the background first, then the lines as drawn.
    pub fn primitives(&self) -> (r: &Vec<Primitive>)
        ensures
            r@ == self@.scene,
    {
        &self.scene
    }

    /// Draws a line from `(x, y)` with the given compass direction, length and color,
    /// and returns its end point so that the next line can start there. Fails, leaving
    /// the canvas as it was, where the end point does not fit in `i32`.
    pub fn draw_simple_line(&mut self, x: i32, y: i32, direction: i32, length: i32, color: Color) -> (r: Result<(i32, i32), String>)
        ensures
            final(self)@ == draw_step(old(self)@, x, y, direction, length, color),
            r is Ok <==> end_fits(x as int, y as int, direction as int, length as int),
            r matches Ok(e) ==> (e.0 as int, e.1 as int) == end_point(x as int, y as int, direction as int, length as int),
    {
        let (gx, gy) = get_end_coordinates_precise(x, y, direction, length);
        let wx = to_whole(gx);
        let wy = to_whole(gy);
        if wx < i32::MIN as i64 || wx > i32::MAX as i64 || wy < i32::MIN as i64 || wy > i32::MAX as i64 {
            return Err("end point does not fit in 32-bit coordinates".to_string());
        }
        let (end_x, end_y) = get_end_coordinates(x, y, direction, length);
        self.scene.push(Primitive::Line { start_x: x, start_y: y, end_x, end_y, color });
        Ok((end_x, end_y))
    }
}

/// One draw keeps a well-formed canvas well formed, its size and everything already
/// in its scene.
proof fn lemma_draw_step_keeps(v: ImageView, x: i32, y: i32, direction: i32, length: i32, color: Color)
    requires
        v.wf(),
    ensures
        draw_step(v, x, y, direction, length, color).wf(),
        draw_step(v, x, y, direction, length, color).width == v.width,
        draw_step(v, x, y, direction, length, color).height == v.height,
        draw_step(v, x, y, direction, length, color).scene.subrange(0, v.scene.len() as int) == v.scene,
{
    let w = draw_step(v, x, y, direction, length, color);
    assert(w.scene.subrange(0, v.scene.len() as int) =~= v.scene);
    assert forall|i: int| 1 <= i < w.scene.len() implies (#[trigger] w.scene[i]) is Line by {
        if i < v.scene.len() {
            assert(w.scene[i] == v.scene[i]);
        }
    }
}

/// The scene only grows, by one line per successful draw: after any run of draws the
/// canvas is still well formed, keeps its size, keeps its earlier primitives in
/// order, and holds exactly as many more primitives as calls succeeded.
pub proof fn lemma_scene_growth(v: ImageView, draws: Seq<(i32, i32, i32, i32, Color)>)
    requires
        v.wf(),
    ensures
        draw_all(v, draws).wf(),
        draw_all(v, draws).width == v.width,
        draw_all(v, draws).height == v.height,
        draw_all(v, draws).scene.len() == v.scene.len() + successes(draws),
        draw_all(v, draws).scene.subrange(0, v.scene.len() as int) == v.scene,
    decreases draws.len(),
{
    if draws.len() > 0 {
        let d = draws[0];
        let w = draw_step(v, d.0, d.1, d.2, d.3, d.4);
        lemma_draw_step_keeps(v, d.0, d.1, d.2, d.3, d.4);
        lemma_scene_growth(w, draws.drop_first());
        let u = draw_all(w, draws.drop_first());
        assert(u.scene.subrange(0, v.scene.len() as int) =~= w.scene.subrange(0, w.scene.len() as int).subrange(
            0,
            v.scene.len() as int,
        ));
    }
}

/// A new canvas holds one primitive, the background; after any run of draws it holds
/// one more for each call that succeeded, and the background is still first.
pub proof fn lemma_fresh_scene_growth(width: u32, height: u32, draws: Seq<(i32, i32, i32, i32, Color)>)
    requires
        width > 0,
        height > 0,
    ensures
        fresh(width, height).scene.len() == 1,
        draw_all(fresh(width, height), draws).scene.len() == 1 + successes(draws),
        draw_all(fresh(width, height), draws).scene[0] == background(width, height),
{
    lemma_scene_growth(fresh(width, height), draws);
}

} // verus!
