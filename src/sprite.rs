//! What the sprite pipeline draws: textures, sprites with a sub-texture
//! rectangle, the shared quad, and the check on a decoded image.
use vstd::prelude::*;
use crate::fixed::{fmul, mul_fixed, ONE};
use crate::transform::Transform;
use crate::vector::Vector2;

verus! {

/// Minus one unit.
pub const NEG_ONE: i64 = -1_000_000;

/// A texture that lives on the GPU, known by its handle.
#[derive(Clone, Copy, Debug, PartialEq, Eq, Structural)]
pub struct Texture {
    pub gl_id: u32,
}

impl Texture {
    pub fn new(gl_id: u32) -> (r: Texture)
        ensures
            r.gl_id == gl_id,
    {
        Texture { gl_id }
    }
}

/// A drawable: a placement, a shared texture, and the rectangle of the
/// texture it shows, in fixed-point coordinates where `ONE` is the full
/// extent.
#[derive(Clone, Copy, Debug)]
pub struct Sprite {
    pub transform: Transform,
    pub texture: Texture,
    pub sub_tex: (Vector2, Vector2),
}

impl Sprite {
    pub fn new(texture: Texture) -> (r: Sprite)
        ensures
            r.transform.is_identity(),
            r.texture == texture,
            r.sub_tex == (Vector2 { x: 0, y: 0 }, Vector2 { x: ONE, y: ONE }),
    {
        Sprite {
            transform: Transform::identity(),
            texture,
            sub_tex: (Vector2::zero(), Vector2::one()),
        }
    }
}

/// One corner of the quad: its position and its texture coordinate.
#[derive(Clone, Copy, Debug, PartialEq, Eq, Structural)]
pub struct Vertex {
    pub position: Vector2,
    pub tex_coord: Vector2,
}

/// The four corners of the quad that every sprite is drawn on.
pub open spec fn quad_spec() -> Seq<Vertex> {
    seq![
        Vertex { position: Vector2 { x: ONE, y: ONE }, tex_coord: Vector2 { x: ONE, y: 0 } },
        Vertex { position: Vector2 { x: NEG_ONE, y: ONE }, tex_coord: Vector2 { x: 0, y: 0 } },
        Vertex { position: Vector2 { x: NEG_ONE, y: NEG_ONE }, tex_coord: Vector2 { x: 0, y: ONE } },
        Vertex { position: Vector2 { x: ONE, y: NEG_ONE }, tex_coord: Vector2 { x: ONE, y: ONE } },
    ]
}

/// The quad's two triangles, as indices into its corners.
pub open spec fn quad_indices_spec() -> Seq<u32> {
    seq![0, 1, 2, 2, 3, 0]
}

pub fn quad_vertices() -> (r: Vec<Vertex>)
    ensures
        r@ == quad_spec(),
{
    let r = vec![
        Vertex { position: Vector2 { x: ONE, y: ONE }, tex_coord: Vector2 { x: ONE, y: 0 } },
        Vertex { position: Vector2 { x: NEG_ONE, y: ONE }, tex_coord: Vector2 { x: 0, y: 0 } },
        Vertex { position: Vector2 { x: NEG_ONE, y: NEG_ONE }, tex_coord: Vector2 { x: 0, y: ONE } },
        Vertex { position: Vector2 { x: ONE, y: NEG_ONE }, tex_coord: Vector2 { x: ONE, y: ONE } },
    ];
    assert(r@ =~= quad_spec());
    r
}

pub fn quad_indices() -> (r: Vec<u32>)
    ensures
        r@ == quad_indices_spec(),
{
    let r: Vec<u32> = vec![0, 1, 2, 2, 3, 0];
    assert(r@ =~= quad_indices_spec());
    r
}

/// Linear blend from `a` to `b` by the fixed-point weight `t`.
pub open spec fn mix(a: int, b: int, t: int) -> int {
    a + fmul(b - a, t)
}

/// Where a texture coordinate of the quad lands inside a sub-texture
/// rectangle: the blend of its two corners, per coordinate.
pub open spec fn sub_tex_point(rect: (Vector2, Vector2), tc: Vector2) -> (int, int) {
    (mix(rect.0.x as int, rect.1.x as int, tc.x as int), mix(rect.0.y as int, rect.1.y as int, tc.y as int))
}

/// A sub-texture rectangle whose coordinates lie within the unit square.
pub open spec fn rect_in_unit(rect: (Vector2, Vector2)) -> bool {
    &&& 0 <= rect.0.x <= ONE
    &&& 0 <= rect.0.y <= ONE
    &&& 0 <= rect.1.x <= ONE
    &&& 0 <= rect.1.y <= ONE
}

/// The texture coordinate that the sprite's sub-texture rectangle gives to
/// the quad's texture coordinate `tc`.
pub fn sub_tex_coord(rect: (Vector2, Vector2), tc: Vector2) -> (r: Vector2)
    requires
        rect_in_unit(rect),
        0 <= tc.x <= ONE,
        0 <= tc.y <= ONE,
    ensures
        (r.x as int, r.y as int) == sub_tex_point(rect, tc),
{
    let dx: i64 = mul_fixed(rect.1.x - rect.0.x, tc.x);
    let dy: i64 = mul_fixed(rect.1.y - rect.0.y, tc.y);
    proof {
        lemma_mix_within(rect.0.x as int, rect.1.x as int, tc.x as int);
        lemma_mix_within(rect.0.y as int, rect.1.y as int, tc.y as int);
    }
    Vector2 { x: rect.0.x + dx, y: rect.0.y + dy }
}

proof fn lemma_mix_within(a: int, b: int, t: int)
    requires
        0 <= a <= ONE,
        0 <= b <= ONE,
        0 <= t <= ONE,
    ensures
        -ONE <= fmul(b - a, t) <= ONE,
{
    let d = b - a;
    let o = ONE as int;
    if d >= 0 {
        assert(0 <= d * t <= o * o) by (nonlinear_arith)
            requires
                0 <= d <= o,
                0 <= t <= o,
        ;
        assert((d * t) / o <= o) by (nonlinear_arith)
            requires
                0 <= d * t <= o * o,
                o > 0,
        ;
        assert((d * t) / o >= 0) by (nonlinear_arith)
            requires
                0 <= d * t,
                o > 0,
        ;
    } else {
        assert(0 < (-d) * t <= o * o || t == 0) by (nonlinear_arith)
            requires
                0 < -d <= o,
                0 <= t <= o,
        ;
        assert(d * t == -((-d) * t)) by (nonlinear_arith);
        assert(0 <= ((-d) * t) / o <= o) by (nonlinear_arith)
            requires
                0 <= (-d) * t <= o * o,
                o > 0,
        ;
    }
}

/// Sampling the quad's four corners reproduces the corners of the
/// sub-texture rectangle: the blend is exact at weights zero and one.
pub proof fn lemma_sub_tex_corners(rect: (Vector2, Vector2))
    requires
        rect_in_unit(rect),
    ensures
        sub_tex_point(rect, quad_spec()[0].tex_coord) == (rect.1.x as int, rect.0.y as int),
        sub_tex_point(rect, quad_spec()[1].tex_coord) == (rect.0.x as int, rect.0.y as int),
        sub_tex_point(rect, quad_spec()[2].tex_coord) == (rect.0.x as int, rect.1.y as int),
        sub_tex_point(rect, quad_spec()[3].tex_coord) == (rect.1.x as int, rect.1.y as int),
{
    crate::transform::lemma_fmul_one((rect.1.x - rect.0.x) as int);
    crate::transform::lemma_fmul_one((rect.1.y - rect.0.y) as int);
    assert(fmul((rect.1.x - rect.0.x) as int, 0) == 0);
    assert(fmul((rect.1.y - rect.0.y) as int, 0) == 0);
}

/// How the pixels of a decoded image are laid out.
#[derive(Clone, Copy, Debug, PartialEq, Eq, Structural)]
pub enum PixelFormat {
    Grayscale,
    GrayscaleAlpha,
    Rgb,
    Rgba,
    Indexed,
}

/// Why a decoded image cannot become a texture.
#[derive(Clone, Copy, Debug, PartialEq, Eq, Structural)]
pub enum LoadError {
    /// The pixels are not in RGBA order.
    NotRgba,
    /// The buffer does not hold four bytes for each pixel.
    WrongLength,
}

/// A decoded RGBA image, ready to upload: four bytes per pixel, row by row.
#[derive(Debug)]
pub struct Image {
    pub width: u32,
    pub height: u32,
    pub pixels: Vec<u8>,
}

impl Image {
    pub open spec fn wf(&self) -> bool {
        self.pixels@.len() == 4 * ((self.width as int) * (self.height as int))
    }

    /// Accepts a decoded image only if it is RGBA with a full buffer.
    pub fn from_decoded(width: u32, height: u32, format: PixelFormat, pixels: Vec<u8>) -> (r: Result<
        Image,
        LoadError,
    >)
        ensures
            format != PixelFormat::Rgba <==> r == Err::<Image, LoadError>(LoadError::NotRgba),
            r is Ok <==> format == PixelFormat::Rgba && pixels@.len() == 4 * ((width as int) * (
            height as int)),
            r is Ok ==> r->Ok_0.wf() && r->Ok_0.width == width && r->Ok_0.height == height
                && r->Ok_0.pixels@ == pixels@,
    {
        if format != PixelFormat::Rgba {
            return Err(LoadError::NotRgba);
        }
        assert((width as int) * (height as int) <= 0xffff_ffffint * 0xffff_ffffint) by (nonlinear_arith)
            requires
                0 <= width <= 0xffff_ffffint,
                0 <= height <= 0xffff_ffffint,
        ;
        let need: u128 = 4 * ((width as u128) * (height as u128));
        if (pixels.len() as u128) != need {
            return Err(LoadError::WrongLength);
        }
        Ok(Image { width, height, pixels })
    }
}

} // verus!
