use climber::fixed::ONE;
use climber::sprite::{quad_indices, quad_vertices, sub_tex_coord, Image, LoadError, PixelFormat, Sprite, Texture};
use climber::transform::Transform;
use climber::vector::Vector2;

fn v(x: i64, y: i64) -> Vector2 {
    Vector2 { x, y }
}

#[test]
fn identity_transform_gives_identity_matrix() {
    let m = Transform::identity().matrix();
    assert_eq!(m.m, [ONE, 0, 0, 0, ONE, 0, 0, 0, ONE]);
}

#[test]
fn translation_only_moves_the_origin_point() {
    let mut t = Transform::identity();
    t.translation = v(3_000_000, -2_000_000);
    let m = t.matrix();
    assert_eq!(m.m, [ONE, 0, 0, 0, ONE, 0, 3_000_000, -2_000_000, ONE]);
}

#[test]
fn origin_shifts_pivot_but_not_orientation() {
    let mut a = Transform::identity();
    a.rotation = v(0, ONE);
    a.translation = v(5_000_000, 4_000_000);
    let mut b = a;
    b.origin = v(ONE, 0);
    let ma = a.matrix();
    let mb = b.matrix();
    assert_eq!(ma.m, [0, ONE, 0, -ONE, 0, 0, 5_000_000, 4_000_000, ONE]);
    assert_eq!(mb.m, [0, ONE, 0, -ONE, 0, 0, 5_000_000, 3_000_000, ONE]);
    assert_eq!(ma.m[..6], mb.m[..6]);
}

#[test]
fn platform_shape_hangs_from_top_edge() {
    let t = Transform {
        translation: v(1_000_000, 2_000_000),
        rotation: v(ONE, 0),
        scale: v(6_000_000, 300_000),
        origin: v(0, ONE),
    };
    assert_eq!(t.matrix().m, [6_000_000, 0, 0, 0, 300_000, 0, 1_000_000, 1_700_000, ONE]);
}

#[test]
fn vector_operations() {
    let a: Vector2 = (1_500_000, -2_000_000).into();
    assert_eq!(a, v(1_500_000, -2_000_000));
    assert_eq!(a + v(500_000, 500_000), v(2_000_000, -1_500_000));
    assert_eq!(a.scale(2_000_000), v(3_000_000, -4_000_000));
    assert_eq!(a.scale(500_000), v(750_000, -1_000_000));
    assert_eq!(a.tuple(), (1_500_000, -2_000_000));
    assert_eq!(Vector2::zero(), v(0, 0));
    assert_eq!(Vector2::one(), v(ONE, ONE));
}

#[test]
fn sub_texture_corners_round_trip() {
    let rect = (v(250_000, 500_000), v(750_000, 1_000_000));
    let corners: Vec<Vector2> = quad_vertices().iter().map(|c| sub_tex_coord(rect, c.tex_coord)).collect();
    assert_eq!(corners, vec![
        v(750_000, 500_000),
        v(250_000, 500_000),
        v(250_000, 1_000_000),
        v(750_000, 1_000_000),
    ]);
    assert_eq!(sub_tex_coord(rect, v(500_000, 500_000)), v(500_000, 750_000));
}

#[test]
fn quad_is_two_triangles_over_four_corners() {
    assert_eq!(quad_indices(), vec![0, 1, 2, 2, 3, 0]);
    let q = quad_vertices();
    assert_eq!(q.len(), 4);
    assert_eq!(q[0].position, v(ONE, ONE));
    assert_eq!(q[2].position, v(-ONE, -ONE));
}

#[test]
fn new_sprite_shows_whole_texture() {
    let s = Sprite::new(Texture::new(7));
    assert_eq!(s.texture.gl_id, 7);
    assert_eq!(s.sub_tex, (v(0, 0), v(ONE, ONE)));
    assert_eq!(s.transform, Transform::identity());
}

#[test]
fn image_must_be_rgba() {
    let r = Image::from_decoded(2, 1, PixelFormat::Rgb, vec![0; 6]);
    assert_eq!(r.unwrap_err(), LoadError::NotRgba);
}

#[test]
fn image_must_hold_every_pixel() {
    let r = Image::from_decoded(2, 2, PixelFormat::Rgba, vec![0; 15]);
    assert_eq!(r.unwrap_err(), LoadError::WrongLength);
}

#[test]
fn rgba_image_is_accepted() {
    let img = Image::from_decoded(2, 2, PixelFormat::Rgba, vec![9; 16]).unwrap();
    assert_eq!((img.width, img.height, img.pixels.len()), (2, 2, 16));
}
