//! What one frame shows: the walls, the ball and the paddle as rectangles in
//! whole pixels, and the two colours they are drawn in.

use vstd::prelude::*;
use crate::field::{
    pixel_of, to_pixel, Color, Rect, Vec2, Vector2, PADDLE_LENGTH, SCREEN_HEIGHT, SCREEN_WIDTH,
    THICKNESS,
};

verus! {

/// Colour of the field: opaque blue.
pub open spec fn background_color() -> Color {
    Color { r: 0, g: 0, b: 255, a: 255 }
}

/// Colour of the walls, the ball and the paddle: opaque white.
pub open spec fn foreground_color() -> Color {
    Color { r: 255, g: 255, b: 255, a: 255 }
}

/// The colour that the field is cleared to.
pub fn background() -> (c: Color)
    ensures
        c == background_color(),
{
    Color { r: 0, g: 0, b: 255, a: 255 }
}

/// The colour that the walls, the ball and the paddle are filled with.
pub fn foreground() -> (c: Color)
    ensures
        c == foreground_color(),
{
    Color { r: 255, g: 255, b: 255, a: 255 }
}

/// Everything one frame shows. The field is filled with `background`; the
/// rectangles are filled with `foreground`.
#[derive(Clone, Copy, Debug, PartialEq, Eq, Structural)]
pub struct Scene {
    pub background: Color,
    pub foreground: Color,
    pub top_wall: Rect,
    pub bottom_wall: Rect,
    pub right_wall: Rect,
    pub ball: Rect,
    pub paddle: Rect,
}

/// The square of side `THICKNESS` around the pixel that the ball's centre falls in.
pub open spec fn ball_rect(ball: Vec2) -> Rect {
    Rect {
        x: (pixel_of(ball.x) - THICKNESS / 2) as i32,
        y: (pixel_of(ball.y) - THICKNESS / 2) as i32,
        w: THICKNESS,
        h: THICKNESS,
    }
}

/// The upright bar, `THICKNESS` wide and `PADDLE_LENGTH` long, around the pixel
/// that the paddle's centre falls in.
pub open spec fn paddle_rect(paddle: Vec2) -> Rect {
    Rect {
        x: (pixel_of(paddle.x) - THICKNESS / 2) as i32,
        y: (pixel_of(paddle.y) - PADDLE_LENGTH / 2) as i32,
        w: THICKNESS,
        h: PADDLE_LENGTH,
    }
}

/// The scene with the paddle and the ball at these positions.
pub open spec fn scene_of(paddle: Vec2, ball: Vec2) -> Scene {
    Scene {
        background: background_color(),
        foreground: foreground_color(),
        top_wall: Rect { x: 0, y: 0, w: SCREEN_WIDTH, h: THICKNESS },
        bottom_wall: Rect {
            x: 0,
            y: (SCREEN_HEIGHT - THICKNESS) as i32,
            w: SCREEN_WIDTH,
            h: THICKNESS,
        },
        right_wall: Rect {
            x: (SCREEN_WIDTH - THICKNESS) as i32,
            y: 0,
            w: THICKNESS,
            h: SCREEN_HEIGHT,
        },
        ball: ball_rect(ball),
        paddle: paddle_rect(paddle),
    }
}

impl Scene {
    /// Lays out the scene for a paddle and a ball at these positions.
    pub fn compose(paddle: Vector2, ball: Vector2) -> (scene: Scene)
        ensures
            scene == scene_of(paddle@, ball@),
            scene.top_wall.drawable(),
            scene.bottom_wall.drawable(),
            scene.right_wall.drawable(),
            scene.ball.drawable(),
            scene.paddle.drawable(),
    {
        let half: i32 = (THICKNESS / 2) as i32;
        let half_length: i32 = (PADDLE_LENGTH / 2) as i32;
        Scene {
            background: background(),
            foreground: foreground(),
            top_wall: Rect { x: 0, y: 0, w: SCREEN_WIDTH, h: THICKNESS },
            bottom_wall: Rect {
                x: 0,
                y: (SCREEN_HEIGHT - THICKNESS) as i32,
                w: SCREEN_WIDTH,
                h: THICKNESS,
            },
            right_wall: Rect {
                x: (SCREEN_WIDTH - THICKNESS) as i32,
                y: 0,
                w: THICKNESS,
                h: SCREEN_HEIGHT,
            },
            ball: Rect {
                x: to_pixel(ball.x) - half,
                y: to_pixel(ball.y) - half,
                w: THICKNESS,
                h: THICKNESS,
            },
            paddle: Rect {
                x: to_pixel(paddle.x) - half,
                y: to_pixel(paddle.y) - half_length,
                w: THICKNESS,
                h: PADDLE_LENGTH,
            },
        }
    }
}

/// Where the rectangles of a scene lie, in whole numbers: the walls along the
/// top, the bottom and the right side of the field, the ball and the paddle
/// centred on the pixel that their centre falls in.
pub proof fn lemma_scene_geometry(paddle: Vec2, ball: Vec2)
    ensures
        scene_of(paddle, ball).background == (Color { r: 0, g: 0, b: 255, a: 255 }),
        scene_of(paddle, ball).foreground == (Color { r: 255, g: 255, b: 255, a: 255 }),
        scene_of(paddle, ball).top_wall.is(0, 0, 1024, 15),
        scene_of(paddle, ball).bottom_wall.is(0, 753, 1024, 15),
        scene_of(paddle, ball).right_wall.is(1009, 0, 15, 768),
        scene_of(paddle, ball).ball.is(pixel_of(ball.x) - 7, pixel_of(ball.y) - 7, 15, 15),
        scene_of(paddle, ball).paddle.is(
            pixel_of(paddle.x) - 7,
            pixel_of(paddle.y) - 50,
            15,
            100,
        ),
{
}

} // verus!
