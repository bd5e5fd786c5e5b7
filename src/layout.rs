use vstd::prelude::*;

use crate::config::{
    GROUND_HEIGHT, HOLE_HEIGHT, PIPE_SIZE_MUL, PLAYER_SIZE_MUL, SCREEN_HEIGHT, SCREEN_WIDTH,
};
use crate::geometry::Rect;
use crate::pipe::Pipe;
use crate::player::Player;

verus! {

/// Distance of the score text from the top of the screen.
pub const SCORE_TEXT_Y: i32 = 25;

/// Where the player's sprite is drawn: its box, extended down by the rows that the box
/// leaves out.
pub fn player_sprite_rect(player: &Player) -> (r: Rect)
    requires
        player.bounding_box.height <= u32::MAX - 4 * PLAYER_SIZE_MUL,
    ensures
        r == (Rect {
            x: player.bounding_box.x,
            y: player.bounding_box.y,
            width: player.bounding_box.width,
            height: (player.bounding_box.height + 4 * PLAYER_SIZE_MUL) as u32,
        }),
{
    Rect::new(
        player.bounding_box.x,
        player.bounding_box.y,
        player.bounding_box.width,
        player.bounding_box.height + 4 * PLAYER_SIZE_MUL,
    )
}

/// Where the two column sprites of an obstacle are drawn, for a sprite image of
/// `image_width` by `image_height` pixels scaled up: one ending at the top of the gap,
/// one starting at its bottom.
pub fn pipe_sprite_rects(pipe: &Pipe, image_width: u32, image_height: u32) -> (r: (Rect, Rect))
    requires
        pipe.wf(),
        image_width * PIPE_SIZE_MUL <= u32::MAX,
        image_height * PIPE_SIZE_MUL <= i32::MAX,
    ensures
        r.0 == (Rect {
            x: pipe.bounding_box.x,
            y: (pipe.hole_y - image_height * PIPE_SIZE_MUL) as i32,
            width: (image_width * PIPE_SIZE_MUL) as u32,
            height: (image_height * PIPE_SIZE_MUL) as u32,
        }),
        r.1 == (Rect {
            x: pipe.bounding_box.x,
            y: (pipe.hole_y + HOLE_HEIGHT) as i32,
            width: (image_width * PIPE_SIZE_MUL) as u32,
            height: (image_height * PIPE_SIZE_MUL) as u32,
        }),
{
    let width: u32 = image_width * PIPE_SIZE_MUL;
    let height: u32 = image_height * PIPE_SIZE_MUL;
    let upper = Rect::new(pipe.bounding_box.x, pipe.hole_y - height as i32, width, height);
    let lower = Rect::new(pipe.bounding_box.x, pipe.hole_y + HOLE_HEIGHT as i32, width, height);
    (upper, lower)
}

/// The ground band along the bottom of the screen.
pub fn ground_rect() -> (r: Rect)
    ensures
        r == (Rect {
            x: 0,
            y: (SCREEN_HEIGHT - GROUND_HEIGHT) as i32,
            width: SCREEN_WIDTH,
            height: GROUND_HEIGHT,
        }),
{
    Rect::new(0, (SCREEN_HEIGHT - GROUND_HEIGHT) as i32, SCREEN_WIDTH, GROUND_HEIGHT)
}

/// Where the score text of `text_width` by `text_height` pixels is drawn: centred
/// across the screen, a fixed distance from the top.
pub fn score_text_rect(text_width: u32, text_height: u32) -> (r: Rect)
    ensures
        r == (Rect {
            x: (SCREEN_WIDTH / 2 - text_width / 2) as i32,
            y: SCORE_TEXT_Y,
            width: text_width,
            height: text_height,
        }),
{
    let x: i64 = (SCREEN_WIDTH / 2) as i64 - (text_width / 2) as i64;
    Rect::new(x as i32, SCORE_TEXT_Y, text_width, text_height)
}

} // verus!
