//! A renderer that draws a whole frame at once from a snapshot of video
//! memory, and the colours of the console's palette.

use vstd::array::spec_array_update;
use vstd::prelude::*;

use super::model::bit_of_u8;
use super::Scroll;

verus! {

/// The red, green and blue share of each of the 64 colours, three bytes per
/// colour.
pub const NTSC_PALETTE: [u8; 192] = [
    84, 84, 84, 0, 30, 116, 8, 16, 144, 48, 0, 136,
    68, 0, 100, 92, 0, 48, 84, 4, 0, 60, 24, 0,
    32, 42, 0, 8, 58, 0, 0, 64, 0, 0, 60, 0,
    0, 50, 60, 0, 0, 0, 0, 0, 0, 0, 0, 0,
    152, 150, 152, 8, 76, 196, 48, 50, 236, 92, 30, 228,
    136, 20, 176, 160, 20, 100, 152, 34, 32, 120, 60, 0,
    84, 90, 0, 40, 114, 0, 8, 124, 0, 0, 118, 40,
    0, 102, 120, 0, 0, 0, 0, 0, 0, 0, 0, 0,
    236, 238, 236, 76, 154, 236, 120, 124, 236, 176, 98, 236,
    228, 84, 236, 236, 88, 180, 236, 106, 100, 212, 136, 32,
    160, 170, 0, 116, 196, 0, 76, 208, 32, 56, 204, 108,
    56, 180, 204, 60, 60, 60, 0, 0, 0, 0, 0, 0,
    236, 238, 236, 168, 204, 236, 188, 188, 236, 212, 178, 236,
    236, 174, 236, 236, 174, 212, 236, 180, 176, 228, 196, 144,
    204, 210, 120, 180, 222, 120, 168, 226, 144, 152, 226, 180,
    160, 214, 228, 160, 162, 160, 0, 0, 0, 0, 0, 0,
];

/// Which of the four nametables holds the pixel at `(x, y)` of the plane of
/// 512 by 480 pixels: the offset of that table in nametable memory.
pub open spec fn base_nametable(x: u16, y: u16) -> int {
    if x < 256 && y < 240 {
        0
    } else if y < 240 {
        1024
    } else if x < 256 {
        2048
    } else {
        3072
    }
}

/// Where in nametable memory the tile of the pixel at `(x, y)` is named:
/// tiles are eight pixels wide and high, 32 to a row.
pub open spec fn nametable_index(x: u16, y: u16) -> int {
    base_nametable(x, y) + (x % 256) / 8 + 32 * ((y % 240) / 8)
}

/// Where in nametable memory the attribute byte for the pixel at `(x, y)`
/// lies: one byte serves a block of 32 by 32 pixels, and the 64 bytes follow
/// the 960 tile names of the table.
pub open spec fn attribute_index(x: u16, y: u16) -> int {
    base_nametable(x, y) + 960 + (x % 256) / 32 + 8 * ((y % 240) / 32)
}

/// Where in pattern memory the sixteen bytes of a tile start.
pub open spec fn pattern_index(name: u8, right_field: bool) -> int {
    (if right_field {
        0x1000int
    } else {
        0
    }) + name * 16
}

/// The palette that an attribute byte assigns to the pixel at `(x, y)`: the
/// byte holds two bits for each quadrant of 16 by 16 pixels.
pub open spec fn palette(x: u16, y: u16, attribute: u8) -> u8 {
    let right = (x % 32) / 16 == 1;
    let bottom = (y % 32) / 16 == 1;
    if !right && !bottom {
        attribute % 4
    } else if right && !bottom {
        (attribute / 4) % 4
    } else if !right && bottom {
        (attribute / 16) % 4
    } else {
        attribute / 64
    }
}

/// The red, green and blue share of a colour of the palette. Only the six
/// low bits of `color` count.
pub open spec fn rgb_of(color: u8) -> [u8; 3] {
    [
        NTSC_PALETTE[3 * (color % 64) as int],
        NTSC_PALETTE[3 * (color % 64) + 1],
        NTSC_PALETTE[3 * (color % 64) + 2],
    ]
}

fn base_nametable_of(x: u16, y: u16) -> (base: usize)
    ensures
        base == base_nametable(x, y),
{
    let base = if x < 256 && y < 240 {
        0
    } else if y < 240 {
        1024
    } else if x < 256 {
        2 * 1024
    } else {
        3 * 1024
    };

    base
}

fn nametable_index_of(x: u16, y: u16) -> (index: usize)
    ensures
        index == nametable_index(x, y),
        index < 4096,
{
    let base = base_nametable_of(x, y);

    let x = (x % 256) as usize / 8;
    let y = (y % 240) as usize / 8;
    let offset = x + 32 * y;

    base + offset
}

fn attribute_index_of(x: u16, y: u16) -> (index: usize)
    ensures
        index == attribute_index(x, y),
        index < 4096,
{
    let base = base_nametable_of(x, y) + 960;

    let x = (x % 256) as usize / 32;
    let y = (y % 240) as usize / 32;
    let offset = x + 8 * y;

    base + offset
}

fn pattern_index_of(name: u8, right_field: bool) -> (index: usize)
    ensures
        index == pattern_index(name, right_field),
        index + 15 < 8192,
{
    let addend: usize = if right_field {
        0x1000
    } else {
        0
    };
    let offset = (name as usize) * 16;

    addend + offset
}

fn palette_of(x: u16, y: u16, attribute: u8) -> (palette_number: u8)
    ensures
        palette_number == palette(x, y, attribute),
        palette_number < 4,
{
    let x = x % 32 / 16;
    let y = y % 32 / 16;

    match (x, y) {
        (0, 0) => attribute % 4,
        (1, 0) => (attribute / 4) % 4,
        (0, 1) => (attribute / 16) % 4,
        _ => attribute / 64,
    }
}

/// The red, green and blue share of a colour of the palette.
pub fn color_to_rgb(color: u8) -> (rgb: [u8; 3])
    ensures
        rgb == rgb_of(color),
{
    let first_byte = (color % 64) as usize * 3;
    [NTSC_PALETTE[first_byte], NTSC_PALETTE[first_byte + 1], NTSC_PALETTE[first_byte + 2]]
}

/// What a frame is drawn from: pattern memory, the four nametables, object
/// memory, the choices of the control register, the colours, and the
/// scroll position.
pub struct Scene {
    pub pattern_table: [u8; 8192],
    pub nametable: [u8; 4096],
    pub oam: [u8; 256],
    pub sprites_use_right_field: bool,
    pub wide_sprites: bool,
    pub background_uses_right_field: bool,
    pub background_color: u8,
    pub palettes: [[u8; 3]; 8],
    pub scroll: [u16; 2],
}

/// A frame while the sprites are drawn onto it: the pixels, for each pixel
/// the number of the sprite that owns it, and whether sprite zero has met
/// the background.
pub struct Canvas {
    pub frame: [[u8; 3]; 61440],
    pub sprite_priority: [u8; 61440],
    pub sprite_0_hit: bool,
}

/// One tile of a sprite and where it goes. The two flip flags are set for the
/// unflipped directions.
pub struct Tile {
    pub sprite_id: u8,
    pub x: usize,
    pub y: usize,
    pub tile: u8,
    pub right_field: bool,
    pub palette: usize,
    pub priority: bool,
    pub hflip: bool,
    pub vflip: bool,
}

impl Scene {
    /// The two-bit pattern of one pixel of a tile: bit `fine_x` of the low
    /// plane and of the high plane of row `fine_y`.
    pub open spec fn pattern(self, fine_x: u8, fine_y: int, name: u8, right_field: bool) -> u8 {
        ((if bit_of_u8(self.pattern_table[pattern_index(name, right_field) + fine_y], fine_x) {
            1int
        } else {
            0
        }) + (if bit_of_u8(
            self.pattern_table[pattern_index(name, right_field) + fine_y + 8],
            fine_x,
        ) {
            2int
        } else {
            0
        })) as u8
    }

    /// The colour of the background at pixel `(x, y)` of the screen, and
    /// whether the background is transparent there. The scroll position
    /// moves the screen over the plane of the four nametables, which wraps
    /// around.
    pub open spec fn background_at(self, x: u16, y: u16) -> (u8, bool) {
        let px = ((x + self.scroll[0]) % 512) as u16;
        let py = ((y + self.scroll[1]) % 480) as u16;
        let name = self.nametable[nametable_index(px, py)];
        let pixel = self.pattern(
            (7 - px % 8) as u8,
            (py % 8) as int,
            name,
            self.background_uses_right_field,
        );
        let attribute = self.nametable[attribute_index(px, py)];
        if pixel == 0 {
            (self.background_color, true)
        } else {
            (self.palettes[palette(px, py, attribute) as int][pixel - 1], false)
        }
    }

    /// The tile `tile` with pixel number `p` drawn: the pixels of a tile are
    /// numbered row by row. A pixel off the screen or with pattern zero
    /// draws nothing. Sprite zero over an opaque background pixel sets the
    /// hit flag. The pixel shows if the background is transparent there or
    /// the sprite lies in front, and if no sprite with a higher number has
    /// taken the place.
    pub open spec fn draw_pixel(self, canvas: Canvas, transparent: [bool; 61440], tile: Tile, p: int)
        -> Canvas {
        let fine_x = p % 8;
        let fine_y = p / 8;
        let screen_x = tile.x + fine_x;
        let screen_y = tile.y + fine_y;
        let pattern = self.pattern(
            (if tile.hflip {
                7 - fine_x
            } else {
                fine_x
            }) as u8,
            if tile.vflip {
                fine_y
            } else {
                7 - fine_y
            },
            tile.tile,
            tile.right_field,
        );
        if screen_x >= 256 || screen_y >= 240 || pattern == 0 {
            canvas
        } else {
            let i = screen_x + screen_y * 256;
            let hit = canvas.sprite_0_hit || (tile.sprite_id == 0 && !transparent[i]);
            if (transparent[i] || tile.priority) && tile.sprite_id >= canvas.sprite_priority[i] {
                Canvas {
                    frame: spec_array_update(
                        canvas.frame,
                        i,
                        rgb_of(self.palettes[tile.palette as int][pattern - 1]),
                    ),
                    sprite_priority: spec_array_update(canvas.sprite_priority, i, tile.sprite_id),
                    sprite_0_hit: hit,
                }
            } else {
                Canvas { sprite_0_hit: hit, ..canvas }
            }
        }
    }

    /// The tile drawn from pixel number `p` on.
    pub open spec fn draw_tile_from(
        self,
        canvas: Canvas,
        transparent: [bool; 61440],
        tile: Tile,
        p: int,
    ) -> Canvas
        decreases 64 - p,
    {
        if p < 0 || p >= 64 {
            canvas
        } else {
            self.draw_tile_from(self.draw_pixel(canvas, transparent, tile, p), transparent, tile, p + 1)
        }
    }

    /// The first tile of sprite number `i`. The sprite sits one line below
    /// the line that object memory names. A wide sprite takes its pattern
    /// field from bit 0 of its tile number and starts with the even tile,
    /// or with the odd one if it is flipped upside down.
    pub open spec fn upper_tile(self, i: int) -> Tile {
        let attribute = self.oam[4 * i + 2];
        let number = self.oam[4 * i + 1];
        let vflip = attribute / 128 == 0;
        Tile {
            sprite_id: i as u8,
            x: self.oam[4 * i + 3] as usize,
            y: ((self.oam[4 * i] + 1) % 256) as usize,
            tile: if self.wide_sprites {
                ((number / 2) * 2 + if vflip {
                    0int
                } else {
                    1
                }) as u8
            } else {
                number
            },
            right_field: if self.wide_sprites {
                number % 2 == 1
            } else {
                self.sprites_use_right_field
            },
            palette: (attribute % 4 + 4) as usize,
            priority: (attribute / 32) % 2 == 0,
            hflip: (attribute / 64) % 2 == 0,
            vflip,
        }
    }

    /// The second tile of a wide sprite: the other tile of the pair, eight
    /// lines further down.
    pub open spec fn lower_tile(self, i: int) -> Tile {
        let upper = self.upper_tile(i);
        Tile {
            y: (upper.y + 8) as usize,
            tile: if upper.tile % 2 == 0 {
                (upper.tile + 1) as u8
            } else {
                (upper.tile - 1) as u8
            },
            ..upper
        }
    }

    /// Sprite number `i` drawn.
    pub open spec fn draw_sprite(self, canvas: Canvas, transparent: [bool; 61440], i: int)
        -> Canvas {
        let upper = self.draw_tile_from(canvas, transparent, self.upper_tile(i), 0);
        if self.wide_sprites {
            self.draw_tile_from(upper, transparent, self.lower_tile(i), 0)
        } else {
            upper
        }
    }

    /// The sprites drawn from number `i` on, in the order of object memory.
    pub open spec fn draw_sprites_from(self, canvas: Canvas, transparent: [bool; 61440], i: int)
        -> Canvas
        decreases 64 - i,
    {
        if i < 0 || i >= 64 {
            canvas
        } else {
            self.draw_sprites_from(self.draw_sprite(canvas, transparent, i), transparent, i + 1)
        }
    }

    /// Whether `frame` and `transparent` hold the background of the scene
    /// in their first `n` pixels.
    pub open spec fn is_background(self, frame: [[u8; 3]; 61440], transparent: [bool; 61440], n: int)
        -> bool {
        forall|i: int|
            0 <= i < n ==> #[trigger] frame[i] == rgb_of(
                self.background_at((i % 256) as u16, (i / 256) as u16).0,
            ) && transparent[i] == self.background_at((i % 256) as u16, (i / 256) as u16).1
    }

    /// Whether `frame` is the scene drawn: the background with the sprites
    /// on it, and `hit` tells whether sprite zero has met the background.
    pub open spec fn is_rendered(self, frame: [[u8; 3]; 61440], hit: bool) -> bool {
        exists|background: [[u8; 3]; 61440], transparent: [bool; 61440]|
            {
                let drawn = self.draw_sprites_from(
                    Canvas {
                        frame: background,
                        sprite_priority: vstd::array::spec_array_fill_for_copy_type::<u8, 61440>(
                            0,
                        ),
                        sprite_0_hit: false,
                    },
                    transparent,
                    0,
                );
                &&& #[trigger] self.is_background(background, transparent, 61440)
                &&& drawn.frame == frame
                &&& drawn.sprite_0_hit == hit
            }
    }
}

/// A renderer for one frame.
pub struct Renderer<'a> {
    pattern_table: &'a [u8; 8192],
    nametable: &'a [u8; 4096],
    oam: &'a [u8; 256],
    sprites_use_right_field: bool,
    wide_sprites: bool,
    background_uses_right_field: bool,
    background_color: u8,
    palettes: [[u8; 3]; 8],
    scroll: [u16; 2],
}

impl<'a> View for Renderer<'a> {
    type V = Scene;

    closed spec fn view(&self) -> Scene {
        Scene {
            pattern_table: *self.pattern_table,
            nametable: *self.nametable,
            oam: *self.oam,
            sprites_use_right_field: self.sprites_use_right_field,
            wide_sprites: self.wide_sprites,
            background_uses_right_field: self.background_uses_right_field,
            background_color: self.background_color,
            palettes: self.palettes,
            scroll: self.scroll,
        }
    }
}

impl<'a> Renderer<'a> {
    /// A renderer for the given scene. Each scroll coordinate comes as a low
    /// and a high byte.
    pub fn new(
        pattern_table: &'a [u8; 8192],
        nametable: &'a [u8; 4096],
        oam: &'a [u8; 256],
        sprites_use_right_field: bool,
        wide_sprites: bool,
        background_uses_right_field: bool,
        background_color: u8,
        palettes: [[u8; 3]; 8],
        scroll: Scroll,
    ) -> (renderer: Self)
        ensures
            renderer@.pattern_table == *pattern_table,
            renderer@.nametable == *nametable,
            renderer@.oam == *oam,
            renderer@.sprites_use_right_field == sprites_use_right_field,
            renderer@.wide_sprites == wide_sprites,
            renderer@.background_uses_right_field == background_uses_right_field,
            renderer@.background_color == background_color,
            renderer@.palettes == palettes,
            renderer@.scroll[0] == scroll.x.0 + 256 * scroll.x.1,
            renderer@.scroll[1] == scroll.y.0 + 256 * scroll.y.1,
    {
        let scroll_x = scroll.x.0 as u16 + (scroll.x.1 as u16) * 256;
        let scroll_y = scroll.y.0 as u16 + (scroll.y.1 as u16) * 256;

        Self {
            pattern_table,
            nametable,
            background_uses_right_field,
            background_color,
            palettes,
            scroll: [scroll_x, scroll_y],
            oam,
            sprites_use_right_field,
            wide_sprites,
        }
    }

    /// Draws the frame: first the background, then the 64 sprites in the
    /// order of object memory. The result tells whether sprite zero has met
    /// the background, and whether more than eight sprites share a line,
    /// which this renderer never finds.
    pub fn render(self, framebuffer: &mut [[u8; 3]; 61440]) -> (flags: (bool, bool))
        ensures
            self@.is_rendered(*final(framebuffer), flags.0),
            !flags.1,
    {
        let mut canvas = Canvas {
            frame: *framebuffer,
            sprite_priority: [0; 61440],
            sprite_0_hit: false,
        };
        let mut background_transparent = [true; 61440];
        self.render_background(&mut canvas.frame, &mut background_transparent);
        let ghost background = canvas.frame;
        self.render_sprites(&mut canvas, &background_transparent);
        *framebuffer = canvas.frame;
        proof {
            assert(self@.is_background(background, background_transparent, 61440));
        }
        (canvas.sprite_0_hit, false)
    }

    fn render_background(&self, frame: &mut [[u8; 3]; 61440], transparent: &mut [bool; 61440])
        ensures
            self@.is_background(*final(frame), *final(transparent), 61440),
    {
        let mut y: u16 = 0;
        while y < 240
            invariant
                y <= 240,
                self@.is_background(*frame, *transparent, y * 256),
            decreases 240 - y,
        {
            let mut x: u16 = 0;
            while x < 256
                invariant
                    y < 240,
                    x <= 256,
                    self@.is_background(*frame, *transparent, y * 256 + x),
                decreases 256 - x,
            {
                let i = (x as usize + 256 * y as usize) as usize;
                let (color, transpi) = self.background_color(x, y);
                let pixel = color_to_rgb(color);
                let ghost frame_before = *frame;
                let ghost transparent_before = *transparent;
                frame[i] = pixel;
                transparent[i] = transpi;
                proof {
                    assert(i as int % 256 == x as int && i as int / 256 == y as int);
                    assert forall|j: int| 0 <= j < i + 1 implies #[trigger] frame[j] == rgb_of(
                        self@.background_at((j % 256) as u16, (j / 256) as u16).0,
                    ) && transparent[j] == self@.background_at(
                        (j % 256) as u16,
                        (j / 256) as u16,
                    ).1 by {
                        if j < i {
                            assert(frame[j] == frame_before[j]);
                            assert(transparent[j] == transparent_before[j]);
                        }
                    }
                }
                x += 1;
            }
            y += 1;
        }
    }

    fn background_color(&self, x: u16, y: u16) -> (pixel: (u8, bool))
        requires
            x < 256,
            y < 240,
        ensures
            pixel == self@.background_at(x, y),
    {
        let x = ((x as u32 + self.scroll[0] as u32) % 512) as u16;
        let y = ((y as u32 + self.scroll[1] as u32) % 480) as u16;
        let name_i = nametable_index_of(x, y);
        let name_byte = self.nametable[name_i];
        let fine_y = y as usize % 8;
        let fine_x = 7 - (x % 8) as u8;

        let pixel = self.pattern(fine_x, fine_y, name_byte, self.background_uses_right_field)
            as usize;
        let attribute_i = attribute_index_of(x, y);
        let attribute = self.nametable[attribute_i];
        let palette = palette_of(x, y, attribute) as usize;
        if pixel == 0 {
            (self.background_color, true)
        } else {
            (self.palettes[palette][pixel - 1], false)
        }
    }

    fn render_sprites(&self, canvas: &mut Canvas, transparent: &[bool; 61440])
        ensures
            *final(canvas) == self@.draw_sprites_from(*old(canvas), *transparent, 0),
    {
        let mut i: usize = 0;
        while i < 64
            invariant
                i <= 64,
                self@.draw_sprites_from(*canvas, *transparent, i as int) == self@.draw_sprites_from(
                    *old(canvas),
                    *transparent,
                    0,
                ),
            decreases 64 - i,
        {
            let y = self.oam[4 * i].wrapping_add(1) as usize;
            let tile = self.oam[4 * i + 1];
            let attribute = self.oam[4 * i + 2];
            let x = self.oam[4 * i + 3] as usize;

            let palette = (attribute as usize % 4) + 4;
            let priority = (attribute / 32) % 2 == 0;
            let hflip = (attribute / 64) % 2 == 0;
            let vflip = attribute / 128 == 0;

            if self.wide_sprites {
                self.render_wide_sprite(
                    canvas,
                    transparent,
                    i as u8,
                    x,
                    y,
                    tile,
                    palette,
                    priority,
                    hflip,
                    vflip,
                );
            } else {
                self.render_normal_sprite(
                    canvas,
                    transparent,
                    Tile {
                        sprite_id: i as u8,
                        x,
                        y,
                        tile,
                        right_field: self.sprites_use_right_field,
                        palette,
                        priority,
                        hflip,
                        vflip,
                    },
                );
            }
            i += 1;
        }
    }

    fn render_normal_sprite(&self, canvas: &mut Canvas, transparent: &[bool; 61440], tile: Tile)
        requires
            tile.x < 256,
            tile.y < 512,
            4 <= tile.palette < 8,
        ensures
            *final(canvas) == self@.draw_tile_from(*old(canvas), *transparent, tile, 0),
    {
        let mut p: usize = 0;
        while p < 64
            invariant
                p <= 64,
                tile.x < 256,
                tile.y < 512,
                4 <= tile.palette < 8,
                self@.draw_tile_from(*canvas, *transparent, tile, p as int)
                    == self@.draw_tile_from(*old(canvas), *transparent, tile, 0),
            decreases 64 - p,
        {
            let fine_x = p % 8;
            let fine_y = p / 8;
            let screen_x = tile.x + fine_x;
            let screen_y = tile.y + fine_y;
            let tile_x = if tile.hflip {
                7 - fine_x
            } else {
                fine_x
            };
            let tile_y = if tile.vflip {
                fine_y
            } else {
                7 - fine_y
            };
            let pattern = self.pattern(tile_x as u8, tile_y, tile.tile, tile.right_field)
                as usize;
            if screen_x < 256 && screen_y < 240 && pattern != 0 {
                let screen_i = screen_x + screen_y * 256;
                let transpi = transparent[screen_i];
                canvas.sprite_0_hit = canvas.sprite_0_hit || (tile.sprite_id == 0 && !transpi);
                let color = self.palettes[tile.palette][pattern - 1];

                let req_priority = canvas.sprite_priority[screen_i];
                let show = (transpi || tile.priority) && tile.sprite_id >= req_priority;
                if show {
                    let rgb = color_to_rgb(color);
                    canvas.frame[screen_i] = rgb;
                    canvas.sprite_priority[screen_i] = tile.sprite_id;
                }
            }
            p += 1;
        }
    }

    fn render_wide_sprite(
        &self,
        canvas: &mut Canvas,
        transparent: &[bool; 61440],
        sprite_id: u8,
        x: usize,
        y: usize,
        tile: u8,
        palette: usize,
        priority: bool,
        hflip: bool,
        vflip: bool,
    )
        requires
            x < 256,
            y < 256,
            4 <= palette < 8,
        ensures
            *final(canvas) == self@.draw_tile_from(
                self@.draw_tile_from(
                    *old(canvas),
                    *transparent,
                    (Tile {
                        sprite_id,
                        x,
                        y,
                        tile: ((tile / 2) * 2 + if vflip {
                            0int
                        } else {
                            1
                        }) as u8,
                        right_field: tile % 2 == 1,
                        palette,
                        priority,
                        hflip,
                        vflip,
                    }),
                    0,
                ),
                *transparent,
                (Tile {
                    sprite_id,
                    x,
                    y: (y + 8) as usize,
                    tile: ((tile / 2) * 2 + if vflip {
                        1int
                    } else {
                        0
                    }) as u8,
                    right_field: tile % 2 == 1,
                    palette,
                    priority,
                    hflip,
                    vflip,
                }),
                0,
            ),
    {
        let even = (tile / 2) * 2;
        let first = if vflip {
            even
        } else {
            even + 1
        };
        let second = if vflip {
            even + 1
        } else {
            even
        };
        let right_field = tile % 2 == 1;
        self.render_normal_sprite(
            canvas,
            transparent,
            Tile { sprite_id, x, y, tile: first, right_field, palette, priority, hflip, vflip },
        );
        self.render_normal_sprite(
            canvas,
            transparent,
            Tile {
                sprite_id,
                x,
                y: y + 8,
                tile: second,
                right_field,
                palette,
                priority,
                hflip,
                vflip,
            },
        );
    }

    fn pattern(&self, fine_x: u8, fine_y: usize, name_byte: u8, right_field: bool) -> (pixel: u8)
        requires
            fine_x < 8,
            fine_y < 8,
        ensures
            pixel == self@.pattern(fine_x, fine_y as int, name_byte, right_field),
            pixel < 4,
    {
        let pattern_index = pattern_index_of(name_byte, right_field);
        let pattern_low = self.pattern_table[pattern_index + fine_y];
        let pattern_high = self.pattern_table[pattern_index + fine_y + 8];
        let low_bit: u8 = if (pattern_low >> fine_x) & 1 == 1 {
            1
        } else {
            0
        };
        let high_bit: u8 = if (pattern_high >> fine_x) & 1 == 1 {
            2
        } else {
            0
        };
        let pixel = low_bit + high_bit;
        pixel
    }
}

} // verus!
