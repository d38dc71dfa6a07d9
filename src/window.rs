use vstd::prelude::*;

use crate::buffer_helper::{buffer_fits, check_buffer_size, Error};
use crate::key::Key;
use crate::key_handler::{indices_where, key_indices, latch, KeyHandler, KeyRepeat};
use crate::menu::{entry_copied, menu_copied, Menu, MenuHandle, UnixMenu};
use crate::mouse_handler::{buffer_pos, get_pos, MouseButton, MouseMode};
use crate::rate::{frame_end, UpdateRate};
use crate::scaler::{compose, pixel, rgb, upscale, upscaled};

verus! {

/// Integer factor by which the buffer is drawn.
#[derive(Clone, Copy, Debug, PartialEq, Eq, Structural)]
pub enum Scale {
    X1,
    X2,
    X4,
    X8,
    X16,
    /// The largest of the factors above that fits three quarters of the screen.
    FitScreen,
}

/// Placement of the scaled buffer in a client area of another size. The
/// buffer is always drawn at the window's integer factor, nearest neighbour:
/// `UpperLeft` puts it in the corner, the other modes centre it.
#[derive(Clone, Copy, Debug, PartialEq, Eq, Structural)]
pub enum ScaleMode {
    Stretch,
    AspectRatioStretch,
    Center,
    UpperLeft,
}

/// Shape of the mouse cursor over the window.
#[derive(Clone, Copy, Debug, PartialEq, Eq, Structural)]
pub enum CursorStyle {
    Arrow,
    Ibeam,
    Crosshair,
    ClosedHand,
    OpenHand,
    ResizeLeftRight,
    ResizeUpDown,
    ResizeAll,
}

/// Options of a new window.
#[derive(Clone, Copy, Debug, PartialEq, Eq, Structural)]
pub struct WindowOptions {
    pub borderless: bool,
    pub title: bool,
    pub resize: bool,
    pub scale: Scale,
    pub scale_mode: ScaleMode,
    pub topmost: bool,
    pub transparency: bool,
    pub none: bool,
}

impl Default for WindowOptions {
    fn default() -> (r: WindowOptions)
        ensures
            r == (WindowOptions {
                borderless: false,
                title: true,
                resize: false,
                scale: Scale::X1,
                scale_mode: ScaleMode::UpperLeft,
                topmost: false,
                transparency: false,
                none: false,
            }),
    {
        WindowOptions {
            borderless: false,
            title: true,
            resize: false,
            scale: Scale::X1,
            scale_mode: ScaleMode::UpperLeft,
            topmost: false,
            transparency: false,
            none: false,
        }
    }
}

/// A report of the platform's event pump.
#[derive(Clone, Copy, Debug, PartialEq, Eq, Structural)]
pub enum Event {
    /// A key went down (`true`) or up.
    Key(Key, bool),
    /// The cursor moved to this native position.
    MouseMove(i32, i32),
    /// The cursor left the window.
    MouseLeave,
    /// A mouse button went down (`true`) or up.
    MouseButton(MouseButton, bool),
    /// The wheel turned by these steps.
    Scroll(i32, i32),
    /// The window gained (`true`) or lost keyboard focus.
    Focus(bool),
    /// The client area now has this native size.
    Resize(usize, usize),
    /// The user asked to close the window.
    Close,
    /// Text input produced this code point.
    Char(u32),
    /// The menu entry with this id was activated.
    MenuActivated(usize),
}

/// The factor that `scale` selects for a buffer of `w` by `h` pixels on a
/// screen of `sw` by `sh` pixels.
pub open spec fn scale_factor(scale: Scale, w: int, h: int, sw: int, sh: int) -> int {
    match scale {
        Scale::X1 => 1,
        Scale::X2 => 2,
        Scale::X4 => 4,
        Scale::X8 => 8,
        Scale::X16 => 16,
        Scale::FitScreen => if fits_screen(w, h, 16, sw, sh) {
            16
        } else if fits_screen(w, h, 8, sw, sh) {
            8
        } else if fits_screen(w, h, 4, sw, sh) {
            4
        } else if fits_screen(w, h, 2, sw, sh) {
            2
        } else {
            1
        },
    }
}

/// A buffer of `w` by `h` pixels drawn at `s` fits three quarters of a screen
/// of `sw` by `sh` pixels.
pub open spec fn fits_screen(w: int, h: int, s: int, sw: int, sh: int) -> bool {
    4 * (w * s) <= 3 * sw && 4 * (h * s) <= 3 * sh
}

/// Offset along one axis of an image of `size` pixels in a client area of
/// `client` pixels.
pub open spec fn placement(mode: ScaleMode, client: int, size: int) -> int {
    match mode {
        ScaleMode::UpperLeft => 0,
        _ => if client >= size {
            (client - size) / 2
        } else {
            -((size - client + 1) / 2)
        },
    }
}

/// `v` held to the range of `i32`.
pub open spec fn saturate_i32(v: int) -> int {
    if v < i32::MIN {
        i32::MIN as int
    } else if v > i32::MAX {
        i32::MAX as int
    } else {
        v
    }
}

/// Pixel `(x, y)` of the client area that shows the buffer `buf` of `w` by
/// `h` pixels, rows `stride` apart, drawn at `s` from `(ox, oy)` over `bg`;
/// the unused top byte of every word is cleared.
pub open spec fn shown_pixel(
    buf: Seq<u32>,
    w: int,
    h: int,
    stride: int,
    s: int,
    ox: int,
    oy: int,
    bg: u32,
    y: int,
    x: int,
) -> u32 {
    if ox <= x < ox + w * s && oy <= y < oy + h * s {
        rgb(pixel(buf, stride, (y - oy) / s, (x - ox) / s))
    } else {
        rgb(bg)
    }
}

/// The handles of a sequence of menus.
pub open spec fn menu_handles(menus: Seq<UnixMenu>) -> Seq<MenuHandle> {
    menus.map_values(|m: UnixMenu| m.handle)
}

/// `menus` without those whose handle is `h`, in order.
pub open spec fn menus_without(menus: Seq<UnixMenu>, h: MenuHandle) -> Seq<UnixMenu>
    decreases menus.len(),
{
    if menus.len() == 0 {
        menus
    } else if menus.last().handle == h {
        menus_without(menus.drop_last(), h)
    } else {
        menus_without(menus.drop_last(), h).push(menus.last())
    }
}

fn saturating_add_i32(a: i32, b: i32) -> (r: i32)
    ensures
        r == saturate_i32(a + b),
{
    let v: i64 = a as i64 + b as i64;
    if v < i32::MIN as i64 {
        i32::MIN
    } else if v > i32::MAX as i64 {
        i32::MAX
    } else {
        v as i32
    }
}

fn fits_screen_exec(w: usize, h: usize, s: u128, sw: usize, sh: usize) -> (r: bool)
    requires
        s <= 16,
    ensures
        r == fits_screen(w as int, h as int, s as int, sw as int, sh as int),
{
    proof {
        assert(w * s <= 16 * 0xffff_ffff_ffff_ffff) by (nonlinear_arith)
            requires
                w <= 0xffff_ffff_ffff_ffff,
                s <= 16,
        ;
        assert(h * s <= 16 * 0xffff_ffff_ffff_ffff) by (nonlinear_arith)
            requires
                h <= 0xffff_ffff_ffff_ffff,
                s <= 16,
        ;
    }
    4 * (w as u128 * s) <= 3 * (sw as u128) && 4 * (h as u128 * s) <= 3 * (sh as u128)
}

/// The factor that `scale` selects for a buffer of `width` by `height` pixels
/// on a screen of `screen_width` by `screen_height` pixels.
pub fn scale_of(scale: Scale, width: usize, height: usize, screen_width: usize, screen_height: usize) -> (r: usize)
    ensures
        r == scale_factor(scale, width as int, height as int, screen_width as int, screen_height as int),
        1 <= r <= 16,
{
    match scale {
        Scale::X1 => 1,
        Scale::X2 => 2,
        Scale::X4 => 4,
        Scale::X8 => 8,
        Scale::X16 => 16,
        Scale::FitScreen => {
            if fits_screen_exec(width, height, 16, screen_width, screen_height) {
                16
            } else if fits_screen_exec(width, height, 8, screen_width, screen_height) {
                8
            } else if fits_screen_exec(width, height, 4, screen_width, screen_height) {
                4
            } else if fits_screen_exec(width, height, 2, screen_width, screen_height) {
                2
            } else {
                1
            }
        },
    }
}

fn placement_exec(mode: ScaleMode, client: usize, size: usize) -> (r: i64)
    requires
        client <= i32::MAX,
        size <= i32::MAX,
    ensures
        r == placement(mode, client as int, size as int),
        i32::MIN <= r <= i32::MAX,
{
    match mode {
        ScaleMode::UpperLeft => 0,
        _ => if client >= size {
            ((client - size) / 2) as i64
        } else {
            -(((size - client + 1) / 2) as i64)
        },
    }
}

fn filled(n: usize, v: u32) -> (r: Vec<u32>)
    ensures
        r@ == Seq::new(n as nat, |i: int| v),
{
    let mut out: Vec<u32> = Vec::new();
    let mut i: usize = 0;
    while i < n
        invariant
            i <= n,
            out@ == Seq::new(i as nat, |j: int| v),
        decreases n - i,
    {
        out.push(v);
        i = i + 1;
        proof {
            assert(out@ =~= Seq::new(i as nat, |j: int| v));
        }
    }
    out
}

/// A window that shows a pixel buffer and collects keyboard and mouse input.
pub struct Window {
    pub is_open: bool,
    pub is_active: bool,
    /// Native cursor position, while the cursor is over the window.
    pub mouse_pos: Option<(i32, i32)>,
    /// Wheel steps of the latest frame, if any.
    pub mouse_scroll: Option<(i32, i32)>,
    /// Wheel steps since the latest frame.
    pub scroll_acc: (i32, i32),
    /// A wheel event arrived since the latest frame.
    pub scrolled: bool,
    /// The user asked to close the window; the next frame completes, then
    /// the window is closed.
    pub close_requested: bool,
    /// The state of the left, middle and right mouse buttons.
    pub mouse_state: (bool, bool, bool),
    pub update_rate: UpdateRate,
    pub buffer_width: usize,
    pub buffer_height: usize,
    pub window_scale: usize,
    pub client_width: usize,
    pub client_height: usize,
    pub scale_mode: ScaleMode,
    pub key_handler: KeyHandler,
    /// Handle that the next menu receives.
    pub menu_counter: MenuHandle,
    pub menus: Vec<UnixMenu>,
    /// The native client area, `client_width` pixels per row.
    pub surface: Vec<u32>,
    pub background: u32,
    pub title: String,
    pub position: (isize, isize),
    pub cursor: CursorStyle,
    /// Text input since the last call of `take_chars`.
    pub chars: Vec<u32>,
    /// Id of the menu entry activated and not yet reported.
    pub menu_pressed: Option<usize>,
}

impl Window {
    pub open spec fn wf(&self) -> bool {
        &&& self.key_handler.wf()
        &&& self.window_scale >= 1
        &&& self.buffer_width * self.window_scale <= i32::MAX
        &&& self.buffer_height * self.window_scale <= i32::MAX
        &&& (self.buffer_width * self.window_scale) * (self.buffer_height * self.window_scale)
            <= usize::MAX
        &&& self.client_width <= i32::MAX
        &&& self.client_height <= i32::MAX
        &&& self.client_width * self.client_height <= usize::MAX
        &&& self.surface@.len() == self.client_width * self.client_height
        &&& forall|i: int|
            0 <= i < self.menus@.len() ==> (#[trigger] self.menus@[i]).handle.0
                < self.menu_counter.0
    }

    /// Horizontal offset of the scaled buffer in the client area.
    pub open spec fn offset_x(&self) -> int {
        placement(self.scale_mode, self.client_width as int, self.buffer_width * self.window_scale)
    }

    /// Vertical offset of the scaled buffer in the client area.
    pub open spec fn offset_y(&self) -> int {
        placement(
            self.scale_mode,
            self.client_height as int,
            self.buffer_height * self.window_scale,
        )
    }

    /// A frame of `update_with_buffer_stride` would accept this buffer.
    pub open spec fn accepts(&self, len: int, width: int, height: int, stride: int) -> bool {
        &&& self.is_open
        &&& width == self.buffer_width
        &&& height == self.buffer_height
        &&& buffer_fits(len, width, height, stride)
    }

    /// `after` is `self` after the input part of a frame at `now`: keys
    /// latched, wheel steps taken, a requested close carried out, pacing
    /// applied with a sleep of `wait`.
    pub open spec fn frame_step(&self, after: Window, now: u64, wait: u64) -> bool {
        &&& after.key_handler.now == now
        &&& after.key_handler.prev == self.key_handler.now
        &&& after.key_handler.repeat_delay == self.key_handler.repeat_delay
        &&& after.key_handler.repeat_rate == self.key_handler.repeat_rate
        &&& after.key_handler.states@.len() == self.key_handler.states@.len()
        &&& forall|i: int|
            0 <= i < self.key_handler.states@.len() ==> #[trigger] after.key_handler.states@[i]
                == latch(self.key_handler.states@[i], now)
        &&& after.mouse_scroll == if self.scrolled {
            Some(self.scroll_acc)
        } else {
            None
        }
        &&& after.scroll_acc == (0i32, 0i32)
        &&& !after.scrolled
        &&& after.is_open == (self.is_open && !self.close_requested)
        &&& after.update_rate.target == self.update_rate.target
        &&& now + wait == frame_end(self.update_rate.prev as int, self.update_rate.target, now as int)
        &&& after.update_rate.prev == now + wait
    }

    /// The requirements of a frame at `now` on the clocks.
    pub open spec fn frame_ready(&self, now: u64) -> bool {
        &&& self.key_handler.now <= now
        &&& self.update_rate.prev <= now
        &&& self.update_rate.target matches Some(d) ==> self.update_rate.prev + d <= u64::MAX
    }

    /// Opens a window named `name` for a buffer of `width` by `height`
    /// pixels; `Scale::FitScreen` is resolved against a screen of
    /// `screen_width` by `screen_height` pixels.
    pub fn new_for_screen(
        name: &str,
        width: usize,
        height: usize,
        opts: WindowOptions,
        screen_width: usize,
        screen_height: usize,
    ) -> (r: Result<Window, Error>)
        ensures
            ({
                let s = scale_factor(
                    opts.scale,
                    width as int,
                    height as int,
                    screen_width as int,
                    screen_height as int,
                );
                let fits = width * s <= i32::MAX && height * s <= i32::MAX && (width * s) * (height
                    * s) <= usize::MAX;
                &&& r is Err <==> !fits
                &&& r is Err ==> r == Err::<Window, Error>(Error::WindowCreate)
                &&& r matches Ok(w) ==> {
                    &&& w.wf()
                    &&& w.is_open
                    &&& !w.is_active
                    &&& w.buffer_width == width
                    &&& w.buffer_height == height
                    &&& w.window_scale == s
                    &&& w.client_width == width * s
                    &&& w.client_height == height * s
                    &&& w.scale_mode == opts.scale_mode
                    &&& w.title@ == name@
                    &&& w.menus@.len() == 0
                    &&& w.menu_counter.0 == 0
                    &&& w.mouse_pos is None
                    &&& w.update_rate.target is None
                    &&& w.update_rate.prev == 0
                    &&& w.background == 0
                    &&& w.scroll_acc == (0i32, 0i32)
                    &&& !w.scrolled
                    &&& !w.close_requested
                    &&& w.mouse_state == (false, false, false)
                    &&& w.mouse_scroll is None
                    &&& w.chars@.len() == 0
                    &&& w.cursor == CursorStyle::Arrow
                    &&& w.position == (0isize, 0isize)
                    &&& w.key_handler.now == 0
                    &&& w.menu_pressed is None
                    &&& w.surface@ == Seq::new((width * s * (height * s)) as nat, |i: int| 0u32)
                    &&& forall|i: int|
                        0 <= i < w.key_handler.states@.len() ==> !(
                        #[trigger] w.key_handler.states@[i]).seen
                            && !w.key_handler.states@[i].down
                            && !w.key_handler.states@[i].pressed
                            && !w.key_handler.states@[i].released
                }
            }),
    {
        let s = scale_of(opts.scale, width, height, screen_width, screen_height);
        let cw = match width.checked_mul(s) {
            Some(v) => v,
            None => return Err(Error::WindowCreate),
        };
        let ch = match height.checked_mul(s) {
            Some(v) => v,
            None => return Err(Error::WindowCreate),
        };
        if cw > i32::MAX as usize || ch > i32::MAX as usize {
            return Err(Error::WindowCreate);
        }
        let n = match cw.checked_mul(ch) {
            Some(v) => v,
            None => return Err(Error::WindowCreate),
        };
        Ok(
            Window {
                is_open: true,
                is_active: false,
                mouse_pos: None,
                mouse_scroll: None,
                scroll_acc: (0, 0),
                scrolled: false,
                close_requested: false,
                mouse_state: (false, false, false),
                update_rate: UpdateRate::new(),
                buffer_width: width,
                buffer_height: height,
                window_scale: s,
                client_width: cw,
                client_height: ch,
                scale_mode: opts.scale_mode,
                key_handler: KeyHandler::new(),
                menu_counter: MenuHandle(0),
                menus: Vec::new(),
                surface: filled(n, 0),
                background: 0,
                title: name.to_owned(),
                position: (0, 0),
                cursor: CursorStyle::Arrow,
                chars: Vec::new(),
                menu_pressed: None,
            },
        )
    }

    /// Opens a window named `name` for a buffer of `width` by `height`
    /// pixels, with no screen known: `Scale::FitScreen` selects a factor of 1.
    pub fn new(name: &str, width: usize, height: usize, opts: WindowOptions) -> (r: Result<
        Window,
        Error,
    >)
        ensures
            ({
                let s = scale_factor(opts.scale, width as int, height as int, 0, 0);
                let fits = width * s <= i32::MAX && height * s <= i32::MAX && (width * s) * (height
                    * s) <= usize::MAX;
                &&& r is Err <==> !fits
                &&& r is Err ==> r == Err::<Window, Error>(Error::WindowCreate)
                &&& r matches Ok(w) ==> {
                    &&& w.wf()
                    &&& w.is_open
                    &&& !w.is_active
                    &&& w.buffer_width == width
                    &&& w.buffer_height == height
                    &&& w.window_scale == s
                    &&& w.client_width == width * s
                    &&& w.client_height == height * s
                    &&& w.scale_mode == opts.scale_mode
                    &&& w.title@ == name@
                    &&& w.menus@.len() == 0
                    &&& w.menu_counter.0 == 0
                    &&& w.mouse_pos is None
                    &&& w.update_rate.target is None
                    &&& w.update_rate.prev == 0
                    &&& w.background == 0
                    &&& w.scroll_acc == (0i32, 0i32)
                    &&& !w.scrolled
                    &&& !w.close_requested
                    &&& w.mouse_state == (false, false, false)
                    &&& w.mouse_scroll is None
                    &&& w.chars@.len() == 0
                    &&& w.cursor == CursorStyle::Arrow
                    &&& w.position == (0isize, 0isize)
                    &&& w.key_handler.now == 0
                    &&& w.menu_pressed is None
                    &&& forall|i: int|
                        0 <= i < w.key_handler.states@.len() ==> !(
                        #[trigger] w.key_handler.states@[i]).seen
                            && !w.key_handler.states@[i].down
                            && !w.key_handler.states@[i].pressed
                            && !w.key_handler.states@[i].released
                }
            }),
    {
        Self::new_for_screen(name, width, height, opts, 0, 0)
    }
}

impl Window {
    /// Applies one report of the platform's event pump. Key changes are seen
    /// from the next frame on, and a close request closes the window at the
    /// end of the next frame.
    pub fn handle_event(&mut self, e: Event)
        requires
            old(self).wf(),
        ensures
            final(self).wf(),
            match e {
                Event::Key(k, down) => {
                    &&& final(self).key_handler.states@ == old(self).key_handler.states@.update(
                        k.index() as int,
                        crate::key_handler::KeyState { down, ..old(self).key_handler.state(k) },
                    )
                    &&& final(self).key_handler.now == old(self).key_handler.now
                    &&& final(self).key_handler.prev == old(self).key_handler.prev
                    &&& final(self).key_handler.repeat_delay == old(self).key_handler.repeat_delay
                    &&& final(self).key_handler.repeat_rate == old(self).key_handler.repeat_rate
                    &&& *final(self) == (Window { key_handler: final(self).key_handler, ..*old(self) })
                },
                Event::MouseMove(x, y) => *final(self) == (Window {
                    mouse_pos: Some((x, y)),
                    ..*old(self)
                }),
                Event::MouseLeave => *final(self) == (Window { mouse_pos: None, ..*old(self) }),
                Event::MouseButton(b, down) => *final(self) == (Window {
                    mouse_state: match b {
                        MouseButton::Left => (down, old(self).mouse_state.1, old(self).mouse_state.2),
                        MouseButton::Middle => (old(self).mouse_state.0, down, old(self).mouse_state.2),
                        MouseButton::Right => (old(self).mouse_state.0, old(self).mouse_state.1, down),
                    },
                    ..*old(self)
                }),
                Event::Scroll(dx, dy) => *final(self) == (Window {
                    scroll_acc: (
                        saturate_i32(old(self).scroll_acc.0 + dx) as i32,
                        saturate_i32(old(self).scroll_acc.1 + dy) as i32,
                    ),
                    scrolled: true,
                    ..*old(self)
                }),
                Event::Focus(active) => *final(self) == (Window { is_active: active, ..*old(self) }),
                Event::Resize(w, h) => if w <= i32::MAX && h <= i32::MAX && w * h <= usize::MAX {
                    &&& final(self).surface@ == Seq::new((w * h) as nat, |i: int| old(self).background)
                    &&& *final(self) == (Window {
                        client_width: w,
                        client_height: h,
                        surface: final(self).surface,
                        ..*old(self)
                    })
                } else {
                    *final(self) == *old(self)
                },
                Event::Close => *final(self) == (Window { close_requested: true, ..*old(self) }),
                Event::Char(c) => {
                    &&& final(self).chars@ == old(self).chars@.push(c)
                    &&& *final(self) == (Window { chars: final(self).chars, ..*old(self) })
                },
                Event::MenuActivated(id) => *final(self) == (Window {
                    menu_pressed: Some(id),
                    ..*old(self)
                }),
            },
    {
        match e {
            Event::Key(k, down) => self.key_handler.set_key_state(k, down),
            Event::MouseMove(x, y) => self.mouse_pos = Some((x, y)),
            Event::MouseLeave => self.mouse_pos = None,
            Event::MouseButton(b, down) => match b {
                MouseButton::Left => self.mouse_state.0 = down,
                MouseButton::Middle => self.mouse_state.1 = down,
                MouseButton::Right => self.mouse_state.2 = down,
            },
            Event::Scroll(dx, dy) => {
                self.scroll_acc = (
                    saturating_add_i32(self.scroll_acc.0, dx),
                    saturating_add_i32(self.scroll_acc.1, dy),
                );
                self.scrolled = true;
            },
            Event::Focus(active) => self.is_active = active,
            Event::Resize(w, h) => {
                if w <= i32::MAX as usize && h <= i32::MAX as usize {
                    if let Some(n) = w.checked_mul(h) {
                        self.client_width = w;
                        self.client_height = h;
                        self.surface = filled(n, self.background);
                    }
                }
            },
            Event::Close => self.close_requested = true,
            Event::Char(c) => self.chars.push(c),
            Event::MenuActivated(id) => self.menu_pressed = Some(id),
        }
    }

    /// The input part of a frame at `now`: latches keys, takes the wheel
    /// steps and returns how long to sleep for pacing.
    fn frame(&mut self, now: u64) -> (wait: u64)
        requires
            old(self).wf(),
            old(self).frame_ready(now),
        ensures
            final(self).wf(),
            old(self).frame_step(*final(self), now, wait),
            *final(self) == (Window {
                key_handler: final(self).key_handler,
                mouse_scroll: final(self).mouse_scroll,
                scroll_acc: final(self).scroll_acc,
                scrolled: final(self).scrolled,
                is_open: final(self).is_open,
                update_rate: final(self).update_rate,
                ..*old(self)
            }),
    {
        self.key_handler.update(now);
        self.mouse_scroll = if self.scrolled {
            Some(self.scroll_acc)
        } else {
            None
        };
        self.scroll_acc = (0, 0);
        self.scrolled = false;
        if self.close_requested {
            self.is_open = false;
        }
        self.update_rate.update(now)
    }

    /// Ends a frame at `now` (microseconds of a monotonic clock) without
    /// drawing: latches input and returns how long to sleep for pacing; a
    /// close requested before it takes effect at its end. On a closed window
    /// nothing changes.
    pub fn update(&mut self, now: u64) -> (wait: u64)
        requires
            old(self).wf(),
            old(self).frame_ready(now),
        ensures
            final(self).wf(),
            !old(self).is_open ==> wait == 0 && *final(self) == *old(self),
            old(self).is_open ==> {
                &&& old(self).frame_step(*final(self), now, wait)
                &&& *final(self) == (Window {
                    key_handler: final(self).key_handler,
                    mouse_scroll: final(self).mouse_scroll,
                    scroll_acc: final(self).scroll_acc,
                    scrolled: final(self).scrolled,
                    is_open: final(self).is_open,
                    update_rate: final(self).update_rate,
                    ..*old(self)
                })
            },
    {
        if !self.is_open {
            return 0;
        }
        self.frame(now)
    }

    /// Ends a frame at `now` (microseconds of a monotonic clock) that shows
    /// `buffer`: `height` rows of `width` pixels `0x00RRGGBB`, rows `stride`
    /// pixels apart. Latches input, draws the buffer scaled into the client
    /// area, and returns how long to sleep for pacing; a close requested
    /// before it takes effect at its end.
    pub fn update_with_buffer_stride(
        &mut self,
        buffer: &[u32],
        width: usize,
        height: usize,
        stride: usize,
        now: u64,
    ) -> (r: Result<u64, Error>)
        requires
            old(self).wf(),
            old(self).frame_ready(now),
        ensures
            final(self).wf(),
            !old(self).accepts(buffer@.len() as int, width as int, height as int, stride as int)
                ==> r == Err::<u64, Error>(Error::UpdateFailed) && *final(self) == *old(self),
            old(self).accepts(buffer@.len() as int, width as int, height as int, stride as int)
                ==> r is Ok,
            r matches Ok(wait) ==> {
                &&& old(self).frame_step(*final(self), now, wait)
                &&& final(self).surface@.len() == old(self).surface@.len()
                &&& forall|y: int, x: int|
                    0 <= y < old(self).client_height && 0 <= x < old(self).client_width
                        ==> #[trigger] pixel(final(self).surface@, old(self).client_width as int, y, x)
                        == shown_pixel(
                        buffer@,
                        width as int,
                        height as int,
                        stride as int,
                        old(self).window_scale as int,
                        old(self).offset_x(),
                        old(self).offset_y(),
                        old(self).background,
                        y,
                        x,
                    )
                &&& *final(self) == (Window {
                    key_handler: final(self).key_handler,
                    mouse_scroll: final(self).mouse_scroll,
                    scroll_acc: final(self).scroll_acc,
                    scrolled: final(self).scrolled,
                    is_open: final(self).is_open,
                    update_rate: final(self).update_rate,
                    surface: final(self).surface,
                    ..*old(self)
                })
            },
    {
        if !self.is_open || width != self.buffer_width || height != self.buffer_height {
            return Err(Error::UpdateFailed);
        }
        match check_buffer_size(buffer.len(), width, height, stride) {
            Err(e) => {
                return Err(e);
            },
            Ok(()) => {},
        }
        let s = self.window_scale;
        proof {
            assert(width * s <= (width * s) * (height * s) || height == 0) by (nonlinear_arith)
                requires
                    s >= 1,
            ;
        }
        let img = upscale(buffer, width, height, stride, s);
        let iw = width * s;
        let ih = height * s;
        let ox = placement_exec(self.scale_mode, self.client_width, iw);
        let oy = placement_exec(self.scale_mode, self.client_height, ih);
        let surface = compose(
            img.as_slice(),
            iw,
            ih,
            self.client_width,
            self.client_height,
            ox,
            oy,
            self.background,
        );
        let ghost old_self = *self;
        self.surface = surface;
        let wait = self.frame(now);
        proof {
            assert forall|y: int, x: int|
                0 <= y < old_self.client_height && 0 <= x < old_self.client_width
                    implies #[trigger] pixel(self.surface@, old_self.client_width as int, y, x)
                == shown_pixel(
                buffer@,
                width as int,
                height as int,
                stride as int,
                s as int,
                ox as int,
                oy as int,
                old_self.background,
                y,
                x,
            ) by {
                if ox <= x < ox + iw && oy <= y < oy + ih {
                    assert(pixel(img@, iw as int, y - oy, x - ox) == pixel(
                        buffer@,
                        stride as int,
                        (y - oy) / s as int,
                        (x - ox) / s as int,
                    ));
                }
            }
        }
        Ok(wait)
    }

    /// `update_with_buffer_stride` with rows `width` pixels apart.
    pub fn update_with_buffer(&mut self, buffer: &[u32], width: usize, height: usize, now: u64) -> (r: Result<u64, Error>)
        requires
            old(self).wf(),
            old(self).frame_ready(now),
        ensures
            final(self).wf(),
            !old(self).accepts(buffer@.len() as int, width as int, height as int, width as int)
                ==> r == Err::<u64, Error>(Error::UpdateFailed) && *final(self) == *old(self),
            old(self).accepts(buffer@.len() as int, width as int, height as int, width as int)
                ==> r is Ok,
            r matches Ok(wait) ==> {
                &&& old(self).frame_step(*final(self), now, wait)
                &&& final(self).surface@.len() == old(self).surface@.len()
                &&& forall|y: int, x: int|
                    0 <= y < old(self).client_height && 0 <= x < old(self).client_width
                        ==> #[trigger] pixel(final(self).surface@, old(self).client_width as int, y, x)
                        == shown_pixel(
                        buffer@,
                        width as int,
                        height as int,
                        width as int,
                        old(self).window_scale as int,
                        old(self).offset_x(),
                        old(self).offset_y(),
                        old(self).background,
                        y,
                        x,
                    )
                &&& *final(self) == (Window {
                    key_handler: final(self).key_handler,
                    mouse_scroll: final(self).mouse_scroll,
                    scroll_acc: final(self).scroll_acc,
                    scrolled: final(self).scrolled,
                    is_open: final(self).is_open,
                    update_rate: final(self).update_rate,
                    surface: final(self).surface,
                    ..*old(self)
                })
            },
    {
        self.update_with_buffer_stride(buffer, width, height, width, now)
    }
}

impl Window {
    /// Whether the window is still open.
    pub fn is_open(&self) -> (r: bool)
        ensures
            r == self.is_open,
    {
        self.is_open
    }

    /// Whether the window has keyboard focus.
    pub fn is_active(&mut self) -> (r: bool)
        ensures
            r == old(self).is_active,
            *final(self) == *old(self),
    {
        self.is_active
    }

    /// The current native client size.
    pub fn get_size(&self) -> (r: (usize, usize))
        ensures
            r == (self.client_width, self.client_height),
    {
        (self.client_width, self.client_height)
    }

    /// Sets the title.
    pub fn set_title(&mut self, title: &str)
        ensures
            final(self).title@ == title@,
            *final(self) == (Window { title: final(self).title, ..*old(self) }),
    {
        self.title = title.to_owned();
    }

    /// Moves the window to the native position `(x, y)`.
    pub fn set_position(&mut self, x: isize, y: isize)
        ensures
            *final(self) == (Window { position: (x, y), ..*old(self) }),
    {
        self.position = (x, y);
    }

    /// Sets the color, `0x00RRGGBB`, of the client area outside the buffer.
    pub fn set_background_color(&mut self, color: u32)
        ensures
            *final(self) == (Window { background: color, ..*old(self) }),
    {
        self.background = color;
    }

    /// Sets the shape of the cursor over the window.
    pub fn set_cursor_style(&mut self, cursor: CursorStyle)
        ensures
            *final(self) == (Window { cursor, ..*old(self) }),
    {
        self.cursor = cursor;
    }

    /// Sets the minimum spacing of frames, in microseconds; `None` disables
    /// pacing.
    pub fn set_rate(&mut self, rate: Option<u64>)
        ensures
            final(self).update_rate.target == rate,
            final(self).update_rate.prev == old(self).update_rate.prev,
            *final(self) == (Window { update_rate: final(self).update_rate, ..*old(self) }),
    {
        self.update_rate.set_rate(rate);
    }

    /// Sets the minimum spacing of frames, in microseconds; `None` disables
    /// pacing.
    pub fn limit_update_rate(&mut self, rate: Option<u64>)
        ensures
            final(self).update_rate.target == rate,
            final(self).update_rate.prev == old(self).update_rate.prev,
            *final(self) == (Window { update_rate: final(self).update_rate, ..*old(self) }),
    {
        self.set_rate(rate);
    }

    /// Paces a frame that is ready at `now`: returns how long to sleep.
    pub fn update_rate(&mut self, now: u64) -> (wait: u64)
        requires
            old(self).update_rate.prev <= now,
            old(self).update_rate.target matches Some(d) ==> old(self).update_rate.prev + d
                <= u64::MAX,
        ensures
            now + wait == frame_end(
                old(self).update_rate.prev as int,
                old(self).update_rate.target,
                now as int,
            ),
            final(self).update_rate.prev == now + wait,
            final(self).update_rate.target == old(self).update_rate.target,
            *final(self) == (Window { update_rate: final(self).update_rate, ..*old(self) }),
    {
        self.update_rate.update(now)
    }

    /// Keys down in the latest frame, in the order of the key table.
    pub fn get_keys(&self) -> (r: Option<Vec<Key>>)
        requires
            self.wf(),
        ensures
            r matches Some(v) && key_indices(v@) == indices_where(
                |i: int| self.key_handler.down_at(i),
                crate::key::KEY_COUNT as int,
            ),
    {
        Some(self.key_handler.get_keys())
    }

    /// Keys pressed in the latest frame, repeats included with
    /// `KeyRepeat::Yes`, in the order of the key table.
    pub fn get_keys_pressed(&self, repeat: KeyRepeat) -> (r: Option<Vec<Key>>)
        requires
            self.wf(),
        ensures
            r matches Some(v) && key_indices(v@) == indices_where(
                |i: int| self.key_handler.pressed_at(i, repeat),
                crate::key::KEY_COUNT as int,
            ),
    {
        Some(self.key_handler.get_keys_pressed(repeat))
    }

    /// Keys released in the latest frame, in the order of the key table.
    pub fn get_keys_released(&self) -> (r: Option<Vec<Key>>)
        requires
            self.wf(),
        ensures
            r matches Some(v) && key_indices(v@) == indices_where(
                |i: int| self.key_handler.released_at(i),
                crate::key::KEY_COUNT as int,
            ),
    {
        Some(self.key_handler.get_keys_released())
    }

    /// Whether `key` was down in the latest frame.
    pub fn is_key_down(&self, key: Key) -> (r: bool)
        requires
            self.wf(),
        ensures
            r == self.key_handler.down_at(key.index() as int),
    {
        self.key_handler.is_key_down(key)
    }

    /// Whether `key` went down in the latest frame or, with `KeyRepeat::Yes`,
    /// repeats in it.
    pub fn is_key_pressed(&self, key: Key, repeat: KeyRepeat) -> (r: bool)
        requires
            self.wf(),
        ensures
            r == self.key_handler.pressed_at(key.index() as int, repeat),
    {
        self.key_handler.is_key_pressed(key, repeat)
    }

    /// Whether `key` went up in the latest frame.
    pub fn is_key_released(&self, key: Key) -> (r: bool)
        requires
            self.wf(),
        ensures
            r == self.key_handler.released_at(key.index() as int),
    {
        self.key_handler.is_key_released(key)
    }

    /// Sets the delay before a held key repeats, in microseconds.
    pub fn set_key_repeat_delay(&mut self, delay: u64)
        requires
            old(self).wf(),
        ensures
            final(self).key_handler == (KeyHandler {
                repeat_delay: delay,
                ..old(self).key_handler
            }),
            *final(self) == (Window { key_handler: final(self).key_handler, ..*old(self) }),
    {
        self.key_handler.set_key_repeat_delay(delay);
    }

    /// Sets the spacing of repeats of a held key, in microseconds.
    pub fn set_key_repeat_rate(&mut self, rate: u64)
        requires
            old(self).wf(),
        ensures
            final(self).key_handler == (KeyHandler { repeat_rate: rate, ..old(self).key_handler }),
            *final(self) == (Window { key_handler: final(self).key_handler, ..*old(self) }),
    {
        self.key_handler.set_key_repeat_rate(rate);
    }

    /// Text input since the previous call, as code points, in order.
    pub fn take_chars(&mut self) -> (r: Vec<u32>)
        ensures
            r@ == old(self).chars@,
            final(self).chars@.len() == 0,
            *final(self) == (Window { chars: final(self).chars, ..*old(self) }),
    {
        let mut out: Vec<u32> = Vec::new();
        core::mem::swap(&mut out, &mut self.chars);
        out
    }

    /// Whether `button` is down.
    pub fn get_mouse_down(&self, button: MouseButton) -> (r: bool)
        ensures
            r == match button {
                MouseButton::Left => self.mouse_state.0,
                MouseButton::Middle => self.mouse_state.1,
                MouseButton::Right => self.mouse_state.2,
            },
    {
        match button {
            MouseButton::Left => self.mouse_state.0,
            MouseButton::Middle => self.mouse_state.1,
            MouseButton::Right => self.mouse_state.2,
        }
    }

    /// Wheel steps summed over the latest frame, if a wheel event arrived in
    /// it; each frame starts the sum afresh.
    pub fn get_scroll_wheel(&self) -> (r: Option<(i32, i32)>)
        ensures
            r == self.mouse_scroll,
    {
        self.mouse_scroll
    }

    /// The cursor position in buffer pixels, filtered by `mode`; `None` while
    /// the cursor is away from the window.
    pub fn get_mouse_pos(&self, mode: MouseMode) -> (r: Option<(i64, i64)>)
        requires
            self.wf(),
        ensures
            self.mouse_pos is None ==> r is None,
            self.mouse_pos matches Some(p) ==> match buffer_pos(
                mode,
                p.0 as int,
                p.1 as int,
                self.offset_x(),
                self.offset_y(),
                self.window_scale as int,
                self.buffer_width as int,
                self.buffer_height as int,
            ) {
                Some(q) => r matches Some(v) && v.0 == q.0 && v.1 == q.1,
                None => r is None,
            },
    {
        match self.mouse_pos {
            None => None,
            Some((x, y)) => {
                let ox = placement_exec(
                    self.scale_mode,
                    self.client_width,
                    self.buffer_width * self.window_scale,
                );
                let oy = placement_exec(
                    self.scale_mode,
                    self.client_height,
                    self.buffer_height * self.window_scale,
                );
                get_pos(
                    mode,
                    x,
                    y,
                    ox as i32,
                    oy as i32,
                    self.window_scale,
                    self.buffer_width,
                    self.buffer_height,
                )
            },
        }
    }

    /// The cursor position in native pixels, filtered by `mode` against the
    /// client area; `None` while the cursor is away from the window.
    pub fn get_unscaled_mouse_pos(&self, mode: MouseMode) -> (r: Option<(i64, i64)>)
        ensures
            self.mouse_pos is None ==> r is None,
            self.mouse_pos matches Some(p) ==> match buffer_pos(
                mode,
                p.0 as int,
                p.1 as int,
                0,
                0,
                1,
                self.client_width as int,
                self.client_height as int,
            ) {
                Some(q) => r matches Some(v) && v.0 == q.0 && v.1 == q.1,
                None => r is None,
            },
    {
        match self.mouse_pos {
            None => None,
            Some((x, y)) => get_pos(mode, x, y, 0, 0, 1, self.client_width, self.client_height),
        }
    }
}

impl Window {
    /// `after` is `self` with a copy of a menu attached under the handle `h`.
    pub open spec fn menu_added(&self, after: Window, h: MenuHandle) -> bool {
        &&& h == self.menu_counter
        &&& after.menu_counter.0 == h.0 + 1
        &&& menu_handles(after.menus@) == menu_handles(self.menus@).push(h)
        &&& after.menus@.drop_last() == self.menus@
    }

    fn next_menu_handle(&mut self) -> (r: MenuHandle)
        requires
            old(self).wf(),
            old(self).menu_counter.0 < u64::MAX,
        ensures
            final(self).wf(),
            r == old(self).menu_counter,
            *final(self) == (Window { menu_counter: MenuHandle((r.0 + 1) as u64), ..*old(self) }),
    {
        let handle = self.menu_counter;
        self.menu_counter.0 = self.menu_counter.0 + 1;
        handle
    }

    /// Attaches a copy of `menu` under a fresh handle and returns the handle;
    /// `menu` itself is left as it is.
    pub fn add_menu(&mut self, menu: &Menu) -> (r: MenuHandle)
        requires
            old(self).wf(),
            old(self).menu_counter.0 < u64::MAX,
        ensures
            final(self).wf(),
            old(self).menu_added(*final(self), r),
            (UnixMenu { handle: r, ..menu.internal }).same_menu(final(self).menus@.last()),
            *final(self) == (Window {
                menu_counter: final(self).menu_counter,
                menus: final(self).menus,
                ..*old(self)
            }),
    {
        let handle = self.next_menu_handle();
        let mut copy = menu.internal.duplicate();
        let ghost fresh = copy;
        copy.handle = handle;
        proof {
            let stamped = UnixMenu { handle, ..menu.internal };
            assert forall|d: nat| #[trigger] menu_copied(stamped, copy, d) by {
                assert(menu_copied(menu.internal, fresh, d));
                assert forall|i: int| 0 <= i < stamped.items@.len() implies entry_copied(
                    #[trigger] stamped.items@[i],
                    copy.items@[i],
                    d,
                ) by {
                    assert(entry_copied(menu.internal.items@[i], fresh.items@[i], d));
                }
            }
        }
        let ghost before = self.menus@;
        self.menus.push(copy);
        proof {
            assert(self.menus@.drop_last() =~= before);
            assert(menu_handles(self.menus@) =~= menu_handles(before).push(handle));
        }
        handle
    }

    /// The attached menus, in the order they were attached.
    pub fn get_unix_menus(&self) -> (r: Option<&Vec<UnixMenu>>)
        ensures
            r matches Some(v) && v@ == self.menus@,
    {
        Some(&self.menus)
    }

    /// Detaches the menus under `handle`; a retired handle changes nothing.
    pub fn remove_menu(&mut self, handle: MenuHandle)
        requires
            old(self).wf(),
        ensures
            final(self).wf(),
            final(self).menus@ == menus_without(old(self).menus@, handle),
            *final(self) == (Window { menus: final(self).menus, ..*old(self) }),
    {
        let ghost orig = self.menus@;
        let mut i: usize = 0;
        let ghost mut k: int = 0;
        while i < self.menus.len()
            invariant
                0 <= k <= orig.len(),
                orig == old(self).menus@,
                i == menus_without(orig.take(k), handle).len(),
                self.menus@ == menus_without(orig.take(k), handle) + orig.skip(k),
                *self == (Window { menus: self.menus, ..*old(self) }),
            decreases orig.len() - k,
        {
            proof {
                assert(orig.take(k + 1).drop_last() =~= orig.take(k));
                assert(orig.take(k + 1).last() == orig[k]);
                assert(self.menus@[i as int] == orig[k]);
            }
            if self.menus[i].handle.0 == handle.0 {
                self.menus.remove(i);
                proof {
                    assert(self.menus@ =~= menus_without(orig.take(k + 1), handle) + orig.skip(
                        k + 1,
                    ));
                }
            } else {
                i = i + 1;
                proof {
                    assert(self.menus@ =~= menus_without(orig.take(k + 1), handle) + orig.skip(
                        k + 1,
                    ));
                }
            }
            proof {
                k = k + 1;
            }
        }
        proof {
            assert(orig.take(orig.len() as int) =~= orig);
            assert(self.menus@ =~= menus_without(orig, handle));
            lemma_menus_without_subset(orig, handle);
            assert forall|i: int| 0 <= i < self.menus@.len() implies (
            #[trigger] self.menus@[i]).handle.0 < self.menu_counter.0 by {
                assert(orig.contains(self.menus@[i]));
                let j = choose|j: int| 0 <= j < orig.len() && orig[j] == self.menus@[i];
                assert(old(self).menus@[j] == orig[j]);
            }
        }
    }

    /// The id of the menu entry activated since the previous call, once.
    pub fn is_menu_pressed(&mut self) -> (r: Option<usize>)
        ensures
            r == old(self).menu_pressed,
            *final(self) == (Window { menu_pressed: None, ..*old(self) }),
    {
        let r = self.menu_pressed;
        self.menu_pressed = None;
        r
    }
}

proof fn lemma_menus_without_subset(menus: Seq<UnixMenu>, h: MenuHandle)
    ensures
        forall|i: int|
            0 <= i < menus_without(menus, h).len() ==> #[trigger] menus.contains(
                menus_without(menus, h)[i],
            ),
    decreases menus.len(),
{
    if menus.len() > 0 {
        lemma_menus_without_subset(menus.drop_last(), h);
        let r = menus_without(menus, h);
        let r0 = menus_without(menus.drop_last(), h);
        assert forall|i: int| 0 <= i < r.len() implies #[trigger] menus.contains(r[i]) by {
            if i < r0.len() {
                assert(r[i] == r0[i]);
                assert(menus.drop_last().contains(r0[i]));
                let j = choose|j: int| 0 <= j < menus.drop_last().len() && menus.drop_last()[j]
                    == r0[i];
                assert(menus[j] == menus.drop_last()[j]);
            } else {
                assert(r[i] == menus.last());
                assert(menus[menus.len() - 1] == menus.last());
            }
        }
    }
}

/// A handle that `add_menu` returns differs from the handle of every menu
/// attached before, and handles from later calls are larger, whatever was
/// removed in between.
pub proof fn law_menu_handles_fresh(
    w0: Window,
    w1: Window,
    h1: MenuHandle,
    w2: Window,
    w3: Window,
    h2: MenuHandle,
)
    requires
        w0.wf(),
        w0.menu_added(w1, h1),
        w1.menu_counter.0 <= w2.menu_counter.0,
        w2.menu_added(w3, h2),
    ensures
        h1.0 < h2.0,
        !menu_handles(w0.menus@).contains(h1),
{
    if menu_handles(w0.menus@).contains(h1) {
        let j = choose|j: int| 0 <= j < menu_handles(w0.menus@).len() && menu_handles(w0.menus@)[j] == h1;
        assert(w0.menus@[j].handle.0 < w0.menu_counter.0);
    }
}

/// Two buffers, or two background colours, that differ only in the unused
/// top byte of their words show the same client area.
pub proof fn law_top_byte_ignored(
    b1: Seq<u32>,
    b2: Seq<u32>,
    w: int,
    h: int,
    stride: int,
    s: int,
    ox: int,
    oy: int,
    bg1: u32,
    bg2: u32,
    y: int,
    x: int,
)
    requires
        b1.len() == b2.len(),
        forall|i: int| 0 <= i < b1.len() ==> rgb(#[trigger] b1[i]) == rgb(b2[i]),
        rgb(bg1) == rgb(bg2),
        s >= 1,
        0 <= w <= stride,
        0 <= h,
        stride * h <= b1.len(),
    ensures
        shown_pixel(b1, w, h, stride, s, ox, oy, bg1, y, x) == shown_pixel(
            b2,
            w,
            h,
            stride,
            s,
            ox,
            oy,
            bg2,
            y,
            x,
        ),
{
    if ox <= x < ox + w * s && oy <= y < oy + h * s {
        crate::scaler::lemma_source_index(y - oy, x - ox, s, w, h, stride);
        assert(h * stride == stride * h) by (nonlinear_arith);
        let i = ((y - oy) / s) * stride + (x - ox) / s;
        assert(rgb(b1[i]) == rgb(b2[i]));
    }
}

} // verus!
