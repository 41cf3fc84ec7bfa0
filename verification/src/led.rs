//! What the on-board addressable RGB LEDs show: 25 pixels on an ATOM Matrix, one on an
//! ATOM Lite. Frames are computed here; the firmware writes them out.

use vstd::prelude::*;

verus! {

/// The color of one pixel.
#[derive(Debug, Clone, Copy, PartialEq, Eq, Structural)]
pub struct Rgb {
    pub r: u8,
    pub g: u8,
    pub b: u8,
}

pub open spec fn rgb(r: u8, g: u8, b: u8) -> Rgb {
    Rgb { r, g, b }
}

/// "On": a dim white (full brightness draws too much power and dazzles).
pub fn on_color() -> (c: Rgb)
    ensures
        c == rgb(16, 16, 16),
{
    Rgb { r: 16, g: 16, b: 16 }
}

pub fn off_color() -> (c: Rgb)
    ensures
        c == rgb(0, 0, 0),
{
    Rgb { r: 0, g: 0, b: 0 }
}

/// Main loop, every servo write succeeding: green.
pub fn ok_color() -> (c: Rgb)
    ensures
        c == rgb(0, 16, 0),
{
    Rgb { r: 0, g: 16, b: 0 }
}

/// Main loop, some servo write failing: red.
pub fn error_color() -> (c: Rgb)
    ensures
        c == rgb(16, 0, 0),
{
    Rgb { r: 16, g: 0, b: 0 }
}

/// Connected, Bluetooth link negotiation not finished yet: blue.
pub fn preparing_color() -> (c: Rgb)
    ensures
        c == rgb(0, 0, 16),
{
    Rgb { r: 0, g: 0, b: 16 }
}

/// `pixel_count` pixels, all of `color`.
pub fn solid_frame(color: Rgb, pixel_count: usize) -> (frame: Vec<Rgb>)
    ensures
        frame@ == Seq::new(pixel_count as nat, |_i: int| color),
{
    let mut frame: Vec<Rgb> = Vec::new();
    let mut i: usize = 0;
    while i < pixel_count
        invariant
            i <= pixel_count,
            frame@ == Seq::new(i as nat, |_i: int| color),
        decreases pixel_count - i,
    {
        frame.push(color);
        i = i + 1;
    }
    frame
}

/// The waiting-for-controller animation at frame `step`: with several pixels (ATOM
/// Matrix) only pixel `step % pixel_count` is on, so that the lit pixel marches along
/// the wiring order; with a single pixel (ATOM Lite) it is on at even steps and off at
/// odd ones.
pub open spec fn animation_pixel(pixel_count: nat, step: nat, i: int) -> Rgb {
    if pixel_count == 1 {
        if step % 2 == 0 {
            rgb(16, 16, 16)
        } else {
            rgb(0, 0, 0)
        }
    } else if i == step % pixel_count {
        rgb(16, 16, 16)
    } else {
        rgb(0, 0, 0)
    }
}

/// One frame of the animation shown while waiting for the controller.
pub fn connecting_animation_frame(pixel_count: usize, step: u32) -> (frame: Vec<Rgb>)
    ensures
        frame@ == Seq::new(
            pixel_count as nat,
            |i: int| animation_pixel(pixel_count as nat, step as nat, i),
        ),
{
    let mut frame: Vec<Rgb> = Vec::new();
    if pixel_count == 0 {
        assert(frame@ =~= Seq::new(
            pixel_count as nat,
            |i: int| animation_pixel(pixel_count as nat, step as nat, i),
        ));
        return frame;
    }
    if pixel_count == 1 {
        let c = if step % 2 == 0 {
            on_color()
        } else {
            off_color()
        };
        frame.push(c);
        assert(frame@ =~= Seq::new(
            pixel_count as nat,
            |i: int| animation_pixel(pixel_count as nat, step as nat, i),
        ));
        return frame;
    }
    let lit: usize = (step as usize) % pixel_count;
    assert(lit == step as nat % pixel_count as nat);
    let mut i: usize = 0;
    while i < pixel_count
        invariant
            i <= pixel_count,
            pixel_count > 1,
            lit == step as nat % pixel_count as nat,
            frame@ == Seq::new(
                i as nat,
                |k: int| animation_pixel(pixel_count as nat, step as nat, k),
            ),
        decreases pixel_count - i,
    {
        let c = if i == lit {
            on_color()
        } else {
            off_color()
        };
        frame.push(c);
        assert(frame@ =~= Seq::new(
            (i + 1) as nat,
            |k: int| animation_pixel(pixel_count as nat, step as nat, k),
        ));
        i = i + 1;
    }
    frame
}

/// The on/off switch of the LEDs (all pixels the same color).
pub struct LedState {
    pixel_count: usize,
    is_on: bool,
}

/// Pixel count and whether the LEDs are on.
pub struct LedModel {
    pub pixel_count: nat,
    pub is_on: bool,
}

impl View for LedState {
    type V = LedModel;

    closed spec fn view(&self) -> LedModel {
        LedModel { pixel_count: self.pixel_count as nat, is_on: self.is_on }
    }
}

impl LedState {
    /// `pixel_count` LEDs (ATOM Matrix: 25, ATOM Lite: 1), off.
    pub fn new(pixel_count: usize) -> (s: Self)
        ensures
            s@ == (LedModel { pixel_count: pixel_count as nat, is_on: false }),
    {
        LedState { pixel_count, is_on: false }
    }

    pub fn pixel_count(&self) -> (n: usize)
        ensures
            n == self@.pixel_count,
    {
        self.pixel_count
    }

    pub fn is_on(&self) -> (b: bool)
        ensures
            b == self@.is_on,
    {
        self.is_on
    }

    /// The frame that switches every pixel on (`on`) or off.
    pub fn switch_frame(&self, on: bool) -> (frame: Vec<Rgb>)
        ensures
            frame@ == Seq::new(
                self@.pixel_count,
                |_i: int|
                    if on {
                        rgb(16, 16, 16)
                    } else {
                        rgb(0, 0, 0)
                    },
            ),
    {
        let color = if on {
            on_color()
        } else {
            off_color()
        };
        solid_frame(color, self.pixel_count)
    }

    /// What a toggle switches to: off when on, on when off.
    pub fn toggle_target(&self) -> (on: bool)
        ensures
            on == !self@.is_on,
    {
        !self.is_on
    }

    /// Records that the frame for `on` was written.
    pub fn record(&mut self, on: bool)
        ensures
            final(self)@ == (LedModel { pixel_count: old(self)@.pixel_count, is_on: on }),
    {
        self.is_on = on;
    }
}

} // verus!
