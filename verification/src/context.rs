use vstd::prelude::*;

use crate::color::Color;
use crate::error::TinyPaintError;
use crate::vertex::DrawEvent;
use crate::vertex::Ndc;
use crate::vertex::Vertex;

verus! {

/// The exact x conversion: pixel `x` against canvas extent `max` lands on
/// `2x/max - 1`, held as the rational `(2x - max) / max`.
pub open spec fn spec_convert_x(x: u32, max: u32) -> Ndc {
    Ndc { num: (2 * x - max) as i64, den: max }
}

/// The exact y conversion: pixel `y` against canvas extent `max` lands on
/// `1 - 2y/max`, held as the rational `(max - 2y) / max`. The sign flips
/// against x because pixel rows grow downward while device y grows upward.
pub open spec fn spec_convert_y(y: u32, max: u32) -> Ndc {
    Ndc { num: (max - 2 * y) as i64, den: max }
}

/// Converts an x pixel coordinate to normalized device coordinates: pixel 0
/// lands on -1 and pixel `max` on 1. Out-of-range pixels map outside
/// `[-1, 1]` and are left to the rasterizer's clipping.
pub fn convert_x(x: u32, max: u32) -> (r: Ndc)
    ensures
        r == spec_convert_x(x, max),
{
    Ndc { num: 2 * (x as i64) - (max as i64), den: max }
}

/// Converts a y pixel coordinate to normalized device coordinates: pixel 0
/// lands on 1 and pixel `max` on -1.
pub fn convert_y(y: u32, max: u32) -> (r: Ndc)
    ensures
        r == spec_convert_y(y, max),
{
    Ndc { num: (max as i64) - 2 * (y as i64), den: max }
}

/// Law: conversion sends the left and top canvas edges to -1 and 1, the
/// right and bottom edges to 1 and -1, and the canvas center within one
/// denominator unit of 0 (exactly 0 when the extent is even); y mirrors x.
pub proof fn lemma_convert_edges(max: u32)
    requires
        max > 0,
    ensures
        spec_convert_x(0, max).is_value(-1),
        spec_convert_x(max, max).is_value(1),
        spec_convert_y(0, max).is_value(1),
        spec_convert_y(max, max).is_value(-1),
        -1 <= spec_convert_x(max / 2, max).num <= 0,
        0 <= spec_convert_y(max / 2, max).num <= 1,
        max % 2 == 0 ==> spec_convert_x(max / 2, max).is_value(0) && spec_convert_y(max / 2, max).is_value(0),
{
}

/// Law: every pixel coordinate within the canvas maps into `[-1, 1]`.
pub proof fn lemma_convert_in_range(p: u32, max: u32)
    requires
        max > 0,
        p <= max,
    ensures
        spec_convert_x(p, max).in_range(),
        spec_convert_y(p, max).in_range(),
{
}

#[verifier::external_type_specification]
#[verifier::external_body]
#[verifier::reject_recursive_types(T)]
pub struct ExSender<T>(std::sync::mpsc::Sender<T>);

/// Relies on std::sync::mpsc::Sender::send: posting succeeds unless the
/// receiving half of the channel has been dropped, and the only failure it
/// reports is that disconnection; delivered events keep their post order.
#[verifier::external_body]
fn post_event(sender: &std::sync::mpsc::Sender<DrawEvent>, event: DrawEvent) -> (r: Result<(), TinyPaintError>)
    ensures
        r matches Err(e) ==> e is ChannelClosed,
{
    match sender.send(event) {
        Ok(()) => Ok(()),
        Err(_) => Err(TinyPaintError::ChannelClosed),
    }
}

/// The drawing façade handed to producer code: a snapshot of the canvas
/// dimensions plus the sending half of the channel into the render loop.
///
/// The dimensions are captured at construction and fixed for the context's
/// lifetime (the window is not resizable). Draw calls are fire-and-forget:
/// they convert their pixel coordinates, post one event, and only fail when
/// the render loop has already terminated.
pub struct CanvasContext {
    /// Canvas width in pixels.
    pub width: u32,
    /// Canvas height in pixels.
    pub height: u32,
    /// The producer's half of the event channel.
    pub sender: std::sync::mpsc::Sender<DrawEvent>,
}

impl CanvasContext {
    /// The vertex a draw call makes of pixel point `p` and `color` on this
    /// canvas.
    pub open spec fn spec_convert_point(&self, p: (u32, u32), color: Color) -> Vertex {
        Vertex {
            x: spec_convert_x(p.0, self.width),
            y: spec_convert_y(p.1, self.height),
            color,
        }
    }

    /// Binds a context to a canvas of the given fixed dimensions, posting
    /// its events into `sender`.
    pub fn new(width: u32, height: u32, sender: std::sync::mpsc::Sender<DrawEvent>) -> (ctx: CanvasContext)
        ensures
            ctx.width == width,
            ctx.height == height,
    {
        CanvasContext { width, height, sender }
    }

    /// The canvas width in pixels.
    pub fn width(&self) -> (w: u32)
        ensures
            w == self.width,
    {
        self.width
    }

    /// The canvas height in pixels.
    pub fn height(&self) -> (h: u32)
        ensures
            h == self.height,
    {
        self.height
    }

    /// Converts a pixel point to a device-space vertex carrying `color`.
    pub fn convert_point(&self, p: (u32, u32), color: Color) -> (v: Vertex)
        ensures
            v == self.spec_convert_point(p, color),
    {
        Vertex {
            x: convert_x(p.0, self.width),
            y: convert_y(p.1, self.height),
            color,
        }
    }

    /// Draws a point at pixel `p0` with `color`: posts
    /// `DrawEvent::Point(self.spec_convert_point(p0, color))` into the
    /// render loop. Fails exactly when the loop has already exited.
    pub fn draw_point(&self, p0: (u32, u32), color: Color) -> (r: Result<(), TinyPaintError>)
        ensures
            r matches Err(e) ==> e is ChannelClosed,
    {
        let v0 = self.convert_point(p0, color);
        post_event(&self.sender, DrawEvent::Point(v0))
    }

    /// Draws a line from pixel `p0` to pixel `p1` with `color`: posts the
    /// matching `DrawEvent::Line` of converted endpoints into the render
    /// loop. Fails exactly when the loop has already exited.
    pub fn draw_line(&self, p0: (u32, u32), p1: (u32, u32), color: Color) -> (r: Result<(), TinyPaintError>)
        ensures
            r matches Err(e) ==> e is ChannelClosed,
    {
        let v0 = self.convert_point(p0, color);
        let v1 = self.convert_point(p1, color);
        post_event(&self.sender, DrawEvent::Line(v0, v1))
    }

    /// Draws a triangle over pixels `p0`, `p1`, `p2` with `color`: posts the
    /// matching `DrawEvent::Triangle` of converted corners into the render
    /// loop. Fails exactly when the loop has already exited.
    pub fn draw_triangle(&self, p0: (u32, u32), p1: (u32, u32), p2: (u32, u32), color: Color) -> (r: Result<(), TinyPaintError>)
        ensures
            r matches Err(e) ==> e is ChannelClosed,
    {
        let v0 = self.convert_point(p0, color);
        let v1 = self.convert_point(p1, color);
        let v2 = self.convert_point(p2, color);
        post_event(&self.sender, DrawEvent::Triangle(v0, v1, v2))
    }
}

} // verus!
