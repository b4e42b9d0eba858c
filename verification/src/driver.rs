//! The presentation loop's verified half: it owns the backing buffer, decides
//! what the host must do for each windowing signal, and keeps the declared
//! dimensions synchronized with the buffer capacity across resizes.
//!
//! The host side performs the opaque waits and the actual surface submission;
//! it feeds each signal to [`Presenter::handle_event`] and carries out the
//! returned [`LoopAction`].

use crate::canvas::Canvas;
use crate::color::PixelFormat;
use crate::render::FrameRenderer;
use vstd::prelude::*;

verus! {

/// A signal from the windowing layer, reduced to what the loop decides on.
#[derive(Clone, Copy, Debug, PartialEq, Eq, Structural)]
pub enum LoopEvent {
    /// The surface asks for the next frame.
    RedrawRequested,
    /// The window was closed or the cancel key was pressed.
    QuitRequested,
    /// The presentable surface changed to the given size.
    Resized(i32, i32),
    /// Any other input batch was processed; the animation keeps going.
    Tick,
}

/// What the host must do next.
#[derive(Clone, Copy, Debug, PartialEq, Eq, Structural)]
pub enum LoopAction {
    /// Run the frame renderer over the canvas, then present the buffer.
    RenderAndPresent,
    /// Ask the windowing layer to schedule another redraw.
    RequestRedraw,
    /// Stop the loop; nothing further is rendered or presented.
    Exit,
    /// Nothing to do for this signal.
    Idle,
}

/// A size the canvas can actually be reallocated to: positive dimensions
/// whose buffer fits in memory at four bytes per pixel.
pub open spec fn valid_size(width: int, height: int) -> bool {
    &&& 0 < width
    &&& 0 < height
    &&& width * height * 4 <= usize::MAX as int
}

/// The host-side driver state: the backing buffer it owns, and whether a
/// stop signal has been observed.
pub struct Presenter {
    canvas: Canvas,
    running: bool,
}

impl Presenter {
    /// The presenter's canvas always matches its declared dimensions.
    pub closed spec fn wf(self) -> bool {
        self.canvas.wf()
    }

    /// The canvas the next frame will be rendered into.
    pub closed spec fn spec_canvas(self) -> Canvas {
        self.canvas
    }

    /// Whether no stop signal has been observed yet.
    pub closed spec fn is_running(self) -> bool {
        self.running
    }

    /// Makes a presenter with a fresh canvas of the given shape.
    pub fn new(width: i32, height: i32, format: PixelFormat) -> (p: Presenter)
        requires
            valid_size(width as int, height as int),
        ensures
            p.wf(),
            p.is_running(),
            p.spec_canvas().spec_width() == width,
            p.spec_canvas().spec_height() == height,
            p.spec_canvas().spec_format() == format,
    {
        Presenter { canvas: Canvas::new(width, height, format), running: true }
    }

    /// Decides the host's next step for one windowing signal.
    ///
    /// A quit signal stops the loop for good: from then on every signal
    /// answers `Exit`, so no frame is rendered or presented after a stop
    /// signal was observed. A resize reallocates the buffer together with the
    /// declared dimensions, before any later frame can be rendered; a size
    /// the canvas cannot take (a zero dimension, or an allocation that cannot
    /// fit) leaves the canvas as it was.
    pub fn handle_event(&mut self, ev: LoopEvent) -> (a: LoopAction)
        requires
            old(self).wf(),
        ensures
            final(self).wf(),
            final(self).spec_canvas().spec_format() == old(self).spec_canvas().spec_format(),
            match ev {
                LoopEvent::QuitRequested => {
                    &&& a == LoopAction::Exit
                    &&& !final(self).is_running()
                    &&& final(self).spec_canvas() == old(self).spec_canvas()
                },
                LoopEvent::RedrawRequested => {
                    &&& *final(self) == *old(self)
                    &&& a == if old(self).is_running() {
                        LoopAction::RenderAndPresent
                    } else {
                        LoopAction::Exit
                    }
                },
                LoopEvent::Resized(w, h) => {
                    &&& final(self).is_running() == old(self).is_running()
                    &&& a == if old(self).is_running() {
                        LoopAction::RequestRedraw
                    } else {
                        LoopAction::Exit
                    }
                    &&& if old(self).is_running() && valid_size(w as int, h as int) {
                        &&& final(self).spec_canvas().spec_width() == w
                        &&& final(self).spec_canvas().spec_height() == h
                    } else {
                        final(self).spec_canvas() == old(self).spec_canvas()
                    }
                },
                LoopEvent::Tick => {
                    &&& *final(self) == *old(self)
                    &&& a == if old(self).is_running() {
                        LoopAction::RequestRedraw
                    } else {
                        LoopAction::Exit
                    }
                },
            },
    {
        if !self.running {
            return LoopAction::Exit;
        }
        match ev {
            LoopEvent::QuitRequested => {
                self.running = false;
                LoopAction::Exit
            },
            LoopEvent::RedrawRequested => LoopAction::RenderAndPresent,
            LoopEvent::Resized(w, h) => {
                if 0 < w && 0 < h {
                    proof {
                        assert((w as int) * (h as int) * 4 < 0x10000000000000000)
                            by (nonlinear_arith)
                            requires
                                0 < w < 0x80000000,
                                0 < h < 0x80000000,
                        ;
                    }
                    if (w as u64) * (h as u64) * 4 <= usize::MAX as u64 {
                        self.canvas.resize(w, h);
                    }
                }
                LoopAction::RequestRedraw
            },
            LoopEvent::Tick => LoopAction::RequestRedraw,
        }
    }

    /// One frame: hands the canvas to the renderer. By the renderer's
    /// contract the canvas comes back well-formed and with the shape it was
    /// given — the dimensions a renderer sees are never stale.
    pub fn render_frame<R: FrameRenderer>(&mut self, renderer: &mut R)
        requires
            old(self).wf(),
        ensures
            final(self).wf(),
            final(self).spec_canvas().spec_width() == old(self).spec_canvas().spec_width(),
            final(self).spec_canvas().spec_height() == old(self).spec_canvas().spec_height(),
            final(self).spec_canvas().spec_format() == old(self).spec_canvas().spec_format(),
            final(self).is_running() == old(self).is_running(),
    {
        renderer.frame(&mut self.canvas);
    }

    /// Records the outcome of presenting the frame. A failed submission is
    /// fatal and never retried: the loop stops.
    pub fn handle_present_result(&mut self, ok: bool) -> (a: LoopAction)
        requires
            old(self).wf(),
        ensures
            final(self).wf(),
            final(self).spec_canvas() == old(self).spec_canvas(),
            ok ==> *final(self) == *old(self) && a == LoopAction::Idle,
            !ok ==> !final(self).is_running() && a == LoopAction::Exit,
    {
        if ok {
            LoopAction::Idle
        } else {
            self.running = false;
            LoopAction::Exit
        }
    }

    /// The canvas holding the frame to present.
    pub fn canvas(&self) -> (c: &Canvas)
        ensures
            *c == self.spec_canvas(),
    {
        &self.canvas
    }

    /// Whether no stop signal has been observed yet.
    pub fn running(&self) -> (r: bool)
        ensures
            r == self.is_running(),
    {
        self.running
    }
}

} // verus!
