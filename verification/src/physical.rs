//! Composition of a framebuffer and the panel driver: the drawing surface
//! that rendering code mutates, plus the lifecycle operations that move its
//! packed bytes to the panel.

use vstd::prelude::*;

use crate::driver::clear_screen_ops;
use crate::driver::init_ops;
use crate::driver::refresh_ops;
use crate::driver::sleep_ops;
use crate::driver::transmit_frame_ops;
use crate::driver::zero_frame;
use crate::driver::BusOp;
use crate::driver::BusOpModel;
use crate::driver::DisplayDriver;
use crate::driver::PowerState;
use crate::framebuffer::cleared_buffer;
use crate::framebuffer::in_bounds;
use crate::framebuffer::in_bounds_prefix_len;
use crate::framebuffer::pixel_at;
use crate::framebuffer::written;
use crate::framebuffer::written_all;
use crate::framebuffer::Color;
use crate::framebuffer::Coord;
use crate::framebuffer::DisplayConfig;
use crate::framebuffer::Framebuffer;
use crate::framebuffer::OutOfBoundsError;
use crate::framebuffer::DISPLAY_HEIGHT;
use crate::framebuffer::DISPLAY_WIDTH;

verus! {

/// A display backed by the physical panel: an in-memory framebuffer and the
/// protocol driver that carries its bytes to the hardware.
pub struct PhysicalDisplay {
    driver: DisplayDriver,
    fb: Framebuffer,
}

impl PhysicalDisplay {
    /// The packed framebuffer bytes.
    pub closed spec fn buffer(&self) -> Seq<u8> {
        self.fb@
    }

    /// The bounds policy of the drawing surface.
    pub closed spec fn spec_allow_out_of_bounds(&self) -> bool {
        self.fb.spec_allow_out_of_bounds()
    }

    /// The driver's lifecycle state.
    pub closed spec fn spec_state(&self) -> PowerState {
        self.driver.spec_state()
    }

    /// The driver's pause between busy polls.
    pub closed spec fn spec_poll_delay(&self) -> u32 {
        self.driver.spec_poll_delay()
    }

    /// The recorded bus operations.
    pub closed spec fn trace(&self) -> Seq<BusOpModel> {
        self.driver.trace()
    }

    /// The framebuffer always holds exactly one packed frame.
    pub open spec fn wf(&self) -> bool {
        self.buffer().len() == crate::framebuffer::BUFFER_SIZE
    }

    /// Pairs a fresh all-off framebuffer with the given driver.
    pub fn new(driver: DisplayDriver, config: DisplayConfig) -> (d: PhysicalDisplay)
        ensures
            d.wf(),
            d.buffer() == Seq::new(crate::framebuffer::BUFFER_SIZE as nat, |i: int| 0u8),
            d.spec_allow_out_of_bounds() == config.allow_out_of_bounds_drawing,
            d.spec_state() == driver.spec_state(),
            d.spec_poll_delay() == driver.spec_poll_delay(),
            d.trace() == driver.trace(),
    {
        PhysicalDisplay { driver, fb: Framebuffer::new(config) }
    }

    /// Whether out-of-bounds draws are dropped (true) or rejected (false).
    pub fn allow_out_of_bounds_drawing(&self) -> (r: bool)
        ensures
            r == self.spec_allow_out_of_bounds(),
    {
        self.fb.allow_out_of_bounds_drawing()
    }

    /// The panel dimensions in pixels, width then height.
    pub fn size(&self) -> (r: (u32, u32))
        ensures
            r.0 == DISPLAY_WIDTH,
            r.1 == DISPLAY_HEIGHT,
    {
        (DISPLAY_WIDTH, DISPLAY_HEIGHT)
    }

    /// Reads a pixel; the caller must have validated the bounds.
    pub fn get_pixel(&self, x: i32, y: i32) -> (c: Color)
        requires
            self.wf(),
            in_bounds(x as int, y as int),
        ensures
            c == pixel_at(self.buffer(), x as int, y as int),
    {
        self.fb.get_pixel(x, y)
    }

    /// Writes a pixel with no bounds check; callers must have validated the
    /// coordinate.
    pub fn set_pixel_unchecked(&mut self, x: i32, y: i32, color: Color)
        requires
            old(self).wf(),
            in_bounds(x as int, y as int),
        ensures
            final(self).wf(),
            final(self).buffer() == written(old(self).buffer(), x as int, y as int, color),
            final(self).spec_allow_out_of_bounds() == old(self).spec_allow_out_of_bounds(),
            final(self).spec_state() == old(self).spec_state(),
            final(self).spec_poll_delay() == old(self).spec_poll_delay(),
            final(self).trace() == old(self).trace(),
    {
        self.fb.set_pixel_unchecked(x, y, color);
    }

    /// Entry point for internal callers that have already range-checked the
    /// geometry.
    pub fn set_pixel(&mut self, x: i32, y: i32, color: Color)
        requires
            old(self).wf(),
            in_bounds(x as int, y as int),
        ensures
            final(self).wf(),
            final(self).buffer() == written(old(self).buffer(), x as int, y as int, color),
            final(self).spec_allow_out_of_bounds() == old(self).spec_allow_out_of_bounds(),
            final(self).spec_state() == old(self).spec_state(),
            final(self).spec_poll_delay() == old(self).spec_poll_delay(),
            final(self).trace() == old(self).trace(),
    {
        self.fb.set_pixel(x, y, color);
    }

    /// Public drawing entry point, gated by the bounds policy.
    pub fn draw_pixel(&mut self, x: i32, y: i32, color: Color) -> (r: Result<(), OutOfBoundsError>)
        requires
            old(self).wf(),
        ensures
            final(self).wf(),
            final(self).spec_allow_out_of_bounds() == old(self).spec_allow_out_of_bounds(),
            final(self).spec_state() == old(self).spec_state(),
            final(self).spec_poll_delay() == old(self).spec_poll_delay(),
            final(self).trace() == old(self).trace(),
            in_bounds(x as int, y as int) ==> r is Ok && final(self).buffer() == written(
                old(self).buffer(),
                x as int,
                y as int,
                color,
            ),
            !in_bounds(x as int, y as int) ==> final(self).buffer() == old(self).buffer(),
            r is Err <==> !in_bounds(x as int, y as int) && !old(self).spec_allow_out_of_bounds(),
    {
        self.fb.draw_pixel(x, y, color)
    }

    /// Applies `set_pixel` to each point in order; no atomicity across the
    /// batch.
    pub fn set_pixels(&mut self, points: &Vec<Coord>, color: Color) -> (r: Result<
        (),
        OutOfBoundsError,
    >)
        requires
            old(self).wf(),
        ensures
            final(self).wf(),
            final(self).spec_allow_out_of_bounds() == old(self).spec_allow_out_of_bounds(),
            final(self).spec_state() == old(self).spec_state(),
            final(self).spec_poll_delay() == old(self).spec_poll_delay(),
            final(self).trace() == old(self).trace(),
            r is Ok <==> in_bounds_prefix_len(points@) == points@.len(),
            final(self).buffer() == written_all(
                old(self).buffer(),
                points@,
                color,
                in_bounds_prefix_len(points@),
            ),
    {
        self.fb.set_pixels(points, color)
    }

    /// Fills the framebuffer with one color; the panel itself is untouched
    /// until the next flush and refresh.
    pub fn clear(&mut self, color: Color)
        requires
            old(self).wf(),
        ensures
            final(self).wf(),
            final(self).spec_allow_out_of_bounds() == old(self).spec_allow_out_of_bounds(),
            final(self).spec_state() == old(self).spec_state(),
            final(self).spec_poll_delay() == old(self).spec_poll_delay(),
            final(self).trace() == old(self).trace(),
            final(self).buffer() == crate::framebuffer::clear_spec(old(self).buffer(), color),
            forall|i: int, j: int| in_bounds(i, j) ==> #[trigger] pixel_at(final(self).buffer(), i, j)
                == color,
    {
        self.fb.clear(color);
    }

    /// Sends the framebuffer contents to the panel: wait idle, then the full
    /// frame behind "data start transmission 2".
    pub fn flush(&mut self)
        requires
            old(self).wf(),
            old(self).spec_state() == PowerState::Awake,
        ensures
            final(self).wf(),
            final(self).buffer() == old(self).buffer(),
            final(self).spec_allow_out_of_bounds() == old(self).spec_allow_out_of_bounds(),
            final(self).spec_state() == PowerState::Awake,
            final(self).spec_poll_delay() == old(self).spec_poll_delay(),
            final(self).trace() == old(self).trace() + transmit_frame_ops(
                old(self).buffer(),
                old(self).spec_poll_delay(),
            ),
    {
        self.driver.transmit_frame(self.fb.as_vec());
    }

    /// Commits the last transmitted frame to visible pixels.
    pub fn refresh(&mut self)
        requires
            old(self).wf(),
            old(self).spec_state() == PowerState::Awake,
        ensures
            final(self).wf(),
            final(self).buffer() == old(self).buffer(),
            final(self).spec_allow_out_of_bounds() == old(self).spec_allow_out_of_bounds(),
            final(self).spec_state() == PowerState::Awake,
            final(self).spec_poll_delay() == old(self).spec_poll_delay(),
            final(self).trace() == old(self).trace() + refresh_ops(old(self).spec_poll_delay()),
    {
        self.driver.refresh();
    }

    /// Flush followed by refresh: the frame becomes visible.
    pub fn flush_and_refresh(&mut self)
        requires
            old(self).wf(),
            old(self).spec_state() == PowerState::Awake,
        ensures
            final(self).wf(),
            final(self).buffer() == old(self).buffer(),
            final(self).spec_allow_out_of_bounds() == old(self).spec_allow_out_of_bounds(),
            final(self).spec_state() == PowerState::Awake,
            final(self).spec_poll_delay() == old(self).spec_poll_delay(),
            final(self).trace() == old(self).trace() + transmit_frame_ops(
                old(self).buffer(),
                old(self).spec_poll_delay(),
            ) + refresh_ops(old(self).spec_poll_delay()),
    {
        self.flush();
        self.refresh();
    }

    /// Blanks the panel's internal planes and refreshes; when asked, also
    /// resets the framebuffer to all-off.
    pub fn clear_screen(&mut self, clear_frame_buffer: bool)
        requires
            old(self).wf(),
            old(self).spec_state() == PowerState::Awake,
        ensures
            final(self).wf(),
            final(self).spec_allow_out_of_bounds() == old(self).spec_allow_out_of_bounds(),
            final(self).spec_state() == PowerState::Awake,
            final(self).spec_poll_delay() == old(self).spec_poll_delay(),
            final(self).trace() == old(self).trace() + clear_screen_ops(
                old(self).spec_poll_delay(),
            ),
            clear_frame_buffer ==> final(self).buffer() == zero_frame(),
            !clear_frame_buffer ==> final(self).buffer() == old(self).buffer(),
    {
        if clear_frame_buffer {
            self.fb.clear(Color::Off);
            proof {
                assert(cleared_buffer(Color::Off) =~= zero_frame());
            }
        }
        self.driver.clear_screen();
    }

    /// Puts the panel into deep sleep.
    pub fn sleep(&mut self)
        requires
            old(self).wf(),
            old(self).spec_state() == PowerState::Awake,
        ensures
            final(self).wf(),
            final(self).buffer() == old(self).buffer(),
            final(self).spec_allow_out_of_bounds() == old(self).spec_allow_out_of_bounds(),
            final(self).spec_state() == PowerState::Asleep,
            final(self).spec_poll_delay() == old(self).spec_poll_delay(),
            final(self).trace() == old(self).trace() + sleep_ops(old(self).spec_poll_delay()),
    {
        self.driver.sleep();
    }

    /// Wakes a sleeping panel by re-running the full initialization.
    pub fn wake_up(&mut self)
        requires
            old(self).wf(),
            old(self).spec_state() == PowerState::Asleep,
        ensures
            final(self).wf(),
            final(self).buffer() == old(self).buffer(),
            final(self).spec_allow_out_of_bounds() == old(self).spec_allow_out_of_bounds(),
            final(self).spec_state() == PowerState::Awake,
            final(self).spec_poll_delay() == old(self).spec_poll_delay(),
            final(self).trace() == old(self).trace() + init_ops(),
    {
        self.driver.wake_up();
    }

    /// Runs the full initialization sequence on a panel that is not awake.
    pub fn init(&mut self)
        requires
            old(self).wf(),
            old(self).spec_state() != PowerState::Awake,
        ensures
            final(self).wf(),
            final(self).buffer() == old(self).buffer(),
            final(self).spec_allow_out_of_bounds() == old(self).spec_allow_out_of_bounds(),
            final(self).spec_state() == PowerState::Awake,
            final(self).spec_poll_delay() == old(self).spec_poll_delay(),
            final(self).trace() == old(self).trace() + init_ops(),
    {
        self.driver.init();
    }

    /// The driver's current lifecycle state, for callers that must check it
    /// before issuing a lifecycle request.
    pub fn state(&self) -> (r: PowerState)
        ensures
            r == self.spec_state(),
    {
        self.driver.state()
    }

    /// Hands the recorded bus operations to the executor.
    pub fn take_ops(&mut self) -> (r: Vec<BusOp>)
        ensures
            r.deep_view() == old(self).trace(),
            final(self).trace() == Seq::<BusOpModel>::empty(),
            final(self).buffer() == old(self).buffer(),
            final(self).spec_allow_out_of_bounds() == old(self).spec_allow_out_of_bounds(),
            final(self).spec_state() == old(self).spec_state(),
            final(self).spec_poll_delay() == old(self).spec_poll_delay(),
    {
        self.driver.take_ops()
    }

    /// The recorded bus operations, for a harness to inspect.
    pub fn ops(&self) -> (r: &Vec<BusOp>)
        ensures
            r.deep_view() == self.trace(),
    {
        self.driver.ops()
    }

    /// The packed frame bytes, read-only.
    pub fn as_bytes(&self) -> (r: &[u8])
        ensures
            r@ == self.buffer(),
    {
        self.fb.as_bytes()
    }
}

} // verus!
