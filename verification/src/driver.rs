//! Protocol-level driver for the panel, modelled as a state machine over bus
//! operations.
//!
//! The physical bus (chip select, data/command select, reset line, serial
//! channel, busy input) lives outside this crate. Each lifecycle request here
//! appends to an owned trace the exact, ordered operations that the request
//! must put on the wire; an unverified executor replays them against the
//! hardware and reports its I/O errors itself. The contracts pin the whole
//! trace down, so a recording harness can compare it operation by operation.
//!
//! The driver also tracks the panel lifecycle (uninitialized, awake, asleep):
//! commands may only be issued while the panel is awake, and after deep sleep
//! only a full re-initialization brings it back.

use vstd::prelude::*;

use crate::command::Command;
use crate::framebuffer::BUFFER_SIZE;

verus! {

/// What the data/command select line says about the bytes of a transfer.
#[derive(Clone, Copy, Debug, PartialEq, Eq, Structural)]
pub enum TransferMode {
    Command,
    Data,
}

/// One operation on the panel bus. A `Transfer` is one chip-select cycle:
/// select the line mode, assert chip select, write the bytes, deassert.
/// `WaitUntilIdle` polls the busy input until the panel releases it, pausing
/// the given number of milliseconds between polls (zero means tight-poll).
#[derive(Debug, PartialEq, Eq)]
pub enum BusOp {
    Transfer(TransferMode, Vec<u8>),
    SetResetLine(bool),
    DelayMs(u32),
    WaitUntilIdle(u32),
}

/// The mathematical form of a bus operation: payloads as sequences.
pub enum BusOpModel {
    Transfer(TransferMode, Seq<u8>),
    SetResetLine(bool),
    DelayMs(u32),
    WaitUntilIdle(u32),
}

impl DeepView for BusOp {
    type V = BusOpModel;

    open spec fn deep_view(&self) -> BusOpModel {
        match self {
            BusOp::Transfer(mode, bytes) => BusOpModel::Transfer(*mode, bytes@),
            BusOp::SetResetLine(level) => BusOpModel::SetResetLine(*level),
            BusOp::DelayMs(ms) => BusOpModel::DelayMs(*ms),
            BusOp::WaitUntilIdle(ms) => BusOpModel::WaitUntilIdle(*ms),
        }
    }
}

/// A sampled level of the busy input line.
#[derive(Clone, Copy, Debug, PartialEq, Eq, Structural)]
pub enum LineLevel {
    Low,
    High,
}

/// The busy polarity is inverted: the panel pulls the line low while it is
/// processing, so a low reading means busy and a high reading means idle.
pub fn is_busy(level: LineLevel) -> (r: bool)
    ensures
        r == (level is Low),
{
    match level {
        LineLevel::Low => true,
        LineLevel::High => false,
    }
}

/// What an idle wait does after one sample of the busy line.
#[derive(Clone, Copy, Debug, PartialEq, Eq, Structural)]
pub enum PollAction {
    /// The line reads high: the panel is idle, the wait is over.
    Done,
    /// The line reads low and the configured pause is zero: sample again at
    /// once (tight-poll).
    PollAgain,
    /// The line reads low: pause this many milliseconds, then sample again.
    PauseThenPoll(u32),
}

/// One step of the idle wait: the panel is idle exactly when the busy line
/// reads high, and while it is busy the configured pause paces the polling.
/// The wait has no timeout; a stuck busy line keeps the caller polling.
pub fn idle_poll_action(level: LineLevel, poll_delay_ms: u32) -> (r: PollAction)
    ensures
        r == PollAction::Done <==> level is High,
        level is Low && poll_delay_ms == 0 ==> r == PollAction::PollAgain,
        level is Low && poll_delay_ms > 0 ==> r == PollAction::PauseThenPoll(poll_delay_ms),
{
    match level {
        LineLevel::High => PollAction::Done,
        LineLevel::Low => {
            if poll_delay_ms == 0 {
                PollAction::PollAgain
            } else {
                PollAction::PauseThenPoll(poll_delay_ms)
            }
        },
    }
}

/// The panel lifecycle: a fresh driver is uninitialized; `init` wakes the
/// panel; `sleep` puts it into deep sleep; `wake_up` re-runs `init` in full.
#[derive(Clone, Copy, Debug, PartialEq, Eq, Structural)]
pub enum PowerState {
    Uninitialized,
    Awake,
    Asleep,
}

/// Driver configuration: the pause between busy polls, in milliseconds.
/// Zero is legal and means tight-polling.
pub struct DisplayDriverConfig {
    pub delay_ms: u32,
}

/// A command-mode transfer of the single opcode byte.
pub open spec fn cmd_op(c: Command) -> BusOpModel {
    BusOpModel::Transfer(TransferMode::Command, seq![c.address_spec()])
}

/// A data-mode transfer of a payload.
pub open spec fn data_op(bytes: Seq<u8>) -> BusOpModel {
    BusOpModel::Transfer(TransferMode::Data, bytes)
}

/// Select command mode and send the opcode, then select data mode and send
/// the payload.
pub open spec fn cmd_with_data_ops(c: Command, bytes: Seq<u8>) -> Seq<BusOpModel> {
    seq![cmd_op(c), data_op(bytes)]
}

/// The mandatory reset pulse: high, low, high, with fixed holds of 200 ms,
/// 2 ms and 200 ms. Shortening these holds is a documented cause of panel
/// non-response, so they are part of the contract.
pub open spec fn reset_ops() -> Seq<BusOpModel> {
    seq![
        BusOpModel::SetResetLine(true),
        BusOpModel::DelayMs(200),
        BusOpModel::SetResetLine(false),
        BusOpModel::DelayMs(2),
        BusOpModel::SetResetLine(true),
        BusOpModel::DelayMs(200),
    ]
}

/// The full initialization sequence: reset, then the fixed ordered register
/// writes. The panel raises no protocol error for a wrong order — it silently
/// misbehaves — so this spec is the correctness authority for the order.
pub open spec fn init_ops() -> Seq<BusOpModel> {
    reset_ops() + cmd_with_data_ops(Command::PowerSetting, seq![0x07u8, 0x07u8, 0x3fu8, 0x3fu8])
        + seq![cmd_op(Command::PowerOn), BusOpModel::DelayMs(100)] + cmd_with_data_ops(
        Command::PanelSetting,
        seq![0x1fu8],
    ) + cmd_with_data_ops(Command::TconResolution, seq![0x03u8, 0x20u8, 0x01u8, 0xe0u8])
        + cmd_with_data_ops(Command::DualSpi, seq![0x00u8]) + cmd_with_data_ops(
        Command::VcomAndDataIntervalSetting,
        seq![0x10u8, 0x07u8],
    ) + cmd_with_data_ops(Command::TconSetting, seq![0x22u8]) + cmd_with_data_ops(
        Command::SpiFlashControl,
        seq![0x00u8, 0x00u8, 0x00u8, 0x00u8],
    )
}

/// Frame transmission: wait until the panel is idle, then send the
/// "data start transmission 2" command followed by the whole packed frame.
pub open spec fn transmit_frame_ops(frame: Seq<u8>, poll_delay_ms: u32) -> Seq<BusOpModel> {
    seq![BusOpModel::WaitUntilIdle(poll_delay_ms)] + cmd_with_data_ops(
        Command::DataStartTransmission2,
        frame,
    )
}

/// Refresh: issue the display-refresh command, hold 50 ms, then wait idle.
/// This is what commits a transmitted frame to visible pixels.
pub open spec fn refresh_ops(poll_delay_ms: u32) -> Seq<BusOpModel> {
    seq![
        cmd_op(Command::DisplayRefresh),
        BusOpModel::DelayMs(50),
        BusOpModel::WaitUntilIdle(poll_delay_ms),
    ]
}

/// An all-zero frame: every pixel off.
pub open spec fn zero_frame() -> Seq<u8> {
    Seq::new(BUFFER_SIZE as nat, |i: int| 0u8)
}

/// Blanking: write an all-off frame to both of the panel's internal
/// transmission buffers (old-image and new-image planes), then refresh.
pub open spec fn clear_screen_ops(poll_delay_ms: u32) -> Seq<BusOpModel> {
    cmd_with_data_ops(Command::DataStartTransmission1, zero_frame()) + cmd_with_data_ops(
        Command::DataStartTransmission2,
        zero_frame(),
    ) + refresh_ops(poll_delay_ms)
}

/// Deep sleep: power off, wait idle, then deep-sleep with its required
/// magic payload byte.
pub open spec fn sleep_ops(poll_delay_ms: u32) -> Seq<BusOpModel> {
    seq![cmd_op(Command::PowerOff), BusOpModel::WaitUntilIdle(poll_delay_ms)] + cmd_with_data_ops(
        Command::DeepSleep,
        seq![0xa5u8],
    )
}

/// The panel driver: lifecycle state, poll pacing, and the recorded trace of
/// bus operations that the executor must replay in order.
pub struct DisplayDriver {
    state: PowerState,
    config: DisplayDriverConfig,
    ops: Vec<BusOp>,
}

impl DisplayDriver {
    /// The current lifecycle state.
    pub closed spec fn spec_state(&self) -> PowerState {
        self.state
    }

    /// The configured pause between busy polls, in milliseconds.
    pub closed spec fn spec_poll_delay(&self) -> u32 {
        self.config.delay_ms
    }

    /// The recorded bus operations, oldest first.
    pub closed spec fn trace(&self) -> Seq<BusOpModel> {
        self.ops.deep_view()
    }

    /// A fresh driver: uninitialized, nothing recorded yet.
    pub fn new(config: DisplayDriverConfig) -> (d: DisplayDriver)
        ensures
            d.spec_state() == PowerState::Uninitialized,
            d.spec_poll_delay() == config.delay_ms,
            d.trace() == Seq::<BusOpModel>::empty(),
    {
        let d = DisplayDriver { state: PowerState::Uninitialized, config, ops: Vec::new() };
        proof {
            assert(d.trace() =~= Seq::<BusOpModel>::empty());
        }
        d
    }

    /// The current lifecycle state, for callers that must check it before
    /// issuing a lifecycle request.
    pub fn state(&self) -> (r: PowerState)
        ensures
            r == self.spec_state(),
    {
        self.state
    }

    /// The recorded operations, for a harness to inspect.
    pub fn ops(&self) -> (r: &Vec<BusOp>)
        ensures
            r.deep_view() == self.trace(),
    {
        &self.ops
    }

    /// Hands the recorded operations to the executor and starts an empty
    /// trace; the lifecycle state is untouched.
    pub fn take_ops(&mut self) -> (r: Vec<BusOp>)
        ensures
            r.deep_view() == old(self).trace(),
            final(self).trace() == Seq::<BusOpModel>::empty(),
            final(self).spec_state() == old(self).spec_state(),
            final(self).spec_poll_delay() == old(self).spec_poll_delay(),
    {
        let mut taken: Vec<BusOp> = Vec::new();
        core::mem::swap(&mut taken, &mut self.ops);
        proof {
            assert(self.trace() =~= Seq::<BusOpModel>::empty());
        }
        taken
    }

    /// Records one operation.
    fn push_op(&mut self, op: BusOp)
        ensures
            final(self).trace() == old(self).trace().push(op.deep_view()),
            final(self).spec_state() == old(self).spec_state(),
            final(self).spec_poll_delay() == old(self).spec_poll_delay(),
    {
        let ghost before = self.ops.deep_view();
        let ghost model = op.deep_view();
        self.ops.push(op);
        proof {
            assert(self.ops.deep_view() =~= before.push(model));
        }
    }

    /// Select command mode and send the one-byte opcode.
    fn cmd(&mut self, c: Command)
        ensures
            final(self).trace() == old(self).trace().push(cmd_op(c)),
            final(self).spec_state() == old(self).spec_state(),
            final(self).spec_poll_delay() == old(self).spec_poll_delay(),
    {
        let mut bytes: Vec<u8> = Vec::new();
        bytes.push(c.address());
        proof {
            assert(bytes@ =~= seq![c.address_spec()]);
        }
        self.push_op(BusOp::Transfer(TransferMode::Command, bytes));
    }

    /// Select data mode and send the payload.
    fn data(&mut self, bytes: Vec<u8>)
        ensures
            final(self).trace() == old(self).trace().push(data_op(bytes@)),
            final(self).spec_state() == old(self).spec_state(),
            final(self).spec_poll_delay() == old(self).spec_poll_delay(),
    {
        self.push_op(BusOp::Transfer(TransferMode::Data, bytes));
    }

    /// One command with its payload: opcode in command mode, payload in
    /// data mode.
    fn cmd_with_data(&mut self, c: Command, bytes: Vec<u8>)
        ensures
            final(self).trace() == old(self).trace() + cmd_with_data_ops(c, bytes@),
            final(self).spec_state() == old(self).spec_state(),
            final(self).spec_poll_delay() == old(self).spec_poll_delay(),
    {
        let ghost before = self.trace();
        let ghost payload = bytes@;
        self.cmd(c);
        self.data(bytes);
        proof {
            assert(self.trace() =~= before + cmd_with_data_ops(c, payload));
        }
    }

    /// Records a wait for the busy line to go high, with the configured
    /// pause between polls.
    fn wait_until_idle(&mut self)
        ensures
            final(self).trace() == old(self).trace().push(
                BusOpModel::WaitUntilIdle(old(self).spec_poll_delay()),
            ),
            final(self).spec_state() == old(self).spec_state(),
            final(self).spec_poll_delay() == old(self).spec_poll_delay(),
    {
        let ms = self.config.delay_ms;
        self.push_op(BusOp::WaitUntilIdle(ms));
    }

    /// Drives the reset line high, low, high with the three mandatory holds.
    /// The lifecycle state is unchanged: only a full `init` wakes the panel.
    pub fn reset(&mut self)
        ensures
            final(self).trace() == old(self).trace() + reset_ops(),
            final(self).spec_state() == old(self).spec_state(),
            final(self).spec_poll_delay() == old(self).spec_poll_delay(),
    {
        let ghost before = self.trace();
        self.push_op(BusOp::SetResetLine(true));
        self.push_op(BusOp::DelayMs(200));
        self.push_op(BusOp::SetResetLine(false));
        self.push_op(BusOp::DelayMs(2));
        self.push_op(BusOp::SetResetLine(true));
        self.push_op(BusOp::DelayMs(200));
        proof {
            assert(self.trace() =~= before + reset_ops());
        }
    }

    /// Runs the full initialization sequence and leaves the panel awake.
    /// Must not be called on an awake panel: re-initialization starts from
    /// reset, and a partial failure leaves the panel unspecified.
    pub fn init(&mut self)
        requires
            old(self).spec_state() != PowerState::Awake,
        ensures
            final(self).trace() == old(self).trace() + init_ops(),
            final(self).spec_state() == PowerState::Awake,
            final(self).spec_poll_delay() == old(self).spec_poll_delay(),
    {
        let ghost before = self.trace();
        self.reset();
        self.cmd_with_data(Command::PowerSetting, make_bytes4(0x07, 0x07, 0x3f, 0x3f));
        self.cmd(Command::PowerOn);
        self.push_op(BusOp::DelayMs(100));
        self.cmd_with_data(Command::PanelSetting, make_bytes1(0x1f));
        self.cmd_with_data(Command::TconResolution, make_bytes4(0x03, 0x20, 0x01, 0xe0));
        self.cmd_with_data(Command::DualSpi, make_bytes1(0x00));
        self.cmd_with_data(Command::VcomAndDataIntervalSetting, make_bytes2(0x10, 0x07));
        self.cmd_with_data(Command::TconSetting, make_bytes1(0x22));
        self.cmd_with_data(Command::SpiFlashControl, make_bytes4(0x00, 0x00, 0x00, 0x00));
        self.state = PowerState::Awake;
        proof {
            assert(self.trace() =~= before + init_ops());
        }
    }

    /// Waits for idle, then transmits one whole packed frame. The caller must
    /// supply exactly `BUFFER_SIZE` bytes: a wrong length is a contract
    /// violation, not handled defensively here.
    pub fn transmit_frame(&mut self, frame: &Vec<u8>)
        requires
            old(self).spec_state() == PowerState::Awake,
            frame@.len() == BUFFER_SIZE,
        ensures
            final(self).trace() == old(self).trace() + transmit_frame_ops(
                frame@,
                old(self).spec_poll_delay(),
            ),
            final(self).spec_state() == PowerState::Awake,
            final(self).spec_poll_delay() == old(self).spec_poll_delay(),
    {
        let ghost before = self.trace();
        self.wait_until_idle();
        self.cmd_with_data(Command::DataStartTransmission2, copy_bytes(frame));
        proof {
            assert(self.trace() =~= before + transmit_frame_ops(
                frame@,
                old(self).spec_poll_delay(),
            ));
        }
    }

    /// Commits the transmitted frame to visible pixels: refresh command,
    /// 50 ms settle, then wait until idle.
    pub fn refresh(&mut self)
        requires
            old(self).spec_state() == PowerState::Awake,
        ensures
            final(self).trace() == old(self).trace() + refresh_ops(old(self).spec_poll_delay()),
            final(self).spec_state() == PowerState::Awake,
            final(self).spec_poll_delay() == old(self).spec_poll_delay(),
    {
        let ghost before = self.trace();
        self.cmd(Command::DisplayRefresh);
        self.push_op(BusOp::DelayMs(50));
        self.wait_until_idle();
        proof {
            assert(self.trace() =~= before + refresh_ops(old(self).spec_poll_delay()));
        }
    }

    /// Blanks the panel without going through a framebuffer: all-off frames
    /// into both internal planes, then a refresh.
    pub fn clear_screen(&mut self)
        requires
            old(self).spec_state() == PowerState::Awake,
        ensures
            final(self).trace() == old(self).trace() + clear_screen_ops(
                old(self).spec_poll_delay(),
            ),
            final(self).spec_state() == PowerState::Awake,
            final(self).spec_poll_delay() == old(self).spec_poll_delay(),
    {
        let ghost before = self.trace();
        self.cmd_with_data(Command::DataStartTransmission1, make_zero_frame());
        self.cmd_with_data(Command::DataStartTransmission2, make_zero_frame());
        self.refresh();
        proof {
            assert(self.trace() =~= before + clear_screen_ops(old(self).spec_poll_delay()));
        }
    }

    /// Puts the panel into deep sleep: power off, wait idle, deep-sleep with
    /// its magic payload. No command is accepted afterwards until `wake_up`.
    pub fn sleep(&mut self)
        requires
            old(self).spec_state() == PowerState::Awake,
        ensures
            final(self).trace() == old(self).trace() + sleep_ops(old(self).spec_poll_delay()),
            final(self).spec_state() == PowerState::Asleep,
            final(self).spec_poll_delay() == old(self).spec_poll_delay(),
    {
        let ghost before = self.trace();
        self.cmd(Command::PowerOff);
        self.wait_until_idle();
        self.cmd_with_data(Command::DeepSleep, make_bytes1(0xa5));
        self.state = PowerState::Asleep;
        proof {
            assert(self.trace() =~= before + sleep_ops(old(self).spec_poll_delay()));
        }
    }

    /// Wakes a sleeping panel by re-running the full initialization
    /// sequence; the panel has no lighter-weight resume path.
    pub fn wake_up(&mut self)
        requires
            old(self).spec_state() == PowerState::Asleep,
        ensures
            final(self).trace() == old(self).trace() + init_ops(),
            final(self).spec_state() == PowerState::Awake,
            final(self).spec_poll_delay() == old(self).spec_poll_delay(),
    {
        self.init();
    }
}

/// A one-byte payload.
fn make_bytes1(b0: u8) -> (r: Vec<u8>)
    ensures
        r@ == seq![b0],
{
    let mut v: Vec<u8> = Vec::new();
    v.push(b0);
    proof {
        assert(v@ =~= seq![b0]);
    }
    v
}

/// A two-byte payload.
fn make_bytes2(b0: u8, b1: u8) -> (r: Vec<u8>)
    ensures
        r@ == seq![b0, b1],
{
    let mut v: Vec<u8> = Vec::new();
    v.push(b0);
    v.push(b1);
    proof {
        assert(v@ =~= seq![b0, b1]);
    }
    v
}

/// A four-byte payload.
fn make_bytes4(b0: u8, b1: u8, b2: u8, b3: u8) -> (r: Vec<u8>)
    ensures
        r@ == seq![b0, b1, b2, b3],
{
    let mut v: Vec<u8> = Vec::new();
    v.push(b0);
    v.push(b1);
    v.push(b2);
    v.push(b3);
    proof {
        assert(v@ =~= seq![b0, b1, b2, b3]);
    }
    v
}

/// A whole frame of zero bytes: every pixel off.
fn make_zero_frame() -> (r: Vec<u8>)
    ensures
        r@ == zero_frame(),
{
    let mut v: Vec<u8> = Vec::new();
    let mut i: usize = 0;
    while i < BUFFER_SIZE
        invariant
            i <= BUFFER_SIZE,
            v@.len() == i,
            forall|j: int| 0 <= j < i ==> v@[j] == 0u8,
        decreases BUFFER_SIZE - i,
    {
        v.push(0u8);
        i = i + 1;
    }
    proof {
        assert(v@ =~= zero_frame());
    }
    v
}

/// An owned copy of a byte payload.
fn copy_bytes(src: &Vec<u8>) -> (r: Vec<u8>)
    ensures
        r@ == src@,
{
    let mut v: Vec<u8> = Vec::new();
    let mut i: usize = 0;
    let n = src.len();
    while i < n
        invariant
            i <= n,
            n == src@.len(),
            v@.len() == i,
            forall|j: int| 0 <= j < i ==> v@[j] == src@[j],
        decreases n - i,
    {
        v.push(src[i]);
        i = i + 1;
    }
    proof {
        assert(v@ =~= src@);
    }
    v
}

} // verus!
