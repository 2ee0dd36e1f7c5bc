//! The command sequences of the controller, and the session that hands them
//! to a transport one action at a time.
//!
//! Nothing here touches a bus. Each operation queues the actions that make it
//! up; whoever owns the bus takes them in order with [`SpiInterface::step`],
//! performs each, and reports how it went.

use vstd::prelude::*;
use vstd::slice::slice_to_vec;
use crate::command::Command;
use crate::error::Error;
use crate::{DISPLAY_HEIGHT, DISPLAY_WIDTH};

verus! {

/// One thing for the transport to do.
#[derive(Debug, PartialEq, Eq)]
pub enum Action {
    /// Select command mode on the command/data line and write this opcode.
    SendCommand(u8),
    /// Select data mode on the command/data line and write these bytes.
    SendData(Vec<u8>),
    /// Wait until the controller releases the busy line.
    WaitUntilIdle,
    /// Drive the reset line low.
    AssertReset,
    /// Drive the reset line high.
    DeassertReset,
    /// Pause for this many milliseconds.
    DelayMs(u32),
}

/// What an [`Action`] stands for.
pub enum Op {
    /// An opcode, written in command mode.
    Command(u8),
    /// A payload, written in data mode.
    Data(Seq<u8>),
    /// A wait for the busy line to be released.
    WaitUntilIdle,
    /// The reset line driven low.
    AssertReset,
    /// The reset line driven high.
    DeassertReset,
    /// A pause, in milliseconds.
    DelayMs(u32),
}

impl View for Action {
    type V = Op;

    open spec fn view(&self) -> Op {
        match *self {
            Action::SendCommand(code) => Op::Command(code),
            Action::SendData(bytes) => Op::Data(bytes@),
            Action::WaitUntilIdle => Op::WaitUntilIdle,
            Action::AssertReset => Op::AssertReset,
            Action::DeassertReset => Op::DeassertReset,
            Action::DelayMs(ms) => Op::DelayMs(ms),
        }
    }
}

/// What comes next in a session.
#[derive(Debug, PartialEq, Eq)]
pub enum Step<E> {
    /// The transport is to perform this action and report its outcome.
    Perform(Action),
    /// The session is over: every queued action was performed, or a write
    /// failed and the rest was given up.
    Finished(Result<(), Error<E>>),
}

/// `value` divided by eight, rounded up.
pub open spec fn spec_eighths(value: u8) -> u8 {
    ((value as int + 7) / 8) as u8
}

/// `value` divided by eight, rounded up.
#[verifier::when_used_as_spec(spec_eighths)]
pub fn eighths(value: u8) -> (n: u8)
    ensures
        n == spec_eighths(value),
        n as int == (value as int + 7) / 8,
{
    let wide: u16 = value as u16;
    ((wide + 7) / 8) as u8
}

/// A register write: the opcode, then its payload.
pub open spec fn register_ops(command: Command, payload: Seq<u8>) -> Seq<Op> {
    seq![Op::Command(command.spec_code()), Op::Data(payload)]
}

/// The hardware reset: the reset line held low for ten milliseconds.
pub open spec fn hardware_reset_ops() -> Seq<Op> {
    seq![Op::AssertReset, Op::DelayMs(10), Op::DeassertReset]
}

/// The software reset: the opcode, then a wait for the controller.
pub open spec fn software_reset_ops() -> Seq<Op> {
    seq![Op::Command(0x12), Op::WaitUntilIdle]
}

/// Setting the RAM address counters to `(x, y)`.
pub open spec fn ram_address_ops(x: u8, y: u8) -> Seq<Op> {
    seq![
        Op::Command(0x4E),
        Op::Data(seq![x]),
        Op::Command(0x4F),
        Op::Data(seq![y, spec_eighths(y)]),
    ]
}

/// Writing a frame into one of the controller's RAMs.
pub open spec fn frame_ops(command: Command, frame: Seq<u8>) -> Seq<Op> {
    register_ops(command, frame)
}

/// The configuration that follows a reset: data entry mode, border waveform,
/// VCOM, gate and source voltages, the address counters at `(1, 0)`, the RAM
/// window and the driver output control.
pub open spec fn configure_ops() -> Seq<Op> {
    seq![
        Op::Command(0x11),
        Op::Data(seq![0x03u8]),
        Op::Command(0x3C),
        Op::Data(seq![0x05u8]),
        Op::Command(0x2C),
        Op::Data(seq![0x36u8]),
        Op::Command(0x03),
        Op::Data(seq![0x17u8]),
        Op::Command(0x04),
        Op::Data(seq![0x41u8, 0x00u8, 0x32u8]),
        Op::Command(0x4E),
        Op::Data(seq![0x01u8]),
        Op::Command(0x4F),
        Op::Data(seq![0x00u8, 0x00u8]),
        Op::Command(0x44),
        Op::Data(seq![0x01u8, spec_eighths(DISPLAY_HEIGHT)]),
        Op::Command(0x45),
        Op::Data(seq![0u8, 0u8, (DISPLAY_WIDTH - 1) as u8, spec_eighths(DISPLAY_WIDTH)]),
        Op::Command(0x01),
        Op::Data(seq![(DISPLAY_WIDTH - 1) as u8, spec_eighths(DISPLAY_WIDTH), 0u8]),
    ]
}

/// Powering the controller up: the software reset, then the configuration.
pub open spec fn power_up_ops() -> Seq<Op> {
    software_reset_ops() + configure_ops()
}

/// Triggering the refresh: the update sequence is selected and started, and
/// the controller is waited for.
pub open spec fn update_ops() -> Seq<Op> {
    seq![Op::Command(0x22), Op::Data(seq![0xF4u8]), Op::Command(0x20), Op::WaitUntilIdle]
}

/// Sending the controller to deep sleep.
pub open spec fn power_down_ops() -> Seq<Op> {
    seq![Op::Command(0x10), Op::Data(seq![0x01u8])]
}

/// A session with the controller: the actions that are still to be
/// performed, in order.
pub struct SpiInterface {
    queue: Vec<Action>,
}

impl View for SpiInterface {
    type V = Seq<Op>;

    /// The actions that are still to be performed, first to last.
    closed spec fn view(&self) -> Seq<Op> {
        self.queue@.map_values(|action: Action| action@)
    }
}

impl SpiInterface {
    /// A session with nothing to perform.
    pub fn new() -> (interface: Self)
        ensures
            interface@ == Seq::<Op>::empty(),
    {
        let interface = SpiInterface { queue: Vec::new() };
        assert(interface@ =~= Seq::<Op>::empty());
        interface
    }

    /// Puts one action at the end of the queue.
    fn enqueue(&mut self, action: Action)
        ensures
            final(self)@ == old(self)@.push(action@),
    {
        self.queue.push(action);
        assert(self@ =~= old(self)@.push(action@));
    }

    /// Number of actions that are still to be performed.
    pub fn pending_len(&self) -> (n: usize)
        ensures
            n == self@.len(),
    {
        self.queue.len()
    }

    /// Moves the session on.
    ///
    /// `outcome` is how the action that was handed out last went; for the
    /// first call of a session it is `Ok`. After a failure the rest of the
    /// queue is given up and the failure is returned as a communication
    /// error. Otherwise the next action leaves the queue and is handed out,
    /// and when none is left the session has succeeded.
    pub fn step<E>(&mut self, outcome: Result<(), E>) -> (next: Step<E>)
        ensures
            match outcome {
                Err(e) => next == Step::<E>::Finished(Err(Error::Comm(e))) && final(self)@
                    == Seq::<Op>::empty(),
                Ok(_) => if old(self)@.len() == 0 {
                    next == Step::<E>::Finished(Ok(())) && final(self)@ == old(self)@
                } else {
                    next matches Step::Perform(action) && action@ == old(self)@[0] && final(self)@
                        == old(self)@.drop_first()
                },
            },
    {
        match outcome {
            Err(e) => {
                self.queue = Vec::new();
                assert(self@ =~= Seq::<Op>::empty());
                Step::Finished(Err(Error::Comm(e)))
            },
            Ok(_) => {
                if self.queue.len() == 0 {
                    Step::Finished(Ok(()))
                } else {
                    let action = self.queue.remove(0);
                    assert(self@ =~= old(self)@.drop_first());
                    Step::Perform(action)
                }
            },
        }
    }

    /// Queues the hardware reset: the reset line goes low, stays low for ten
    /// milliseconds, and goes high.
    pub fn hardware_reset(&mut self)
        ensures
            final(self)@ == old(self)@ + hardware_reset_ops(),
    {
        self.enqueue(Action::AssertReset);
        self.enqueue(Action::DelayMs(10));
        self.enqueue(Action::DeassertReset);
        assert(self@ =~= old(self)@ + hardware_reset_ops());
    }

    /// Queues a pause of `ms` milliseconds.
    pub fn delay_ms(&mut self, ms: u32)
        ensures
            final(self)@ == old(self)@.push(Op::DelayMs(ms)),
    {
        self.enqueue(Action::DelayMs(ms));
    }

    /// Queues the software reset: the reset opcode, then a wait for the
    /// controller.
    pub fn software_reset(&mut self)
        ensures
            final(self)@ == old(self)@ + software_reset_ops(),
    {
        self.send_command(Command::Reset);
        self.busy_wait();
        assert(self@ =~= old(self)@ + software_reset_ops());
    }

    /// Queues the write of a frame: the opcode of the RAM, then the bytes of
    /// `buffer` as data.
    pub fn write_ram_frame_buffer(&mut self, buffer: &[u8], command: Command)
        ensures
            final(self)@ == old(self)@ + frame_ops(command, buffer@),
    {
        self.send_command(command);
        self.send_data(buffer);
        assert(self@ =~= old(self)@ + frame_ops(command, buffer@));
    }

    /// Queues the setting of the RAM address counters: the X counter to `x`,
    /// the Y counter to `y` and to `y` in eighths, rounded up.
    pub fn set_ram_address(&mut self, x: u8, y: u8)
        ensures
            final(self)@ == old(self)@ + ram_address_ops(x, y),
    {
        let column: [u8; 1] = [x];
        let row: [u8; 2] = [y, eighths(y)];
        proof {
            assert(column@ =~= seq![x]);
            assert(row@ =~= seq![y, spec_eighths(y)]);
        }
        self.send_command(Command::RamXCount);
        self.send_data(column.as_slice());
        self.send_command(Command::RamYCount);
        self.send_data(row.as_slice());
        assert(self@ =~= old(self)@ + ram_address_ops(x, y));
    }

    /// Queues one opcode, to be written in command mode.
    pub fn send_command(&mut self, command: Command)
        ensures
            final(self)@ == old(self)@.push(Op::Command(command.spec_code())),
    {
        self.enqueue(Action::SendCommand(command.code()));
    }

    /// Queues the bytes of `buffer`, to be written in data mode.
    pub fn send_data(&mut self, buffer: &[u8])
        ensures
            final(self)@ == old(self)@.push(Op::Data(buffer@)),
    {
        self.enqueue(Action::SendData(slice_to_vec(buffer)));
    }

    /// Queues a wait for the controller to release the busy line.
    pub fn busy_wait(&mut self)
        ensures
            final(self)@ == old(self)@.push(Op::WaitUntilIdle),
    {
        self.enqueue(Action::WaitUntilIdle);
    }

    /// Queues a register write: the opcode, then `payload` as data.
    fn write_register(&mut self, command: Command, payload: &[u8])
        ensures
            final(self)@ == old(self)@.push(Op::Command(command.spec_code())).push(
                Op::Data(payload@),
            ),
    {
        self.send_command(command);
        self.send_data(payload);
    }

    /// Queues the power-up: the software reset, then the configuration.
    pub fn power_up(&mut self)
        ensures
            final(self)@ == old(self)@ + power_up_ops(),
    {
        let data_mode: [u8; 1] = [0x03];
        let border: [u8; 1] = [0x05];
        let vcom: [u8; 1] = [0x36];
        let gate: [u8; 1] = [0x17];
        let source: [u8; 3] = [0x41, 0x00, 0x32];
        let x_window: [u8; 2] = [0x01, eighths(DISPLAY_HEIGHT)];
        let y_window: [u8; 4] = [0, 0, DISPLAY_WIDTH - 1, eighths(DISPLAY_WIDTH)];
        let control: [u8; 3] = [DISPLAY_WIDTH - 1, eighths(DISPLAY_WIDTH), 0];
        proof {
            assert(data_mode@ =~= seq![0x03u8]);
            assert(border@ =~= seq![0x05u8]);
            assert(vcom@ =~= seq![0x36u8]);
            assert(gate@ =~= seq![0x17u8]);
            assert(source@ =~= seq![0x41u8, 0x00u8, 0x32u8]);
            assert(x_window@ =~= seq![0x01u8, spec_eighths(DISPLAY_HEIGHT)]);
            assert(y_window@ =~= seq![
                0u8,
                0u8,
                (DISPLAY_WIDTH - 1) as u8,
                spec_eighths(DISPLAY_WIDTH),
            ]);
            assert(control@ =~= seq![
                (DISPLAY_WIDTH - 1) as u8,
                spec_eighths(DISPLAY_WIDTH),
                0u8,
            ]);
            assert(seq![0x00u8, spec_eighths(0)] =~= seq![0x00u8, 0x00u8]);
        }

        self.software_reset();

        self.write_register(Command::DataMode, data_mode.as_slice());
        self.write_register(Command::Border, border.as_slice());
        self.write_register(Command::Vcom, vcom.as_slice());
        self.write_register(Command::GateVoltage, gate.as_slice());
        self.write_register(Command::SourceVoltage, source.as_slice());
        self.set_ram_address(1, 0);

        self.write_register(Command::RamXPos, x_window.as_slice());
        self.write_register(Command::RamYPos, y_window.as_slice());
        self.write_register(Command::Control, control.as_slice());
        assert(self@ =~= old(self)@ + power_up_ops());
    }

    /// Queues the refresh: display update control 2 is set to `0xF4`, the
    /// update is started, and the controller is waited for.
    pub fn update(&mut self)
        ensures
            final(self)@ == old(self)@ + update_ops(),
    {
        let sequence: [u8; 1] = [0xF4];
        assert(sequence@ =~= seq![0xF4u8]);
        self.write_register(Command::DispCtrl2, sequence.as_slice());
        self.send_command(Command::MasterActivate);
        self.busy_wait();
        assert(self@ =~= old(self)@ + update_ops());
    }

    /// Queues the power-down: the sleep opcode with mode 1, in which the
    /// controller keeps the content of its RAM.
    pub fn power_down(&mut self)
        ensures
            final(self)@ == old(self)@ + power_down_ops(),
    {
        let mode: [u8; 1] = [0x01];
        assert(mode@ =~= seq![0x01u8]);
        self.write_register(Command::Sleep, mode.as_slice());
        assert(self@ =~= old(self)@ + power_down_ops());
    }
}

} // verus!
