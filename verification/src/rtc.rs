//! The real-time clock: bringing it up after power-on, reading the time, and
//! going to standby.
//!
//! The clock is brought up by a fixed sequence of register operations, some
//! of which wait for the hardware. [`RealTimeClock`] keeps the position in
//! that sequence. The firmware asks it for the operation that is due, performs
//! it, and reports back; for a read it reports the bit that was read.

use vstd::prelude::*;

verus! {

/// First byte of the key that opens the clock's registers for writing.
pub const KEY_FIRST: u8 = 0xCA;

/// Second byte of the key.
pub const KEY_SECOND: u8 = 0x53;

/// Asynchronous prescaler: with the synchronous one it divides the 32768 Hz
/// of the oscillator down to 1 Hz.
pub const PRESCALER_ASYNC: u8 = 127;

/// Synchronous prescaler.
pub const PRESCALER_SYNC: u16 = 255;

/// The time that the bring-up sets the clock to: the time register's word
/// for 23:42, in 24-hour format.
pub const SEED_TIME: u32 = 0x0023_4200;

/// Core clock cycles to wait until the cleared wake-up flag has settled.
pub const SETTLE_CYCLES: u32 = 100;

/// One operation on the hardware.
#[derive(Clone, Copy, Debug, PartialEq, Eq, Structural)]
pub enum Command {
    /// Switch on the clock of the power interface.
    EnablePowerInterface,
    /// Put the power interface into reset.
    AssertPowerReset,
    /// Take the power interface out of reset.
    ReleasePowerReset,
    /// Read whether the backup domain accepts writes.
    ReadDomainAccess,
    /// Open the backup domain for writes.
    EnableDomainAccess,
    /// Switch on the external low-speed oscillator, at high drive strength.
    StartOscillator,
    /// Read whether the oscillator is stable.
    ReadOscillatorReady,
    /// Write one byte to the clock's key register.
    WriteKey(u8),
    /// Enable the clock and select the external oscillator as its source.
    SelectClock,
    /// Write both prescalers.
    WritePrescalers { asynchronous: u8, synchronous: u16 },
    /// Ask the clock to enter initialization mode.
    RequestInit,
    /// Read whether the clock has entered initialization mode.
    ReadInitConfirmed,
    /// Write the time register.
    WriteTime(u32),
    /// Leave initialization mode: the clock counts from here on.
    LeaveInit,
    /// Close the backup domain for writes.
    DisableDomainAccess,
    /// Let wake-up pin 2 wake the device.
    ArmWakePin,
    /// Set the core's deep-sleep flag.
    SetDeepSleep,
    /// Select standby as the deep-sleep mode.
    RequestStandby,
    /// Clear the wake-up flag.
    ClearWakeFlag,
    /// Busy-wait for a number of core clock cycles.
    Delay(u32),
    /// Wait for an event: the device goes to standby.
    WaitForEvent,
}

impl Command {
    /// Whether the operation reads a bit that the driver goes by.
    pub open spec fn reads(self) -> bool {
        self == Command::ReadDomainAccess || self == Command::ReadOscillatorReady || self
            == Command::ReadInitConfirmed
    }

    /// Whether the operation writes to the backup domain, which takes the
    /// write only while it is open.
    pub open spec fn writes_backup_domain(self) -> bool {
        self == Command::StartOscillator || self is WriteKey || self == Command::SelectClock
            || self.writes_clock_register()
    }

    /// Whether the operation writes to a register of the clock that takes
    /// the write only after the key.
    pub open spec fn writes_clock_register(self) -> bool {
        self is WritePrescalers || self == Command::RequestInit || self is WriteTime || self
            == Command::LeaveInit
    }
}

/// A position in the clock's life: the bring-up in its order, the running
/// clock, then the way to standby in its order.
#[derive(Clone, Copy, Debug, PartialEq, Eq, Structural)]
pub enum Phase {
    /// The power interface is to be clocked.
    PowerEnable,
    /// The power interface is to be put into reset.
    PowerResetAssert,
    /// The power interface is to be taken out of reset.
    PowerResetRelease,
    /// A first look at the backup domain: it may be open already.
    DomainProbe,
    /// The backup domain was found closed and is to be opened.
    DomainUnlock,
    /// Waiting for the backup domain to report that it is open.
    DomainConfirm,
    /// The oscillator is to be switched on.
    OscillatorStart,
    /// Waiting for the oscillator to become stable.
    OscillatorWait,
    /// The first byte of the key is to be written.
    KeyFirst,
    /// The second byte of the key is to be written.
    KeySecond,
    /// The clock is to be enabled on the oscillator.
    ClockSelect,
    /// The prescalers are to be written.
    Prescale,
    /// Initialization mode is to be asked for.
    InitRequest,
    /// Waiting for the clock to enter initialization mode.
    InitWait,
    /// The time is to be written.
    SeedTime,
    /// Initialization mode is to be left.
    InitLeave,
    /// The backup domain is to be closed again.
    DomainLock,
    /// The clock is configured and counts.
    Running,
    /// The wake-up pin is to be armed.
    WakeArm,
    /// The core's deep-sleep flag is to be set.
    DeepSleep,
    /// Standby is to be selected.
    StandbyRequest,
    /// The wake-up flag is to be cleared.
    WakeFlagClear,
    /// The cleared flag is to be given time to settle.
    Settle,
    /// The core is to wait for an event.
    WaitForEvent,
    /// Nothing follows: the device restarts when it wakes up.
    Standby,
}

impl Phase {
    /// The operation that is due in this phase, if any.
    pub open spec fn command(self) -> Option<Command> {
        match self {
            Phase::PowerEnable => Some(Command::EnablePowerInterface),
            Phase::PowerResetAssert => Some(Command::AssertPowerReset),
            Phase::PowerResetRelease => Some(Command::ReleasePowerReset),
            Phase::DomainProbe => Some(Command::ReadDomainAccess),
            Phase::DomainUnlock => Some(Command::EnableDomainAccess),
            Phase::DomainConfirm => Some(Command::ReadDomainAccess),
            Phase::OscillatorStart => Some(Command::StartOscillator),
            Phase::OscillatorWait => Some(Command::ReadOscillatorReady),
            Phase::KeyFirst => Some(Command::WriteKey(KEY_FIRST)),
            Phase::KeySecond => Some(Command::WriteKey(KEY_SECOND)),
            Phase::ClockSelect => Some(Command::SelectClock),
            Phase::Prescale => Some(
                Command::WritePrescalers {
                    asynchronous: PRESCALER_ASYNC,
                    synchronous: PRESCALER_SYNC,
                },
            ),
            Phase::InitRequest => Some(Command::RequestInit),
            Phase::InitWait => Some(Command::ReadInitConfirmed),
            Phase::SeedTime => Some(Command::WriteTime(SEED_TIME)),
            Phase::InitLeave => Some(Command::LeaveInit),
            Phase::DomainLock => Some(Command::DisableDomainAccess),
            Phase::Running => None,
            Phase::WakeArm => Some(Command::ArmWakePin),
            Phase::DeepSleep => Some(Command::SetDeepSleep),
            Phase::StandbyRequest => Some(Command::RequestStandby),
            Phase::WakeFlagClear => Some(Command::ClearWakeFlag),
            Phase::Settle => Some(Command::Delay(SETTLE_CYCLES)),
            Phase::WaitForEvent => Some(Command::WaitForEvent),
            Phase::Standby => None,
        }
    }

    /// Whether this phase repeats its read until the answer is yes.
    pub open spec fn waits(self) -> bool {
        self == Phase::DomainConfirm || self == Phase::OscillatorWait || self == Phase::InitWait
    }

    /// Whether the backup domain is known to be open in this phase: it was
    /// read as open, and the driver has not closed it yet.
    pub open spec fn domain_open(self) -> bool {
        Phase::OscillatorStart.rank() <= self.rank() <= Phase::DomainLock.rank()
    }

    /// Whether both bytes of the key were written before this phase of the
    /// bring-up.
    pub open spec fn keyed(self) -> bool {
        Phase::ClockSelect.rank() <= self.rank() <= Phase::DomainLock.rank()
    }

    /// Whether the clock is known to be in initialization mode in this phase.
    pub open spec fn in_init(self) -> bool {
        self == Phase::SeedTime || self == Phase::InitLeave
    }

    /// Whether this phase lies on the way to standby, or is standby.
    pub open spec fn sleeping(self) -> bool {
        self.rank() >= Phase::WakeArm.rank()
    }

    /// The place of this phase in the order of phases.
    pub open spec fn rank(self) -> nat {
        match self {
            Phase::PowerEnable => 0,
            Phase::PowerResetAssert => 1,
            Phase::PowerResetRelease => 2,
            Phase::DomainProbe => 3,
            Phase::DomainUnlock => 4,
            Phase::DomainConfirm => 5,
            Phase::OscillatorStart => 6,
            Phase::OscillatorWait => 7,
            Phase::KeyFirst => 8,
            Phase::KeySecond => 9,
            Phase::ClockSelect => 10,
            Phase::Prescale => 11,
            Phase::InitRequest => 12,
            Phase::InitWait => 13,
            Phase::SeedTime => 14,
            Phase::InitLeave => 15,
            Phase::DomainLock => 16,
            Phase::Running => 17,
            Phase::WakeArm => 18,
            Phase::DeepSleep => 19,
            Phase::StandbyRequest => 20,
            Phase::WakeFlagClear => 21,
            Phase::Settle => 22,
            Phase::WaitForEvent => 23,
            Phase::Standby => 24,
        }
    }

    /// The phase after this phase's operation was performed; `answer` is the
    /// bit that a read gave, and counts for nothing after another operation.
    pub open spec fn next(self, answer: bool) -> Phase {
        match self {
            Phase::PowerEnable => Phase::PowerResetAssert,
            Phase::PowerResetAssert => Phase::PowerResetRelease,
            Phase::PowerResetRelease => Phase::DomainProbe,
            Phase::DomainProbe => if answer {
                Phase::OscillatorStart
            } else {
                Phase::DomainUnlock
            },
            Phase::DomainUnlock => Phase::DomainConfirm,
            Phase::DomainConfirm => if answer {
                Phase::OscillatorStart
            } else {
                Phase::DomainConfirm
            },
            Phase::OscillatorStart => Phase::OscillatorWait,
            Phase::OscillatorWait => if answer {
                Phase::KeyFirst
            } else {
                Phase::OscillatorWait
            },
            Phase::KeyFirst => Phase::KeySecond,
            Phase::KeySecond => Phase::ClockSelect,
            Phase::ClockSelect => Phase::Prescale,
            Phase::Prescale => Phase::InitRequest,
            Phase::InitRequest => Phase::InitWait,
            Phase::InitWait => if answer {
                Phase::SeedTime
            } else {
                Phase::InitWait
            },
            Phase::SeedTime => Phase::InitLeave,
            Phase::InitLeave => Phase::DomainLock,
            Phase::DomainLock => Phase::Running,
            Phase::Running => Phase::Running,
            Phase::WakeArm => Phase::DeepSleep,
            Phase::DeepSleep => Phase::StandbyRequest,
            Phase::StandbyRequest => Phase::WakeFlagClear,
            Phase::WakeFlagClear => Phase::Settle,
            Phase::Settle => Phase::WaitForEvent,
            Phase::WaitForEvent => Phase::Standby,
            Phase::Standby => Phase::Standby,
        }
    }

    /// The phase after one operation for each of `answers`, first to last.
    pub open spec fn run(self, answers: Seq<bool>) -> Phase
        decreases answers.len(),
    {
        if answers.len() == 0 {
            self
        } else {
            self.run(answers.drop_last()).next(answers.last())
        }
    }
}

/// Tens digit of the hour in the time register's word `tr`.
pub open spec fn hour_tens(tr: u32) -> u32 {
    (tr >> 20) & 0x3
}

/// Units digit of the hour.
pub open spec fn hour_units(tr: u32) -> u32 {
    (tr >> 16) & 0xf
}

/// Tens digit of the minute.
pub open spec fn minute_tens(tr: u32) -> u32 {
    (tr >> 12) & 0x7
}

/// Units digit of the minute.
pub open spec fn minute_units(tr: u32) -> u32 {
    (tr >> 8) & 0xf
}

/// The hour and the minute that the time register's word `tr` holds: each
/// is ten times its tens digit plus its units digit.
pub open spec fn decoded(tr: u32) -> (u8, u8) {
    (
        (10 * hour_tens(tr) + hour_units(tr)) as u8,
        (10 * minute_tens(tr) + minute_units(tr)) as u8,
    )
}

/// The time register's word for a time of day, in 24-hour format and with
/// zero seconds.
pub open spec fn time_word(hours: u8, mins: u8) -> u32 {
    ((hours / 10) as u32) << 20 | ((hours % 10) as u32) << 16 | ((mins / 10) as u32) << 12 | ((mins
        % 10) as u32) << 8
}

/// The clock driver's state: where it stands in the bring-up or on the way to
/// standby.
pub struct RealTimeClock {
    phase: Phase,
}

impl View for RealTimeClock {
    type V = Phase;

    closed spec fn view(&self) -> Phase {
        self.phase
    }
}

impl RealTimeClock {
    /// The driver at power-on: nothing is configured yet.
    pub fn new() -> (rtc: Self)
        ensures
            rtc@ == Phase::PowerEnable,
    {
        RealTimeClock { phase: Phase::PowerEnable }
    }

    /// Where the driver stands.
    pub fn phase(&self) -> (phase: Phase)
        ensures
            phase == self@,
    {
        self.phase
    }

    /// The operation to perform now, or `None` if the clock runs or the
    /// device is in standby.
    pub fn pending(&self) -> (command: Option<Command>)
        ensures
            command == self@.command(),
    {
        match self.phase {
            Phase::PowerEnable => Some(Command::EnablePowerInterface),
            Phase::PowerResetAssert => Some(Command::AssertPowerReset),
            Phase::PowerResetRelease => Some(Command::ReleasePowerReset),
            Phase::DomainProbe | Phase::DomainConfirm => Some(Command::ReadDomainAccess),
            Phase::DomainUnlock => Some(Command::EnableDomainAccess),
            Phase::OscillatorStart => Some(Command::StartOscillator),
            Phase::OscillatorWait => Some(Command::ReadOscillatorReady),
            Phase::KeyFirst => Some(Command::WriteKey(KEY_FIRST)),
            Phase::KeySecond => Some(Command::WriteKey(KEY_SECOND)),
            Phase::ClockSelect => Some(Command::SelectClock),
            Phase::Prescale => Some(
                Command::WritePrescalers {
                    asynchronous: PRESCALER_ASYNC,
                    synchronous: PRESCALER_SYNC,
                },
            ),
            Phase::InitRequest => Some(Command::RequestInit),
            Phase::InitWait => Some(Command::ReadInitConfirmed),
            Phase::SeedTime => Some(Command::WriteTime(SEED_TIME)),
            Phase::InitLeave => Some(Command::LeaveInit),
            Phase::DomainLock => Some(Command::DisableDomainAccess),
            Phase::WakeArm => Some(Command::ArmWakePin),
            Phase::DeepSleep => Some(Command::SetDeepSleep),
            Phase::StandbyRequest => Some(Command::RequestStandby),
            Phase::WakeFlagClear => Some(Command::ClearWakeFlag),
            Phase::Settle => Some(Command::Delay(SETTLE_CYCLES)),
            Phase::WaitForEvent => Some(Command::WaitForEvent),
            Phase::Running | Phase::Standby => None,
        }
    }

    /// Takes note that the pending operation was performed. `answer` is the
    /// bit that a read gave; after another operation it counts for nothing.
    /// A phase that waits for the hardware is left only on the answer yes.
    pub fn advance(&mut self, answer: bool)
        ensures
            final(self)@ == old(self)@.next(answer),
    {
        match self.phase {
            Phase::Running | Phase::Standby => {},
            Phase::WakeArm => {
                self.phase = Phase::DeepSleep;
            },
            Phase::DeepSleep => {
                self.phase = Phase::StandbyRequest;
            },
            Phase::StandbyRequest => {
                self.phase = Phase::WakeFlagClear;
            },
            Phase::WakeFlagClear => {
                self.phase = Phase::Settle;
            },
            Phase::Settle => {
                self.phase = Phase::WaitForEvent;
            },
            Phase::WaitForEvent => {
                self.phase = Phase::Standby;
            },
            _ => {
                self.configure(answer);
            },
        }
    }

    /// Whether the backup domain refuses writes, given the bit that says
    /// whether it accepts them.
    fn is_write_protected(access: bool) -> (protected: bool)
        ensures
            protected == !access,
    {
        !access
    }

    /// One step of opening the backup domain: look whether it is open; if it
    /// is not, open it, and look again until it is.
    fn unlock(&mut self, answer: bool)
        requires
            old(self)@ == Phase::DomainProbe || old(self)@ == Phase::DomainUnlock || old(self)@
                == Phase::DomainConfirm,
        ensures
            final(self)@ == old(self)@.next(answer),
    {
        match self.phase {
            Phase::DomainProbe => {
                if Self::is_write_protected(answer) {
                    self.phase = Phase::DomainUnlock;
                } else {
                    self.phase = Phase::OscillatorStart;
                }
            },
            Phase::DomainUnlock => {
                self.phase = Phase::DomainConfirm;
            },
            _ => {
                if !Self::is_write_protected(answer) {
                    self.phase = Phase::OscillatorStart;
                }
            },
        }
    }

    /// The last step of the bring-up: the backup domain was closed again.
    fn lock(&mut self)
        requires
            old(self)@ == Phase::DomainLock,
        ensures
            final(self)@ == Phase::Running,
    {
        self.phase = Phase::Running;
    }

    /// One step of the bring-up.
    fn configure(&mut self, answer: bool)
        requires
            old(self)@.rank() < Phase::Running.rank(),
        ensures
            final(self)@ == old(self)@.next(answer),
    {
        match self.phase {
            Phase::PowerEnable => {
                self.phase = Phase::PowerResetAssert;
            },
            Phase::PowerResetAssert => {
                self.phase = Phase::PowerResetRelease;
            },
            Phase::PowerResetRelease => {
                self.phase = Phase::DomainProbe;
            },
            Phase::DomainProbe | Phase::DomainUnlock | Phase::DomainConfirm => {
                self.unlock(answer);
            },
            Phase::OscillatorStart => {
                self.phase = Phase::OscillatorWait;
            },
            Phase::OscillatorWait => {
                if answer {
                    self.phase = Phase::KeyFirst;
                }
            },
            Phase::KeyFirst => {
                self.phase = Phase::KeySecond;
            },
            Phase::KeySecond => {
                self.phase = Phase::ClockSelect;
            },
            Phase::ClockSelect => {
                self.phase = Phase::Prescale;
            },
            Phase::Prescale => {
                self.phase = Phase::InitRequest;
            },
            Phase::InitRequest => {
                self.phase = Phase::InitWait;
            },
            Phase::InitWait => {
                if answer {
                    self.phase = Phase::SeedTime;
                }
            },
            Phase::SeedTime => {
                self.phase = Phase::InitLeave;
            },
            Phase::InitLeave => {
                self.phase = Phase::DomainLock;
            },
            _ => {
                self.lock();
            },
        }
    }

    /// Sets out for standby, from whatever phase: what is pending from here
    /// on are the operations that lead there.
    pub fn sleep(&mut self)
        ensures
            final(self)@ == Phase::WakeArm,
    {
        self.phase = Phase::WakeArm;
    }

    /// Decodes the hour and the minute from the time register's word: each is
    /// ten times its tens digit plus its units digit.
    pub fn get(&self, tr: u32) -> (time: (u8, u8))
        ensures
            time == decoded(tr),
            time.0 == 10 * hour_tens(tr) + hour_units(tr),
            time.1 == 10 * minute_tens(tr) + minute_units(tr),
    {
        assert(hour_tens(tr) <= 3 && hour_units(tr) <= 15 && minute_tens(tr) <= 7 && minute_units(tr)
            <= 15) by (bit_vector);
        let hourt = ((tr >> 20) & 0x3) as u8;
        let houru = ((tr >> 16) & 0xf) as u8;
        let mint = ((tr >> 12) & 0x7) as u8;
        let minu = ((tr >> 8) & 0xf) as u8;
        (10 * hourt + houru, 10 * mint + minu)
    }
}

} // verus!
