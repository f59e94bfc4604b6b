//! The device handle and its lifecycle.
//!
//! A handle starts uninitialized. Initialization applies three bus-timing
//! settings in order (bus-idle timeout, pin-low timeout, clock speed); only
//! when all three have been applied does it yield the initialized handle, the
//! only one that can start conversions. Each step that needs the bus is
//! expressed as a request the caller performs on the bus and an outcome it
//! hands back.
use vstd::prelude::*;
use crate::config::{
    base_config, config_for, lemma_config_fields, single_mux_bits, single_shot_config,
    single_shot_config_for, DataRate, Gain, SingleEndedChannel, CONFIG_MUX_MASK, CONFIG_OS_MASK,
    CONFIG_OS_NOTBUSY, CONFIG_OS_SINGLE,
};
use crate::registers::{
    be_value, from_be_bytes, read_frame, read_register, write_frame, write_register, Transaction,
    REGISTER_REPLY_LEN, REG_POINTER_CONFIG, REG_POINTER_CONVERT,
};

verus! {

/// The device's bus address.
pub const DEVICE_ADDRESS: u8 = 0x48;
/// Diagnostic register that holds a device-identifying byte.
pub const WHO_AM_I: u8 = 0x75;
/// Number of bytes the diagnostic register read returns.
pub const WHO_AM_I_LEN: usize = 1;
/// Bus-idle timeout applied at initialization, in microseconds.
pub const BUS_IDLE_TIMEOUT_MICROS: u32 = 200;
/// Pin-low timeout applied at initialization, in microseconds.
pub const PIN_LOW_TIMEOUT_MICROS: u32 = 1000;

/// Bus clock speed.
#[derive(Debug, Clone, Copy, PartialEq, Eq, Structural)]
pub enum ClockSpeed {
    KHz100,
    KHz400,
    MHz1,
}

/// One bus-timing setting that initialization applies.
#[derive(Debug, Clone, Copy, PartialEq, Eq, Structural)]
pub enum TimingSetting {
    BusIdleTimeout { micros: u32 },
    PinLowTimeout { micros: u32 },
    ClockSpeed(ClockSpeed),
}

/// Initialization failure: names the setting that could not be applied and
/// carries the bus's own error.
#[derive(Debug, Clone, Copy, PartialEq, Eq)]
pub enum ErrorKind<E> {
    BusIdleTimeout(E),
    PinLowTimeout(E),
    ClockSpeed(E),
}

/// The settings initialization applies, in order.
pub open spec fn timing_plan(clock_speed: ClockSpeed) -> Seq<TimingSetting> {
    seq![
        TimingSetting::BusIdleTimeout { micros: BUS_IDLE_TIMEOUT_MICROS },
        TimingSetting::PinLowTimeout { micros: PIN_LOW_TIMEOUT_MICROS },
        TimingSetting::ClockSpeed(clock_speed),
    ]
}

/// The error that reports a failure of the setting at position `step` of the plan.
pub open spec fn step_error<E>(step: nat, e: E) -> ErrorKind<E> {
    if step == 0 {
        ErrorKind::BusIdleTimeout(e)
    } else if step == 1 {
        ErrorKind::PinLowTimeout(e)
    } else {
        ErrorKind::ClockSpeed(e)
    }
}

/// A handle on a device whose bus has not been configured yet.
pub struct Ads1115Uninit<I> {
    i2c: I,
    addr: u8,
    clock_speed: ClockSpeed,
}

impl<I> Ads1115Uninit<I> {
    /// The device's bus address.
    pub closed spec fn spec_addr(&self) -> u8 {
        self.addr
    }

    /// The clock speed initialization sets.
    pub closed spec fn spec_clock_speed(&self) -> ClockSpeed {
        self.clock_speed
    }

    /// The bus handle.
    pub closed spec fn spec_bus(&self) -> I {
        self.i2c
    }

    /// Takes ownership of the bus, for the device at its fixed address, to be
    /// clocked at 400 kHz.
    pub fn new(i2c: I) -> (r: Self)
        ensures
            r.spec_addr() == DEVICE_ADDRESS,
            r.spec_clock_speed() == ClockSpeed::KHz400,
            r.spec_bus() == i2c,
    {
        Ads1115Uninit { i2c, addr: DEVICE_ADDRESS, clock_speed: ClockSpeed::KHz400 }
    }

    /// Starts initialization. The uninitialized handle is consumed: whatever
    /// the outcome, it cannot be initialized twice.
    pub fn init(self) -> (r: Initializing<I>)
        ensures
            r.spec_addr() == self.spec_addr(),
            r.spec_clock_speed() == self.spec_clock_speed(),
            r.spec_bus() == self.spec_bus(),
            r.applied() == Seq::<TimingSetting>::empty(),
    {
        Initializing {
            i2c: self.i2c,
            addr: self.addr,
            clock_speed: self.clock_speed,
            step: 0,
        }
    }
}

/// Initialization under way: some prefix of the timing plan has been applied.
pub struct Initializing<I> {
    i2c: I,
    addr: u8,
    clock_speed: ClockSpeed,
    step: u8,
}

/// What initialization does after a setting's outcome.
pub enum InitStep<I, E> {
    /// The setting was applied; the next one is pending.
    Next(Initializing<I>),
    /// All settings were applied: the device is ready for sampling.
    Ready(Ads1115<I>),
    /// The setting could not be applied; initialization is over.
    Failed(ErrorKind<E>),
}

impl<I> Initializing<I> {
    /// The device's bus address.
    pub closed spec fn spec_addr(&self) -> u8 {
        self.addr
    }

    /// The clock speed initialization sets.
    pub closed spec fn spec_clock_speed(&self) -> ClockSpeed {
        self.clock_speed
    }

    /// The bus handle.
    pub closed spec fn spec_bus(&self) -> I {
        self.i2c
    }

    /// The settings applied so far, in order.
    pub closed spec fn applied(&self) -> Seq<TimingSetting> {
        timing_plan(self.clock_speed).take(if self.step < 2 { self.step as int } else { 2 })
    }

    /// The bus, for applying the pending setting.
    pub fn bus(&mut self) -> (r: &mut I)
        ensures
            final(self).spec_addr() == old(self).spec_addr(),
            final(self).spec_clock_speed() == old(self).spec_clock_speed(),
            final(self).applied() == old(self).applied(),
    {
        &mut self.i2c
    }

    /// The setting to apply next.
    pub fn pending(&self) -> (r: TimingSetting)
        ensures
            r == timing_plan(self.spec_clock_speed())[self.applied().len() as int],
    {
        if self.step == 0 {
            TimingSetting::BusIdleTimeout { micros: BUS_IDLE_TIMEOUT_MICROS }
        } else if self.step == 1 {
            TimingSetting::PinLowTimeout { micros: PIN_LOW_TIMEOUT_MICROS }
        } else {
            TimingSetting::ClockSpeed(self.clock_speed)
        }
    }

    /// Takes the outcome of applying the pending setting. A failure ends
    /// initialization with the error naming that setting; success moves on to
    /// the next setting, or, after the clock speed, yields the initialized
    /// handle at gain 2/3 and 128 samples per second.
    pub fn complete<E>(self, outcome: Result<(), E>) -> (r: InitStep<I, E>)
        ensures
            ({
                let n = self.applied().len();
                let plan = timing_plan(self.spec_clock_speed());
                match outcome {
                    Err(e) => r == InitStep::<I, E>::Failed(step_error(n, e)),
                    Ok(_) => if n + 1 < 3 {
                        &&& r is Next
                        &&& r->Next_0.spec_addr() == self.spec_addr()
                        &&& r->Next_0.spec_clock_speed() == self.spec_clock_speed()
                        &&& r->Next_0.spec_bus() == self.spec_bus()
                        &&& r->Next_0.applied() == self.applied().push(plan[n as int])
                    } else {
                        &&& r is Ready
                        &&& r->Ready_0.spec_addr() == self.spec_addr()
                        &&& r->Ready_0.spec_bus() == self.spec_bus()
                        &&& r->Ready_0.spec_gain() == Gain::TwoThirds
                        &&& r->Ready_0.spec_data_rate() == DataRate::SPS128
                        &&& self.applied().push(plan[n as int]) == plan
                    },
                }
            }),
    {
        let Initializing { i2c, addr, clock_speed, step } = self;
        match outcome {
            Err(e) => {
                if step == 0 {
                    InitStep::Failed(ErrorKind::BusIdleTimeout(e))
                } else if step == 1 {
                    InitStep::Failed(ErrorKind::PinLowTimeout(e))
                } else {
                    InitStep::Failed(ErrorKind::ClockSpeed(e))
                }
            },
            Ok(_) => {
                let ghost plan = timing_plan(clock_speed);
                if step < 2 {
                    assert(plan.take(step as int).push(plan[step as int]) =~= plan.take(step + 1));
                    InitStep::Next(Initializing { i2c, addr, clock_speed, step: step + 1 })
                } else {
                    assert(plan.take(2).push(plan[2]) =~= plan);
                    InitStep::Ready(
                        Ads1115 {
                            i2c,
                            addr,
                            gain: Gain::TwoThirds,
                            data_rate: DataRate::SPS128,
                        },
                    )
                }
            },
        }
    }
}

/// A handle on a device whose bus timing has been configured.
pub struct Ads1115<I> {
    i2c: I,
    addr: u8,
    gain: Gain,
    data_rate: DataRate,
}

impl<I> Ads1115<I> {
    /// The device's bus address.
    pub closed spec fn spec_addr(&self) -> u8 {
        self.addr
    }

    /// The bus handle.
    pub closed spec fn spec_bus(&self) -> I {
        self.i2c
    }

    /// The current gain.
    pub closed spec fn spec_gain(&self) -> Gain {
        self.gain
    }

    /// The current data rate.
    pub closed spec fn spec_data_rate(&self) -> DataRate {
        self.data_rate
    }

    /// The bus, for performing the requested transactions.
    pub fn bus(&mut self) -> (r: &mut I)
        ensures
            final(self).spec_addr() == old(self).spec_addr(),
            final(self).spec_gain() == old(self).spec_gain(),
            final(self).spec_data_rate() == old(self).spec_data_rate(),
    {
        &mut self.i2c
    }

    /// The transaction that reads the diagnostic register; its one-byte reply
    /// identifies the device.
    pub fn who_am_i(&self) -> (t: Transaction)
        ensures
            t.addr == self.spec_addr(),
            t.bytes@ == seq![WHO_AM_I],
            t.read_len == WHO_AM_I_LEN,
    {
        let mut bytes: Vec<u8> = Vec::new();
        bytes.push(WHO_AM_I);
        assert(bytes@ =~= seq![WHO_AM_I]);
        Transaction { addr: self.addr, bytes, read_len: WHO_AM_I_LEN }
    }

    /// Selects the gain used by later reads.
    pub fn set_gain(&mut self, gain: Gain)
        ensures
            final(self).spec_gain() == gain,
            final(self).spec_data_rate() == old(self).spec_data_rate(),
            final(self).spec_addr() == old(self).spec_addr(),
            final(self).spec_bus() == old(self).spec_bus(),
    {
        self.gain = gain;
    }

    pub fn gain(&self) -> (r: Gain)
        ensures
            r == self.spec_gain(),
    {
        self.gain
    }

    /// Selects the data rate used by later reads.
    pub fn set_data_rate(&mut self, data_rate: DataRate)
        ensures
            final(self).spec_data_rate() == data_rate,
            final(self).spec_gain() == old(self).spec_gain(),
            final(self).spec_addr() == old(self).spec_addr(),
            final(self).spec_bus() == old(self).spec_bus(),
    {
        self.data_rate = data_rate;
    }

    pub fn data_rate(&self) -> (r: DataRate)
        ensures
            r == self.spec_data_rate(),
    {
        self.data_rate
    }

    /// The configuration word for the current gain and data rate.
    pub fn get_config(&self) -> (r: u16)
        ensures
            r == base_config(self.spec_gain(), self.spec_data_rate()),
    {
        config_for(self.gain, self.data_rate)
    }

    /// Starts a single-shot conversion on `channel` at the current gain and
    /// data rate. The returned sequence first writes the configuration word,
    /// then polls the status bit, then reads the conversion register.
    pub fn read_single(&self, channel: SingleEndedChannel) -> (r: SingleRead)
        ensures
            r.spec_addr() == self.spec_addr(),
            r.config() == single_shot_config(self.spec_gain(), self.spec_data_rate(), channel),
            r.phase() == ReadPhase::Configure,
            r.polls() == 0,
            r.busy_left() == None::<u32>,
    {
        let config = single_shot_config_for(self.gain, self.data_rate, channel);
        SingleRead {
            addr: self.addr,
            config,
            phase: ReadPhase::Configure,
            busy_left: None,
            polls: Ghost(0),
        }
    }

    /// Like [`Self::read_single`], but the read gives up once the status
    /// register has answered "busy" more than `max_busy` times.
    pub fn read_single_bounded(&self, channel: SingleEndedChannel, max_busy: u32) -> (r: SingleRead)
        ensures
            r.spec_addr() == self.spec_addr(),
            r.config() == single_shot_config(self.spec_gain(), self.spec_data_rate(), channel),
            r.phase() == ReadPhase::Configure,
            r.polls() == 0,
            r.busy_left() == Some(max_busy),
    {
        let config = single_shot_config_for(self.gain, self.data_rate, channel);
        SingleRead {
            addr: self.addr,
            config,
            phase: ReadPhase::Configure,
            busy_left: Some(max_busy),
            polls: Ghost(0),
        }
    }
}

/// The transaction a single-shot read is waiting on.
#[derive(Debug, Clone, Copy, PartialEq, Eq, Structural)]
pub enum ReadPhase {
    /// Writing the configuration word that starts the conversion.
    Configure,
    /// Reading the configuration register for the status bit.
    Poll,
    /// Reading the conversion result.
    Fetch,
}

/// A single-shot conversion in progress.
pub struct SingleRead {
    addr: u8,
    config: u16,
    phase: ReadPhase,
    busy_left: Option<u32>,
    polls: Ghost<nat>,
}

/// What a single-shot read does after a reply.
pub enum ReadStep<E> {
    /// Another transaction is needed; see [`SingleRead::request`].
    Pending(SingleRead),
    /// The conversion result, as read from the device.
    Sample(u16),
    /// The bus failed; the read is abandoned.
    Failed(E),
    /// The status register stayed busy past the read's limit.
    PollLimit,
}

/// Whether a configuration register value reports that no conversion is in progress.
pub open spec fn not_busy(status: u16) -> bool {
    status & CONFIG_OS_MASK == CONFIG_OS_NOTBUSY
}

impl SingleRead {
    /// The device's bus address.
    pub closed spec fn spec_addr(&self) -> u8 {
        self.addr
    }

    /// The configuration word that starts the conversion.
    pub closed spec fn config(&self) -> u16 {
        self.config
    }

    /// The transaction the read is waiting on.
    pub closed spec fn phase(&self) -> ReadPhase {
        self.phase
    }

    /// The number of status reads answered so far.
    pub closed spec fn polls(&self) -> nat {
        self.polls@
    }

    /// How many more "busy" answers the read accepts; `None` for no limit.
    pub closed spec fn busy_left(&self) -> Option<u32> {
        self.busy_left
    }

    /// The bytes of the transaction awaited in a phase.
    pub open spec fn frame(phase: ReadPhase, config: u16) -> Seq<u8> {
        match phase {
            ReadPhase::Configure => write_frame(REG_POINTER_CONFIG, config),
            ReadPhase::Poll => read_frame(REG_POINTER_CONFIG),
            ReadPhase::Fetch => read_frame(REG_POINTER_CONVERT),
        }
    }

    /// The transaction to perform now; its reply is two bytes.
    pub fn request(&self) -> (t: Transaction)
        ensures
            t.addr == self.spec_addr(),
            t.bytes@ == Self::frame(self.phase(), self.config()),
            t.read_len == REGISTER_REPLY_LEN,
    {
        match self.phase {
            ReadPhase::Configure => write_register(self.addr, REG_POINTER_CONFIG, self.config),
            ReadPhase::Poll => read_register(self.addr, REG_POINTER_CONFIG),
            ReadPhase::Fetch => read_register(self.addr, REG_POINTER_CONVERT),
        }
    }

    /// Takes the reply to the requested transaction. A bus error ends the
    /// read with that error. After the configuration write, the status bit is
    /// polled; a reply with the bit set moves straight to the conversion read,
    /// one with the bit clear asks for another poll unless the read's limit of
    /// busy answers is used up; the conversion read's reply is the sample.
    pub fn advance<E>(self, reply: Result<[u8; 2], E>) -> (r: ReadStep<E>)
        ensures
            match reply {
                Err(e) => r == ReadStep::<E>::Failed(e),
                Ok(b) => {
                    let value = be_value(b[0], b[1]);
                    match self.phase() {
                        ReadPhase::Configure => {
                            &&& r is Pending
                            &&& r->Pending_0.phase() == ReadPhase::Poll
                            &&& r->Pending_0.polls() == self.polls()
                            &&& r->Pending_0.busy_left() == self.busy_left()
                        },
                        ReadPhase::Poll => if not_busy(value) {
                            &&& r is Pending
                            &&& r->Pending_0.phase() == ReadPhase::Fetch
                            &&& r->Pending_0.polls() == self.polls() + 1
                            &&& r->Pending_0.busy_left() == self.busy_left()
                        } else {
                            match self.busy_left() {
                                Some(n) if n == 0 => r is PollLimit,
                                _ => {
                                    &&& r is Pending
                                    &&& r->Pending_0.phase() == ReadPhase::Poll
                                    &&& r->Pending_0.polls() == self.polls() + 1
                                    &&& r->Pending_0.busy_left() == match self.busy_left() {
                                        Some(n) => Some((n - 1) as u32),
                                        None => None,
                                    }
                                },
                            }
                        },
                        ReadPhase::Fetch => r == ReadStep::<E>::Sample(value),
                    }
                },
            },
            r is Pending ==> r->Pending_0.spec_addr() == self.spec_addr() && r->Pending_0.config()
                == self.config(),
    {
        match reply {
            Err(e) => ReadStep::Failed(e),
            Ok(b) => {
                let value = from_be_bytes(b);
                match self.phase {
                    ReadPhase::Configure => ReadStep::Pending(
                        SingleRead { phase: ReadPhase::Poll, ..self },
                    ),
                    ReadPhase::Poll => {
                        let polls = Ghost(self.polls@ + 1);
                        if value & CONFIG_OS_MASK == CONFIG_OS_NOTBUSY {
                            ReadStep::Pending(SingleRead { phase: ReadPhase::Fetch, polls, ..self })
                        } else {
                            match self.busy_left {
                                Some(n) => if n == 0 {
                                    ReadStep::PollLimit
                                } else {
                                    ReadStep::Pending(
                                        SingleRead { busy_left: Some(n - 1), polls, ..self },
                                    )
                                },
                                None => ReadStep::Pending(SingleRead { polls, ..self }),
                            }
                        }
                    },
                    ReadPhase::Fetch => ReadStep::Sample(value),
                }
            },
        }
    }
}

/// For every gain, data rate and single-ended input, the first transaction of
/// a single-shot read writes the configuration register with a word whose mux
/// field selects that input and whose start bit is set.
pub proof fn lemma_read_single_frame(gain: Gain, rate: DataRate, channel: SingleEndedChannel)
    ensures
        ({
            let frame = SingleRead::frame(
                ReadPhase::Configure,
                single_shot_config(gain, rate, channel),
            );
            let word = be_value(frame[1], frame[2]);
            &&& frame.len() == 3
            &&& frame[0] == REG_POINTER_CONFIG
            &&& word == single_shot_config(gain, rate, channel)
            &&& word & CONFIG_MUX_MASK == single_mux_bits(channel)
            &&& word & CONFIG_OS_MASK == CONFIG_OS_SINGLE
        }),
{
    lemma_config_fields(gain, rate, channel);
    crate::registers::lemma_be_round_trip(single_shot_config(gain, rate, channel));
}

} // verus!
