use vstd::prelude::*;

use crate::lifecycle::{LifecycleError, Phase};
use crate::spi_encoding::{fill_spi_buffer, spec_encode_frame};

verus! {

/// An option value rejected at configuration time; nothing is started.
#[derive(Clone, Copy, Debug, PartialEq, Eq, Structural)]
pub enum ConfigError {
    InvalidLedCount,
    UnknownBus,
    InvalidClockSpeed,
}

/// Why one frame was not turned into a bus write: the sink is not running,
/// or the frame is shorter than one byte per configured LED.
#[derive(Clone, Copy, Debug, PartialEq, Eq, Structural)]
pub enum FrameError {
    NotRunning,
    FrameTooSmall,
}

/// The SPI buses a sink can be pointed at.
#[derive(Clone, Copy, Debug, PartialEq, Eq, Structural)]
pub enum SpiBus {
    Spi0,
    Spi1,
    Spi2,
    Spi3,
    Spi4,
    Spi5,
    Spi6,
}

/// The bus selected by index `i`, for `0 <= i <= 6`.
pub open spec fn spec_bus_from_index(i: int) -> SpiBus {
    if i == 0 {
        SpiBus::Spi0
    } else if i == 1 {
        SpiBus::Spi1
    } else if i == 2 {
        SpiBus::Spi2
    } else if i == 3 {
        SpiBus::Spi3
    } else if i == 4 {
        SpiBus::Spi4
    } else if i == 5 {
        SpiBus::Spi5
    } else {
        SpiBus::Spi6
    }
}

/// The index of a bus, inverse of `spec_bus_from_index` on `0..=6`.
pub open spec fn spec_bus_index(bus: SpiBus) -> int {
    match bus {
        SpiBus::Spi0 => 0,
        SpiBus::Spi1 => 1,
        SpiBus::Spi2 => 2,
        SpiBus::Spi3 => 3,
        SpiBus::Spi4 => 4,
        SpiBus::Spi5 => 5,
        SpiBus::Spi6 => 6,
    }
}

impl SpiBus {
    /// The bus behind a numeric index, `UnknownBus` outside the supported
    /// range.
    pub fn from_index(i: u32) -> (r: Result<SpiBus, ConfigError>)
        ensures
            i <= 6 ==> r == Ok::<SpiBus, ConfigError>(spec_bus_from_index(i as int)),
            i > 6 ==> r == Err::<SpiBus, ConfigError>(ConfigError::UnknownBus),
    {
        match i {
            0 => Ok(SpiBus::Spi0),
            1 => Ok(SpiBus::Spi1),
            2 => Ok(SpiBus::Spi2),
            3 => Ok(SpiBus::Spi3),
            4 => Ok(SpiBus::Spi4),
            5 => Ok(SpiBus::Spi5),
            6 => Ok(SpiBus::Spi6),
            _ => Err(ConfigError::UnknownBus),
        }
    }

    /// The numeric index of this bus.
    pub fn index(&self) -> (r: u32)
        ensures
            r as int == spec_bus_index(*self),
    {
        match self {
            SpiBus::Spi0 => 0,
            SpiBus::Spi1 => 1,
            SpiBus::Spi2 => 2,
            SpiBus::Spi3 => 3,
            SpiBus::Spi4 => 4,
            SpiBus::Spi5 => 5,
            SpiBus::Spi6 => 6,
        }
    }
}

/// Selecting a bus and reading its index back is the identity on the
/// supported range.
pub proof fn lemma_bus_index_round_trip(i: int)
    requires
        0 <= i <= 6,
    ensures
        spec_bus_index(spec_bus_from_index(i)) == i,
{
}

/// A sink's configuration, fixed from `start` to `stop`.
#[derive(Clone, Copy, Debug, PartialEq, Eq, Structural)]
pub struct Settings {
    /// LEDs on the chain, and so data bytes sampled from each frame.
    pub num_leds: usize,
    /// The SPI bus the waveform is shifted out on.
    pub bus: SpiBus,
    /// The SPI clock rate in Hz.
    pub clock_speed: u32,
}

impl Settings {
    /// A configuration the sink can run with: at least one LED, a payload
    /// that fits in memory, and a ticking clock.
    pub open spec fn wf(self) -> bool {
        &&& self.num_leds >= 1
        &&& 8 * self.num_leds <= usize::MAX
        &&& self.clock_speed > 0
    }

    /// Validates raw option values into a configuration. Rejects, in this
    /// order, a zero LED count, an unsupported bus index, and a zero clock
    /// speed; accepts everything else.
    pub fn new(num_leds: usize, bus_index: u32, clock_speed: u32) -> (r: Result<
        Settings,
        ConfigError,
    >)
        requires
            8 * num_leds <= usize::MAX,
        ensures
            r is Ok <==> (num_leds >= 1 && bus_index <= 6 && clock_speed > 0),
            num_leds == 0 ==> r == Err::<Settings, ConfigError>(ConfigError::InvalidLedCount),
            num_leds >= 1 && bus_index > 6 ==> r == Err::<Settings, ConfigError>(
                ConfigError::UnknownBus,
            ),
            num_leds >= 1 && bus_index <= 6 && clock_speed == 0 ==> r == Err::<
                Settings,
                ConfigError,
            >(ConfigError::InvalidClockSpeed),
            r is Ok ==> r == Ok::<Settings, ConfigError>(
                (Settings {
                    num_leds,
                    bus: spec_bus_from_index(bus_index as int),
                    clock_speed,
                }),
            ) && r.unwrap().wf(),
    {
        if num_leds == 0 {
            return Err(ConfigError::InvalidLedCount);
        }
        let bus = match SpiBus::from_index(bus_index) {
            Ok(bus) => bus,
            Err(e) => {
                return Err(e);
            },
        };
        if clock_speed == 0 {
            return Err(ConfigError::InvalidClockSpeed);
        }
        Ok(Settings { num_leds, bus, clock_speed })
    }
}

impl Default for Settings {
    /// The stock configuration: 24 LEDs on the first bus at 6.4 MHz.
    fn default() -> (s: Settings)
        ensures
            s == (Settings { num_leds: 24, bus: SpiBus::Spi0, clock_speed: 6_400_000 }),
            s.wf(),
    {
        Settings { num_leds: 24, bus: SpiBus::Spi0, clock_speed: 6_400_000 }
    }
}

/// The terminal stage: each frame's leading `num_leds` bytes become one
/// bus-level waveform in `buffer`, which the caller then hands to the SPI
/// transport. Opening and writing the bus itself is the transport's job;
/// everything this type promises holds whatever the bus does.
pub struct TasbotEyesSink {
    /// The configuration the sink was built with.
    pub settings: Settings,
    /// Where the sink stands in its start/stop cycle.
    pub phase: Phase,
    /// The reusable payload buffer; while running it always holds exactly
    /// eight bytes per LED.
    pub buffer: Vec<u8>,
}

impl TasbotEyesSink {
    /// A sink whose runtime state matches its phase.
    pub open spec fn wf(self) -> bool {
        &&& self.settings.wf()
        &&& (self.phase == Phase::Running ==> self.buffer@.len() == 8 * self.settings.num_leds)
    }

    /// A sink in its initial phase, not yet holding any runtime state.
    pub fn new(settings: Settings) -> (s: TasbotEyesSink)
        requires
            settings.wf(),
        ensures
            s.wf(),
            s.settings == settings,
            s.phase == Phase::Unstarted,
            s.buffer@.len() == 0,
    {
        TasbotEyesSink { settings, phase: Phase::Unstarted, buffer: Vec::new() }
    }

    /// Allocates the cleared payload buffer, eight bytes per LED, and enters
    /// the running phase. The caller opens the bus first and reports a
    /// hardware failure instead of calling this.
    pub fn start(&mut self) -> (r: Result<(), LifecycleError>)
        requires
            old(self).wf(),
        ensures
            final(self).wf(),
            final(self).settings == old(self).settings,
            old(self).phase == Phase::Running ==> r == Err::<(), LifecycleError>(
                LifecycleError::AlreadyRunning,
            ) && *final(self) == *old(self),
            old(self).phase != Phase::Running ==> r == Ok::<(), LifecycleError>(()) && final(self).phase == Phase::Running && final(self).buffer@ =~= Seq::new(
                (8 * old(self).settings.num_leds) as nat,
                |i: int| 0u8,
            ),
    {
        if matches!(self.phase, Phase::Running) {
            return Err(LifecycleError::AlreadyRunning);
        }
        let n: usize = crate::spi_encoding::BITS_PER_BIT * self.settings.num_leds;
        let mut buffer: Vec<u8> = Vec::new();
        let mut i: usize = 0;
        while i < n
            invariant
                i <= n,
                buffer@.len() == i,
                forall|j: int| 0 <= j < i ==> buffer@[j] == 0u8,
            decreases n - i,
        {
            buffer.push(0);
            i = i + 1;
        }
        self.buffer = buffer;
        self.phase = Phase::Running;
        Ok(())
    }

    /// Turns one frame into the bus payload. Rejects the call while not
    /// running; rejects a frame shorter than one byte per LED without
    /// touching any state, so nothing is ever written for it. On success the
    /// buffer holds the full waveform of the frame's leading bytes, ready
    /// for one synchronous bus write by the caller.
    pub fn process_frame(&mut self, frame: &[u8]) -> (r: Result<(), FrameError>)
        requires
            old(self).wf(),
        ensures
            final(self).wf(),
            final(self).settings == old(self).settings,
            final(self).phase == old(self).phase,
            r is Ok <==> (old(self).phase == Phase::Running && frame@.len() >= old(self).settings.num_leds),
            old(self).phase != Phase::Running ==> r == Err::<(), FrameError>(FrameError::NotRunning)
                && *final(self) == *old(self),
            old(self).phase == Phase::Running && frame@.len() < old(self).settings.num_leds ==> r
                == Err::<(), FrameError>(FrameError::FrameTooSmall) && *final(self) == *old(self),
            r is Ok ==> final(self).buffer@ == spec_encode_frame(
                frame@,
                old(self).settings.num_leds as int,
            ),
    {
        if !matches!(self.phase, Phase::Running) {
            return Err(FrameError::NotRunning);
        }
        if frame.len() < self.settings.num_leds {
            return Err(FrameError::FrameTooSmall);
        }
        fill_spi_buffer(frame, self.settings.num_leds, &mut self.buffer);
        proof {
            crate::spi_encoding::lemma_payload_len(frame@, self.settings.num_leds as int);
        }
        Ok(())
    }

    /// Releases the payload buffer and leaves the running phase; the caller
    /// drops its bus handle alongside. Never fails, and a stop while not
    /// running changes nothing.
    pub fn stop(&mut self)
        requires
            old(self).wf(),
        ensures
            final(self).wf(),
            final(self).settings == old(self).settings,
            old(self).phase == Phase::Running ==> final(self).phase == Phase::Stopped && final(self).buffer@.len() == 0,
            old(self).phase != Phase::Running ==> *final(self) == *old(self),
    {
        if matches!(self.phase, Phase::Running) {
            self.buffer = Vec::new();
            self.phase = Phase::Stopped;
        }
    }
}

} // verus!
