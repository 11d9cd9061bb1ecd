//! The real-time clock: which registers one reading takes, in which order,
//! and how the raw register bytes decode into a date and a time of day.
//!
//! The clock stores its fields either in binary or as two decimal digits in
//! one byte, and the hour either on a 24-hour or on a 12-hour clock face with
//! the afternoon flagged in the top bit. A status register says which.

use vstd::prelude::*;

verus! {

/// Port that selects a clock register.
pub const RTC_ADDRESS_PORT: u16 = 0x70;

/// Port through which the selected register is read.
pub const RTC_DATA_PORT: u16 = 0x71;

pub const RTC_SECONDS: u8 = 0x00;

pub const RTC_MINUTES: u8 = 0x02;

pub const RTC_HOURS: u8 = 0x04;

pub const RTC_DAY_OF_MONTH: u8 = 0x07;

pub const RTC_MONTH: u8 = 0x08;

pub const RTC_YEAR: u8 = 0x09;

pub const RTC_STATUS_A: u8 = 0x0A;

pub const RTC_STATUS_B: u8 = 0x0B;

/// Status register A: the clock is updating its fields.
pub const RTC_UIP_FLAG: u8 = 0x80;

/// Status register B: the fields are stored in binary.
pub const RTC_FORMAT_BINARY: u8 = 0x04;

/// Status register B: the hour runs from 0 to 23.
pub const RTC_FORMAT_24HOUR: u8 = 0x02;

/// Hour register on a 12-hour clock face: the hour is past noon.
pub const RTC_HOUR_PM_FLAG: u8 = 0x80;

/// The century that the clock's two-digit year is counted from.
pub const RTC_CENTURY_BASE: u16 = 2000;

/// A calendar date and a time of day.
#[derive(Debug, Clone, Copy, PartialEq, Eq, Structural)]
pub struct DateTime {
    pub year: u16,
    pub month: u8,
    pub day: u8,
    pub hour: u8,
    pub minute: u8,
    pub second: u8,
}

/// The clock's registers as one reading found them.
#[derive(Debug, Clone, Copy, PartialEq, Eq, Structural)]
pub struct RtcRegisters {
    pub second: u8,
    pub minute: u8,
    pub hour: u8,
    pub day: u8,
    pub month: u8,
    pub year: u8,
    pub status_b: u8,
}

/// The number that a byte of two decimal digits stands for: the low nibble
/// plus ten times the high nibble.
pub open spec fn bcd_value(bcd: u8) -> int {
    bcd % 16 + 10 * (bcd / 16)
}

impl RtcRegisters {
    /// The fields are stored in binary, not as decimal digits.
    pub open spec fn binary_mode(self) -> bool {
        (self.status_b / 4) % 2 == 1
    }

    /// The hour runs from 0 to 23, not twice from 1 to 12.
    pub open spec fn twenty_four_hour(self) -> bool {
        (self.status_b / 2) % 2 == 1
    }

    /// The hour register carries the afternoon flag.
    pub open spec fn pm(self) -> bool {
        self.hour >= 128
    }

    /// The number that a field's register byte stands for.
    pub open spec fn field(self, register: u8) -> int {
        if self.binary_mode() {
            register as int
        } else {
            bcd_value(register)
        }
    }

    /// The hour as the clock face shows it, without the afternoon flag. A
    /// binary hour on a 24-hour face has no flag and is taken whole.
    pub open spec fn hour_on_face(self) -> int {
        if !self.binary_mode() {
            bcd_value(self.hour % 128)
        } else if self.twenty_four_hour() {
            self.hour as int
        } else {
            (self.hour % 128) as int
        }
    }

    /// The hour of the day. On a 12-hour face, 12 before noon is hour 0, 12
    /// past noon stays 12, any other hour past noon is twelve later, and the
    /// hours before noon stand as they are.
    pub open spec fn hour_of_day(self) -> int {
        let hour = self.hour_on_face();
        if self.twenty_four_hour() {
            hour
        } else if hour == 12 {
            if self.pm() {
                12
            } else {
                0
            }
        } else if self.pm() {
            (hour + 12) % 24
        } else {
            hour
        }
    }

    /// The date and time that the registers stand for. The year is counted
    /// from 2000: the clock's century register is not read.
    pub open spec fn decoded(self) -> DateTime {
        DateTime {
            year: (RTC_CENTURY_BASE + self.field(self.year)) as u16,
            month: self.field(self.month) as u8,
            day: self.field(self.day) as u8,
            hour: self.hour_of_day() as u8,
            minute: self.field(self.minute) as u8,
            second: self.field(self.second) as u8,
        }
    }
}

/// A byte of two decimal digits stands for ten times the high digit plus the
/// low digit.
pub proof fn lemma_bcd_of_digits(tens: u8, ones: u8)
    requires
        tens < 10,
        ones < 10,
    ensures
        bcd_value((tens * 16 + ones) as u8) == 10 * tens + ones,
{
}

/// On a 12-hour clock face the hour of the day lies between 0 and 23, shows
/// the same hour on the face, and is past noon exactly where the afternoon
/// flag is set.
pub proof fn lemma_twelve_hour_face(raw: RtcRegisters)
    requires
        !raw.twenty_four_hour(),
        1 <= raw.hour_on_face() <= 12,
    ensures
        0 <= raw.hour_of_day() < 24,
        raw.hour_of_day() % 12 == raw.hour_on_face() % 12,
        raw.hour_of_day() >= 12 <==> raw.pm(),
{
}

/// On a 24-hour clock face the hour of the day is the hour on the face.
pub proof fn lemma_twenty_four_hour_face(raw: RtcRegisters)
    requires
        raw.twenty_four_hour(),
    ensures
        raw.hour_of_day() == raw.hour_on_face(),
{
}

/// Whether status register A says that the clock is updating its fields, so
/// that they must not be read yet.
pub fn update_in_progress(status_a: u8) -> (busy: bool)
    ensures
        busy == (status_a >= 128),
{
    assert((status_a & 0x80 != 0) == (status_a >= 128)) by (bit_vector);
    (status_a & RTC_UIP_FLAG) != 0
}

/// Decodes a byte of two decimal digits.
pub fn bcd_to_binary(bcd_val: u8) -> (binary: u8)
    ensures
        binary == bcd_value(bcd_val),
        bcd_val < 128 ==> binary <= 85,
{
    assert(bcd_val & 0x0F == bcd_val % 16) by (bit_vector);
    assert(bcd_val >> 4 == bcd_val / 16) by (bit_vector);
    (bcd_val & 0x0F) + ((bcd_val >> 4) * 10)
}

/// Decodes one reading of the clock's registers into a date and a time of
/// day on the 24-hour clock.
pub fn get_datetime(raw: RtcRegisters) -> (datetime: DateTime)
    ensures
        datetime == raw.decoded(),
{
    let status_b: u8 = raw.status_b;
    let raw_hour: u8 = raw.hour;
    assert((status_b & 0x04 != 0) == ((status_b / 4) % 2 == 1)) by (bit_vector);
    assert((status_b & 0x02 != 0) == ((status_b / 2) % 2 == 1)) by (bit_vector);
    assert((raw_hour & 0x80 != 0) == (raw_hour >= 128)) by (bit_vector);
    assert(raw_hour & 0x7F == raw_hour % 128) by (bit_vector);
    let is_binary_mode = (status_b & RTC_FORMAT_BINARY) != 0;
    let is_24_hour_mode = (status_b & RTC_FORMAT_24HOUR) != 0;
    let is_pm = (raw_hour & RTC_HOUR_PM_FLAG) != 0;

    let mut second: u8 = raw.second;
    let mut minute: u8 = raw.minute;
    let mut hour: u8 = raw_hour;
    let mut day: u8 = raw.day;
    let mut month: u8 = raw.month;
    let mut year: u8 = raw.year;

    if !is_binary_mode {
        second = bcd_to_binary(second);
        minute = bcd_to_binary(minute);
        hour = bcd_to_binary(raw_hour & 0x7F);
        day = bcd_to_binary(day);
        month = bcd_to_binary(month);
        year = bcd_to_binary(year);
    } else if !is_24_hour_mode {
        hour = raw_hour & 0x7F;
    }
    if !is_24_hour_mode {
        if hour == 12 {
            if !is_pm {
                hour = 0;
            }
        } else if is_pm {
            hour = (hour + 12) % 24;
        }
    }
    DateTime { year: RTC_CENTURY_BASE + year as u16, month, day, hour, minute, second }
}

/// What a reading of the clock asks of its caller next.
#[derive(Debug, Clone, Copy, PartialEq, Eq, Structural)]
pub enum ClockStep {
    /// Select this register, read its byte and hand the byte over.
    Read(u8),
    /// The reading is complete and gave this date and time.
    Done(DateTime),
}

/// Number of bytes one reading takes once the clock is idle: status
/// register A, the six fields and status register B.
pub const CLOCK_STAGES: u8 = 8;

/// The register that a reading asks for at each of its stages: first status
/// register A, until the clock is idle, then seconds, minutes, hours, day,
/// month and year, and last status register B.
pub open spec fn register_at(stage: nat) -> u8 {
    if stage == 0 {
        RTC_STATUS_A
    } else if stage == 1 {
        RTC_SECONDS
    } else if stage == 2 {
        RTC_MINUTES
    } else if stage == 3 {
        RTC_HOURS
    } else if stage == 4 {
        RTC_DAY_OF_MONTH
    } else if stage == 5 {
        RTC_MONTH
    } else if stage == 6 {
        RTC_YEAR
    } else {
        RTC_STATUS_B
    }
}

/// How far a reading of the clock has come: the stage it is at, and the
/// register bytes it has taken so far.
pub struct ClockProgress {
    pub stage: nat,
    pub raw: RtcRegisters,
}

impl ClockProgress {
    /// A reading that has taken nothing yet.
    pub open spec fn start() -> ClockProgress {
        ClockProgress {
            stage: 0,
            raw: RtcRegisters {
                second: 0,
                minute: 0,
                hour: 0,
                day: 0,
                month: 0,
                year: 0,
                status_b: 0,
            },
        }
    }

    /// What the reading asks for next.
    pub open spec fn request(self) -> ClockStep {
        if self.stage < CLOCK_STAGES {
            ClockStep::Read(register_at(self.stage))
        } else {
            ClockStep::Done(self.raw.decoded())
        }
    }

    /// The reading after the byte of the register it asked for. While the
    /// clock is updating, the reading stays where it is and asks again; each
    /// field is taken once; a complete reading takes nothing more.
    pub open spec fn supply(self, value: u8) -> ClockProgress {
        let raw = self.raw;
        if self.stage == 0 {
            if value >= 128 {
                self
            } else {
                ClockProgress { stage: 1, raw }
            }
        } else if self.stage == 1 {
            ClockProgress { stage: 2, raw: RtcRegisters { second: value, ..raw } }
        } else if self.stage == 2 {
            ClockProgress { stage: 3, raw: RtcRegisters { minute: value, ..raw } }
        } else if self.stage == 3 {
            ClockProgress { stage: 4, raw: RtcRegisters { hour: value, ..raw } }
        } else if self.stage == 4 {
            ClockProgress { stage: 5, raw: RtcRegisters { day: value, ..raw } }
        } else if self.stage == 5 {
            ClockProgress { stage: 6, raw: RtcRegisters { month: value, ..raw } }
        } else if self.stage == 6 {
            ClockProgress { stage: 7, raw: RtcRegisters { year: value, ..raw } }
        } else if self.stage == 7 {
            ClockProgress { stage: 8, raw: RtcRegisters { status_b: value, ..raw } }
        } else {
            self
        }
    }
}

/// One reading of the clock, driven by its caller: the caller reads the
/// register that `request` asks for and hands the byte to `supply`, until
/// `request` gives the date and time.
pub struct ClockReader {
    stage: u8,
    raw: RtcRegisters,
}

impl View for ClockReader {
    type V = ClockProgress;

    closed spec fn view(&self) -> ClockProgress {
        ClockProgress { stage: self.stage as nat, raw: self.raw }
    }
}

impl ClockReader {
    /// A reading that has taken nothing yet.
    pub fn new() -> (reader: ClockReader)
        ensures
            reader@ == ClockProgress::start(),
    {
        ClockReader {
            stage: 0,
            raw: RtcRegisters {
                second: 0,
                minute: 0,
                hour: 0,
                day: 0,
                month: 0,
                year: 0,
                status_b: 0,
            },
        }
    }

    /// What the caller is to do next: read a register, or take the result.
    pub fn request(&self) -> (step: ClockStep)
        ensures
            step == self@.request(),
    {
        match self.stage {
            0 => ClockStep::Read(RTC_STATUS_A),
            1 => ClockStep::Read(RTC_SECONDS),
            2 => ClockStep::Read(RTC_MINUTES),
            3 => ClockStep::Read(RTC_HOURS),
            4 => ClockStep::Read(RTC_DAY_OF_MONTH),
            5 => ClockStep::Read(RTC_MONTH),
            6 => ClockStep::Read(RTC_YEAR),
            7 => ClockStep::Read(RTC_STATUS_B),
            _ => ClockStep::Done(get_datetime(self.raw)),
        }
    }

    /// Takes the byte read from the register that `request` asked for.
    pub fn supply(&mut self, value: u8)
        ensures
            final(self)@ == old(self)@.supply(value),
    {
        match self.stage {
            0 => {
                if !update_in_progress(value) {
                    self.stage = 1;
                }
            },
            1 => {
                self.raw.second = value;
                self.stage = 2;
            },
            2 => {
                self.raw.minute = value;
                self.stage = 3;
            },
            3 => {
                self.raw.hour = value;
                self.stage = 4;
            },
            4 => {
                self.raw.day = value;
                self.stage = 5;
            },
            5 => {
                self.raw.month = value;
                self.stage = 6;
            },
            6 => {
                self.raw.year = value;
                self.stage = 7;
            },
            7 => {
                self.raw.status_b = value;
                self.stage = 8;
            },
            _ => {},
        }
    }
}

/// While status register A says that the clock is updating, a reading takes
/// no field and asks for the status again.
pub proof fn lemma_busy_clock_is_polled_again(progress: ClockProgress, status_a: u8)
    requires
        progress.stage == 0,
        status_a >= 128,
    ensures
        progress.supply(status_a) == progress,
        progress.request() == ClockStep::Read(RTC_STATUS_A),
{
}

/// Once the clock is idle, a reading asks for seconds, minutes, hours, day,
/// month, year and status register B, each once and in this order, and then
/// gives what these seven bytes decode to.
pub proof fn lemma_reading_takes_each_register_once(status_a: u8, raw: RtcRegisters)
    requires
        status_a < 128,
    ensures
        ({
            let s1 = ClockProgress::start().supply(status_a);
            let s2 = s1.supply(raw.second);
            let s3 = s2.supply(raw.minute);
            let s4 = s3.supply(raw.hour);
            let s5 = s4.supply(raw.day);
            let s6 = s5.supply(raw.month);
            let s7 = s6.supply(raw.year);
            let s8 = s7.supply(raw.status_b);
            &&& s1.request() == ClockStep::Read(RTC_SECONDS)
            &&& s2.request() == ClockStep::Read(RTC_MINUTES)
            &&& s3.request() == ClockStep::Read(RTC_HOURS)
            &&& s4.request() == ClockStep::Read(RTC_DAY_OF_MONTH)
            &&& s5.request() == ClockStep::Read(RTC_MONTH)
            &&& s6.request() == ClockStep::Read(RTC_YEAR)
            &&& s7.request() == ClockStep::Read(RTC_STATUS_B)
            &&& s8.request() == ClockStep::Done(raw.decoded())
            &&& forall|extra: u8| s8.supply(extra) == s8
        }),
{
}

} // verus!
