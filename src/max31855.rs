//! Frames of a MAX31855 thermocouple amplifier and their decoding.
use vstd::prelude::*;

verus! {

/// Why no sample could be had from the amplifier.
#[derive(Clone, Copy, Debug, PartialEq, Eq, Structural)]
pub enum SampleError {
    /// The device could not be read.
    Read,
    /// The device gave fewer bytes than a whole frame: no data this time.
    ShortRead,
}

impl SampleError {
    /// A short human-readable description of the error.
    pub fn message(&self) -> (r: &'static str)
        ensures
            *self == SampleError::Read ==> r@ == "unable to read from thermocouple"@,
            *self == SampleError::ShortRead ==> r@ == "no more samples"@,
    {
        match self {
            SampleError::Read => "unable to read from thermocouple",
            SampleError::ShortRead => "no more samples",
        }
    }
}

/// One decoded 32-bit frame of the amplifier.
#[derive(Clone, Copy, Debug, PartialEq, Eq, Structural)]
pub struct Sample {
    /// The thermocouple is open (no connection).
    pub oc_fault: bool,
    /// The thermocouple is shorted to ground.
    pub scg_fault: bool,
    /// The thermocouple is shorted to VCC.
    pub scv_fault: bool,
    /// Reference junction temperature, in quarters of a degree Celsius.
    pub internal_temperature: u16,
    /// Set when any fault is present; the temperatures are then meaningless.
    pub fault: bool,
    /// Thermocouple temperature, in quarters of a degree Celsius.
    pub thermocouple_temperature: u16,
}

/// Bit `i` of `raw`.
pub open spec fn bit(raw: u32, i: u32) -> bool {
    (raw >> i) & 1 == 1
}

/// The frame that four bytes give when read most significant first.
pub open spec fn frame_of(b: Seq<u8>) -> u32 {
    (b[0] as int * 0x1000000 + b[1] as int * 0x10000 + b[2] as int * 0x100 + b[3] as int) as u32
}

/// Thermocouple temperature of `s` in hundredths of a degree Celsius, unless
/// the sample is faulted.
pub open spec fn celsius_of(s: Sample) -> Option<int> {
    if s.fault {
        None
    } else {
        Some(s.thermocouple_temperature * 25)
    }
}

/// Thermocouple temperature of `s` in hundredths of a degree Fahrenheit,
/// unless the sample is faulted: `t * 0.45 + 32` for the raw quarter-degree
/// value `t`.
pub open spec fn fahrenheit_of(s: Sample) -> Option<int> {
    if s.fault {
        None
    } else {
        Some(s.thermocouple_temperature * 45 + 3200)
    }
}

/// A frame with the aggregate fault bit set gives no temperature, in either
/// unit.
pub proof fn lemma_fault_hides_temperature(raw: u32)
    requires
        bit(raw, 15),
    ensures
        Sample::decoded(raw).fault,
        celsius_of(Sample::decoded(raw)) is None,
        fahrenheit_of(Sample::decoded(raw)) is None,
{
}

/// The character of decimal digit `d`.
pub open spec fn digit(d: int) -> char {
    seq!['0', '1', '2', '3', '4', '5', '6', '7', '8', '9'][d]
}

/// Decimal notation of `n`, without leading zeros.
pub open spec fn decimal(n: nat) -> Seq<char>
    decreases n,
{
    if n < 10 {
        seq![digit(n as int)]
    } else {
        decimal(n / 10).push(digit((n % 10) as int))
    }
}

/// Decimal notation of `h` hundredths: the whole part, then a point and the
/// fraction without trailing zeros, if there is a fraction.
pub open spec fn hundredths_text(h: nat) -> Seq<char> {
    let whole = decimal(h / 100);
    if h % 100 == 0 {
        whole
    } else if h % 10 == 0 {
        whole + seq!['.', digit(((h / 10) % 10) as int)]
    } else {
        whole + seq!['.', digit(((h / 10) % 10) as int), digit((h % 10) as int)]
    }
}

/// The human-readable report of a sample: which fault, or the temperature
/// in degrees Fahrenheit.
pub open spec fn description(s: Sample) -> Seq<char> {
    if s.fault {
        if s.oc_fault {
            "fault (open connection)"@
        } else if s.scg_fault {
            "fault (shorted to GND)"@
        } else if s.scv_fault {
            "fault (shorted to VCC)"@
        } else {
            "fault (unknown)"@
        }
    } else {
        hundredths_text((s.thermocouple_temperature * 45 + 3200) as nat) + " (F)"@
    }
}

/// The one-character string of decimal digit `d`.
fn digit_str(d: u64) -> (r: &'static str)
    requires
        d < 10,
    ensures
        r@ == seq![digit(d as int)],
{
    proof {
        reveal_strlit("0");
        reveal_strlit("1");
        reveal_strlit("2");
        reveal_strlit("3");
        reveal_strlit("4");
        reveal_strlit("5");
        reveal_strlit("6");
        reveal_strlit("7");
        reveal_strlit("8");
        reveal_strlit("9");
    }
    match d {
        0 => "0",
        1 => "1",
        2 => "2",
        3 => "3",
        4 => "4",
        5 => "5",
        6 => "6",
        7 => "7",
        8 => "8",
        _ => "9",
    }
}

/// Appends the decimal notation of `n` to `s`.
fn push_decimal(s: &mut String, n: u64)
    ensures
        final(s)@ == old(s)@ + decimal(n as nat),
    decreases n,
{
    if n >= 10 {
        push_decimal(s, n / 10);
    }
    s.append(digit_str(n % 10));
    proof {
        if n >= 10 {
            assert(final(s)@ =~= old(s)@ + decimal(n as nat));
        } else {
            assert(final(s)@ =~= old(s)@ + decimal(n as nat));
        }
    }
}

/// Appends the decimal notation of `h` hundredths to `s`.
fn push_hundredths(s: &mut String, h: u64)
    ensures
        final(s)@ == old(s)@ + hundredths_text(h as nat),
{
    push_decimal(s, h / 100);
    if h % 100 != 0 {
        s.append(".");
        s.append(digit_str((h / 10) % 10));
        if h % 10 != 0 {
            s.append(digit_str(h % 10));
        }
    }
    proof {
        reveal_strlit(".");
        assert(final(s)@ =~= old(s)@ + hundredths_text(h as nat));
    }
}

impl Sample {
    /// The sample that the frame `raw` encodes, field by field.
    pub open spec fn decoded(raw: u32) -> Sample {
        Sample {
            oc_fault: bit(raw, 0),
            scg_fault: bit(raw, 1),
            scv_fault: bit(raw, 2),
            internal_temperature: ((raw >> 3) & 0xFFF) as u16,
            fault: bit(raw, 15),
            thermocouple_temperature: (raw >> 18) as u16,
        }
    }

    /// Decodes a frame read from the amplifier.
    pub fn new(raw: u32) -> (r: Sample)
        ensures
            r == Sample::decoded(raw),
            r.internal_temperature < 4096,
            r.thermocouple_temperature as u32 == raw >> 18,
            r.thermocouple_temperature < 16384,
    {
        proof {
            assert(((raw >> 3) & 0xFFF) < 4096) by (bit_vector);
            assert((raw >> 18) < 16384) by (bit_vector);
        }
        Sample {
            oc_fault: (raw >> 0) & 0x01 == 0x01,
            scg_fault: (raw >> 1) & 0x01 == 0x01,
            scv_fault: (raw >> 2) & 0x01 == 0x01,
            internal_temperature: ((raw >> 3) & 0xFFF) as u16,
            fault: (raw >> 15) & 0x01 == 0x01,
            thermocouple_temperature: (raw >> 18) as u16,
        }
    }

    /// Decodes what one read of the device gave: `bytes_read` bytes of `buf`.
    /// A read of other than four bytes carries no frame.
    pub fn from_read(buf: [u8; 4], bytes_read: usize) -> (r: Result<Sample, SampleError>)
        ensures
            bytes_read != 4 ==> r == Err::<Sample, SampleError>(SampleError::ShortRead),
            bytes_read == 4 ==> r == Ok::<Sample, SampleError>(Sample::decoded(frame_of(buf@))),
    {
        if bytes_read != 4 {
            Err(SampleError::ShortRead)
        } else {
            let b0 = buf[0];
            let b1 = buf[1];
            let b2 = buf[2];
            let b3 = buf[3];
            let raw: u32 = (b0 as u32) << 24 | (b1 as u32) << 16 | (b2 as u32) << 8 | (b3 as u32);
            assert(raw == (b0 as int * 0x1000000 + b1 as int * 0x10000 + b2 as int * 0x100
                + b3 as int) as u32) by (bit_vector)
                requires
                    raw == (b0 as u32) << 24 | (b1 as u32) << 16 | (b2 as u32) << 8 | (b3 as u32),
            ;
            Ok(Sample::new(raw))
        }
    }

    /// The thermocouple temperature in hundredths of a degree Celsius, or
    /// `None` when the sample is faulted.
    pub fn get_temp_celcius(&self) -> (r: Option<i64>)
        ensures
            r is None <==> self.fault,
            r matches Some(v) ==> Some(v as int) == celsius_of(*self),
    {
        if self.fault {
            None
        } else {
            Some(self.thermocouple_temperature as i64 * 25)
        }
    }

    /// The thermocouple temperature in hundredths of a degree Fahrenheit, or
    /// `None` when the sample is faulted.
    pub fn get_temp_fahrenheit(&self) -> (r: Option<i64>)
        ensures
            r is None <==> self.fault,
            r matches Some(v) ==> Some(v as int) == fahrenheit_of(*self),
    {
        if self.fault {
            None
        } else {
            Some(self.thermocouple_temperature as i64 * 45 + 3200)
        }
    }

    /// The human-readable report of this sample: the specific fault, or the
    /// temperature in degrees Fahrenheit.
    pub fn describe(&self) -> (r: String)
        ensures
            r@ == description(*self),
    {
        if self.fault {
            if self.oc_fault {
                String::from_str("fault (open connection)")
            } else if self.scg_fault {
                String::from_str("fault (shorted to GND)")
            } else if self.scv_fault {
                String::from_str("fault (shorted to VCC)")
            } else {
                String::from_str("fault (unknown)")
            }
        } else {
            let mut r = String::new();
            push_hundredths(&mut r, self.thermocouple_temperature as u64 * 45 + 3200);
            r.append(" (F)");
            r
        }
    }
}

} // verus!
