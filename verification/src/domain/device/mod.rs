//! The device aggregate: its temperature history, how a batch of readings is
//! decoded into it, and how the history is averaged over a time window.

pub mod commands;
pub mod query;
pub mod repository;

use vstd::prelude::*;
use vstd::string::*;

use crate::domain::device::commands::RegisterDevice;
use crate::domain::device::commands::SaveDeviceTemperature;
use crate::domain::response::Error;
use crate::domain::timestamp::Timestamp;

verus! {

/// One temperature reading of a device.
#[derive(Clone, Copy, Debug, PartialEq, Eq, Structural)]
pub struct DeviceTemperature {
    pub device_id: i64,
    pub temperature: i16,
    pub checked_at: Timestamp,
}

/// The value of a hexadecimal digit, written in either case; `None` for any
/// other character.
pub open spec fn hex_digit_value(c: char) -> Option<int> {
    if '0' <= c <= '9' {
        Some(c as int - '0' as int)
    } else if 'A' <= c <= 'F' {
        Some(c as int - 'A' as int + 10)
    } else if 'a' <= c <= 'f' {
        Some(c as int - 'a' as int + 10)
    } else {
        None
    }
}

/// `chunk` is exactly four hexadecimal digits.
pub open spec fn is_hex_chunk(chunk: Seq<char>) -> bool {
    &&& chunk.len() == 4
    &&& forall|i: int| 0 <= i < 4 ==> (#[trigger] hex_digit_value(chunk[i])) is Some
}

/// The unsigned number that four hexadecimal digits write, most significant
/// digit first.
pub open spec fn chunk_magnitude(chunk: Seq<char>) -> int {
    4096 * hex_digit_value(chunk[0]).unwrap() + 256 * hex_digit_value(chunk[1]).unwrap() + 16
        * hex_digit_value(chunk[2]).unwrap() + hex_digit_value(chunk[3]).unwrap()
}

/// The signed 16-bit number whose two's-complement bit pattern is `magnitude`.
pub open spec fn twos_complement_16(magnitude: int) -> int {
    if magnitude < 0x8000 {
        magnitude
    } else {
        magnitude - 0x1_0000
    }
}

/// The temperature that a chunk of four hexadecimal digits encodes.
pub open spec fn chunk_temperature(chunk: Seq<char>) -> i16 {
    twos_complement_16(chunk_magnitude(chunk)) as i16
}

/// The `k`-th chunk of four characters of `payload`.
pub open spec fn chunk_at(payload: Seq<char>, k: int) -> Seq<char> {
    payload.subrange(4 * k, 4 * k + 4)
}

/// `payload` is a whole number of chunks, each of four hexadecimal digits.
pub open spec fn is_hex_payload(payload: Seq<char>) -> bool {
    &&& payload.len() % 4 == 0
    &&& forall|k: int| 0 <= k < payload.len() / 4 ==> is_hex_chunk(#[trigger] chunk_at(payload, k))
}

/// Every one of `samples` readings, the first taken at `start` and each
/// further one `interval` seconds after the one before it, has an instant on
/// the representable time line.
pub open spec fn timeline_fits(start: Timestamp, interval: i64, samples: nat) -> bool {
    samples > 0 ==> start.can_shift(interval * (samples - 1))
}

/// The reading that chunk `k` of `payload` stands for.
pub open spec fn sample_at(
    device_id: i64,
    registered_at: Timestamp,
    interval: i64,
    payload: Seq<char>,
    k: int,
) -> DeviceTemperature {
    DeviceTemperature {
        device_id,
        temperature: chunk_temperature(chunk_at(payload, k)),
        checked_at: registered_at.shifted(interval * k),
    }
}

/// The readings that `payload` stands for, one per chunk, in the order of
/// the chunks.
pub open spec fn decoded_batch(
    device_id: i64,
    registered_at: Timestamp,
    interval: i64,
    payload: Seq<char>,
) -> Seq<DeviceTemperature> {
    Seq::new(
        (payload.len() / 4) as nat,
        |k: int| sample_at(device_id, registered_at, interval, payload, k),
    )
}

/// The readings taken between `start` and `end`, both ends included.
pub open spec fn in_window(start: Timestamp, end: Timestamp) -> spec_fn(DeviceTemperature) -> bool {
    |sample: DeviceTemperature| sample.checked_at.within(start, end)
}

/// The sum of the temperatures of `samples`.
pub open spec fn temperature_sum(samples: Seq<DeviceTemperature>) -> int
    decreases samples.len(),
{
    if samples.len() == 0 {
        0
    } else {
        temperature_sum(samples.drop_last()) + samples.last().temperature
    }
}

/// An arithmetic mean, kept exact: the sum of the readings that were
/// averaged and how many they were. `count` is never zero.
#[derive(Clone, Copy, Debug, PartialEq, Eq, Structural)]
pub struct AverageTemperature {
    pub sum: i128,
    pub count: usize,
}

/// The mean of the readings of `samples` taken between `start` and `end`,
/// both included; `None` where no reading falls into that window.
pub open spec fn average_in_window(
    samples: Seq<DeviceTemperature>,
    start: Timestamp,
    end: Timestamp,
) -> Option<AverageTemperature> {
    let matched = samples.filter(in_window(start, end));
    if matched.len() == 0 {
        None
    } else {
        Some(
            AverageTemperature {
                sum: temperature_sum(matched) as i128,
                count: matched.len() as usize,
            },
        )
    }
}

/// A device, as contracts see it.
pub struct DeviceView {
    pub device_id: i64,
    pub device_group_serial_number: Seq<char>,
    pub serial_number: Seq<char>,
    pub created_at: Timestamp,
    pub temperatures: Seq<DeviceTemperature>,
}

/// The device that `cmd` registers at `created_at`, as it is before the
/// store has given it an identity: no readings yet.
pub open spec fn registered_device(cmd: RegisterDevice, created_at: Timestamp) -> DeviceView {
    DeviceView {
        device_id: 0,
        device_group_serial_number: cmd.device_group_serial@,
        serial_number: cmd.serial_number@,
        created_at,
        temperatures: Seq::empty(),
    }
}

/// A device: its identity in the store, the group it belongs to, its own
/// serial number, and every temperature reading stored for it, oldest batch
/// first.
#[derive(Debug)]
pub struct DeviceAggregate {
    pub device_id: i64,
    pub device_group_serial_number: String,
    pub serial_number: String,
    pub created_at: Timestamp,
    pub temperatures: Vec<DeviceTemperature>,
}

impl View for DeviceAggregate {
    type V = DeviceView;

    open spec fn view(&self) -> DeviceView {
        DeviceView {
            device_id: self.device_id,
            device_group_serial_number: self.device_group_serial_number@,
            serial_number: self.serial_number@,
            created_at: self.created_at,
            temperatures: self.temperatures@,
        }
    }
}

/// Reads one ASCII byte as a hexadecimal digit.
fn hex_digit(byte: u8) -> (digit: Option<u16>)
    requires
        byte < 128,
    ensures
        digit matches Some(d) ==> d < 16 && hex_digit_value(byte as char) == Some(d as int),
        digit is None ==> hex_digit_value(byte as char) is None,
{
    if '0' as u8 <= byte && byte <= '9' as u8 {
        Some((byte - '0' as u8) as u16)
    } else if 'A' as u8 <= byte && byte <= 'F' as u8 {
        Some((byte - 'A' as u8) as u16 + 10)
    } else if 'a' as u8 <= byte && byte <= 'f' as u8 {
        Some((byte - 'a' as u8) as u16 + 10)
    } else {
        None
    }
}

/// Where the last of `samples` readings fits on the time line, each earlier
/// one does.
proof fn lemma_timeline_fits_each(start: Timestamp, interval: i64, samples: nat, k: int)
    requires
        timeline_fits(start, interval, samples),
        0 <= k < samples,
    ensures
        start.can_shift(interval * k),
{
    assert(0 <= interval * k <= interval * (samples - 1) || interval * (samples - 1) <= interval
        * k <= 0) by (nonlinear_arith)
        requires
            0 <= k <= samples - 1,
    ;
}

/// Decodes every chunk of `payload`, in order; `None` where `payload` is
/// not a whole number of chunks of four hexadecimal digits.
fn decode_payload(payload: &str) -> (decoded: Option<Vec<i16>>)
    ensures
        decoded is Some <==> is_hex_payload(payload@),
        decoded matches Some(values) ==> values@.len() == payload@.len() / 4 && forall|k: int|
            0 <= k < values@.len() ==> values@[k] == chunk_temperature(
                #[trigger] chunk_at(payload@, k),
            ),
{
    if !payload.is_ascii() {
        proof {
            let i = choose|i: int|
                0 <= i < payload@.len() && !('\0' <= #[trigger] payload@[i] <= '\u{7f}');
            if payload@.len() % 4 == 0 {
                let k = i / 4;
                assert(chunk_at(payload@, k)[i - 4 * k] == payload@[i]);
                assert(hex_digit_value(chunk_at(payload@, k)[i - 4 * k]) is None);
                assert(!is_hex_chunk(chunk_at(payload@, k)));
            }
        }
        return None;
    }
    let length = payload.as_bytes().len();
    assert(length == payload@.len()) by {
        is_ascii_spec_bytes(payload);
    }
    if length % 4 != 0 {
        return None;
    }
    let count = length / 4;
    let mut values: Vec<i16> = Vec::with_capacity(count);
    let mut k: usize = 0;
    while k < count
        invariant
            k <= count,
            4 * count <= usize::MAX,
            payload.is_ascii(),
            payload@.len() == 4 * count,
            values@.len() == k,
            forall|j: int|
                0 <= j < k ==> is_hex_chunk(#[trigger] chunk_at(payload@, j)) && values@[j]
                    == chunk_temperature(chunk_at(payload@, j)),
        decreases count - k,
    {
        let chunk = payload.substring_ascii(4 * k, 4 * k + 4);
        assert(chunk@ == chunk_at(payload@, k as int));
        match DeviceTemperature::hex_to_decimal(chunk) {
            Ok(value) => {
                values.push(value);
            },
            Err(_) => {
                return None;
            },
        }
        k += 1;
    }
    Some(values)
}

impl SaveDeviceTemperature {
    /// Either the payload is malformed, so that nothing will be stored, or
    /// every reading in it has an instant on the representable time line.
    pub open spec fn schedulable(&self) -> bool {
        is_hex_payload(self.temperatures@) ==> timeline_fits(
            self.registered_at,
            self.interval,
            self.temperatures@.len() / 4,
        )
    }

    /// Tells whether `schedulable` holds of this command.
    pub fn is_schedulable(&self) -> (b: bool)
        ensures
            b == self.schedulable(),
    {
        match decode_payload(self.temperatures.as_str()) {
            None => true,
            Some(values) => values.len() == 0 || self.registered_at.checked_after_steps(
                self.interval,
                values.len() - 1,
            ).is_some(),
        }
    }
}

impl DeviceTemperature {
    /// A reading of device `device_id` taken at `checked_at`, with the
    /// temperature that the four hexadecimal digits of `tempature_in_hex`
    /// encode.
    pub fn new(device_id: i64, checked_at: Timestamp, tempature_in_hex: &str) -> (r: Result<
        Self,
        Error,
    >)
        ensures
            is_hex_chunk(tempature_in_hex@) ==> r == Ok::<Self, Error>(
                DeviceTemperature {
                    device_id,
                    temperature: chunk_temperature(tempature_in_hex@),
                    checked_at,
                },
            ),
            !is_hex_chunk(tempature_in_hex@) ==> r == Err::<Self, Error>(Error::ConversionFailed),
    {
        match Self::hex_to_decimal(tempature_in_hex) {
            Ok(temperature) => Ok(DeviceTemperature { device_id, temperature, checked_at }),
            Err(e) => Err(e),
        }
    }

    /// Decodes the four hexadecimal digits of `hex` as a signed 16-bit
    /// number in two's complement: `"FFFE"` is -2 and `"0003"` is 3.
    /// Anything but exactly four hexadecimal digits is refused.
    pub fn hex_to_decimal(hex: &str) -> (r: Result<i16, Error>)
        ensures
            is_hex_chunk(hex@) ==> r == Ok::<i16, Error>(chunk_temperature(hex@)),
            !is_hex_chunk(hex@) ==> r == Err::<i16, Error>(Error::ConversionFailed),
    {
        if !hex.is_ascii() {
            proof {
                let i = choose|i: int|
                    0 <= i < hex@.len() && !('\0' <= #[trigger] hex@[i] <= '\u{7f}');
                assert(hex_digit_value(hex@[i]) is None);
            }
            return Err(Error::ConversionFailed);
        }
        let bytes = hex.as_bytes();
        assert(bytes@.len() == hex@.len() && forall|j: int|
            0 <= j < hex@.len() ==> bytes@[j] == hex@[j] as u8) by {
            is_ascii_spec_bytes(hex);
        }
        if bytes.len() != 4 {
            return Err(Error::ConversionFailed);
        }
        assert(forall|j: int| 0 <= j < 4 ==> bytes@[j] < 128 && bytes@[j] as char == hex@[j]);
        match (hex_digit(bytes[0]), hex_digit(bytes[1]), hex_digit(bytes[2]), hex_digit(bytes[3])) {
            (Some(d0), Some(d1), Some(d2), Some(d3)) => {
                let magnitude: u16 = 4096 * d0 + 256 * d1 + 16 * d2 + d3;
                if magnitude < 0x8000 {
                    Ok(magnitude as i16)
                } else {
                    Ok((magnitude as i32 - 0x1_0000) as i16)
                }
            },
            _ => Err(Error::ConversionFailed),
        }
    }
}

impl DeviceAggregate {
    /// A device that has just been registered, with the clock read for its
    /// creation time. The store gives it its identity later.
    pub fn new(cmd: RegisterDevice) -> (device: Self)
        ensures
            device@ == registered_device(cmd, device@.created_at),
    {
        Self::create(cmd, Timestamp::now())
    }

    /// A device registered at `created_at`: no identity yet, no readings.
    pub fn create(cmd: RegisterDevice, created_at: Timestamp) -> (device: Self)
        ensures
            device@ == registered_device(cmd, created_at),
    {
        DeviceAggregate {
            device_id: 0,
            device_group_serial_number: cmd.device_group_serial,
            serial_number: cmd.serial_number,
            created_at,
            temperatures: Vec::new(),
        }
    }

    /// Decodes the payload of `cmd` and appends its readings to the history,
    /// in the order of the chunks: reading `k` was taken
    /// `k * cmd.interval` seconds after `cmd.registered_at`. A malformed
    /// payload is refused as a whole and leaves the history as it was.
    pub fn save_temperatures(&mut self, cmd: SaveDeviceTemperature) -> (r: Result<(), Error>)
        requires
            cmd.schedulable(),
        ensures
            is_hex_payload(cmd.temperatures@) ==> r is Ok && final(self)@ == (DeviceView {
                temperatures: old(self)@.temperatures + decoded_batch(
                    old(self).device_id,
                    cmd.registered_at,
                    cmd.interval,
                    cmd.temperatures@,
                ),
                ..old(self)@
            }),
            is_hex_payload(cmd.temperatures@) ==> final(self)@.temperatures.len()
                == old(self)@.temperatures.len() + cmd.temperatures@.len() / 4,
            is_hex_payload(cmd.temperatures@) ==> forall|k: int|
                0 <= k < cmd.temperatures@.len() / 4 ==> ({
                    let sample = #[trigger] final(self)@.temperatures[old(self)@.temperatures.len()
                        + k];
                    &&& sample.checked_at.secs == cmd.registered_at.secs + k * cmd.interval
                    &&& sample.checked_at.nanos == cmd.registered_at.nanos
                }),
            !is_hex_payload(cmd.temperatures@) ==> r == Err::<(), Error>(Error::ConversionFailed)
                && final(self)@ == old(self)@,
    {
        let values = match decode_payload(cmd.temperatures.as_str()) {
            Some(values) => values,
            None => {
                return Err(Error::ConversionFailed);
            },
        };
        let count = values.len();
        let ghost batch = decoded_batch(
            self.device_id,
            cmd.registered_at,
            cmd.interval,
            cmd.temperatures@,
        );
        let mut samples: Vec<DeviceTemperature> = Vec::with_capacity(count);
        let mut k: usize = 0;
        while k < count
            invariant
                k <= count,
                count == cmd.temperatures@.len() / 4,
                timeline_fits(cmd.registered_at, cmd.interval, count as nat),
                values@.len() == count,
                forall|j: int|
                    0 <= j < count ==> values@[j] == chunk_temperature(
                        #[trigger] chunk_at(cmd.temperatures@, j),
                    ),
                batch == decoded_batch(
                    self.device_id,
                    cmd.registered_at,
                    cmd.interval,
                    cmd.temperatures@,
                ),
                samples@ == batch.take(k as int),
            decreases count - k,
        {
            proof {
                lemma_timeline_fits_each(cmd.registered_at, cmd.interval, count as nat, k as int);
            }
            let checked_at = cmd.registered_at.after_steps(cmd.interval, k);
            samples.push(
                DeviceTemperature { device_id: self.device_id, temperature: values[k], checked_at },
            );
            assert(samples@ == batch.take(k + 1)) by {
                assert(batch[k as int] == sample_at(
                    self.device_id,
                    cmd.registered_at,
                    cmd.interval,
                    cmd.temperatures@,
                    k as int,
                ));
                assert(batch.take(k + 1) =~= batch.take(k as int).push(batch[k as int]));
            }
            k += 1;
        }
        assert(samples@ == batch) by {
            assert(batch.take(count as int) =~= batch);
        }
        assert forall|j: int| 0 <= j < count implies ({
            let sample = #[trigger] (self@.temperatures + batch)[self@.temperatures.len() + j];
            &&& sample.checked_at.secs == cmd.registered_at.secs + j * cmd.interval
            &&& sample.checked_at.nanos == cmd.registered_at.nanos
        }) by {
            lemma_timeline_fits_each(cmd.registered_at, cmd.interval, count as nat, j);
            assert(j * cmd.interval == cmd.interval * j) by (nonlinear_arith);
            assert((self@.temperatures + batch)[self@.temperatures.len() + j] == batch[j]);
        }
        self.temperatures.append(&mut samples);
        Ok(())
    }

    /// The mean of the readings taken between `start_date` and `end_date`,
    /// both ends included. Where no reading falls into that window there is
    /// nothing to average, and the answer is `None`.
    pub fn get_average_temperature_during_period(
        &self,
        start_date: Timestamp,
        end_date: Timestamp,
    ) -> (average: Option<AverageTemperature>)
        ensures
            average == average_in_window(self@.temperatures, start_date, end_date),
            average is None <==> self@.temperatures.filter(in_window(start_date, end_date)).len()
                == 0,
            average matches Some(mean) ==> mean.count > 0,
    {
        let ghost wanted = in_window(start_date, end_date);
        let mut sum: i128 = 0;
        let mut count: usize = 0;
        let mut i: usize = 0;
        while i < self.temperatures.len()
            invariant
                i <= self.temperatures@.len(),
                wanted == in_window(start_date, end_date),
                count == self.temperatures@.take(i as int).filter(wanted).len(),
                count <= i,
                sum == temperature_sum(self.temperatures@.take(i as int).filter(wanted)),
                -0x8000 * count <= sum <= 0x8000 * count,
            decreases self.temperatures@.len() - i,
        {
            let sample = self.temperatures[i];
            proof {
                let before = self.temperatures@.take(i as int);
                assert(self.temperatures@.take(i + 1) =~= before.push(sample));
                before.lemma_filter_push(sample, wanted);
                if wanted(sample) {
                    assert(before.filter(wanted).push(sample).drop_last() =~= before.filter(
                        wanted,
                    ));
                }
            }
            if sample.checked_at.is_within(&start_date, &end_date) {
                sum = sum + sample.temperature as i128;
                count = count + 1;
            }
            i += 1;
        }
        assert(self.temperatures@.take(i as int) =~= self.temperatures@);
        if count == 0 {
            None
        } else {
            Some(AverageTemperature { sum, count })
        }
    }
}

impl Default for DeviceAggregate {
    /// A device without identity, serial numbers or readings, created at
    /// the start of the time line.
    fn default() -> (device: Self)
        ensures
            device@ == (DeviceView {
                device_id: 0,
                device_group_serial_number: Seq::empty(),
                serial_number: Seq::empty(),
                created_at: Timestamp { secs: 0, nanos: 0 },
                temperatures: Seq::empty(),
            }),
    {
        DeviceAggregate {
            device_id: 0,
            device_group_serial_number: String::new(),
            serial_number: String::new(),
            created_at: Timestamp::default(),
            temperatures: Vec::new(),
        }
    }
}

impl Clone for DeviceAggregate {
    fn clone(&self) -> (copy: Self)
        ensures
            copy@ == self@,
    {
        let mut temperatures: Vec<DeviceTemperature> = Vec::with_capacity(self.temperatures.len());
        let mut i: usize = 0;
        while i < self.temperatures.len()
            invariant
                i <= self.temperatures@.len(),
                temperatures@ == self.temperatures@.take(i as int),
            decreases self.temperatures@.len() - i,
        {
            temperatures.push(self.temperatures[i]);
            assert(self.temperatures@.take(i + 1) =~= self.temperatures@.take(i as int).push(
                self.temperatures@[i as int],
            ));
            i += 1;
        }
        assert(self.temperatures@.take(i as int) =~= self.temperatures@);
        DeviceAggregate {
            device_id: self.device_id,
            device_group_serial_number: self.device_group_serial_number.clone(),
            serial_number: self.serial_number.clone(),
            created_at: self.created_at,
            temperatures,
        }
    }
}

} // verus!
