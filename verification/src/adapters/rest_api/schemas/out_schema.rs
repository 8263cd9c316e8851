//! Answers as they leave: each wrapped in an envelope that says it went
//! well.

use vstd::prelude::*;
use vstd::std_specs::convert::FromSpecImpl;

use crate::domain::device::AverageTemperature;
use crate::domain::device::DeviceAggregate;
use crate::domain::device_group::DeviceGroupAggregate;
use crate::domain::timestamp::Timestamp;

verus! {

/// The envelope of every answer that reports success.
pub struct CommonOutSchema<T> {
    pub msg: String,
    pub data: T,
}

/// A device that was registered, together with its group.
pub struct DeviceGroupOut {
    pub device_id: i64,
    pub serial_number: String,
    pub device_group: DeviceGroupAggregate,
    pub created_at: Timestamp,
}

/// A device with the mean of its temperatures over the window that was
/// asked for; `None` where the window holds no reading of the device.
pub struct DeviceWithAverageTemperatureDuringPeriod {
    pub id: i64,
    pub serial_number: String,
    pub average_temperature: Option<AverageTemperature>,
}

/// A device with its average, as contracts see it.
pub struct DeviceWithAverageView {
    pub id: i64,
    pub serial_number: Seq<char>,
    pub average_temperature: Option<AverageTemperature>,
}

impl View for DeviceWithAverageTemperatureDuringPeriod {
    type V = DeviceWithAverageView;

    open spec fn view(&self) -> DeviceWithAverageView {
        DeviceWithAverageView {
            id: self.id,
            serial_number: self.serial_number@,
            average_temperature: self.average_temperature,
        }
    }
}

/// The answer that stands for `pair`: the identity and serial number of the
/// device, and the average as it is.
pub open spec fn averaged(
    pair: (DeviceAggregate, Option<AverageTemperature>),
) -> DeviceWithAverageView {
    DeviceWithAverageView {
        id: pair.0.device_id,
        serial_number: pair.0.serial_number@,
        average_temperature: pair.1,
    }
}

impl From<(DeviceAggregate, DeviceGroupAggregate)> for CommonOutSchema<DeviceGroupOut> {
    fn from(value: (DeviceAggregate, DeviceGroupAggregate)) -> (out: Self)
        ensures
            out.msg@ == "success"@,
            out.data.device_id == value.0.device_id,
            out.data.serial_number@ == value.0.serial_number@,
            out.data.created_at == value.0.created_at,
            out.data.device_group@ == value.1@,
    {
        Self {
            msg: "success".to_owned(),
            data: DeviceGroupOut {
                device_id: value.0.device_id,
                serial_number: value.0.serial_number,
                created_at: value.0.created_at,
                device_group: value.1,
            },
        }
    }
}

impl From<DeviceGroupAggregate> for CommonOutSchema<DeviceGroupAggregate> {
    fn from(value: DeviceGroupAggregate) -> (out: Self)
        ensures
            out.msg@ == "success"@,
            out.data == value,
    {
        Self { msg: "success".to_owned(), data: value }
    }
}

impl From<(DeviceAggregate, Option<AverageTemperature>)> for DeviceWithAverageTemperatureDuringPeriod {
    fn from(value: (DeviceAggregate, Option<AverageTemperature>)) -> (out: Self)
        ensures
            out@ == averaged(value),
    {
        Self {
            id: value.0.device_id,
            serial_number: value.0.serial_number,
            average_temperature: value.1,
        }
    }
}

impl From<DeviceWithAverageTemperatureDuringPeriod> for CommonOutSchema<
    DeviceWithAverageTemperatureDuringPeriod,
> {
    fn from(value: DeviceWithAverageTemperatureDuringPeriod) -> (out: Self)
        ensures
            out.msg@ == "success"@,
            out.data == value,
    {
        Self { msg: "success".to_owned(), data: value }
    }
}

impl From<Vec<DeviceWithAverageTemperatureDuringPeriod>> for CommonOutSchema<
    Vec<DeviceWithAverageTemperatureDuringPeriod>,
> {
    fn from(value: Vec<DeviceWithAverageTemperatureDuringPeriod>) -> (out: Self)
        ensures
            out.msg@ == "success"@,
            out.data == value,
    {
        Self { msg: "success".to_owned(), data: value }
    }
}

/// An envelope holds text that is made anew for each answer, so what `from`
/// hands back is stated on `from` itself, here and below.
impl FromSpecImpl<(DeviceAggregate, DeviceGroupAggregate)> for CommonOutSchema<DeviceGroupOut> {
    open spec fn obeys_from_spec() -> bool {
        false
    }

    open spec fn from_spec(value: (DeviceAggregate, DeviceGroupAggregate)) -> Self {
        arbitrary()
    }
}

impl FromSpecImpl<DeviceGroupAggregate> for CommonOutSchema<DeviceGroupAggregate> {
    open spec fn obeys_from_spec() -> bool {
        false
    }

    open spec fn from_spec(value: DeviceGroupAggregate) -> Self {
        arbitrary()
    }
}

impl FromSpecImpl<(DeviceAggregate, Option<AverageTemperature>)> for DeviceWithAverageTemperatureDuringPeriod {
    open spec fn obeys_from_spec() -> bool {
        true
    }

    open spec fn from_spec(value: (DeviceAggregate, Option<AverageTemperature>)) -> Self {
        DeviceWithAverageTemperatureDuringPeriod {
            id: value.0.device_id,
            serial_number: value.0.serial_number,
            average_temperature: value.1,
        }
    }
}

impl FromSpecImpl<DeviceWithAverageTemperatureDuringPeriod> for CommonOutSchema<
    DeviceWithAverageTemperatureDuringPeriod,
> {
    open spec fn obeys_from_spec() -> bool {
        false
    }

    open spec fn from_spec(value: DeviceWithAverageTemperatureDuringPeriod) -> Self {
        arbitrary()
    }
}

impl FromSpecImpl<Vec<DeviceWithAverageTemperatureDuringPeriod>> for CommonOutSchema<
    Vec<DeviceWithAverageTemperatureDuringPeriod>,
> {
    open spec fn obeys_from_spec() -> bool {
        false
    }

    open spec fn from_spec(value: Vec<DeviceWithAverageTemperatureDuringPeriod>) -> Self {
        arbitrary()
    }
}

/// The answers that stand for `results`, one per device and in the same
/// order.
pub fn averages_by_device(results: Vec<(DeviceAggregate, Option<AverageTemperature>)>) -> (out: Vec<
    DeviceWithAverageTemperatureDuringPeriod,
>)
    ensures
        out@.len() == results@.len(),
        forall|i: int| 0 <= i < results@.len() ==> (#[trigger] out@[i])@ == averaged(results@[i]),
{
    let mut out: Vec<DeviceWithAverageTemperatureDuringPeriod> = Vec::new();
    for pair in it: results
        invariant
            out@.len() == it.index(),
            forall|i: int| 0 <= i < out@.len() ==> (#[trigger] out@[i])@ == averaged(it.seq()[i]),
    {
        out.push(DeviceWithAverageTemperatureDuringPeriod::from(pair));
    }
    out
}

} // verus!
