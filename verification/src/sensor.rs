//! The environmental snapshot and the sensor reader's error policy.

use vstd::prelude::*;

verus! {

/// The three quantities of a snapshot, in the order they are shown and sent.
#[derive(Clone, Copy, Debug, PartialEq, Eq)]
pub enum Quantity {
    Temperature,
    Humidity,
    Pressure,
}

impl Quantity {
    /// The quantity that follows this one, if any.
    pub open spec fn successor(self) -> Option<Quantity> {
        match self {
            Quantity::Temperature => Some(Quantity::Humidity),
            Quantity::Humidity => Some(Quantity::Pressure),
            Quantity::Pressure => None,
        }
    }

    /// Position of the quantity in the fixed order.
    pub open spec fn rank(self) -> nat {
        match self {
            Quantity::Temperature => 0,
            Quantity::Humidity => 1,
            Quantity::Pressure => 2,
        }
    }

    /// The quantity that follows this one: humidity after temperature,
    /// pressure after humidity, nothing after pressure.
    pub fn next(self) -> (following: Option<Quantity>)
        ensures
            following == self.successor(),
    {
        match self {
            Quantity::Temperature => Some(Quantity::Humidity),
            Quantity::Humidity => Some(Quantity::Pressure),
            Quantity::Pressure => None,
        }
    }
}

/// One snapshot of the sensor: temperature in degrees Celsius, relative
/// humidity in percent and pressure in pascals, captured together.
///
/// Each quantity is held as the decimal text of the value read, which is
/// the form in which it is shown and published.
#[derive(Debug, PartialEq, Eq)]
pub struct Measurement {
    pub temperature: String,
    pub humidity: String,
    pub pressure: String,
}

impl Clone for Measurement {
    fn clone(&self) -> (copy: Self)
        ensures
            copy == *self,
    {
        Measurement {
            temperature: self.temperature.clone(),
            humidity: self.humidity.clone(),
            pressure: self.pressure.clone(),
        }
    }
}

impl Measurement {
    /// The decimal text of one quantity.
    pub open spec fn value_of(self, quantity: Quantity) -> String {
        match quantity {
            Quantity::Temperature => self.temperature,
            Quantity::Humidity => self.humidity,
            Quantity::Pressure => self.pressure,
        }
    }

    /// The decimal text of one quantity.
    pub fn value(&self, quantity: Quantity) -> (text: String)
        ensures
            text == self.value_of(quantity),
    {
        match quantity {
            Quantity::Temperature => self.temperature.clone(),
            Quantity::Humidity => self.humidity.clone(),
            Quantity::Pressure => self.pressure.clone(),
        }
    }
}

/// What the sensor driver can report instead of a snapshot.
#[derive(Clone, Copy, Debug, PartialEq, Eq)]
pub enum SensorFault {
    /// The calibration data was never loaded.
    NoCalibrationData,
    /// A bus transaction failed.
    Bus,
    /// The chip answered with data that cannot be a reading.
    InvalidData,
    /// A raw value could not be compensated.
    CompensationFailed,
    /// The chip on the bus is not the expected one.
    UnsupportedChip,
}

/// Why a read gave no snapshot.
#[derive(Clone, Copy, Debug, PartialEq, Eq)]
pub enum SensorError {
    /// The sensor was read before its one-time initialization.
    NotInitialized,
    /// The transfer from the sensor failed.
    BusFault,
}

impl SensorFault {
    /// Missing calibration means the sensor was not initialized; every other
    /// fault is a failed transfer.
    pub open spec fn error_of(self) -> SensorError {
        match self {
            SensorFault::NoCalibrationData => SensorError::NotInitialized,
            _ => SensorError::BusFault,
        }
    }

    /// The error that stands for this fault.
    pub fn error(self) -> (error: SensorError)
        ensures
            error == self.error_of(),
    {
        match self {
            SensorFault::NoCalibrationData => SensorError::NotInitialized,
            _ => SensorError::BusFault,
        }
    }
}

/// Guards the sensor: a snapshot is only taken after the one-time
/// initialization went through.
#[derive(Clone, Copy, Debug, PartialEq, Eq)]
pub struct SensorReader {
    pub initialized: bool,
}

impl SensorReader {
    /// A reader whose sensor has not been initialized yet.
    pub fn new() -> (reader: Self)
        ensures
            !reader.initialized,
    {
        SensorReader { initialized: false }
    }

    /// The reader after the initialization ended with `outcome`.
    pub open spec fn after_initialization(self, outcome: Result<(), SensorFault>) -> SensorReader {
        SensorReader { initialized: self.initialized || outcome is Ok }
    }

    /// What a read gives when the bus transaction produced `sample`.
    pub open spec fn read_result(self, sample: Result<Measurement, SensorFault>) -> Result<
        Measurement,
        SensorError,
    > {
        if !self.initialized {
            Err(SensorError::NotInitialized)
        } else {
            match sample {
                Ok(measurement) => Ok(measurement),
                Err(fault) => Err(fault.error_of()),
            }
        }
    }

    /// Records how the one-time initialization ended. A failed one leaves
    /// the reader as it was and is reported as the error that stands for the
    /// fault.
    pub fn initialize(&mut self, outcome: Result<(), SensorFault>) -> (result: Result<(), SensorError>)
        ensures
            *final(self) == old(self).after_initialization(outcome),
            outcome is Ok ==> result is Ok,
            outcome matches Err(fault) ==> result == Err::<(), SensorError>(fault.error_of()),
    {
        match outcome {
            Ok(()) => {
                self.initialized = true;
                Ok(())
            },
            Err(fault) => Err(fault.error()),
        }
    }

    /// Turns what the bus transaction produced into the result of the read:
    /// `NotInitialized` before the initialization, whatever the bus gave;
    /// afterwards the snapshot as it came, or the error that stands for the
    /// fault.
    pub fn read(&self, sample: Result<Measurement, SensorFault>) -> (result: Result<
        Measurement,
        SensorError,
    >)
        ensures
            result == self.read_result(sample),
    {
        if !self.initialized {
            Err(SensorError::NotInitialized)
        } else {
            match sample {
                Ok(measurement) => Ok(measurement),
                Err(fault) => Err(fault.error()),
            }
        }
    }
}

} // verus!
