//! The decoded model: the session summary, the laps and the sample points.

use vstd::prelude::*;
use crate::device::Device;
use crate::value::F32Bits;

verus! {

/// The kind of activity of a session.
#[derive(Clone, Copy, Debug, PartialEq, Eq)]
pub enum Sport {
    Running,
    Cycling,
    Swimming,
    Unknown,
}

impl Sport {
    /// The sport that an enumerant names, if it names one.
    pub open spec fn named(name: Seq<char>) -> Option<Sport> {
        if name == "running"@ {
            Some(Sport::Running)
        } else if name == "cycling"@ {
            Some(Sport::Cycling)
        } else if name == "swimming"@ {
            Some(Sport::Swimming)
        } else {
            None
        }
    }

    /// The name of the sport; the unknown sport has the empty name.
    pub open spec fn name(self) -> Seq<char> {
        match self {
            Sport::Running => "running"@,
            Sport::Cycling => "cycling"@,
            Sport::Swimming => "swimming"@,
            Sport::Unknown => ""@,
        }
    }

    /// Reads a sport from an enumerant's name: `running`, `cycling` or
    /// `swimming`. Any other name is no sport.
    pub fn from_name(name: &String) -> (sport: Option<Sport>)
        ensures
            sport == Sport::named(name@),
    {
        if *name == "running".to_owned() {
            Some(Sport::Running)
        } else if *name == "cycling".to_owned() {
            Some(Sport::Cycling)
        } else if *name == "swimming".to_owned() {
            Some(Sport::Swimming)
        } else {
            None
        }
    }

    /// The name of the sport; the unknown sport has the empty name.
    pub fn as_str(&self) -> (name: &'static str)
        ensures
            name@ == self.name(),
    {
        match self {
            Sport::Running => "running",
            Sport::Cycling => "cycling",
            Sport::Swimming => "swimming",
            Sport::Unknown => "",
        }
    }
}

/// A sport's own name reads back as that sport.
pub proof fn lemma_sport_name_round_trips(sport: Sport)
    requires
        sport != Sport::Unknown,
    ensures
        Sport::named(sport.name()) == Some(sport),
{
    reveal_strlit("running");
    reveal_strlit("cycling");
    reveal_strlit("swimming");
    if sport == Sport::Cycling {
        assert("cycling"@[0] != "running"@[0]);
    }
    if sport == Sport::Swimming {
        assert("swimming"@[0] != "running"@[0]);
        assert("swimming"@[0] != "cycling"@[0]);
    }
}

/// The summary of one lap.
#[derive(Clone, Copy, Debug, PartialEq, Eq)]
pub struct Lap {
    /// Position of the lap among the laps of the stream, from 0.
    pub index: usize,
    /// Seconds since the epoch.
    pub start_time: u32,
    /// Seconds.
    pub total_elapsed_time: u32,
    /// Seconds.
    pub total_timer_time: u32,
    /// Meters.
    pub total_distance: u32,
    pub avg_heart_rate: u8,
    pub max_heart_rate: u8,
}

impl Lap {
    /// The lap at `index` of which nothing was recorded.
    pub open spec fn blank(index: usize) -> Lap {
        Lap {
            index,
            start_time: 0,
            total_elapsed_time: 0,
            total_timer_time: 0,
            total_distance: 0,
            avg_heart_rate: 0,
            max_heart_rate: 0,
        }
    }

    /// The lap at `index` of which nothing was recorded.
    pub fn new(index: usize) -> (lap: Lap)
        ensures
            lap == Lap::blank(index),
    {
        Lap {
            index,
            start_time: 0,
            total_elapsed_time: 0,
            total_timer_time: 0,
            total_distance: 0,
            avg_heart_rate: 0,
            max_heart_rate: 0,
        }
    }
}

/// One sample of the time series.
#[derive(Clone, Copy, Debug, PartialEq, Eq)]
pub struct Point {
    /// Latitude in decimal degrees.
    pub lat: F32Bits,
    /// Longitude in decimal degrees.
    pub lon: F32Bits,
    /// Seconds since the epoch.
    pub timestamp: u32,
    /// Meters.
    pub distance: u32,
    pub heart_rate: u8,
    pub speed: u32,
    pub power: Option<u16>,
    pub altitude: u32,
    pub temperature: Option<i8>,
    pub cadence: u8,
}

impl Point {
    /// The sample of which nothing was recorded.
    pub open spec fn blank() -> Point {
        Point {
            lat: F32Bits::zero(),
            lon: F32Bits::zero(),
            timestamp: 0,
            distance: 0,
            heart_rate: 0,
            speed: 0,
            power: None,
            altitude: 0,
            temperature: None,
            cadence: 0,
        }
    }

    /// Whether the sample has a position: its latitude is not 0.0.
    pub open spec fn has_fix(self) -> bool {
        !self.lat.is_zero()
    }

    /// The sample of which nothing was recorded.
    pub fn new() -> (point: Point)
        ensures
            point == Point::blank(),
    {
        Point {
            lat: F32Bits { bits: 0 },
            lon: F32Bits { bits: 0 },
            timestamp: 0,
            distance: 0,
            heart_rate: 0,
            speed: 0,
            power: None,
            altitude: 0,
            temperature: None,
            cadence: 0,
        }
    }
}

/// The summary of the whole session.
#[derive(Clone, Copy, Debug, PartialEq, Eq)]
pub struct Activity {
    pub sport: Sport,
    /// The recording device, once a message has named one.
    pub device: Option<Device>,
    /// Seconds since the epoch.
    pub start_time: u32,
    /// Seconds since the epoch.
    pub timestamp: u32,
    /// Seconds.
    pub total_timer_time: u32,
    /// Seconds.
    pub total_elapsed_time: u32,
    /// Meters.
    pub total_distance: u32,
    /// Meters.
    pub total_ascent: Option<u16>,
    pub avg_speed: Option<u32>,
    pub avg_heart_rate: u8,
    pub max_heart_rate: u8,
    pub avg_cadence: Option<u8>,
    pub max_cadence: Option<u8>,
    pub avg_power: Option<u16>,
    pub max_power: Option<u16>,
    pub normalized_power: Option<u16>,
    pub total_calories: Option<u16>,
    pub total_training_effect: Option<u8>,
    pub training_stress_score: Option<u16>,
    pub intensity_factor: Option<u16>,
    pub avg_temperature: Option<i8>,
    pub max_temperature: Option<i8>,
    pub min_temperature: Option<i8>,
    /// Meters.
    pub pool_length: Option<u16>,
    pub num_lengths: Option<u16>,
}

impl Activity {
    /// The summary of which nothing was recorded.
    pub open spec fn blank() -> Activity {
        Activity {
            sport: Sport::Unknown,
            device: None,
            start_time: 0,
            timestamp: 0,
            total_timer_time: 0,
            total_elapsed_time: 0,
            total_distance: 0,
            total_ascent: None,
            avg_speed: None,
            avg_heart_rate: 0,
            max_heart_rate: 0,
            avg_cadence: None,
            max_cadence: None,
            avg_power: None,
            max_power: None,
            normalized_power: None,
            total_calories: None,
            total_training_effect: None,
            training_stress_score: None,
            intensity_factor: None,
            avg_temperature: None,
            max_temperature: None,
            min_temperature: None,
            pool_length: None,
            num_lengths: None,
        }
    }

    /// The display name of the device; empty until a device is set.
    pub open spec fn device_label(self) -> Seq<char> {
        match self.device {
            Some(device) => device.name(),
            None => ""@,
        }
    }

    /// The summary of which nothing was recorded.
    pub fn new() -> (activity: Activity)
        ensures
            activity == Activity::blank(),
    {
        Activity {
            sport: Sport::Unknown,
            device: None,
            start_time: 0,
            timestamp: 0,
            total_timer_time: 0,
            total_elapsed_time: 0,
            total_distance: 0,
            total_ascent: None,
            avg_speed: None,
            avg_heart_rate: 0,
            max_heart_rate: 0,
            avg_cadence: None,
            max_cadence: None,
            avg_power: None,
            max_power: None,
            normalized_power: None,
            total_calories: None,
            total_training_effect: None,
            training_stress_score: None,
            intensity_factor: None,
            avg_temperature: None,
            max_temperature: None,
            min_temperature: None,
            pool_length: None,
            num_lengths: None,
        }
    }

    /// The display name of the device; empty until a device is set.
    pub fn device_name(&self) -> (name: &'static str)
        ensures
            name@ == self.device_label(),
    {
        match &self.device {
            Some(device) => device.as_str(),
            None => "",
        }
    }
}

/// What one decoded stream holds, as a mathematical value.
pub struct FitStructView {
    pub activity: Activity,
    pub laps: Seq<Lap>,
    pub samples: Seq<Point>,
}

/// What one decoded stream holds: the session summary, the laps and the
/// samples, each sequence in the order of the stream.
#[derive(Clone, Debug, PartialEq, Eq)]
pub struct FitStruct {
    pub activity: Activity,
    pub laps: Vec<Lap>,
    pub samples: Vec<Point>,
}

impl View for FitStruct {
    type V = FitStructView;

    open spec fn view(&self) -> FitStructView {
        FitStructView { activity: self.activity, laps: self.laps@, samples: self.samples@ }
    }
}

impl FitStructView {
    /// What is decoded of the empty stream.
    pub open spec fn blank() -> FitStructView {
        FitStructView { activity: Activity::blank(), laps: Seq::empty(), samples: Seq::empty() }
    }

    /// What holds of everything that decoding builds: each lap carries its
    /// own position as its index, and each sample has a position, with a
    /// latitude that is neither 0.0 nor 180.0.
    pub open spec fn well_formed(self) -> bool {
        &&& forall|i: int| 0 <= i < self.laps.len() ==> (#[trigger] self.laps[i]).index == i
        &&& forall|i: int| 0 <= i < self.samples.len() ==> (#[trigger] self.samples[i]).has_fix()
        &&& forall|i: int|
            0 <= i < self.samples.len() ==> !(#[trigger] self.samples[i]).lat.is_half_turn()
    }
}

impl FitStruct {
    /// What is decoded of the empty stream.
    pub fn new() -> (fit: FitStruct)
        ensures
            fit@ == FitStructView::blank(),
            fit@.well_formed(),
    {
        FitStruct { activity: Activity::new(), laps: Vec::new(), samples: Vec::new() }
    }
}

} // verus!
