//! Configuration of the sound activity detector.
use vstd::prelude::*;
use super::{HangoverTimeWindow, NoiseLearningFrames, SignalToNoiseThreshold};

verus! {

/// Working mode of the sound activity detector.
#[derive(Clone, Copy, Debug, PartialEq, Eq, Structural)]
pub enum WorkingMode {
    VoiceActivityDetector,
    SoundDetector,
    AmbientNoiseEstimator,
}

/// The SADMOD field value that selects each working mode of the sound activity detector.
pub open spec fn working_mode_code(v: WorkingMode) -> u32 {
    match v {
        WorkingMode::VoiceActivityDetector => 0,
        WorkingMode::SoundDetector => 1,
        WorkingMode::AmbientNoiseEstimator => 2,
    }
}

impl WorkingMode {
    /// The SADMOD field value.
    pub fn val(&self) -> (r: u32)
        ensures
            r == working_mode_code(*self),
    {
        match self {
            WorkingMode::VoiceActivityDetector => 0,
            WorkingMode::SoundDetector => 1,
            WorkingMode::AmbientNoiseEstimator => 2,
        }
    }
}
/// Frame size, in samples.
#[derive(Clone, Copy, Debug, PartialEq, Eq, Structural)]
pub enum FrameSize {
    Samples8,
    Samples16,
    Samples32,
    Samples64,
    Samples128,
    Samples256,
    Samples512,
}

/// The FRSIZE field value that selects each frame size, in samples.
pub open spec fn frame_size_code(v: FrameSize) -> u32 {
    match v {
        FrameSize::Samples8 => 0,
        FrameSize::Samples16 => 1,
        FrameSize::Samples32 => 2,
        FrameSize::Samples64 => 3,
        FrameSize::Samples128 => 4,
        FrameSize::Samples256 => 5,
        FrameSize::Samples512 => 6,
    }
}

impl FrameSize {
    /// The FRSIZE field value.
    pub fn val(&self) -> (r: u32)
        ensures
            r == frame_size_code(*self),
    {
        match self {
            FrameSize::Samples8 => 0,
            FrameSize::Samples16 => 1,
            FrameSize::Samples32 => 2,
            FrameSize::Samples64 => 3,
            FrameSize::Samples128 => 4,
            FrameSize::Samples256 => 5,
            FrameSize::Samples512 => 6,
        }
    }
}
/// When the detector raises its event.
#[derive(Clone, Copy, Debug, PartialEq, Eq, Structural)]
pub enum TriggerEventConfiguration {
    EnterMonitor,
    EnerExitDetect,
}

/// The DETCFG field value that selects each when the detector raises its event.
pub open spec fn trigger_event_configuration_code(v: TriggerEventConfiguration) -> u32 {
    match v {
        TriggerEventConfiguration::EnterMonitor => 0,
        TriggerEventConfiguration::EnerExitDetect => 1,
    }
}

impl TriggerEventConfiguration {
    /// The DETCFG field value.
    pub fn val(&self) -> (r: u32)
        ensures
            r == trigger_event_configuration_code(*self),
    {
        match self {
            TriggerEventConfiguration::EnterMonitor => 0,
            TriggerEventConfiguration::EnerExitDetect => 1,
        }
    }
}
/// Which samples the detector lets through.
#[derive(Clone, Copy, Debug, PartialEq, Eq, Structural)]
pub enum DataCaptureMode {
    Disabled,
    OnDetected,
    Enabled,
}

/// The DATCAP field value that selects each which samples the detector lets through.
pub open spec fn data_capture_mode_code(v: DataCaptureMode) -> u32 {
    match v {
        DataCaptureMode::Disabled => 0,
        DataCaptureMode::OnDetected => 1,
        DataCaptureMode::Enabled => 2,
    }
}

impl DataCaptureMode {
    /// The DATCAP field value.
    pub fn val(&self) -> (r: u32)
        ensures
            r == data_capture_mode_code(*self),
    {
        match self {
            DataCaptureMode::Disabled => 0,
            DataCaptureMode::OnDetected => 1,
            DataCaptureMode::Enabled => 2,
        }
    }
}
/// Largest minimum noise level: the field is 13 bits wide.
pub const MINIMUM_NOISE_LEVEL_MAX: u16 = 0x1fff;
/// Largest ambient noise slope control: the field is 3 bits wide.
pub const AMBIENT_NOISE_SLOPE_MAX: u8 = 7;

/// Sound activity detector configuration.
#[derive(Clone, Copy)]
pub struct Config {
    pub working_mode: WorkingMode,
    pub minimum_noise_level: u16,
    pub hangover_time_window: HangoverTimeWindow,
    pub noise_learning_frames: NoiseLearningFrames,
    pub ambient_noise_slope_control: u8,
    pub signal_to_noise_threshold: SignalToNoiseThreshold,
    pub frame_size: FrameSize,
    pub trigger_event_configuration: TriggerEventConfiguration,
    pub data_capture_mode: DataCaptureMode,
}

impl Config {
    /// The two numeric settings fit their register fields.
    pub open spec fn wf(&self) -> bool {
        &&& self.minimum_noise_level <= MINIMUM_NOISE_LEVEL_MAX
        &&& self.ambient_noise_slope_control <= AMBIENT_NOISE_SLOPE_MAX
    }

    /// Whether the two numeric settings fit their register fields.
    pub fn is_valid(&self) -> (r: bool)
        ensures
            r == self.wf(),
    {
        self.minimum_noise_level <= MINIMUM_NOISE_LEVEL_MAX && self.ambient_noise_slope_control
            <= AMBIENT_NOISE_SLOPE_MAX
    }
}

} // verus!
