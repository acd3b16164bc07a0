//! Immersive input and output devices: voice commands, haptics, and the
//! settings and errors of eye, hand and motion tracking.

use vstd::prelude::*;
use crate::assoc::Registry;
use crate::text::owned;

verus! {

/// Settings of speech recognition.
#[derive(Debug, Clone)]
pub struct VoiceConfig {
    pub language: String,
    pub enable_wake_word: bool,
    pub wake_word: String,
    pub enable_continuous: bool,
}

impl Default for VoiceConfig {
    /// American English, no wake word ("Hey Beejs" when enabled), one-shot.
    fn default() -> (c: VoiceConfig)
        ensures
            c.language@ == "en-US"@,
            !c.enable_wake_word,
            c.wake_word@ == "Hey Beejs"@,
            !c.enable_continuous,
    {
        VoiceConfig {
            language: owned("en-US"),
            enable_wake_word: false,
            wake_word: owned("Hey Beejs"),
            enable_continuous: false,
        }
    }
}

/// A spoken phrase and the action it triggers.
#[derive(Debug, Clone)]
pub struct VoiceCommand {
    pub phrase: String,
    pub action: String,
}

/// Speech recognition: registered commands by phrase, and whether it listens.
pub struct VoiceRecognition {
    config: VoiceConfig,
    commands: Registry<VoiceCommand>,
    listening: bool,
}

impl VoiceRecognition {
    /// The registered commands by phrase.
    pub closed spec fn commands_spec(&self) -> Map<Seq<char>, VoiceCommand> {
        self.commands.map()
    }

    /// Whether it listens.
    pub closed spec fn listening_spec(&self) -> bool {
        self.listening
    }

    /// The settings.
    pub closed spec fn config_spec(&self) -> &VoiceConfig {
        &self.config
    }

    /// A recogniser with no commands, not listening.
    pub fn new(config: VoiceConfig) -> (r: Result<VoiceRecognition, VoiceError>)
        ensures
            r matches Ok(v) && *v.config_spec() == config && v.commands_spec() == Map::<Seq<char>, VoiceCommand>::empty()
                && !v.listening_spec(),
    {
        Ok(VoiceRecognition { config, commands: Registry::new(), listening: false })
    }

    /// Whether the wake word is enabled.
    pub fn wake_word_enabled(&self) -> (r: bool)
        ensures
            r == self.config_spec().enable_wake_word,
    {
        self.config.enable_wake_word
    }

    /// Registers a command under its phrase, replacing one of that phrase.
    pub fn register_command(&mut self, command: VoiceCommand)
        ensures
            final(self).commands_spec() == old(self).commands_spec().insert(command.phrase@, command),
            final(self).listening_spec() == old(self).listening_spec(),
            final(self).config_spec() == old(self).config_spec(),
    {
        let phrase = command.phrase.clone();
        self.commands.insert(phrase, command);
    }

    /// Drops the command of `phrase`, if any.
    pub fn unregister_command(&mut self, phrase: &str)
        ensures
            final(self).commands_spec() == old(self).commands_spec().remove(phrase@),
            final(self).listening_spec() == old(self).listening_spec(),
            final(self).config_spec() == old(self).config_spec(),
    {
        self.commands.remove(phrase);
    }

    /// Starts listening.
    pub fn start_listening(&mut self) -> (r: Result<(), VoiceError>)
        ensures
            r is Ok,
            final(self).listening_spec(),
            final(self).commands_spec() == old(self).commands_spec(),
            final(self).config_spec() == old(self).config_spec(),
    {
        self.listening = true;
        Ok(())
    }

    /// Stops listening.
    pub fn stop_listening(&mut self)
        ensures
            !final(self).listening_spec(),
            final(self).commands_spec() == old(self).commands_spec(),
            final(self).config_spec() == old(self).config_spec(),
    {
        self.listening = false;
    }

    /// Whether it listens.
    pub fn is_listening(&self) -> (r: bool)
        ensures
            r == self.listening_spec(),
    {
        self.listening
    }

    /// The number of registered commands.
    pub fn command_count(&self) -> (n: usize)
        ensures
            n == self.commands_spec().dom().len(),
    {
        self.commands.len()
    }
}

/// A failure of speech recognition.
#[derive(Debug, Clone)]
pub enum VoiceError {
    InitializationFailed(String),
    RecognitionFailed(String),
    AudioProcessingFailed(String),
}

/// The displayed text of voice error.
pub open spec fn voice_error_text(e: VoiceError) -> Seq<char> {
    match e {
        VoiceError::InitializationFailed(m) => "初始化失败: "@ + m@,
        VoiceError::RecognitionFailed(m) => "识别失败: "@ + m@,
        VoiceError::AudioProcessingFailed(m) => "音频处理失败: "@ + m@,
    }
}

impl VoiceError {
    /// The displayed text of the error.
    pub fn to_string(&self) -> (r: String)
        ensures
            r@ == voice_error_text(*self),
    {
        match self {
            VoiceError::InitializationFailed(m) => owned("初始化失败: ").concat(m.as_str()),
            VoiceError::RecognitionFailed(m) => owned("识别失败: ").concat(m.as_str()),
            VoiceError::AudioProcessingFailed(m) => owned("音频处理失败: ").concat(m.as_str()),
        }
    }
}

/// How strongly an actuator vibrates.
#[derive(Debug, Clone, Copy, PartialEq, Eq, Structural)]
pub enum HapticIntensity {
    Low,
    Medium,
    High,
}

impl Default for HapticIntensity {
    fn default() -> (i: HapticIntensity)
        ensures
            i == HapticIntensity::Medium,
    {
        HapticIntensity::Medium
    }
}

/// Settings of the haptic device.
#[derive(Debug, Clone)]
pub struct HapticConfig {
    pub actuator_count: u32,
    pub frequency: u32,
    pub max_intensity: HapticIntensity,
}

impl Default for HapticConfig {
    /// Sixteen actuators at 300 Hz, up to high intensity.
    fn default() -> (c: HapticConfig)
        ensures
            c.actuator_count == 16,
            c.frequency == 300,
            c.max_intensity == HapticIntensity::High,
    {
        HapticConfig { actuator_count: 16, frequency: 300, max_intensity: HapticIntensity::High }
    }
}

/// A haptic device.
pub struct HapticFeedback {
    config: HapticConfig,
    active: bool,
}

impl HapticFeedback {
    /// The settings.
    pub closed spec fn config_spec(&self) -> &HapticConfig {
        &self.config
    }

    /// Whether it vibrates.
    pub closed spec fn active_spec(&self) -> bool {
        self.active
    }

    /// An idle device.
    pub fn new(config: HapticConfig) -> (r: Result<HapticFeedback, HapticError>)
        ensures
            r matches Ok(h) && *h.config_spec() == config && !h.active_spec(),
    {
        Ok(HapticFeedback { config, active: false })
    }

    /// The number of actuators.
    pub fn actuator_count(&self) -> (n: u32)
        ensures
            n == self.config_spec().actuator_count,
    {
        self.config.actuator_count
    }

    /// Plays a pattern to its end; the device is idle afterwards.
    pub fn play_pattern(&mut self, pattern_duration_ms: u32) -> (r: Result<(), HapticError>)
        ensures
            r is Ok,
            !final(self).active_spec(),
            final(self).config_spec() == old(self).config_spec(),
    {
        self.active = true;
        self.active = false;
        Ok(())
    }

    /// Stops all vibration.
    pub fn stop(&mut self)
        ensures
            !final(self).active_spec(),
            final(self).config_spec() == old(self).config_spec(),
    {
        self.active = false;
    }

    /// Whether it vibrates.
    pub fn is_active(&self) -> (r: bool)
        ensures
            r == self.active_spec(),
    {
        self.active
    }

    /// Addresses one actuator: an index past the last is refused.
    pub fn set_actuator(&mut self, index: u32) -> (r: Result<(), HapticError>)
        ensures
            r is Ok <==> index < old(self).config_spec().actuator_count,
            r matches Err(e) ==> e == HapticError::InvalidActuator(index),
            final(self).active_spec() == old(self).active_spec(),
            final(self).config_spec() == old(self).config_spec(),
    {
        if index >= self.config.actuator_count {
            return Err(HapticError::InvalidActuator(index));
        }
        Ok(())
    }
}

/// A failure of the haptic device.
#[derive(Debug, Clone)]
pub enum HapticError {
    InitializationFailed(String),
    PlaybackFailed(String),
    InvalidActuator(u32),
    DeviceNotFound,
}

/// The displayed text of a haptic error.
pub open spec fn haptic_error_text(e: HapticError) -> Seq<char> {
    match e {
        HapticError::InitializationFailed(m) => "初始化失败: "@ + m@,
        HapticError::PlaybackFailed(m) => "播放失败: "@ + m@,
        HapticError::InvalidActuator(i) => "无效的执行器: "@ + crate::num_text::decimal(i as nat),
        HapticError::DeviceNotFound => "设备未找到"@,
    }
}

impl HapticError {
    /// The displayed text of the error.
    pub fn to_string(&self) -> (r: String)
        ensures
            r@ == haptic_error_text(*self),
    {
        match self {
            HapticError::InitializationFailed(m) => owned("初始化失败: ").concat(m.as_str()),
            HapticError::PlaybackFailed(m) => owned("播放失败: ").concat(m.as_str()),
            HapticError::InvalidActuator(i) => {
                let mut s = owned("无效的执行器: ");
                crate::num_text::push_decimal(&mut s, *i as u64);
                s
            },
            HapticError::DeviceNotFound => owned("设备未找到"),
        }
    }
}

/// Settings of eye tracking.
#[derive(Debug, Clone)]
pub struct EyeTrackingConfig {
    pub sample_rate: u32,
    pub enable_foveated_rendering: bool,
    pub calibration_points: u32,
}

impl Default for EyeTrackingConfig {
    /// 120 Hz, no foveated rendering, nine calibration points.
    fn default() -> (c: EyeTrackingConfig)
        ensures
            c.sample_rate == 120,
            !c.enable_foveated_rendering,
            c.calibration_points == 9,
    {
        EyeTrackingConfig { sample_rate: 120, enable_foveated_rendering: false, calibration_points: 9 }
    }
}

/// A failure of eye tracking.
#[derive(Debug, Clone)]
pub enum EyeTrackingError {
    InitializationFailed(String),
    TrackingFailed(String),
    CalibrationFailed(String),
    DeviceNotFound,
}

/// The displayed text of eye tracking error.
pub open spec fn eye_tracking_error_text(e: EyeTrackingError) -> Seq<char> {
    match e {
        EyeTrackingError::InitializationFailed(m) => "初始化失败: "@ + m@,
        EyeTrackingError::TrackingFailed(m) => "追踪失败: "@ + m@,
        EyeTrackingError::CalibrationFailed(m) => "校准失败: "@ + m@,
        EyeTrackingError::DeviceNotFound => "设备未找到"@,
    }
}

impl EyeTrackingError {
    /// The displayed text of the error.
    pub fn to_string(&self) -> (r: String)
        ensures
            r@ == eye_tracking_error_text(*self),
    {
        match self {
            EyeTrackingError::InitializationFailed(m) => owned("初始化失败: ").concat(m.as_str()),
            EyeTrackingError::TrackingFailed(m) => owned("追踪失败: ").concat(m.as_str()),
            EyeTrackingError::CalibrationFailed(m) => owned("校准失败: ").concat(m.as_str()),
            EyeTrackingError::DeviceNotFound => owned("设备未找到"),
        }
    }
}

/// A recognised hand gesture.
#[derive(Debug, Clone, Copy, PartialEq, Eq, Structural)]
pub enum Gesture {
    Unknown,
    Fist,
    Open,
    Pinch,
    Point,
    ThumbsUp,
    /// The "OK" sign.
    OkSign,
    Peace,
    Grab,
}

impl Default for Gesture {
    fn default() -> (g: Gesture)
        ensures
            g == Gesture::Unknown,
    {
        Gesture::Unknown
    }
}

/// Settings of hand tracking.
#[derive(Debug, Clone)]
pub struct HandTrackingConfig {
    pub sample_rate: u32,
    pub enable_gesture_recognition: bool,
    pub prediction_latency_ms: u32,
}

impl Default for HandTrackingConfig {
    /// 60 Hz with gesture recognition, 10 ms of predicted latency.
    fn default() -> (c: HandTrackingConfig)
        ensures
            c.sample_rate == 60,
            c.enable_gesture_recognition,
            c.prediction_latency_ms == 10,
    {
        HandTrackingConfig { sample_rate: 60, enable_gesture_recognition: true, prediction_latency_ms: 10 }
    }
}

/// A failure of hand tracking.
#[derive(Debug, Clone)]
pub enum HandTrackingError {
    InitializationFailed(String),
    TrackingFailed(String),
    DeviceNotFound,
}

/// The displayed text of hand tracking error.
pub open spec fn hand_tracking_error_text(e: HandTrackingError) -> Seq<char> {
    match e {
        HandTrackingError::InitializationFailed(m) => "初始化失败: "@ + m@,
        HandTrackingError::TrackingFailed(m) => "追踪失败: "@ + m@,
        HandTrackingError::DeviceNotFound => "设备未找到"@,
    }
}

impl HandTrackingError {
    /// The displayed text of the error.
    pub fn to_string(&self) -> (r: String)
        ensures
            r@ == hand_tracking_error_text(*self),
    {
        match self {
            HandTrackingError::InitializationFailed(m) => owned("初始化失败: ").concat(m.as_str()),
            HandTrackingError::TrackingFailed(m) => owned("追踪失败: ").concat(m.as_str()),
            HandTrackingError::DeviceNotFound => owned("设备未找到"),
        }
    }
}

/// Settings of motion capture.
#[derive(Debug, Clone)]
pub struct MotionConfig {
    pub joint_count: u32,
    pub sample_rate: u32,
    pub enable_prediction: bool,
}

impl Default for MotionConfig {
    /// Twenty-five joints at 60 Hz, with prediction.
    fn default() -> (c: MotionConfig)
        ensures
            c.joint_count == 25,
            c.sample_rate == 60,
            c.enable_prediction,
    {
        MotionConfig { joint_count: 25, sample_rate: 60, enable_prediction: true }
    }
}

/// A failure of motion capture.
#[derive(Debug, Clone)]
pub enum MotionCaptureError {
    InitializationFailed(String),
    CaptureFailed(String),
    DeviceNotFound,
}

/// The displayed text of motion capture error.
pub open spec fn motion_capture_error_text(e: MotionCaptureError) -> Seq<char> {
    match e {
        MotionCaptureError::InitializationFailed(m) => "初始化失败: "@ + m@,
        MotionCaptureError::CaptureFailed(m) => "捕捉失败: "@ + m@,
        MotionCaptureError::DeviceNotFound => "设备未找到"@,
    }
}

impl MotionCaptureError {
    /// The displayed text of the error.
    pub fn to_string(&self) -> (r: String)
        ensures
            r@ == motion_capture_error_text(*self),
    {
        match self {
            MotionCaptureError::InitializationFailed(m) => owned("初始化失败: ").concat(m.as_str()),
            MotionCaptureError::CaptureFailed(m) => owned("捕捉失败: ").concat(m.as_str()),
            MotionCaptureError::DeviceNotFound => owned("设备未找到"),
        }
    }
}

} // verus!
