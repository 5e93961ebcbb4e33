//! Voice pipeline scaffolding: configuration, the service facade and the
//! detection entry points. The recognizers are not wired up, so detection
//! reports nothing and the contracts say exactly that.

use vstd::prelude::*;
use vstd::string::StringExecFns;

verus! {

/// Voice subsystem configuration.
#[derive(Debug, Clone, PartialEq)]
pub struct VoiceConfig {
    pub wakeword_enabled: bool,
    pub asr_provider: String,
    pub asr_api_key: Option<String>,
    pub tts_provider: String,
    pub tts_api_key: Option<String>,
    pub language: String,
    pub wakeword_model_path: Option<String>,
}

/// Shape of the default voice configuration.
pub open spec fn is_default_voice_config(c: VoiceConfig) -> bool {
    &&& c.wakeword_enabled == true
    &&& c.asr_provider@ == "third_party"@
    &&& c.asr_api_key is None
    &&& c.tts_provider@ == "kokoro"@
    &&& c.tts_api_key is None
    &&& c.language@ == "zh-CN"@
    &&& c.wakeword_model_path is None
}

impl Default for VoiceConfig {
    fn default() -> (r: Self)
        ensures
            is_default_voice_config(r),
    {
        VoiceConfig {
            wakeword_enabled: true,
            asr_provider: String::from_str("third_party"),
            asr_api_key: None,
            tts_provider: String::from_str("kokoro"),
            tts_api_key: None,
            language: String::from_str("zh-CN"),
            wakeword_model_path: None,
        }
    }
}

/// A speech segment reported by voice-activity detection.
#[derive(Debug, Clone, PartialEq)]
pub struct SpeechSegment {
    pub start_ms: u32,
    pub end_ms: u32,
    pub audio_data: Vec<u8>,
}

/// State of the voice pipeline.
#[derive(Debug, Clone, Copy, PartialEq, Eq, Structural)]
pub enum VoiceState {
    Idle,
    Listening,
    Processing,
    Speaking,
}

/// Facade over wake word detection, voice-activity detection and synthesis.
pub struct VoiceService {
    config: VoiceConfig,
}

impl VoiceService {
    /// The configuration the service was built with.
    pub closed spec fn spec_config(self) -> VoiceConfig {
        self.config
    }

    pub fn new(config: VoiceConfig) -> (r: Self)
        ensures
            r.spec_config() == config,
    {
        VoiceService { config }
    }

    /// Prepare wake-word detection; no model is loaded yet, so this always
    /// succeeds without an effect.
    pub fn init_wakeword(&self) -> (r: Result<(), String>)
        ensures
            r is Ok,
    {
        Ok(())
    }

    /// Prepare voice-activity detection; no model is loaded yet, so this
    /// always succeeds without an effect.
    pub fn init_vad(&self) -> (r: Result<(), String>)
        ensures
            r is Ok,
    {
        Ok(())
    }

    /// Detect speech segments; with no detector wired up, the result is
    /// always an empty segment list.
    pub fn detect_speech(&self, _audio_data: &[u8]) -> (r: Result<Vec<SpeechSegment>, String>)
        ensures
            r is Ok,
            r->Ok_0@.len() == 0,
    {
        Ok(Vec::new())
    }

    /// Detect the wake word; with no detector wired up, the answer is always
    /// "not detected".
    pub fn detect_wakeword(&self, _audio_data: &[u8]) -> (r: Result<bool, String>)
        ensures
            r is Ok,
            r->Ok_0 == false,
    {
        Ok(false)
    }
}

} // verus!
