//! Request and response models of the Typecast API, with their wire forms.
//!
//! Every enum has a fixed wire token (`token`, `as_str`, `from_token`). The
//! fractional settings of the API (tempo, emotion intensity) are held as whole
//! percentages: a tempo of 1.25 is `125`.
use vstd::prelude::*;

verus! {

/// Whether two strings hold the same characters.
fn same_text(a: &str, b: &str) -> (r: bool)
    ensures
        r == (a@ == b@),
{
    a.to_owned() == b.to_owned()
}

/// The value `v` brought into `[lo, hi]`.
pub open spec fn clamp_spec(v: int, lo: int, hi: int) -> int {
    if v < lo {
        lo
    } else if v > hi {
        hi
    } else {
        v
    }
}

fn clamp_i32(v: i32, lo: i32, hi: i32) -> (r: i32)
    requires
        lo <= hi,
    ensures
        r as int == clamp_spec(v as int, lo as int, hi as int),
        lo <= r <= hi,
{
    if v < lo {
        lo
    } else if v > hi {
        hi
    } else {
        v
    }
}

/// TTS model version to use for speech synthesis.
#[derive(Debug, Clone, Copy, PartialEq, Eq, Structural)]
pub enum TTSModel {
    /// Latest model with improved prosody and additional emotion presets.
    SsfmV30,
    /// Stable production model.
    SsfmV21,
}

impl TTSModel {
    /// The wire token of the model.
    pub open spec fn token(self) -> Seq<char> {
        match self {
            TTSModel::SsfmV30 => "ssfm-v30"@,
            TTSModel::SsfmV21 => "ssfm-v21"@,
        }
    }

    /// The wire token of the model.
    pub fn as_str(&self) -> (r: &'static str)
        ensures
            r@ == self.token(),
    {
        match self {
            TTSModel::SsfmV30 => "ssfm-v30",
            TTSModel::SsfmV21 => "ssfm-v21",
        }
    }

    /// The model whose wire token is `s`, if any.
    pub fn from_token(s: &str) -> (r: Option<Self>)
        ensures
            r matches Some(v) ==> v.token() == s@,
            r is None ==> forall|v: Self| v.token() != s@,
    {
        if same_text(s, "ssfm-v30") {
            Some(TTSModel::SsfmV30)
        } else if same_text(s, "ssfm-v21") {
            Some(TTSModel::SsfmV21)
        } else {
            None
        }
    }

    /// Distinct models have distinct wire tokens.
    pub proof fn lemma_token_injective(a: Self, b: Self)
        ensures
            a.token() == b.token() ==> a == b,
    {
        reveal_strlit("ssfm-v30");
        reveal_strlit("ssfm-v21");
        if a.token() == b.token() && a != b {
            assert(a.token()[6] != b.token()[6]);
        }
    }
}

impl Default for TTSModel {
    fn default() -> (r: Self)
        ensures
            r == TTSModel::SsfmV30,
    {
        TTSModel::SsfmV30
    }
}

/// Emotion preset types for speech synthesis.
#[derive(Debug, Clone, Copy, PartialEq, Eq, Structural)]
pub enum EmotionPreset {
    /// Neutral, balanced tone.
    Normal,
    /// Bright, cheerful expression.
    Happy,
    /// Melancholic, subdued tone.
    Sad,
    /// Strong, intense delivery.
    Angry,
    /// Soft, quiet speech (ssfm-v30 only).
    Whisper,
    /// Higher tonal emphasis (ssfm-v30 only).
    ToneUp,
    /// Lower tonal emphasis (ssfm-v30 only).
    ToneDown,
}

impl EmotionPreset {
    /// The wire token of the preset.
    pub open spec fn token(self) -> Seq<char> {
        match self {
            EmotionPreset::Normal => "normal"@,
            EmotionPreset::Happy => "happy"@,
            EmotionPreset::Sad => "sad"@,
            EmotionPreset::Angry => "angry"@,
            EmotionPreset::Whisper => "whisper"@,
            EmotionPreset::ToneUp => "toneup"@,
            EmotionPreset::ToneDown => "tonedown"@,
        }
    }

    /// The wire token of the preset.
    pub fn as_str(&self) -> (r: &'static str)
        ensures
            r@ == self.token(),
    {
        match self {
            EmotionPreset::Normal => "normal",
            EmotionPreset::Happy => "happy",
            EmotionPreset::Sad => "sad",
            EmotionPreset::Angry => "angry",
            EmotionPreset::Whisper => "whisper",
            EmotionPreset::ToneUp => "toneup",
            EmotionPreset::ToneDown => "tonedown",
        }
    }

    /// The preset whose wire token is `s`, if any.
    pub fn from_token(s: &str) -> (r: Option<Self>)
        ensures
            r matches Some(v) ==> v.token() == s@,
            r is None ==> forall|v: Self| v.token() != s@,
    {
        if same_text(s, "normal") {
            Some(EmotionPreset::Normal)
        } else if same_text(s, "happy") {
            Some(EmotionPreset::Happy)
        } else if same_text(s, "sad") {
            Some(EmotionPreset::Sad)
        } else if same_text(s, "angry") {
            Some(EmotionPreset::Angry)
        } else if same_text(s, "whisper") {
            Some(EmotionPreset::Whisper)
        } else if same_text(s, "toneup") {
            Some(EmotionPreset::ToneUp)
        } else if same_text(s, "tonedown") {
            Some(EmotionPreset::ToneDown)
        } else {
            None
        }
    }

    /// Distinct values have distinct wire tokens.
    pub proof fn lemma_token_injective(a: Self, b: Self)
        ensures
            a.token() == b.token() ==> a == b,
    {
        reveal_strlit("normal");
        reveal_strlit("happy");
        reveal_strlit("sad");
        reveal_strlit("angry");
        reveal_strlit("whisper");
        reveal_strlit("toneup");
        reveal_strlit("tonedown");
        if a.token() == b.token() {
            assert(a.token().len() == b.token().len());
            assert(a.token()[0] == b.token()[0]);
        }
    }
}

/// Audio output format.
#[derive(Debug, Clone, Copy, PartialEq, Eq, Structural)]
pub enum AudioFormat {
    /// Uncompressed PCM audio (16-bit depth, mono, 44100 Hz).
    Wav,
    /// Compressed MPEG Layer III audio (320 kbps, 44100 Hz).
    Mp3,
}

impl AudioFormat {
    /// The wire token of the format.
    pub open spec fn token(self) -> Seq<char> {
        match self {
            AudioFormat::Wav => "wav"@,
            AudioFormat::Mp3 => "mp3"@,
        }
    }

    /// The wire token of the format.
    pub fn as_str(&self) -> (r: &'static str)
        ensures
            r@ == self.token(),
    {
        match self {
            AudioFormat::Wav => "wav",
            AudioFormat::Mp3 => "mp3",
        }
    }

}

/// Gender classification for voices.
#[derive(Debug, Clone, Copy, PartialEq, Eq, Structural)]
pub enum Gender {
    Male,
    Female,
}

impl Gender {
    /// The wire token of the gender.
    pub open spec fn token(self) -> Seq<char> {
        match self {
            Gender::Male => "male"@,
            Gender::Female => "female"@,
        }
    }

    /// The wire token of the gender.
    pub fn as_str(&self) -> (r: &'static str)
        ensures
            r@ == self.token(),
    {
        match self {
            Gender::Male => "male",
            Gender::Female => "female",
        }
    }

    /// The gender whose wire token is `s`, if any.
    pub fn from_token(s: &str) -> (r: Option<Self>)
        ensures
            r matches Some(v) ==> v.token() == s@,
            r is None ==> forall|v: Self| v.token() != s@,
    {
        if same_text(s, "male") {
            Some(Gender::Male)
        } else if same_text(s, "female") {
            Some(Gender::Female)
        } else {
            None
        }
    }

    /// Distinct values have distinct wire tokens.
    pub proof fn lemma_token_injective(a: Self, b: Self)
        ensures
            a.token() == b.token() ==> a == b,
    {
        reveal_strlit("male");
        reveal_strlit("female");
        if a.token() == b.token() {
            assert(a.token().len() == b.token().len());
            assert(a.token()[0] == b.token()[0]);
        }
    }
}

/// Age group classification for voices.
#[derive(Debug, Clone, Copy, PartialEq, Eq, Structural)]
pub enum Age {
    /// Child voice (under 12 years old).
    Child,
    /// Teenage voice (13-19 years old).
    Teenager,
    /// Young adult voice (20-35 years old).
    YoungAdult,
    /// Middle-aged voice (36-60 years old).
    MiddleAge,
    /// Elder voice (over 60 years old).
    Elder,
}

impl Age {
    /// The wire token of the age group.
    pub open spec fn token(self) -> Seq<char> {
        match self {
            Age::Child => "child"@,
            Age::Teenager => "teenager"@,
            Age::YoungAdult => "young_adult"@,
            Age::MiddleAge => "middle_age"@,
            Age::Elder => "elder"@,
        }
    }

    /// The wire token of the age group.
    pub fn as_str(&self) -> (r: &'static str)
        ensures
            r@ == self.token(),
    {
        match self {
            Age::Child => "child",
            Age::Teenager => "teenager",
            Age::YoungAdult => "young_adult",
            Age::MiddleAge => "middle_age",
            Age::Elder => "elder",
        }
    }

    /// The age group whose wire token is `s`, if any.
    pub fn from_token(s: &str) -> (r: Option<Self>)
        ensures
            r matches Some(v) ==> v.token() == s@,
            r is None ==> forall|v: Self| v.token() != s@,
    {
        if same_text(s, "child") {
            Some(Age::Child)
        } else if same_text(s, "teenager") {
            Some(Age::Teenager)
        } else if same_text(s, "young_adult") {
            Some(Age::YoungAdult)
        } else if same_text(s, "middle_age") {
            Some(Age::MiddleAge)
        } else if same_text(s, "elder") {
            Some(Age::Elder)
        } else {
            None
        }
    }

    /// Distinct values have distinct wire tokens.
    pub proof fn lemma_token_injective(a: Self, b: Self)
        ensures
            a.token() == b.token() ==> a == b,
    {
        reveal_strlit("child");
        reveal_strlit("teenager");
        reveal_strlit("young_adult");
        reveal_strlit("middle_age");
        reveal_strlit("elder");
        if a.token() == b.token() {
            assert(a.token().len() == b.token().len());
            assert(a.token()[0] == b.token()[0]);
        }
    }
}

/// Voice use case categories.
#[derive(Debug, Clone, Copy, PartialEq, Eq, Structural)]
pub enum UseCase {
    Announcer,
    Anime,
    Audiobook,
    Conversational,
    Documentary,
    ELearning,
    Rapper,
    Game,
    TikTokReels,
    News,
    Podcast,
    Voicemail,
    Ads,
}

impl UseCase {
    /// The wire token of the use case.
    pub open spec fn token(self) -> Seq<char> {
        match self {
            UseCase::Announcer => "Announcer"@,
            UseCase::Anime => "Anime"@,
            UseCase::Audiobook => "Audiobook"@,
            UseCase::Conversational => "Conversational"@,
            UseCase::Documentary => "Documentary"@,
            UseCase::ELearning => "E-learning"@,
            UseCase::Rapper => "Rapper"@,
            UseCase::Game => "Game"@,
            UseCase::TikTokReels => "Tiktok/Reels"@,
            UseCase::News => "News"@,
            UseCase::Podcast => "Podcast"@,
            UseCase::Voicemail => "Voicemail"@,
            UseCase::Ads => "Ads"@,
        }
    }

    /// The wire token of the use case.
    pub fn as_str(&self) -> (r: &'static str)
        ensures
            r@ == self.token(),
    {
        match self {
            UseCase::Announcer => "Announcer",
            UseCase::Anime => "Anime",
            UseCase::Audiobook => "Audiobook",
            UseCase::Conversational => "Conversational",
            UseCase::Documentary => "Documentary",
            UseCase::ELearning => "E-learning",
            UseCase::Rapper => "Rapper",
            UseCase::Game => "Game",
            UseCase::TikTokReels => "Tiktok/Reels",
            UseCase::News => "News",
            UseCase::Podcast => "Podcast",
            UseCase::Voicemail => "Voicemail",
            UseCase::Ads => "Ads",
        }
    }

}


impl Default for EmotionPreset {
    fn default() -> (r: Self)
        ensures
            r == EmotionPreset::Normal,
    {
        EmotionPreset::Normal
    }
}

impl Default for AudioFormat {
    fn default() -> (r: Self)
        ensures
            r == AudioFormat::Wav,
    {
        AudioFormat::Wav
    }
}

/// API error response body.
#[derive(Debug, Clone)]
pub struct ErrorResponse {
    /// Error message describing the issue.
    pub detail: String,
}

/// The characters of an optional string.
pub open spec fn opt_text(o: Option<String>) -> Option<Seq<char>> {
    match o {
        Some(s) => Some(s@),
        None => None,
    }
}

/// The wire token of an optional emotion preset.
pub open spec fn opt_preset_token(o: Option<EmotionPreset>) -> Option<Seq<char>> {
    match o {
        Some(e) => Some(e.token()),
        None => None,
    }
}

fn clone_opt_text(o: &Option<String>) -> (r: Option<String>)
    ensures
        r == *o,
{
    match o {
        Some(s) => Some(s.clone()),
        None => None,
    }
}

fn opt_preset_str(o: Option<EmotionPreset>) -> (r: Option<String>)
    ensures
        opt_text(r) == opt_preset_token(o),
{
    match o {
        Some(e) => Some(e.as_str().to_owned()),
        None => None,
    }
}

/// Audio output settings.
///
/// Volume lies in `[0, 200]`, pitch in `[-12, 12]` semitones and tempo in
/// `[50, 200]` percent (0.5x to 2.0x) once set through the setters.
#[derive(Debug, Clone, Copy)]
pub struct Output {
    /// Volume level (0-200, default: 100).
    pub volume: Option<i32>,
    /// Pitch adjustment in semitones (-12 to +12, default: 0).
    pub audio_pitch: Option<i32>,
    /// Speech speed in percent (50 to 200, default: 100).
    pub audio_tempo: Option<i32>,
    /// Output audio format (wav or mp3, default: wav).
    pub audio_format: Option<AudioFormat>,
}

/// Whether an optional setting is absent or within `[lo, hi]`.
pub open spec fn opt_in_range(o: Option<i32>, lo: int, hi: int) -> bool {
    match o {
        Some(v) => lo <= v <= hi,
        None => true,
    }
}

/// Whether an optional setting holds `v` brought into `[lo, hi]`.
pub open spec fn holds_clamped(o: Option<i32>, v: i32, lo: int, hi: int) -> bool {
    o matches Some(x) && x as int == clamp_spec(v as int, lo, hi)
}

impl Output {
    /// Every set value lies within its documented range.
    pub open spec fn wf(&self) -> bool {
        &&& opt_in_range(self.volume, 0, 200)
        &&& opt_in_range(self.audio_pitch, -12, 12)
        &&& opt_in_range(self.audio_tempo, 50, 200)
    }

    /// Create output settings with nothing set.
    pub fn new() -> (r: Self)
        ensures
            r.volume is None,
            r.audio_pitch is None,
            r.audio_tempo is None,
            r.audio_format is None,
            r.wf(),
    {
        Output { volume: None, audio_pitch: None, audio_tempo: None, audio_format: None }
    }

    /// Set the volume, brought into `[0, 200]`.
    pub fn volume(self, volume: i32) -> (r: Self)
        ensures
            holds_clamped(r.volume, volume, 0, 200),
            opt_in_range(r.volume, 0, 200),
            r.audio_pitch == self.audio_pitch,
            r.audio_tempo == self.audio_tempo,
            r.audio_format == self.audio_format,
            self.wf() ==> r.wf(),
    {
        Output { volume: Some(clamp_i32(volume, 0, 200)), ..self }
    }

    /// Set the audio pitch in semitones, brought into `[-12, 12]`.
    pub fn audio_pitch(self, pitch: i32) -> (r: Self)
        ensures
            holds_clamped(r.audio_pitch, pitch, -12, 12),
            opt_in_range(r.audio_pitch, -12, 12),
            r.volume == self.volume,
            r.audio_tempo == self.audio_tempo,
            r.audio_format == self.audio_format,
            self.wf() ==> r.wf(),
    {
        Output { audio_pitch: Some(clamp_i32(pitch, -12, 12)), ..self }
    }

    /// Set the audio tempo in percent, brought into `[50, 200]`.
    pub fn audio_tempo(self, tempo: i32) -> (r: Self)
        ensures
            holds_clamped(r.audio_tempo, tempo, 50, 200),
            opt_in_range(r.audio_tempo, 50, 200),
            r.volume == self.volume,
            r.audio_pitch == self.audio_pitch,
            r.audio_format == self.audio_format,
            self.wf() ==> r.wf(),
    {
        Output { audio_tempo: Some(clamp_i32(tempo, 50, 200)), ..self }
    }

    /// Set the audio format.
    pub fn audio_format(self, format: AudioFormat) -> (r: Self)
        ensures
            r.audio_format == Some(format),
            r.volume == self.volume,
            r.audio_pitch == self.audio_pitch,
            r.audio_tempo == self.audio_tempo,
            self.wf() ==> r.wf(),
    {
        Output { audio_format: Some(format), ..self }
    }

    /// The wire form of the settings: the format as its token.
    pub fn to_wire(&self) -> (r: OutputWire)
        ensures
            r@ == encode_output(*self),
    {
        let audio_format = match self.audio_format {
            Some(f) => Some(f.as_str().to_owned()),
            None => None,
        };
        OutputWire {
            volume: self.volume,
            audio_pitch: self.audio_pitch,
            audio_tempo: self.audio_tempo,
            audio_format,
        }
    }
}

impl Default for Output {
    fn default() -> (r: Self)
        ensures
            r.volume is None,
            r.audio_pitch is None,
            r.audio_tempo is None,
            r.audio_format is None,
    {
        Output::new()
    }
}

/// Output settings as they are sent: absent fields are left out of the body.
#[derive(Debug, Clone)]
pub struct OutputWire {
    pub volume: Option<i32>,
    pub audio_pitch: Option<i32>,
    /// Tempo in percent.
    pub audio_tempo: Option<i32>,
    pub audio_format: Option<String>,
}

impl View for OutputWire {
    type V = (Option<i32>, Option<i32>, Option<i32>, Option<Seq<char>>);

    open spec fn view(&self) -> Self::V {
        (self.volume, self.audio_pitch, self.audio_tempo, opt_text(self.audio_format))
    }
}

/// The wire form of output settings.
pub open spec fn encode_output(o: Output) -> (Option<i32>, Option<i32>, Option<i32>, Option<Seq<char>>) {
    let format = match o.audio_format {
        Some(f) => Some(f.token()),
        None => None,
    };
    (o.volume, o.audio_pitch, o.audio_tempo, format)
}

/// Emotion settings for the ssfm-v21 model; sent without a discriminator.
#[derive(Debug, Clone, Copy)]
pub struct Prompt {
    /// Emotion preset to apply.
    pub emotion_preset: Option<EmotionPreset>,
    /// Emotion intensity in percent (0 to 200, default: 100).
    pub emotion_intensity: Option<i32>,
}

impl Prompt {
    /// Create a prompt with nothing set.
    pub fn new() -> (r: Self)
        ensures
            r.emotion_preset is None,
            r.emotion_intensity is None,
    {
        Prompt { emotion_preset: None, emotion_intensity: None }
    }

    /// Set the emotion preset.
    pub fn emotion_preset(self, preset: EmotionPreset) -> (r: Self)
        ensures
            r.emotion_preset == Some(preset),
            r.emotion_intensity == self.emotion_intensity,
    {
        Prompt { emotion_preset: Some(preset), ..self }
    }

    /// Set the emotion intensity in percent, brought into `[0, 200]`.
    pub fn emotion_intensity(self, intensity: i32) -> (r: Self)
        ensures
            holds_clamped(r.emotion_intensity, intensity, 0, 200),
            opt_in_range(r.emotion_intensity, 0, 200),
            r.emotion_preset == self.emotion_preset,
    {
        Prompt { emotion_intensity: Some(clamp_i32(intensity, 0, 200)), ..self }
    }
}

impl Default for Prompt {
    fn default() -> (r: Self)
        ensures
            r.emotion_preset is None,
            r.emotion_intensity is None,
    {
        Prompt::new()
    }
}

/// Preset-based emotion control for the ssfm-v30 model; sent with the
/// discriminator `"preset"`.
#[derive(Debug, Clone, Copy)]
pub struct PresetPrompt {
    /// Emotion preset to apply.
    pub emotion_preset: Option<EmotionPreset>,
    /// Emotion intensity in percent (0 to 200, default: 100).
    pub emotion_intensity: Option<i32>,
}

impl PresetPrompt {
    /// Create a preset prompt with nothing set.
    pub fn new() -> (r: Self)
        ensures
            r.emotion_preset is None,
            r.emotion_intensity is None,
    {
        PresetPrompt { emotion_preset: None, emotion_intensity: None }
    }

    /// Set the emotion preset.
    pub fn emotion_preset(self, preset: EmotionPreset) -> (r: Self)
        ensures
            r.emotion_preset == Some(preset),
            r.emotion_intensity == self.emotion_intensity,
    {
        PresetPrompt { emotion_preset: Some(preset), ..self }
    }

    /// Set the emotion intensity in percent, brought into `[0, 200]`.
    pub fn emotion_intensity(self, intensity: i32) -> (r: Self)
        ensures
            holds_clamped(r.emotion_intensity, intensity, 0, 200),
            opt_in_range(r.emotion_intensity, 0, 200),
            r.emotion_preset == self.emotion_preset,
    {
        PresetPrompt { emotion_intensity: Some(clamp_i32(intensity, 0, 200)), ..self }
    }
}

impl Default for PresetPrompt {
    fn default() -> (r: Self)
        ensures
            r.emotion_preset is None,
            r.emotion_intensity is None,
    {
        PresetPrompt::new()
    }
}

/// Context-aware emotion inference for the ssfm-v30 model; sent with the
/// discriminator `"smart"`.
#[derive(Debug, Clone)]
pub struct SmartPrompt {
    /// Text that comes before the main text (max 2000 chars).
    pub previous_text: Option<String>,
    /// Text that comes after the main text (max 2000 chars).
    pub next_text: Option<String>,
}

impl SmartPrompt {
    /// Create a smart prompt with no context.
    pub fn new() -> (r: Self)
        ensures
            r.previous_text is None,
            r.next_text is None,
    {
        SmartPrompt { previous_text: None, next_text: None }
    }

    /// Set the text that comes before the main text.
    pub fn previous_text(self, text: &str) -> (r: Self)
        ensures
            opt_text(r.previous_text) == Some(text@),
            r.next_text == self.next_text,
    {
        SmartPrompt { previous_text: Some(text.to_owned()), ..self }
    }

    /// Set the text that comes after the main text.
    pub fn next_text(self, text: &str) -> (r: Self)
        ensures
            opt_text(r.next_text) == Some(text@),
            r.previous_text == self.previous_text,
    {
        SmartPrompt { next_text: Some(text.to_owned()), ..self }
    }
}

impl Default for SmartPrompt {
    fn default() -> (r: Self)
        ensures
            r.previous_text is None,
            r.next_text is None,
    {
        SmartPrompt::new()
    }
}

/// Union of the three prompt shapes.
#[derive(Debug, Clone)]
pub enum TTSPrompt {
    /// Basic emotion control (ssfm-v21 compatible).
    Basic(Prompt),
    /// Explicit preset emotion control (ssfm-v30).
    Preset(PresetPrompt),
    /// Context-aware emotion inference (ssfm-v30).
    Smart(SmartPrompt),
}

/// A prompt with its texts as character sequences.
pub enum PromptView {
    Basic(Prompt),
    Preset(PresetPrompt),
    Smart { previous_text: Option<Seq<char>>, next_text: Option<Seq<char>> },
}

impl View for TTSPrompt {
    type V = PromptView;

    open spec fn view(&self) -> PromptView {
        match self {
            TTSPrompt::Basic(p) => PromptView::Basic(*p),
            TTSPrompt::Preset(p) => PromptView::Preset(*p),
            TTSPrompt::Smart(s) => PromptView::Smart {
                previous_text: opt_text(s.previous_text),
                next_text: opt_text(s.next_text),
            },
        }
    }
}

impl From<Prompt> for TTSPrompt {
    fn from(prompt: Prompt) -> Self {
        TTSPrompt::Basic(prompt)
    }
}

impl vstd::std_specs::convert::FromSpecImpl<Prompt> for TTSPrompt {
    open spec fn obeys_from_spec() -> bool {
        true
    }

    open spec fn from_spec(v: Prompt) -> Self {
        TTSPrompt::Basic(v)
    }
}

impl From<PresetPrompt> for TTSPrompt {
    fn from(prompt: PresetPrompt) -> Self {
        TTSPrompt::Preset(prompt)
    }
}

impl vstd::std_specs::convert::FromSpecImpl<PresetPrompt> for TTSPrompt {
    open spec fn obeys_from_spec() -> bool {
        true
    }

    open spec fn from_spec(v: PresetPrompt) -> Self {
        TTSPrompt::Preset(v)
    }
}

impl From<SmartPrompt> for TTSPrompt {
    fn from(prompt: SmartPrompt) -> Self {
        TTSPrompt::Smart(prompt)
    }
}

impl vstd::std_specs::convert::FromSpecImpl<SmartPrompt> for TTSPrompt {
    open spec fn obeys_from_spec() -> bool {
        true
    }

    open spec fn from_spec(v: SmartPrompt) -> Self {
        TTSPrompt::Smart(v)
    }
}

/// A prompt as it is sent: one JSON object whose absent fields are left out.
///
/// Basic prompts carry no `emotion_type`; preset and smart prompts carry
/// `"preset"` and `"smart"`.
#[derive(Debug, Clone)]
pub struct PromptWire {
    pub emotion_type: Option<String>,
    pub emotion_preset: Option<String>,
    /// Emotion intensity in percent.
    pub emotion_intensity: Option<i32>,
    pub previous_text: Option<String>,
    pub next_text: Option<String>,
}

/// The fields of a wire prompt as character sequences.
pub struct PromptWireView {
    pub emotion_type: Option<Seq<char>>,
    pub emotion_preset: Option<Seq<char>>,
    pub emotion_intensity: Option<i32>,
    pub previous_text: Option<Seq<char>>,
    pub next_text: Option<Seq<char>>,
}

impl View for PromptWire {
    type V = PromptWireView;

    open spec fn view(&self) -> PromptWireView {
        PromptWireView {
            emotion_type: opt_text(self.emotion_type),
            emotion_preset: opt_text(self.emotion_preset),
            emotion_intensity: self.emotion_intensity,
            previous_text: opt_text(self.previous_text),
            next_text: opt_text(self.next_text),
        }
    }
}

/// The discriminator of preset prompts.
pub open spec fn preset_tag() -> Seq<char> {
    "preset"@
}

/// The discriminator of smart prompts.
pub open spec fn smart_tag() -> Seq<char> {
    "smart"@
}

/// The wire object of a prompt.
pub open spec fn encode_prompt(p: PromptView) -> PromptWireView {
    match p {
        PromptView::Basic(b) => PromptWireView {
            emotion_type: None,
            emotion_preset: opt_preset_token(b.emotion_preset),
            emotion_intensity: b.emotion_intensity,
            previous_text: None,
            next_text: None,
        },
        PromptView::Preset(b) => PromptWireView {
            emotion_type: Some(preset_tag()),
            emotion_preset: opt_preset_token(b.emotion_preset),
            emotion_intensity: b.emotion_intensity,
            previous_text: None,
            next_text: None,
        },
        PromptView::Smart { previous_text, next_text } => PromptWireView {
            emotion_type: Some(smart_tag()),
            emotion_preset: None,
            emotion_intensity: None,
            previous_text,
            next_text,
        },
    }
}

/// The preset named by an optional token: `Some(None)` when there is no
/// token, `None` when the token names no preset.
pub open spec fn decode_preset(t: Option<Seq<char>>) -> Option<Option<EmotionPreset>> {
    match t {
        None => Some(None),
        Some(s) => if exists|e: EmotionPreset| e.token() == s {
            Some(Some(choose|e: EmotionPreset| e.token() == s))
        } else {
            None
        },
    }
}

/// The prompt that a wire object stands for, tried in a fixed order: a
/// `"smart"` discriminator gives a smart prompt, a `"preset"` one a preset
/// prompt, and anything else a basic prompt. Fields that the chosen shape does
/// not have are ignored; an unknown preset token fails.
pub open spec fn decode_prompt(w: PromptWireView) -> Option<PromptView> {
    if w.emotion_type == Some(smart_tag()) {
        Some(PromptView::Smart { previous_text: w.previous_text, next_text: w.next_text })
    } else {
        match decode_preset(w.emotion_preset) {
            None => None,
            Some(emotion_preset) => if w.emotion_type == Some(preset_tag()) {
                Some(
                    PromptView::Preset(
                        PresetPrompt { emotion_preset, emotion_intensity: w.emotion_intensity },
                    ),
                )
            } else {
                Some(
                    PromptView::Basic(
                        Prompt { emotion_preset, emotion_intensity: w.emotion_intensity },
                    ),
                )
            },
        }
    }
}

/// The view of an optional prompt.
pub open spec fn opt_prompt_view(o: Option<TTSPrompt>) -> Option<PromptView> {
    match o {
        Some(p) => Some(p@),
        None => None,
    }
}

fn decode_preset_exec(t: &Option<String>) -> (r: Option<Option<EmotionPreset>>)
    ensures
        r == decode_preset(opt_text(*t)),
{
    match t {
        None => Some(None),
        Some(s) => match EmotionPreset::from_token(s.as_str()) {
            Some(e) => {
                proof {
                    let c = choose|c: EmotionPreset| c.token() == s@;
                    EmotionPreset::lemma_token_injective(e, c);
                }
                Some(Some(e))
            },
            None => None,
        },
    }
}

impl TTSPrompt {
    /// The wire object of the prompt.
    pub fn to_wire(&self) -> (r: PromptWire)
        ensures
            r@ == encode_prompt(self@),
    {
        match self {
            TTSPrompt::Basic(p) => PromptWire {
                emotion_type: None,
                emotion_preset: opt_preset_str(p.emotion_preset),
                emotion_intensity: p.emotion_intensity,
                previous_text: None,
                next_text: None,
            },
            TTSPrompt::Preset(p) => PromptWire {
                emotion_type: Some("preset".to_owned()),
                emotion_preset: opt_preset_str(p.emotion_preset),
                emotion_intensity: p.emotion_intensity,
                previous_text: None,
                next_text: None,
            },
            TTSPrompt::Smart(p) => PromptWire {
                emotion_type: Some("smart".to_owned()),
                emotion_preset: None,
                emotion_intensity: None,
                previous_text: clone_opt_text(&p.previous_text),
                next_text: clone_opt_text(&p.next_text),
            },
        }
    }

    /// The prompt that a wire object stands for (see `decode_prompt`), or
    /// `None` where its preset token names no preset.
    pub fn from_wire(w: &PromptWire) -> (r: Option<TTSPrompt>)
        ensures
            opt_prompt_view(r) == decode_prompt(w@),
    {
        let is_smart = match &w.emotion_type {
            Some(t) => same_text(t.as_str(), "smart"),
            None => false,
        };
        if is_smart {
            return Some(
                TTSPrompt::Smart(
                    SmartPrompt {
                        previous_text: clone_opt_text(&w.previous_text),
                        next_text: clone_opt_text(&w.next_text),
                    },
                ),
            );
        }
        let is_preset = match &w.emotion_type {
            Some(t) => same_text(t.as_str(), "preset"),
            None => false,
        };
        match decode_preset_exec(&w.emotion_preset) {
            None => None,
            Some(emotion_preset) => if is_preset {
                Some(
                    TTSPrompt::Preset(
                        PresetPrompt { emotion_preset, emotion_intensity: w.emotion_intensity },
                    ),
                )
            } else {
                Some(
                    TTSPrompt::Basic(
                        Prompt { emotion_preset, emotion_intensity: w.emotion_intensity },
                    ),
                )
            },
        }
    }
}

/// Decoding the wire object of any prompt gives the prompt back.
pub proof fn lemma_prompt_round_trip(p: PromptView)
    ensures
        decode_prompt(encode_prompt(p)) == Some(p),
{
    reveal_strlit("preset");
    reveal_strlit("smart");
    assert(preset_tag() != smart_tag()) by {
        assert(preset_tag().len() != smart_tag().len());
    }
    let b = match p {
        PromptView::Basic(b) => b.emotion_preset,
        PromptView::Preset(b) => b.emotion_preset,
        PromptView::Smart { .. } => None,
    };
    if let Some(e) = b {
        let c = choose|c: EmotionPreset| c.token() == e.token();
        EmotionPreset::lemma_token_injective(e, c);
        assert(decode_preset(Some(e.token())) == Some(Some(e)));
    }
}

/// Basic prompts are sent without a discriminator; preset and smart prompts
/// always with `"preset"` and `"smart"`.
pub proof fn lemma_prompt_discriminator(p: PromptView)
    ensures
        p is Basic ==> encode_prompt(p).emotion_type is None,
        p is Preset ==> encode_prompt(p).emotion_type == Some(preset_tag()),
        p is Smart ==> encode_prompt(p).emotion_type == Some(smart_tag()),
{
}

/// Text-to-speech request parameters.
#[derive(Debug, Clone)]
pub struct TTSRequest {
    /// Voice ID in format 'tc_' followed by a unique identifier.
    pub voice_id: String,
    /// Text to convert to speech (max 2000 chars).
    pub text: String,
    /// TTS model to use.
    pub model: TTSModel,
    /// Language code (ISO 639-3). Auto-detected if not provided.
    pub language: Option<String>,
    /// Emotion and style settings.
    pub prompt: Option<TTSPrompt>,
    /// Audio output settings.
    pub output: Option<Output>,
    /// Random seed for reproducible results.
    pub seed: Option<i32>,
}

/// A request as it is sent: enums as their tokens, absent fields left out.
#[derive(Debug, Clone)]
pub struct TTSRequestWire {
    pub voice_id: String,
    pub text: String,
    pub model: String,
    pub language: Option<String>,
    pub prompt: Option<PromptWire>,
    pub output: Option<OutputWire>,
    pub seed: Option<i32>,
}

impl TTSRequest {
    /// Create a request with the required fields and nothing else set.
    pub fn new(voice_id: &str, text: &str, model: TTSModel) -> (r: Self)
        ensures
            r.voice_id@ == voice_id@,
            r.text@ == text@,
            r.model == model,
            r.language is None,
            r.prompt is None,
            r.output is None,
            r.seed is None,
    {
        TTSRequest {
            voice_id: voice_id.to_owned(),
            text: text.to_owned(),
            model,
            language: None,
            prompt: None,
            output: None,
            seed: None,
        }
    }

    /// Set the language code (ISO 639-3).
    pub fn language(self, language: &str) -> (r: Self)
        ensures
            opt_text(r.language) == Some(language@),
            r.voice_id == self.voice_id,
            r.text == self.text,
            r.model == self.model,
            r.prompt == self.prompt,
            r.output == self.output,
            r.seed == self.seed,
    {
        TTSRequest { language: Some(language.to_owned()), ..self }
    }

    /// Set the prompt (emotion settings).
    pub fn prompt(self, prompt: TTSPrompt) -> (r: Self)
        ensures
            r.prompt == Some(prompt),
            r.voice_id == self.voice_id,
            r.text == self.text,
            r.model == self.model,
            r.language == self.language,
            r.output == self.output,
            r.seed == self.seed,
    {
        TTSRequest { prompt: Some(prompt), ..self }
    }

    /// Set the output settings.
    pub fn output(self, output: Output) -> (r: Self)
        ensures
            r.output == Some(output),
            r.voice_id == self.voice_id,
            r.text == self.text,
            r.model == self.model,
            r.language == self.language,
            r.prompt == self.prompt,
            r.seed == self.seed,
    {
        TTSRequest { output: Some(output), ..self }
    }

    /// Set the random seed for reproducible results.
    pub fn seed(self, seed: i32) -> (r: Self)
        ensures
            r.seed == Some(seed),
            r.voice_id == self.voice_id,
            r.text == self.text,
            r.model == self.model,
            r.language == self.language,
            r.prompt == self.prompt,
            r.output == self.output,
    {
        TTSRequest { seed: Some(seed), ..self }
    }

    /// The body of the request as it is sent.
    pub fn to_wire(&self) -> (r: TTSRequestWire)
        ensures
            r.voice_id == self.voice_id,
            r.text == self.text,
            r.model@ == self.model.token(),
            r.language == self.language,
            r.seed == self.seed,
            match self.prompt {
                Some(p) => r.prompt matches Some(w) && w@ == encode_prompt(p@),
                None => r.prompt is None,
            },
            match self.output {
                Some(o) => r.output matches Some(w) && w@ == encode_output(o),
                None => r.output is None,
            },
    {
        let prompt = match &self.prompt {
            Some(p) => Some(p.to_wire()),
            None => None,
        };
        let output = match &self.output {
            Some(o) => Some(o.to_wire()),
            None => None,
        };
        TTSRequestWire {
            voice_id: self.voice_id.clone(),
            text: self.text.clone(),
            model: self.model.as_str().to_owned(),
            language: clone_opt_text(&self.language),
            prompt,
            output,
            seed: self.seed,
        }
    }
}

/// Relies on `Duration`'s `Clone`, which copies the value (the type is `Copy`).
pub assume_specification[ <std::time::Duration as Clone>::clone ](d: &std::time::Duration) -> (r:
    std::time::Duration)
    ensures
        r == *d,
;

/// Text-to-speech response.
#[derive(Debug, Clone)]
pub struct TTSResponse {
    /// Generated audio data.
    pub audio_data: Vec<u8>,
    /// Audio duration.
    pub duration: std::time::Duration,
    /// Audio format (wav or mp3).
    pub format: AudioFormat,
}

/// Model information with supported emotions.
#[derive(Debug, Clone)]
pub struct ModelInfo {
    /// TTS model version.
    pub version: TTSModel,
    /// List of supported emotions for this model.
    pub emotions: Vec<String>,
}

/// Voice from the V2 API with enhanced metadata.
#[derive(Debug, Clone)]
pub struct VoiceV2 {
    /// Unique voice identifier.
    pub voice_id: String,
    /// Human-readable name of the voice.
    pub voice_name: String,
    /// List of supported TTS models with their emotions.
    pub models: Vec<ModelInfo>,
    /// Voice gender classification.
    pub gender: Option<Gender>,
    /// Voice age group classification.
    pub age: Option<Age>,
    /// List of use case categories.
    pub use_cases: Option<Vec<String>>,
}

/// Model information as it is received, the version as its token.
#[derive(Debug, Clone)]
pub struct ModelInfoWire {
    pub version: String,
    pub emotions: Vec<String>,
}

/// A voice as it is received, enums as their tokens.
#[derive(Debug, Clone)]
pub struct VoiceV2Wire {
    pub voice_id: String,
    pub voice_name: String,
    pub models: Vec<ModelInfoWire>,
    pub gender: Option<String>,
    pub age: Option<String>,
    pub use_cases: Option<Vec<String>>,
}

/// Whether the version token of received model information names a model.
pub open spec fn model_info_decodes(w: ModelInfoWire) -> bool {
    exists|m: TTSModel| m.token() == w.version@
}

/// Whether `m` is what received model information `w` stands for.
pub open spec fn model_info_from(w: ModelInfoWire, m: ModelInfo) -> bool {
    m.version.token() == w.version@ && m.emotions == w.emotions
}

/// Whether an optional gender token is absent or names a gender.
pub open spec fn gender_decodes(t: Option<String>) -> bool {
    match t {
        Some(s) => exists|g: Gender| g.token() == s@,
        None => true,
    }
}

/// Whether an optional age token is absent or names an age group.
pub open spec fn age_decodes(t: Option<String>) -> bool {
    match t {
        Some(s) => exists|a: Age| a.token() == s@,
        None => true,
    }
}

/// Whether every token of a received voice names a value.
pub open spec fn voice_decodes(w: VoiceV2Wire) -> bool {
    &&& forall|i: int| 0 <= i < w.models@.len() ==> model_info_decodes(#[trigger] w.models@[i])
    &&& gender_decodes(w.gender)
    &&& age_decodes(w.age)
}

/// Whether `v` is what the received voice `w` stands for.
pub open spec fn voice_from(w: VoiceV2Wire, v: VoiceV2) -> bool {
    &&& v.voice_id == w.voice_id
    &&& v.voice_name == w.voice_name
    &&& v.models@.len() == w.models@.len()
    &&& forall|i: int|
        0 <= i < w.models@.len() ==> model_info_from(#[trigger] w.models@[i], v.models@[i])
    &&& opt_text(w.gender) == match v.gender {
        Some(g) => Some(g.token()),
        None => None::<Seq<char>>,
    }
    &&& opt_text(w.age) == match v.age {
        Some(a) => Some(a.token()),
        None => None::<Seq<char>>,
    }
    &&& v.use_cases == w.use_cases
}

impl ModelInfo {
    /// The model information that a received one stands for, or `None` where
    /// its version token names no model.
    pub fn from_wire(w: ModelInfoWire) -> (r: Option<ModelInfo>)
        ensures
            r is Some <==> model_info_decodes(w),
            r matches Some(m) ==> model_info_from(w, m),
    {
        match TTSModel::from_token(w.version.as_str()) {
            Some(version) => Some(ModelInfo { version, emotions: w.emotions }),
            None => None,
        }
    }
}

impl VoiceV2 {
    /// The voice that a received one stands for, or `None` where one of its
    /// tokens names no value.
    pub fn from_wire(w: VoiceV2Wire) -> (r: Option<VoiceV2>)
        ensures
            r is Some <==> voice_decodes(w),
            r matches Some(v) ==> voice_from(w, v),
    {
        let ghost w0 = w;
        let gender = match &w.gender {
            Some(t) => match Gender::from_token(t.as_str()) {
                Some(g) => Some(g),
                None => return None,
            },
            None => None,
        };
        let age = match &w.age {
            Some(t) => match Age::from_token(t.as_str()) {
                Some(a) => Some(a),
                None => return None,
            },
            None => None,
        };
        let mut rest = w.models;
        let mut models: Vec<ModelInfo> = Vec::new();
        let n = rest.len();
        while rest.len() > 0
            invariant
                rest@ == w0.models@.subrange(w0.models@.len() - rest@.len(), w0.models@.len() as int),
                n == w0.models@.len(),
                w0 == w,
                models@.len() + rest@.len() == n,
                forall|i: int|
                    0 <= i < models@.len() ==> model_info_from(
                        #[trigger] w0.models@[i],
                        models@[i],
                    ),
            decreases rest@.len(),
        {
            let m = rest.remove(0);
            match ModelInfo::from_wire(m) {
                Some(info) => models.push(info),
                None => {
                    assert(w0.models@[models@.len() as int] == m);
                    return None;
                },
            }
        }
        proof {
            assert forall|i: int| 0 <= i < w0.models@.len() implies model_info_decodes(
                #[trigger] w0.models@[i],
            ) by {
                assert(model_info_from(w0.models@[i], models@[i]));
            }
        }
        Some(
            VoiceV2 {
                voice_id: w.voice_id,
                voice_name: w.voice_name,
                models,
                gender,
                age,
                use_cases: w.use_cases,
            },
        )
    }
}

/// Filter options for the V2 voices endpoint.
#[derive(Debug, Clone, Copy)]
pub struct VoicesV2Filter {
    /// Filter by TTS model.
    pub model: Option<TTSModel>,
    /// Filter by gender.
    pub gender: Option<Gender>,
    /// Filter by age group.
    pub age: Option<Age>,
    /// Filter by use case.
    pub use_cases: Option<UseCase>,
}

impl VoicesV2Filter {
    /// Create an empty filter.
    pub fn new() -> (r: Self)
        ensures
            r.model is None,
            r.gender is None,
            r.age is None,
            r.use_cases is None,
    {
        VoicesV2Filter { model: None, gender: None, age: None, use_cases: None }
    }

    /// Filter by model.
    pub fn model(self, model: TTSModel) -> (r: Self)
        ensures
            r == (VoicesV2Filter { model: Some(model), ..self }),
    {
        VoicesV2Filter { model: Some(model), ..self }
    }

    /// Filter by gender.
    pub fn gender(self, gender: Gender) -> (r: Self)
        ensures
            r == (VoicesV2Filter { gender: Some(gender), ..self }),
    {
        VoicesV2Filter { gender: Some(gender), ..self }
    }

    /// Filter by age.
    pub fn age(self, age: Age) -> (r: Self)
        ensures
            r == (VoicesV2Filter { age: Some(age), ..self }),
    {
        VoicesV2Filter { age: Some(age), ..self }
    }

    /// Filter by use case.
    pub fn use_cases(self, use_case: UseCase) -> (r: Self)
        ensures
            r == (VoicesV2Filter { use_cases: Some(use_case), ..self }),
    {
        VoicesV2Filter { use_cases: Some(use_case), ..self }
    }
}

impl Default for VoicesV2Filter {
    fn default() -> (r: Self)
        ensures
            r.model is None,
            r.gender is None,
            r.age is None,
            r.use_cases is None,
    {
        VoicesV2Filter::new()
    }
}

} // verus!
