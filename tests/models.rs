use typecast_rust::models::{
    ModelInfoWire, PromptWire, VoiceV2Wire,
};
use typecast_rust::{
    Age, AudioFormat, EmotionPreset, Gender, Output, PresetPrompt, Prompt, SmartPrompt, TTSModel,
    TTSPrompt, TTSRequest, UseCase, VoiceV2, VoicesV2Filter,
};

#[test]
fn model_wire_tokens() {
    assert_eq!(TTSModel::SsfmV30.as_str(), "ssfm-v30");
    assert_eq!(TTSModel::SsfmV21.as_str(), "ssfm-v21");
    assert_eq!(TTSModel::from_token("ssfm-v30"), Some(TTSModel::SsfmV30));
    assert_eq!(TTSModel::from_token("ssfm-v21"), Some(TTSModel::SsfmV21));
    assert_eq!(TTSModel::from_token("SsfmV30"), None);
    assert_eq!(TTSModel::default(), TTSModel::SsfmV30);
}

#[test]
fn enum_wire_tokens() {
    assert_eq!(EmotionPreset::ToneUp.as_str(), "toneup");
    assert_eq!(EmotionPreset::ToneDown.as_str(), "tonedown");
    assert_eq!(EmotionPreset::Whisper.as_str(), "whisper");
    assert_eq!(EmotionPreset::from_token("tonedown"), Some(EmotionPreset::ToneDown));
    assert_eq!(EmotionPreset::from_token("ToneDown"), None);
    assert_eq!(AudioFormat::Mp3.as_str(), "mp3");
    assert_eq!(Gender::Female.as_str(), "female");
    assert_eq!(Gender::from_token("male"), Some(Gender::Male));
    assert_eq!(Age::YoungAdult.as_str(), "young_adult");
    assert_eq!(Age::from_token("middle_age"), Some(Age::MiddleAge));
    assert_eq!(UseCase::ELearning.as_str(), "E-learning");
    assert_eq!(UseCase::TikTokReels.as_str(), "Tiktok/Reels");
    assert_eq!(UseCase::Announcer.as_str(), "Announcer");
    assert_eq!(EmotionPreset::default(), EmotionPreset::Normal);
    assert_eq!(AudioFormat::default(), AudioFormat::Wav);
}

#[test]
fn output_setters_clamp() {
    assert_eq!(Output::new().volume(999).volume, Some(200));
    assert_eq!(Output::new().volume(-50).volume, Some(0));
    assert_eq!(Output::new().volume(120).volume, Some(120));
    assert_eq!(Output::new().audio_pitch(20).audio_pitch, Some(12));
    assert_eq!(Output::new().audio_pitch(-20).audio_pitch, Some(-12));
    assert_eq!(Output::new().audio_pitch(3).audio_pitch, Some(3));
    assert_eq!(Output::new().audio_tempo(10).audio_tempo, Some(50));
    assert_eq!(Output::new().audio_tempo(500).audio_tempo, Some(200));
    assert_eq!(Output::new().audio_tempo(125).audio_tempo, Some(125));
    let o = Output::new().volume(150).audio_format(AudioFormat::Mp3).audio_pitch(-3);
    assert_eq!(o.volume, Some(150));
    assert_eq!(o.audio_pitch, Some(-3));
    assert_eq!(o.audio_tempo, None);
    assert_eq!(o.audio_format, Some(AudioFormat::Mp3));
}

#[test]
fn prompt_intensity_clamps() {
    assert_eq!(Prompt::new().emotion_intensity(300).emotion_intensity, Some(200));
    assert_eq!(Prompt::new().emotion_intensity(-1).emotion_intensity, Some(0));
    assert_eq!(PresetPrompt::new().emotion_intensity(150).emotion_intensity, Some(150));
    assert_eq!(PresetPrompt::new().emotion_intensity(1000).emotion_intensity, Some(200));
}

#[test]
fn basic_prompt_round_trip() {
    let p = TTSPrompt::from(
        Prompt::new().emotion_preset(EmotionPreset::Sad).emotion_intensity(150),
    );
    let w = p.to_wire();
    assert_eq!(w.emotion_type, None);
    assert_eq!(w.emotion_preset.as_deref(), Some("sad"));
    assert_eq!(w.emotion_intensity, Some(150));
    match TTSPrompt::from_wire(&w) {
        Some(TTSPrompt::Basic(b)) => {
            assert_eq!(b.emotion_preset, Some(EmotionPreset::Sad));
            assert_eq!(b.emotion_intensity, Some(150));
        },
        other => panic!("expected a basic prompt, got {:?}", other),
    }
}

#[test]
fn preset_prompt_round_trip() {
    let p = TTSPrompt::from(PresetPrompt::new().emotion_preset(EmotionPreset::Happy));
    let w = p.to_wire();
    assert_eq!(w.emotion_type.as_deref(), Some("preset"));
    assert_eq!(w.emotion_preset.as_deref(), Some("happy"));
    assert_eq!(w.emotion_intensity, None);
    match TTSPrompt::from_wire(&w) {
        Some(TTSPrompt::Preset(b)) => {
            assert_eq!(b.emotion_preset, Some(EmotionPreset::Happy));
            assert_eq!(b.emotion_intensity, None);
        },
        other => panic!("expected a preset prompt, got {:?}", other),
    }
}

#[test]
fn smart_prompt_round_trip() {
    let p = TTSPrompt::from(SmartPrompt::new().previous_text("before").next_text("after"));
    let w = p.to_wire();
    assert_eq!(w.emotion_type.as_deref(), Some("smart"));
    assert_eq!(w.emotion_preset, None);
    assert_eq!(w.previous_text.as_deref(), Some("before"));
    assert_eq!(w.next_text.as_deref(), Some("after"));
    match TTSPrompt::from_wire(&w) {
        Some(TTSPrompt::Smart(s)) => {
            assert_eq!(s.previous_text.as_deref(), Some("before"));
            assert_eq!(s.next_text.as_deref(), Some("after"));
        },
        other => panic!("expected a smart prompt, got {:?}", other),
    }
}

#[test]
fn prompt_decoding_order() {
    let unknown_preset = PromptWire {
        emotion_type: Some("preset".to_string()),
        emotion_preset: Some("ecstatic".to_string()),
        emotion_intensity: None,
        previous_text: None,
        next_text: None,
    };
    assert!(TTSPrompt::from_wire(&unknown_preset).is_none());
    let other_tag = PromptWire {
        emotion_type: Some("other".to_string()),
        emotion_preset: Some("angry".to_string()),
        emotion_intensity: Some(50),
        previous_text: Some("ignored".to_string()),
        next_text: None,
    };
    match TTSPrompt::from_wire(&other_tag) {
        Some(TTSPrompt::Basic(b)) => assert_eq!(b.emotion_preset, Some(EmotionPreset::Angry)),
        other => panic!("expected a basic prompt, got {:?}", other),
    }
}

#[test]
fn request_builders_and_wire() {
    let req = TTSRequest::new("tc_60e5426de8b95f1d3000d7b5", "Hello", TTSModel::SsfmV30)
        .language("eng")
        .prompt(TTSPrompt::from(PresetPrompt::new().emotion_preset(EmotionPreset::Whisper)))
        .output(Output::new().audio_format(AudioFormat::Mp3).audio_tempo(120))
        .seed(42);
    assert_eq!(req.voice_id, "tc_60e5426de8b95f1d3000d7b5");
    assert_eq!(req.seed, Some(42));
    let w = req.to_wire();
    assert_eq!(w.model, "ssfm-v30");
    assert_eq!(w.text, "Hello");
    assert_eq!(w.language.as_deref(), Some("eng"));
    assert_eq!(w.seed, Some(42));
    let pw = w.prompt.expect("prompt is sent");
    assert_eq!(pw.emotion_type.as_deref(), Some("preset"));
    assert_eq!(pw.emotion_preset.as_deref(), Some("whisper"));
    let ow = w.output.expect("output is sent");
    assert_eq!(ow.audio_format.as_deref(), Some("mp3"));
    assert_eq!(ow.audio_tempo, Some(120));
    assert_eq!(ow.volume, None);
    let bare = TTSRequest::new("v", "t", TTSModel::SsfmV21).to_wire();
    assert_eq!(bare.model, "ssfm-v21");
    assert!(bare.prompt.is_none() && bare.output.is_none() && bare.language.is_none());
}

fn voice_wire(id: &str, gender: Option<&str>) -> VoiceV2Wire {
    VoiceV2Wire {
        voice_id: id.to_string(),
        voice_name: format!("name of {}", id),
        models: vec![ModelInfoWire {
            version: "ssfm-v30".to_string(),
            emotions: vec!["normal".to_string(), "happy".to_string()],
        }],
        gender: gender.map(|g| g.to_string()),
        age: Some("young_adult".to_string()),
        use_cases: Some(vec!["Audiobook".to_string()]),
    }
}

#[test]
fn voice_from_wire_decodes_tokens() {
    let v = VoiceV2::from_wire(voice_wire("tc_1", Some("female"))).expect("decodes");
    assert_eq!(v.voice_id, "tc_1");
    assert_eq!(v.gender, Some(Gender::Female));
    assert_eq!(v.age, Some(Age::YoungAdult));
    assert_eq!(v.models.len(), 1);
    assert_eq!(v.models[0].version, TTSModel::SsfmV30);
    assert_eq!(v.models[0].emotions, vec!["normal".to_string(), "happy".to_string()]);
    assert_eq!(v.use_cases, Some(vec!["Audiobook".to_string()]));
    assert!(VoiceV2::from_wire(voice_wire("tc_2", Some("robot"))).is_none());
    let mut bad_model = voice_wire("tc_3", None);
    bad_model.models[0].version = "ssfm-v99".to_string();
    assert!(VoiceV2::from_wire(bad_model).is_none());
}

#[test]
fn filter_builders() {
    let f = VoicesV2Filter::new().model(TTSModel::SsfmV30).gender(Gender::Female);
    assert_eq!(f.model, Some(TTSModel::SsfmV30));
    assert_eq!(f.gender, Some(Gender::Female));
    assert_eq!(f.age, None);
    let f = f.age(Age::Elder).use_cases(UseCase::Podcast);
    assert_eq!(f.age, Some(Age::Elder));
    assert_eq!(f.use_cases, Some(UseCase::Podcast));
    let d = VoicesV2Filter::default();
    assert!(d.model.is_none() && d.gender.is_none() && d.age.is_none() && d.use_cases.is_none());
}
