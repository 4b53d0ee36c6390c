use local_llm::emotion::{classify, CONFIDENCE, INTENSITY};
use local_llm::response::{count_tokens, DEFAULT_MODEL, REPLY_PREFIX};
use local_llm::system::{available_models, MEMORY_AVAILABLE, MEMORY_PERCENT_USED, MEMORY_TOTAL};
use local_llm::{analyze_emotion, generate_response, get_system_info};
use local_llm::{Emotion, EmotionAnalysis, LLMResponse, MemoryUsage, SystemInfo};

fn emotion_of(text: &str) -> String {
    analyze_emotion(text.to_string()).unwrap().emotion
}

#[test]
fn generate_response_hello() {
    let reply = generate_response("hello".to_string()).unwrap();
    assert_eq!(
        reply,
        LLMResponse {
            text: "로컬 LLM 응답: hello".to_string(),
            tokens_used: Some(5),
            model: "phi-3.5-mini".to_string(),
        }
    );
}

#[test]
fn generate_response_empty_prompt() {
    let reply = generate_response(String::new()).unwrap();
    assert_eq!(reply.text, "로컬 LLM 응답: ");
    assert_eq!(reply.tokens_used, Some(0));
    assert_eq!(reply.model, "phi-3.5-mini");
}

#[test]
fn generate_response_embeds_the_prompt_verbatim() {
    for prompt in ["hello", "", "  spaces  ", "line\nbreak", "로컬 LLM 응답: ", "안녕하세요?", "{}"] {
        let reply = generate_response(prompt.to_string()).unwrap();
        assert!(reply.text.contains(prompt));
        assert_eq!(reply.text, format!("{}{}", REPLY_PREFIX, prompt));
        assert_eq!(reply.tokens_used, Some(prompt.chars().count() as u32));
        assert_eq!(reply.model, DEFAULT_MODEL);
    }
}

#[test]
fn generate_response_counts_characters() {
    let reply = generate_response("안녕".to_string()).unwrap();
    assert_eq!(reply.tokens_used, Some(2));
    assert_eq!(reply.text, "로컬 LLM 응답: 안녕");
}

#[test]
fn count_tokens_is_the_length_in_characters() {
    assert_eq!(count_tokens(""), 0);
    assert_eq!(count_tokens("hello"), 5);
    assert_eq!(count_tokens("좋아"), 2);
    assert_eq!(count_tokens(&"x".repeat(70000)), 70000);
}

#[test]
fn reply_constants() {
    assert_eq!(REPLY_PREFIX, "로컬 LLM 응답: ");
    assert_eq!(DEFAULT_MODEL, "phi-3.5-mini");
}

#[test]
fn analyze_emotion_happy_today() {
    let analysis = analyze_emotion("오늘 기쁘다".to_string()).unwrap();
    assert_eq!(
        analysis,
        EmotionAnalysis { emotion: "happy".to_string(), confidence: 80, intensity: 70 }
    );
    assert_eq!(f32::from(analysis.confidence) / 100.0, 0.8f32);
    assert_eq!(f32::from(analysis.intensity) / 100.0, 0.7f32);
}

#[test]
fn analyze_emotion_each_trigger_word() {
    assert_eq!(emotion_of("기쁘"), "happy");
    assert_eq!(emotion_of("좋"), "happy");
    assert_eq!(emotion_of("날씨가 좋아요"), "happy");
    assert_eq!(emotion_of("슬프"), "sad");
    assert_eq!(emotion_of("너무 슬프다"), "sad");
    assert_eq!(emotion_of("우울"), "sad");
    assert_eq!(emotion_of("조금 우울해"), "sad");
    assert_eq!(emotion_of("화나"), "angry");
    assert_eq!(emotion_of("정말 화나네"), "angry");
    assert_eq!(emotion_of("분노"), "angry");
    assert_eq!(emotion_of("분노가 치민다"), "angry");
}

#[test]
fn analyze_emotion_neutral_without_trigger_words() {
    assert_eq!(emotion_of(""), "neutral");
    assert_eq!(emotion_of("hello"), "neutral");
    assert_eq!(emotion_of("happy sad angry"), "neutral");
    assert_eq!(emotion_of("오늘은 비가 온다"), "neutral");
}

#[test]
fn analyze_emotion_needs_the_whole_word() {
    assert_eq!(emotion_of("기"), "neutral");
    assert_eq!(emotion_of("기 쁘"), "neutral");
    assert_eq!(emotion_of("프슬"), "neutral");
    assert_eq!(emotion_of("화 나"), "neutral");
    assert_eq!(emotion_of("노분"), "neutral");
}

#[test]
fn analyze_emotion_joy_goes_first() {
    assert_eq!(emotion_of("슬프지만 기쁘다"), "happy");
    assert_eq!(emotion_of("화나도 좋아"), "happy");
    assert_eq!(emotion_of("분노 우울 좋"), "happy");
}

#[test]
fn analyze_emotion_sorrow_goes_before_anger() {
    assert_eq!(emotion_of("화나고 슬프다"), "sad");
    assert_eq!(emotion_of("분노와 우울"), "sad");
}

#[test]
fn analyze_emotion_measures_are_fixed() {
    for text in ["", "오늘 기쁘다", "슬프다", "화나", "nothing at all"] {
        let analysis = analyze_emotion(text.to_string()).unwrap();
        assert_eq!(analysis.confidence, 80);
        assert_eq!(analysis.intensity, 70);
        assert!(analysis.confidence <= 100 && analysis.intensity <= 100);
    }
    assert_eq!(CONFIDENCE, 80);
    assert_eq!(INTENSITY, 70);
}

#[test]
fn classify_gives_the_emotion_itself() {
    assert_eq!(classify("오늘 기쁘다"), Emotion::Happy);
    assert_eq!(classify("우울"), Emotion::Sad);
    assert_eq!(classify("분노"), Emotion::Angry);
    assert_eq!(classify(""), Emotion::Neutral);
}

#[test]
fn emotion_labels() {
    assert_eq!(Emotion::Happy.label(), "happy");
    assert_eq!(Emotion::Sad.label(), "sad");
    assert_eq!(Emotion::Angry.label(), "angry");
    assert_eq!(Emotion::Neutral.label(), "neutral");
}

#[test]
fn analyze_emotion_joy_survives_what_surrounds_it() {
    for (before, after) in [("", ""), ("슬프 ", " 화나"), ("abc", "def"), ("우울", "분노")] {
        assert_eq!(emotion_of(&format!("{}좋{}", before, after)), "happy");
    }
}

#[test]
fn get_system_info_passes_platform_and_architecture_on() {
    let info = get_system_info("linux", "x86_64").unwrap();
    assert_eq!(info.platform, "linux");
    assert_eq!(info.architecture, "x86_64");
    let info = get_system_info("", "").unwrap();
    assert_eq!(info.platform, "");
    assert_eq!(info.architecture, "");
}

#[test]
fn get_system_info_fixed_memory_and_models() {
    for (platform, architecture) in [("linux", "x86_64"), ("macos", "aarch64"), ("windows", "x86")] {
        let info = get_system_info(platform, architecture).unwrap();
        assert_eq!(info.memory_available.total, 8589934592);
        assert_eq!(info.memory_available.available, 4294967296);
        assert_eq!(info.memory_available.percent_used, 50);
        assert_eq!(info.llm_models, vec!["phi-3.5-mini", "emotion-analyzer", "speech-recognition"]);
    }
}

#[test]
fn get_system_info_whole_record() {
    assert_eq!(
        get_system_info("linux", "x86_64").unwrap(),
        SystemInfo {
            platform: "linux".to_string(),
            architecture: "x86_64".to_string(),
            memory_available: MemoryUsage {
                total: MEMORY_TOTAL,
                available: MEMORY_AVAILABLE,
                percent_used: MEMORY_PERCENT_USED,
            },
            llm_models: available_models(),
        }
    );
}

#[test]
fn available_models_are_three() {
    let models = available_models();
    assert_eq!(models.len(), 3);
    assert_eq!(models[0], "phi-3.5-mini");
    assert_eq!(models[1], "emotion-analyzer");
    assert_eq!(models[2], "speech-recognition");
}
