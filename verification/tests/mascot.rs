use agent_driver::mascot::{
    CaptureScreenshotRequest, MascotService, MoveToRequest, SetEmotionRequest,
    DEFAULT_DURATION_MS,
};

#[test]
fn set_emotion_replies() {
    let service = MascotService::new();
    assert_eq!(DEFAULT_DURATION_MS, 5000);
    assert_eq!(
        service.set_emotion(SetEmotionRequest { emotion: "happy".to_string(), duration_ms: None }),
        "Emotion set to 'happy' for 5000ms. The mascot is now expressing this emotion."
    );
    assert_eq!(
        service
            .set_emotion(SetEmotionRequest { emotion: "sad".to_string(), duration_ms: Some(250) }),
        "Emotion set to 'sad' for 250ms. The mascot is now expressing this emotion."
    );
    assert_eq!(
        service.set_emotion(SetEmotionRequest { emotion: String::new(), duration_ms: Some(0) }),
        "Emotion set to '' for 0ms. The mascot is now expressing this emotion."
    );
    assert_eq!(
        service.set_emotion(SetEmotionRequest {
            emotion: "love".to_string(),
            duration_ms: Some(u32::MAX)
        }),
        "Emotion set to 'love' for 4294967295ms. The mascot is now expressing this emotion."
    );
}

#[test]
fn move_to_replies() {
    let service = MascotService::new();
    assert_eq!(
        service.move_to(MoveToRequest { target: "left".to_string() }),
        "Moving mascot to: left. The mascot is now walking to this position."
    );
    assert_eq!(
        service.move_to(MoveToRequest { target: "640".to_string() }),
        "Moving mascot to: 640. The mascot is now walking to this position."
    );
}

#[test]
fn capture_screenshot_replies() {
    let service = MascotService::new();
    assert_eq!(
        service.capture_screenshot(CaptureScreenshotRequest { description: None }),
        "Screenshot captured (looking for: general view). Analyzing the screen contents..."
    );
    assert_eq!(
        service.capture_screenshot(CaptureScreenshotRequest {
            description: Some("the error dialog".to_string())
        }),
        "Screenshot captured (looking for: the error dialog). Analyzing the screen contents..."
    );
}
