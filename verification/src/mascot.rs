//! The tools by which the agent moves the desktop mascot. Each tool only
//! answers in words; the front end acts when it sees the tool being used in
//! the agent's output.

use crate::text::{decimal, decimal_text, join3};
use vstd::prelude::*;
use vstd::string::StringExecFns;

verus! {

/// Asks the mascot to show an emotion.
#[derive(Debug, PartialEq)]
pub struct SetEmotionRequest {
    /// The emotion: neutral, happy, sad, excited, thinking, surprised, love.
    pub emotion: String,
    /// For how many milliseconds; 5000 where none is given.
    pub duration_ms: Option<u32>,
}

/// Asks the mascot to walk to a place on the screen.
#[derive(Debug, PartialEq)]
pub struct MoveToRequest {
    /// `left`, `right`, `center`, or an x coordinate.
    pub target: String,
}

/// Asks for a picture of the screen.
#[derive(Debug, PartialEq)]
pub struct CaptureScreenshotRequest {
    /// What to look for in the picture.
    pub description: Option<String>,
}

/// For how long an emotion is shown where the request does not say.
pub const DEFAULT_DURATION_MS: u32 = 5000;

/// The answer to a request for an emotion.
pub open spec fn emotion_reply(emotion: Seq<char>, duration_ms: Option<u32>) -> Seq<char> {
    let duration = match duration_ms {
        Some(d) => d,
        None => DEFAULT_DURATION_MS,
    };
    "Emotion set to '"@ + emotion + "' for "@ + decimal(duration as nat)
        + "ms. The mascot is now expressing this emotion."@
}

/// The answer to a request to walk.
pub open spec fn move_reply(target: Seq<char>) -> Seq<char> {
    "Moving mascot to: "@ + target + ". The mascot is now walking to this position."@
}

/// The answer to a request for a picture of the screen.
pub open spec fn screenshot_reply(description: Option<Seq<char>>) -> Seq<char> {
    let looking_for = match description {
        Some(d) => d,
        None => "general view"@,
    };
    "Screenshot captured (looking for: "@ + looking_for
        + "). Analyzing the screen contents..."@
}

/// The mascot's tools.
#[derive(Debug, Clone, Copy, PartialEq, Eq)]
pub struct MascotService {}

impl MascotService {
    /// The tools, ready to be called. The service keeps nothing, so there is
    /// one value of it.
    pub fn new() -> (service: MascotService)
        ensures
            service == (MascotService {  }),
    {
        MascotService {  }
    }

    /// Shows an emotion for a while.
    pub fn set_emotion(&self, req: SetEmotionRequest) -> (reply: String)
        ensures
            reply@ == emotion_reply(req.emotion@, req.duration_ms),
    {
        let duration = match req.duration_ms {
            Some(d) => d,
            None => DEFAULT_DURATION_MS,
        };
        let mut reply = "Emotion set to '".to_owned();
        reply.append(req.emotion.as_str());
        reply.append("' for ");
        reply.append(decimal_text(duration as u64).as_str());
        reply.append("ms. The mascot is now expressing this emotion.");
        reply
    }

    /// Walks to a place on the screen.
    pub fn move_to(&self, req: MoveToRequest) -> (reply: String)
        ensures
            reply@ == move_reply(req.target@),
    {
        join3(
            "Moving mascot to: ",
            req.target.as_str(),
            ". The mascot is now walking to this position.",
        )
    }

    /// Takes a picture of the screen.
    pub fn capture_screenshot(&self, req: CaptureScreenshotRequest) -> (reply: String)
        ensures
            reply@ == screenshot_reply(
                match req.description {
                    Some(d) => Some(d@),
                    None => None,
                },
            ),
    {
        match req.description {
            Some(description) => join3(
                "Screenshot captured (looking for: ",
                description.as_str(),
                "). Analyzing the screen contents...",
            ),
            None => join3(
                "Screenshot captured (looking for: ",
                "general view",
                "). Analyzing the screen contents...",
            ),
        }
    }
}

} // verus!
