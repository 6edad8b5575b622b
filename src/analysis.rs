use vstd::prelude::*;

verus! {

/// Confidences are fixed-point numbers in millionths: `CONFIDENCE_SCALE`
/// stands for 1.0.
pub const CONFIDENCE_SCALE: u32 = 1_000_000;

/// The perception worker's reading of one captured image.
pub struct AnalysisResult {
    pub screen_text: String,
    pub transcript: String,
    pub ocr_confidence: u32,
    pub asr_confidence: u32,
}

/// Why an analysis round trip produced no result.
#[derive(Clone, Copy, PartialEq, Eq, Structural, Debug)]
pub enum AnalysisError {
    /// The request could not be sent or the response not received.
    Transport,
    /// The worker answered with a status outside the success range.
    Status(u16),
    /// The response body is not a readable JSON document.
    Body,
}

/// A confidence brought into `[0, CONFIDENCE_SCALE]`.
pub open spec fn clamped(raw: u64) -> u32 {
    if raw > CONFIDENCE_SCALE as u64 {
        CONFIDENCE_SCALE
    } else {
        raw as u32
    }
}

/// Brings a confidence reading into `[0, CONFIDENCE_SCALE]`.
pub fn clamp_confidence(raw: u64) -> (r: u32)
    ensures
        r == clamped(raw),
        r <= CONFIDENCE_SCALE,
{
    if raw > CONFIDENCE_SCALE as u64 {
        CONFIDENCE_SCALE
    } else {
        raw as u32
    }
}

/// A status in the success range 200..=299.
pub open spec fn is_success(status: u16) -> bool {
    200 <= status && status <= 299
}

/// Accepts a response status from the worker, or says why it is refused.
pub fn check_status(status: u16) -> (r: Result<(), AnalysisError>)
    ensures
        r is Ok <==> is_success(status),
        !is_success(status) ==> r == Err::<(), AnalysisError>(AnalysisError::Status(status)),
{
    if 200 <= status && status <= 299 {
        Ok(())
    } else {
        Err(AnalysisError::Status(status))
    }
}

/// The text of an optional field, empty where the field is absent.
pub open spec fn text_or_empty(field: Option<String>) -> Seq<char> {
    match field {
        Some(s) => s@,
        None => Seq::empty(),
    }
}

/// Builds the analysis result from the optional fields of the worker's
/// answer: an absent text is empty, an absent confidence is zero, and a
/// confidence reading above 1.0 counts as 1.0. The answer carries no
/// speech confidence, which is zero.
pub fn analysis_from_fields(
    screen_text: Option<String>,
    transcript: Option<String>,
    ocr_confidence: Option<u64>,
) -> (r: AnalysisResult)
    ensures
        r.screen_text@ == text_or_empty(screen_text),
        r.transcript@ == text_or_empty(transcript),
        r.ocr_confidence == match ocr_confidence {
            Some(c) => clamped(c),
            None => 0u32,
        },
        r.ocr_confidence <= CONFIDENCE_SCALE,
        r.asr_confidence == 0,
{
    let screen_text = match screen_text {
        Some(s) => s,
        None => String::new(),
    };
    let transcript = match transcript {
        Some(s) => s,
        None => String::new(),
    };
    let ocr_confidence = match ocr_confidence {
        Some(c) => clamp_confidence(c),
        None => 0,
    };
    AnalysisResult { screen_text, transcript, ocr_confidence, asr_confidence: 0 }
}

} // verus!
