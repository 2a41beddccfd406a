//! Plain data shared by the detection and redaction stages.

use vstd::prelude::*;

verus! {

/// Categories of sensitive data the detector can report.
#[derive(Debug, Clone, Copy, PartialEq, Eq, Structural)]
pub enum SensitiveDataType {
    Email,
    CreditCard,
    SocialSecurityNumber,
    PhoneNumber,
    ApiKey,
    Password,
    IpAddress,
    Url,
    BankAccount,
}

/// Width and height of a display or of a presentation surface, in pixels.
#[derive(Debug, Clone, Copy, PartialEq, Eq, Structural)]
pub struct DisplayResolution {
    pub width: u32,
    pub height: u32,
}

/// Resolution assumed for a frame when the display cannot be queried.
pub const FALLBACK_FRAME_WIDTH: u32 = 1920;

pub const FALLBACK_FRAME_HEIGHT: u32 = 1080;

/// Resolution assumed for the window when the display cannot be queried.
pub const FALLBACK_WINDOW_WIDTH: u32 = 1280;

pub const FALLBACK_WINDOW_HEIGHT: u32 = 720;

impl DisplayResolution {
    /// The resolution a display query produced, or `fallback` when the query failed.
    pub fn or_fallback(query: Option<DisplayResolution>, fallback: DisplayResolution) -> (r:
        DisplayResolution)
        ensures
            r == (match query {
                Some(found) => found,
                None => fallback,
            }),
    {
        match query {
            Some(found) => found,
            None => fallback,
        }
    }
}

/// One detected piece of sensitive data and the frame region it occupies.
#[derive(Debug, Clone)]
pub struct SensitiveMatch {
    pub data_type: SensitiveDataType,
    /// The matched text, kept for diagnostics only.
    pub text: String,
    /// Confidence in hundredths, from 0 (none) to 100 (certain).
    pub confidence_percent: u8,
    pub x: u32,
    pub y: u32,
    pub width: u32,
    pub height: u32,
}

/// A match as contracts see it: the matched text as a character sequence.
pub struct MatchView {
    pub data_type: SensitiveDataType,
    pub text: Seq<char>,
    pub confidence_percent: u8,
    pub x: u32,
    pub y: u32,
    pub width: u32,
    pub height: u32,
}

impl MatchView {
    /// Whether the confidence is a proportion: at most 100 hundredths.
    pub open spec fn well_formed(self) -> bool {
        self.confidence_percent <= 100
    }
}

impl View for SensitiveMatch {
    type V = MatchView;

    open spec fn view(&self) -> MatchView {
        MatchView {
            data_type: self.data_type,
            text: self.text@,
            confidence_percent: self.confidence_percent,
            x: self.x,
            y: self.y,
            width: self.width,
            height: self.height,
        }
    }
}

/// The views of a sequence of matches, in the same order.
pub open spec fn matches_view(matches: Seq<SensitiveMatch>) -> Seq<MatchView> {
    Seq::new(matches.len(), |i: int| matches[i]@)
}

} // verus!
