//! The pattern catalog and the detection engine that applies it to a transcript.

use vstd::prelude::*;
use crate::duty_cycle::{DutyCycle, DETECTION_INTERVAL};
use crate::luminance::{grayscale_of, luminance_fits, rgba_to_grayscale};
use crate::matcher::{find_all, found_in_order, regex_find_all, texts_view};
use crate::types::{matches_view, MatchView, SensitiveDataType, SensitiveMatch};

verus! {

/// Confidence given to every match, in hundredths.
pub const MATCH_CONFIDENCE_PERCENT: u8 = 80;

pub const EMAIL_PATTERN: &'static str = r"\b[A-Za-z0-9._%+-]+@[A-Za-z0-9.-]+\.[A-Z|a-z]{2,}\b";

pub const CREDIT_CARD_PATTERN: &'static str = r"\b(?:\d{4}[-\s]?){3}\d{1,7}\b";

pub const SOCIAL_SECURITY_NUMBER_PATTERN: &'static str = r"\b\d{3}-\d{2}-\d{4}\b";

pub const PHONE_NUMBER_PATTERN: &'static str =
    r"\b(?:\+?1[-.\s]?)?(?:\(?[0-9]{3}\)?[-.\s]?[0-9]{3}[-.\s]?[0-9]{4})\b";

/// The key body may hold underscores, as in keys of the form `sk_test_...`.
pub const API_KEY_PATTERN: &'static str = r"\b(?:sk_|pk_|api_|key_|token_)[A-Za-z0-9_]{20,}\b";

pub const IP_ADDRESS_PATTERN: &'static str =
    r"\b(?:(?:25[0-5]|2[0-4][0-9]|[01]?[0-9][0-9]?)\.){3}(?:25[0-5]|2[0-4][0-9]|[01]?[0-9][0-9]?)\b";

pub const URL_PATTERN: &'static str = r"\b(?:https?|ftp|ssh)://[^\s]+\b";

pub const BANK_ACCOUNT_PATTERN: &'static str = r"\b\d{8,17}\b";

/// One catalog entry: a category and the expression that recognises it.
pub struct Pattern {
    pub data_type: SensitiveDataType,
    pub expression: &'static str,
}

/// A catalog entry as contracts see it.
pub struct PatternView {
    pub data_type: SensitiveDataType,
    pub expression: Seq<char>,
}

impl View for Pattern {
    type V = PatternView;

    open spec fn view(&self) -> PatternView {
        PatternView { data_type: self.data_type, expression: self.expression@ }
    }
}

/// The views of a sequence of catalog entries, in the same order.
pub open spec fn patterns_view(patterns: Seq<Pattern>) -> Seq<PatternView> {
    Seq::new(patterns.len(), |i: int| patterns[i]@)
}

/// The built-in catalog, in priority order. `Password` has no lexical shape
/// and therefore no entry.
pub open spec fn default_catalog() -> Seq<PatternView> {
    seq![
        PatternView { data_type: SensitiveDataType::Email, expression: EMAIL_PATTERN@ },
        PatternView { data_type: SensitiveDataType::CreditCard, expression: CREDIT_CARD_PATTERN@ },
        PatternView {
            data_type: SensitiveDataType::SocialSecurityNumber,
            expression: SOCIAL_SECURITY_NUMBER_PATTERN@,
        },
        PatternView { data_type: SensitiveDataType::PhoneNumber, expression: PHONE_NUMBER_PATTERN@ },
        PatternView { data_type: SensitiveDataType::ApiKey, expression: API_KEY_PATTERN@ },
        PatternView { data_type: SensitiveDataType::IpAddress, expression: IP_ADDRESS_PATTERN@ },
        PatternView { data_type: SensitiveDataType::Url, expression: URL_PATTERN@ },
        PatternView { data_type: SensitiveDataType::BankAccount, expression: BANK_ACCOUNT_PATTERN@ },
    ]
}

/// The match reported for one matched text: fixed confidence, no geometry.
pub open spec fn reported_match(data_type: SensitiveDataType, text: Seq<char>) -> MatchView {
    MatchView {
        data_type,
        text,
        confidence_percent: MATCH_CONFIDENCE_PERCENT,
        x: 0,
        y: 0,
        width: 0,
        height: 0,
    }
}

/// The matches reported for the texts one expression matched, in order.
pub open spec fn matches_of(data_type: SensitiveDataType, texts: Seq<Seq<char>>) -> Seq<MatchView> {
    Seq::new(texts.len(), |i: int| reported_match(data_type, texts[i]))
}

/// What one catalog entry contributes on `text`: nothing when the engine
/// rejects its expression, otherwise one match per matched text.
pub open spec fn pattern_matches(pattern: PatternView, text: Seq<char>) -> Seq<MatchView> {
    match regex_find_all(pattern.expression, text) {
        Some(texts) => matches_of(pattern.data_type, texts),
        None => Seq::empty(),
    }
}

/// What the catalog reports on `text`: the contributions of its entries,
/// concatenated in catalog order, with nothing suppressed across entries.
pub open spec fn detect_spec(patterns: Seq<PatternView>, text: Seq<char>) -> Seq<MatchView>
    decreases patterns.len(),
{
    if patterns.len() == 0 {
        Seq::empty()
    } else {
        detect_spec(patterns.drop_last(), text) + pattern_matches(patterns.last(), text)
    }
}

/// Builds the built-in catalog.
pub fn build_patterns() -> (patterns: Vec<Pattern>)
    ensures
        patterns_view(patterns@) == default_catalog(),
{
    let mut patterns: Vec<Pattern> = Vec::new();
    patterns.push(Pattern { data_type: SensitiveDataType::Email, expression: EMAIL_PATTERN });
    patterns.push(
        Pattern { data_type: SensitiveDataType::CreditCard, expression: CREDIT_CARD_PATTERN },
    );
    patterns.push(
        Pattern {
            data_type: SensitiveDataType::SocialSecurityNumber,
            expression: SOCIAL_SECURITY_NUMBER_PATTERN,
        },
    );
    patterns.push(
        Pattern { data_type: SensitiveDataType::PhoneNumber, expression: PHONE_NUMBER_PATTERN },
    );
    patterns.push(Pattern { data_type: SensitiveDataType::ApiKey, expression: API_KEY_PATTERN });
    patterns.push(
        Pattern { data_type: SensitiveDataType::IpAddress, expression: IP_ADDRESS_PATTERN },
    );
    patterns.push(Pattern { data_type: SensitiveDataType::Url, expression: URL_PATTERN });
    patterns.push(
        Pattern { data_type: SensitiveDataType::BankAccount, expression: BANK_ACCOUNT_PATTERN },
    );
    assert(patterns_view(patterns@) =~= default_catalog());
    patterns
}

/// Appends to `out` one match of category `data_type` for each of `texts`.
pub fn append_matches(out: &mut Vec<SensitiveMatch>, data_type: SensitiveDataType, texts: &Vec<String>)
    ensures
        matches_view(final(out)@) == matches_view(old(out)@) + matches_of(
            data_type,
            texts_view(texts@),
        ),
{
    let mut i: usize = 0;
    while i < texts.len()
        invariant
            i <= texts.len(),
            matches_view(out@) == matches_view(old(out)@) + matches_of(
                data_type,
                texts_view(texts@).take(i as int),
            ),
        decreases texts.len() - i,
    {
        let ghost before = out@;
        out.push(
            SensitiveMatch {
                data_type,
                text: texts[i].clone(),
                confidence_percent: MATCH_CONFIDENCE_PERCENT,
                x: 0,
                y: 0,
                width: 0,
                height: 0,
            },
        );
        assert(matches_view(out@) =~= matches_view(before).push(
            reported_match(data_type, texts[i as int]@),
        ));
        assert(matches_of(data_type, texts_view(texts@).take(i + 1)) =~= matches_of(
            data_type,
            texts_view(texts@).take(i as int),
        ).push(reported_match(data_type, texts[i as int]@)));
        i += 1;
    }
    assert(texts_view(texts@).take(i as int) =~= texts_view(texts@));
}

/// Whether the matches of each entry of `patterns` lie in `text` from left
/// to right without overlapping one another.
pub open spec fn each_found_in_order(patterns: Seq<PatternView>, text: Seq<char>) -> bool {
    forall|k: int|
        0 <= k < patterns.len() ==> found_in_order((#[trigger] patterns[k]).expression, text)
}

/// Applies every entry of `patterns` to `text`, in order. Matches of one
/// entry do not overlap; matches of different entries may.
pub fn detect(patterns: &Vec<Pattern>, text: &str) -> (matches: Vec<SensitiveMatch>)
    ensures
        matches_view(matches@) == detect_spec(patterns_view(patterns@), text@),
        each_found_in_order(patterns_view(patterns@), text@),
{
    let mut matches: Vec<SensitiveMatch> = Vec::new();
    let mut k: usize = 0;
    assert(patterns_view(patterns@).take(0) =~= Seq::empty());
    while k < patterns.len()
        invariant
            k <= patterns.len(),
            matches_view(matches@) == detect_spec(patterns_view(patterns@).take(k as int), text@),
            each_found_in_order(patterns_view(patterns@).take(k as int), text@),
        decreases patterns.len() - k,
    {
        let ghost prefix = patterns_view(patterns@).take(k as int);
        let ghost next = patterns_view(patterns@).take(k + 1);
        assert(next.drop_last() =~= prefix);
        assert(next.last() == patterns[k as int]@);
        match find_all(patterns[k].expression, text) {
            Some(texts) => {
                append_matches(&mut matches, patterns[k].data_type, &texts);
            },
            None => {
                assert(matches_view(matches@) + Seq::<MatchView>::empty() =~= matches_view(
                    matches@,
                ));
            },
        }
        assert(each_found_in_order(next, text@)) by {
            assert forall|j: int| 0 <= j < next.len() implies found_in_order(
                (#[trigger] next[j]).expression,
                text@,
            ) by {
                if j < k {
                    assert(next[j] == prefix[j]);
                }
            }
        }
        k += 1;
    }
    assert(patterns_view(patterns@).take(k as int) =~= patterns_view(patterns@));
    matches
}

/// Every reported match is well formed: it has the fixed confidence, which
/// is a proportion, and an empty region at the origin.
pub proof fn lemma_detected_matches_are_plain(patterns: Seq<PatternView>, text: Seq<char>, i: int)
    requires
        0 <= i < detect_spec(patterns, text).len(),
    ensures
        detect_spec(patterns, text)[i].confidence_percent == MATCH_CONFIDENCE_PERCENT,
        detect_spec(patterns, text)[i].well_formed(),
        detect_spec(patterns, text)[i].x == 0,
        detect_spec(patterns, text)[i].y == 0,
        detect_spec(patterns, text)[i].width == 0,
        detect_spec(patterns, text)[i].height == 0,
    decreases patterns.len(),
{
    let earlier = detect_spec(patterns.drop_last(), text);
    if i < earlier.len() {
        lemma_detected_matches_are_plain(patterns.drop_last(), text, i);
    }
}

/// What a detection run reports: nothing without a transcript, otherwise what
/// the catalog reports on it.
pub open spec fn detection_result(patterns: Seq<PatternView>, transcript: Option<Seq<char>>) -> Seq<
    MatchView,
> {
    match transcript {
        Some(text) => detect_spec(patterns, text),
        None => Seq::empty(),
    }
}

/// The luminance buffer handed to text extraction on a tick: that of the
/// frame when detection is due and the buffer holds a whole `width` by
/// `height` image, otherwise none.
pub open spec fn extraction_request(
    due: bool,
    rgba: Seq<u8>,
    width: u32,
    height: u32,
) -> Option<Seq<u8>> {
    if due && width * height <= grayscale_of(rgba).len() {
        Some(grayscale_of(rgba))
    } else {
        None
    }
}

/// The character sequence of a transcript, if there is one.
pub open spec fn transcript_view(transcript: Option<&str>) -> Option<Seq<char>> {
    match transcript {
        Some(text) => Some(text@),
        None => None,
    }
}

/// The bytes of a buffer, if there is one.
pub open spec fn buffer_view(buffer: Option<Vec<u8>>) -> Option<Seq<u8>> {
    match buffer {
        Some(bytes) => Some(bytes@),
        None => None,
    }
}

/// Sensitive-data detection: the pattern catalog and the duty cycle that
/// limits how often a frame is handed to text extraction.
pub struct SensitiveDataDetector {
    patterns: Vec<Pattern>,
    duty: DutyCycle,
}

impl SensitiveDataDetector {
    /// The catalog this detector applies.
    pub closed spec fn catalog(self) -> Seq<PatternView> {
        patterns_view(self.patterns@)
    }

    /// How many frames this detector has been shown.
    pub closed spec fn frame_count(self) -> nat {
        self.duty.ticks()
    }

    /// The number of frames between two detection runs.
    pub closed spec fn interval(self) -> nat {
        self.duty.period()
    }

    /// A detector with the built-in catalog and the standard interval, or the
    /// error with which the text-extraction engine failed to start.
    pub fn new(engine: Result<(), String>) -> (made: Result<SensitiveDataDetector, String>)
        ensures
            match engine {
                Ok(_) => made matches Ok(detector) && detector.catalog() == default_catalog()
                    && detector.frame_count() == 0 && detector.interval() == DETECTION_INTERVAL,
                Err(reason) => made == Err::<SensitiveDataDetector, String>(reason),
            },
    {
        match engine {
            Ok(_) => Ok(
                SensitiveDataDetector { patterns: build_patterns(), duty: DutyCycle::standard() },
            ),
            Err(reason) => Err(reason),
        }
    }

    /// This detector with another interval and its frame count back at zero;
    /// `None` when `interval` is zero.
    pub fn with_interval(self, interval: u32) -> (made: Option<SensitiveDataDetector>)
        ensures
            made is Some <==> interval > 0,
            made matches Some(detector) ==> detector.catalog() == self.catalog()
                && detector.frame_count() == 0 && detector.interval() == interval,
    {
        match DutyCycle::new(interval) {
            Some(duty) => Some(SensitiveDataDetector { patterns: self.patterns, duty }),
            None => None,
        }
    }

    /// Counts the frame and, when detection is due on it, converts it to the
    /// luminance buffer that text extraction is to read.
    pub fn begin_detection(&mut self, rgba_buffer: &[u8], width: u32, height: u32) -> (luminance:
        Option<Vec<u8>>)
        ensures
            final(self).frame_count() == old(self).frame_count() + 1,
            final(self).interval() == old(self).interval(),
            final(self).catalog() == old(self).catalog(),
            buffer_view(luminance) == extraction_request(
                final(self).frame_count() % final(self).interval() == 0,
                rgba_buffer@,
                width,
                height,
            ),
    {
        if !self.duty.tick() {
            return None;
        }
        let grayscale = rgba_to_grayscale(rgba_buffer);
        if luminance_fits(width, height, grayscale.len()) {
            Some(grayscale)
        } else {
            None
        }
    }

    /// Reports what the catalog finds in the transcript of a frame, and
    /// nothing when text extraction produced no transcript.
    pub fn detect_sensitive_data(&self, transcript: Option<&str>) -> (matches: Vec<SensitiveMatch>)
        ensures
            matches_view(matches@) == detection_result(self.catalog(), transcript_view(transcript)),
            transcript matches Some(text) ==> each_found_in_order(self.catalog(), text@),
    {
        match transcript {
            Some(text) => detect(&self.patterns, text),
            None => {
                let matches: Vec<SensitiveMatch> = Vec::new();
                assert(matches_view(matches@) =~= Seq::<MatchView>::empty());
                matches
            },
        }
    }
}

} // verus!
