//! Keyword-based emotion classification.
//!
//! A text is searched for a few trigger words. Joy is looked for first, then
//! sorrow, then anger; a text with none of the words is neutral.

use crate::text::{
    chars_of, contains, contains_chars, lemma_contains_embedded, lemma_contains_transitive,
};
use vstd::prelude::*;
use vstd::string::StringExecFns;

verus! {

/// The confidence reported with every analysis, in hundredths.
pub const CONFIDENCE: u8 = 80;

/// The intensity reported with every analysis, in hundredths.
pub const INTENSITY: u8 = 70;

/// The emotions that a text can be classified as.
#[derive(Debug, Clone, Copy, PartialEq, Eq, Structural)]
pub enum Emotion {
    Happy,
    Sad,
    Angry,
    Neutral,
}

impl Emotion {
    /// The label under which the emotion is reported.
    pub open spec fn label_spec(self) -> Seq<char> {
        match self {
            Emotion::Happy => "happy"@,
            Emotion::Sad => "sad"@,
            Emotion::Angry => "angry"@,
            Emotion::Neutral => "neutral"@,
        }
    }

    /// The label under which the emotion is reported.
    pub fn label(self) -> (s: &'static str)
        ensures
            s@ == self.label_spec(),
    {
        match self {
            Emotion::Happy => "happy",
            Emotion::Sad => "sad",
            Emotion::Angry => "angry",
            Emotion::Neutral => "neutral",
        }
    }
}

/// The four labels differ from one another, so a label names its emotion.
pub proof fn lemma_labels_distinct(a: Emotion, b: Emotion)
    ensures
        a.label_spec() == b.label_spec() <==> a == b,
{
    reveal_strlit("happy");
    reveal_strlit("sad");
    reveal_strlit("angry");
    reveal_strlit("neutral");
    if a != b && a.label_spec() == b.label_spec() {
        assert(a.label_spec().len() == b.label_spec().len());
        assert(a.label_spec()[0] == b.label_spec()[0]);
    }
}

/// The result of an analysis.
#[derive(Debug, PartialEq, Eq)]
pub struct EmotionAnalysis {
    /// The label of the emotion found.
    pub emotion: String,
    /// How sure the analysis is, in hundredths: 0 to 100.
    pub confidence: u8,
    /// How strong the emotion is, in hundredths: 0 to 100.
    pub intensity: u8,
}

/// An [`EmotionAnalysis`] with its label as a sequence of characters.
pub ghost struct EmotionAnalysisView {
    pub emotion: Seq<char>,
    pub confidence: u8,
    pub intensity: u8,
}

impl View for EmotionAnalysis {
    type V = EmotionAnalysisView;

    open spec fn view(&self) -> EmotionAnalysisView {
        EmotionAnalysisView {
            emotion: self.emotion@,
            confidence: self.confidence,
            intensity: self.intensity,
        }
    }
}

impl EmotionAnalysis {
    /// The label is that of an emotion, and both measures lie between zero
    /// and one, that is between 0 and 100 hundredths.
    pub open spec fn wf(&self) -> bool {
        &&& exists|e: Emotion| self.emotion@ == e.label_spec()
        &&& self.confidence <= 100
        &&& self.intensity <= 100
    }
}

/// The text holds a word of joy.
pub open spec fn mentions_joy(text: Seq<char>) -> bool {
    contains(text, "기쁘"@) || contains(text, "좋"@)
}

/// The text holds a word of sorrow.
pub open spec fn mentions_sorrow(text: Seq<char>) -> bool {
    contains(text, "슬프"@) || contains(text, "우울"@)
}

/// The text holds a word of anger.
pub open spec fn mentions_anger(text: Seq<char>) -> bool {
    contains(text, "화나"@) || contains(text, "분노"@)
}

/// The emotion of a text: the first of joy, sorrow and anger that it holds a
/// word of, and neutral if it holds none.
pub open spec fn emotion_of(text: Seq<char>) -> Emotion {
    if mentions_joy(text) {
        Emotion::Happy
    } else if mentions_sorrow(text) {
        Emotion::Sad
    } else if mentions_anger(text) {
        Emotion::Angry
    } else {
        Emotion::Neutral
    }
}

/// The analysis of a text: the label of its emotion, with the two fixed
/// measures.
pub open spec fn analysis_of(text: Seq<char>) -> EmotionAnalysisView {
    EmotionAnalysisView {
        emotion: emotion_of(text).label_spec(),
        confidence: CONFIDENCE,
        intensity: INTENSITY,
    }
}

/// Joy goes before sorrow and sorrow before anger: a text is happy exactly
/// when it holds a word of joy, sad when it holds a word of sorrow and none
/// of joy, angry when it holds a word of anger and none of the other two, and
/// neutral when it holds none at all.
pub proof fn lemma_emotion_by_priority(text: Seq<char>)
    ensures
        emotion_of(text) == Emotion::Happy <==> mentions_joy(text),
        emotion_of(text) == Emotion::Sad <==> !mentions_joy(text) && mentions_sorrow(text),
        emotion_of(text) == Emotion::Angry <==> !mentions_joy(text) && !mentions_sorrow(text)
            && mentions_anger(text),
        emotion_of(text) == Emotion::Neutral <==> !mentions_joy(text) && !mentions_sorrow(text)
            && !mentions_anger(text),
{
}

/// The same order, read off the reported label.
pub proof fn lemma_label_by_priority(text: Seq<char>)
    ensures
        analysis_of(text).emotion == "happy"@ <==> mentions_joy(text),
        analysis_of(text).emotion == "sad"@ <==> !mentions_joy(text) && mentions_sorrow(text),
        analysis_of(text).emotion == "angry"@ <==> !mentions_joy(text) && !mentions_sorrow(text)
            && mentions_anger(text),
        analysis_of(text).emotion == "neutral"@ <==> !mentions_joy(text) && !mentions_sorrow(text)
            && !mentions_anger(text),
{
    let e = emotion_of(text);
    lemma_labels_distinct(e, Emotion::Happy);
    lemma_labels_distinct(e, Emotion::Sad);
    lemma_labels_distinct(e, Emotion::Angry);
    lemma_labels_distinct(e, Emotion::Neutral);
}

/// A word of joy decides: whatever stands before and after a text that holds
/// one, the whole is happy.
pub proof fn lemma_joy_decides(before: Seq<char>, text: Seq<char>, after: Seq<char>)
    requires
        mentions_joy(text),
    ensures
        emotion_of(before + text + after) == Emotion::Happy,
{
    let whole = before + text + after;
    lemma_contains_embedded(before, text, after);
    if contains(text, "기쁘"@) {
        lemma_contains_transitive(whole, text, "기쁘"@);
    } else {
        lemma_contains_transitive(whole, text, "좋"@);
    }
}

/// The two measures do not depend on the text.
pub proof fn lemma_measures_fixed(text: Seq<char>)
    ensures
        analysis_of(text).confidence == 80,
        analysis_of(text).intensity == 70,
{
}

/// Whether `text` holds one of the two words.
fn holds_either(text: &Vec<char>, first: &str, second: &str) -> (found: bool)
    ensures
        found == (contains(text@, first@) || contains(text@, second@)),
{
    contains_chars(text, &chars_of(first)) || contains_chars(text, &chars_of(second))
}

/// Classifies `text` by the trigger words that it holds.
pub fn classify(text: &str) -> (e: Emotion)
    ensures
        e == emotion_of(text@),
{
    let t = chars_of(text);
    if holds_either(&t, "기쁘", "좋") {
        Emotion::Happy
    } else if holds_either(&t, "슬프", "우울") {
        Emotion::Sad
    } else if holds_either(&t, "화나", "분노") {
        Emotion::Angry
    } else {
        Emotion::Neutral
    }
}

/// Analyses `text`: its emotion by the trigger words, with the fixed
/// confidence and intensity. Never fails.
pub fn analyze_emotion(text: String) -> (r: Result<EmotionAnalysis, String>)
    ensures
        r is Ok,
        r->Ok_0@ == analysis_of(text@),
        r->Ok_0.wf(),
        r->Ok_0.emotion@ == "happy"@ <==> mentions_joy(text@),
        r->Ok_0.emotion@ == "sad"@ <==> !mentions_joy(text@) && mentions_sorrow(text@),
        r->Ok_0.emotion@ == "angry"@ <==> !mentions_joy(text@) && !mentions_sorrow(text@)
            && mentions_anger(text@),
        r->Ok_0.emotion@ == "neutral"@ <==> !mentions_joy(text@) && !mentions_sorrow(text@)
            && !mentions_anger(text@),
        r->Ok_0.confidence == 80,
        r->Ok_0.intensity == 70,
{
    let emotion = classify(text.as_str());
    proof {
        lemma_label_by_priority(text@);
    }
    Ok(
        EmotionAnalysis {
            emotion: String::from_str(emotion.label()),
            confidence: CONFIDENCE,
            intensity: INTENSITY,
        },
    )
}

} // verus!
