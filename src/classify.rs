//! From the provider's answer to a threat level and a report.
use vstd::prelude::*;
use vstd::string::*;
use crate::json::{first_choice_text_of, json_string, json_string_of, read_first_choice_text};

verus! {

/// The threat level of a completion text: an exact, case-sensitive match of
/// the whole text against three keywords; any other text counts as low.
pub open spec fn level_of_text(text: Seq<char>) -> u8 {
    if text == "Low"@ {
        1
    } else if text == "Medium"@ {
        3
    } else if text == "High"@ {
        5
    } else {
        1
    }
}

/// The threat level given what stands at the completion's text path: a
/// missing text counts as `"Low"`, and so does one that is not a string.
pub open spec fn level_of_choice(choice: Option<Option<Seq<char>>>) -> u8 {
    match choice {
        Some(Some(t)) => level_of_text(t),
        _ => level_of_text("Low"@),
    }
}

/// The report given what stands at the completion's text path.
pub open spec fn report_of_choice(choice: Option<Option<Seq<char>>>) -> Seq<char> {
    match choice {
        None => "Low"@,
        Some(None) => "No report available"@,
        Some(Some(t)) => t,
    }
}

/// The result handed back for one classified message.
pub struct AnalysisResponse {
    pub threat_level: u8,
    pub analysis_report: String,
}

/// Maps a completion text to its threat level: `"Low"` to 1, `"Medium"` to 3,
/// `"High"` to 5, and anything else to 1.
pub fn threat_level_of(text: &str) -> (r: u8)
    ensures
        r == level_of_text(text@),
{
    let t = text.to_owned();
    if t == "Low".to_owned() {
        1
    } else if t == "Medium".to_owned() {
        3
    } else if t == "High".to_owned() {
        5
    } else {
        1
    }
}

/// The character of a decimal digit.
pub open spec fn digit_char(d: nat) -> char {
    ((d + 48) as u8) as char
}

/// The decimal notation of a natural number, without leading zeros.
pub open spec fn decimal_of(n: nat) -> Seq<char>
    decreases n,
{
    if n < 10 {
        seq![digit_char(n)]
    } else {
        decimal_of(n / 10).push(digit_char(n % 10))
    }
}

/// The JSON object that stands for an analysis: its threat level, then its
/// report.
pub open spec fn analysis_json(threat_level: u8, report: Seq<char>) -> Seq<char> {
    "{\"threat_level\":"@ + decimal_of(threat_level as nat) + ",\"analysis_report\":"@
        + json_string_of(report) + "}"@
}

/// Builds the analysis for what stands at the completion's text path: a
/// missing text reads as `"Low"`, one that is not a string gives the level of
/// `"Low"` and the report `"No report available"`.
pub fn interpret_completion(choice: Option<Option<String>>) -> (r: AnalysisResponse)
    ensures
        r.threat_level == level_of_choice(choice_view(choice)),
        r.analysis_report@ == report_of_choice(choice_view(choice)),
{
    match choice {
        None => AnalysisResponse {
            threat_level: threat_level_of("Low"),
            analysis_report: "Low".to_owned(),
        },
        Some(None) => AnalysisResponse {
            threat_level: threat_level_of("Low"),
            analysis_report: "No report available".to_owned(),
        },
        Some(Some(text)) => {
            let level = threat_level_of(text.as_str());
            AnalysisResponse { threat_level: level, analysis_report: text }
        },
    }
}

/// The view of a completion text path read out of a document.
pub open spec fn choice_view(choice: Option<Option<String>>) -> Option<Option<Seq<char>>> {
    match choice {
        None => None,
        Some(None) => Some(None),
        Some(Some(t)) => Some(Some(t@)),
    }
}

/// Interprets the body of the provider's answer: the text of its first
/// completion choice, read as `interpret_completion` says. A body that is no
/// JSON document reads as one with no choices.
pub fn interpret_provider_body(body: &[u8]) -> (r: AnalysisResponse)
    ensures
        r.threat_level == level_of_choice(first_choice_text_of(body@)),
        r.analysis_report@ == report_of_choice(first_choice_text_of(body@)),
{
    let choice = read_first_choice_text(body);
    proof {
        assert(choice_view(choice) == first_choice_text_of(body@));
    }
    interpret_completion(choice)
}

/// The literal of one decimal digit.
fn digit_str(d: u8) -> (r: &'static str)
    requires
        d < 10,
    ensures
        r@ == seq![digit_char(d as nat)],
{
    proof {
        reveal_strlit("0");
        reveal_strlit("1");
        reveal_strlit("2");
        reveal_strlit("3");
        reveal_strlit("4");
        reveal_strlit("5");
        reveal_strlit("6");
        reveal_strlit("7");
        reveal_strlit("8");
        reveal_strlit("9");
    }
    let r = if d == 0 {
        "0"
    } else if d == 1 {
        "1"
    } else if d == 2 {
        "2"
    } else if d == 3 {
        "3"
    } else if d == 4 {
        "4"
    } else if d == 5 {
        "5"
    } else if d == 6 {
        "6"
    } else if d == 7 {
        "7"
    } else if d == 8 {
        "8"
    } else {
        "9"
    };
    assert(r@ =~= seq![digit_char(d as nat)]);
    r
}

/// Writes a byte in decimal.
pub fn decimal_string(n: u8) -> (r: String)
    ensures
        r@ == decimal_of(n as nat),
{
    let mut out = String::new();
    if n >= 100 {
        out.append(digit_str(n / 100));
    }
    if n >= 10 {
        out.append(digit_str((n / 10) % 10));
    }
    out.append(digit_str(n % 10));
    proof {
        let m = n as nat;
        if m >= 100 {
            assert(decimal_of(m / 100) == seq![digit_char(m / 100)]);
            assert(decimal_of(m / 10) == decimal_of(m / 100).push(digit_char((m / 10) % 10)));
        } else if m >= 10 {
            assert(decimal_of(m / 10) == seq![digit_char(m / 10)]);
        }
        assert(out@ =~= decimal_of(m));
    }
    out
}

impl AnalysisResponse {
    /// The JSON text of this analysis: `threat_level`, then `analysis_report`.
    pub fn to_json(&self) -> (r: String)
        ensures
            r@ == analysis_json(self.threat_level, self.analysis_report@),
    {
        let mut out = "{\"threat_level\":".to_owned();
        let level = decimal_string(self.threat_level);
        out.append(level.as_str());
        out.append(",\"analysis_report\":");
        let report = json_string(self.analysis_report.as_str());
        out.append(report.as_str());
        out.append("}");
        out
    }
}

/// A completion text that is exactly `"Low"`, `"Medium"` or `"High"` gives
/// the level 1, 3 or 5; any other text gives 1.
pub proof fn lemma_keyword_levels(text: Seq<char>)
    ensures
        text == "Low"@ ==> level_of_text(text) == 1,
        text == "Medium"@ ==> level_of_text(text) == 3,
        text == "High"@ ==> level_of_text(text) == 5,
        text != "Low"@ && text != "Medium"@ && text != "High"@ ==> level_of_text(text) == 1,
{
    reveal_strlit("Low");
    reveal_strlit("Medium");
    reveal_strlit("High");
    assert("Low"@ != "Medium"@) by {
        assert("Low"@.len() != "Medium"@.len());
    }
    assert("Low"@ != "High"@) by {
        assert("Low"@[0] != "High"@[0]);
    }
    assert("Medium"@ != "High"@) by {
        assert("Medium"@.len() != "High"@.len());
    }
}

/// A provider answer without a completion text at `choices[0].text` reads as
/// the level 1 and the report `"Low"`.
pub proof fn lemma_missing_completion_reads_low(body: Seq<u8>)
    requires
        first_choice_text_of(body) is None,
    ensures
        level_of_choice(first_choice_text_of(body)) == 1,
        report_of_choice(first_choice_text_of(body)) == "Low"@,
{
}

} // verus!
