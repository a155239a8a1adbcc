//! Rendering of a METAR observation into spoken-language announcement text.

use vstd::prelude::*;
use vstd::string::StringExecFns;

use crate::abbreviations::{expand_abbreviations, expanded_text, AbbreviationTable};
use crate::numbers::{push_decimal_i32, signed_decimal_rep};
use crate::strutil::push_char;
use crate::{parse_wmo_codes, parsed_wmo_codes, MetarData, TemperatureReading, WmoCode};

verus! {

/// The announcement styles a report can be rendered in.
#[derive(Clone, Copy, Debug, PartialEq, Eq, Structural)]
pub enum AnnouncementFormat {
    /// Direct speech output.
    Speech,
    /// Brief announcement format.
    Brief,
    /// Detailed weather report.
    Detailed,
    /// Aviation radio style.
    Aviation,
}

/// The characters of `s` separated by single spaces, so that an airport
/// identifier is spelled out letter by letter.
pub open spec fn spaced_out(s: Seq<char>) -> Seq<char>
    decreases s.len(),
{
    if s.len() == 0 {
        Seq::empty()
    } else if s.len() == 1 {
        seq![s[0]]
    } else {
        seq![s[0], ' '] + spaced_out(s.drop_first())
    }
}

/// Spell an airport identifier out letter by letter.
pub fn spell_out_icao(icao: &str) -> (r: String)
    ensures
        r@ == spaced_out(icao@),
{
    let mut out = String::new();
    let n = icao.unicode_len();
    let mut i: usize = 0;
    proof {
        assert(icao@.skip(0) =~= icao@);
        assert(Seq::<char>::empty() + spaced_out(icao@) =~= spaced_out(icao@));
    }
    while i < n
        invariant
            n == icao@.len(),
            0 <= i <= n,
            spaced_out(icao@) == out@ + spaced_out(icao@.skip(i as int)),
        decreases n - i,
    {
        let ghost pre = out@;
        let c = icao.get_char(i);
        proof {
            assert(icao@.skip(i as int)[0] == icao@[i as int]);
            assert(icao@.skip(i as int).drop_first() =~= icao@.skip(i + 1));
        }
        push_char(&mut out, c);
        if i + 1 < n {
            push_char(&mut out, ' ');
            proof {
                assert(pre + spaced_out(icao@.skip(i as int)) =~= out@ + spaced_out(
                    icao@.skip(i + 1),
                ));
            }
        } else {
            proof {
                assert(icao@.skip(i + 1) =~= Seq::<char>::empty());
                assert(pre + spaced_out(icao@.skip(i as int)) =~= out@ + spaced_out(
                    icao@.skip(i + 1),
                ));
            }
        }
        i = i + 1;
    }
    proof {
        assert(icao@.skip(n as int) =~= Seq::<char>::empty());
        assert(out@ + spaced_out(icao@.skip(n as int)) =~= out@);
    }
    out
}

/// The descriptions of the phenomena joined by "... " pauses.
pub open spec fn joined_descriptions(codes: Seq<WmoCode>) -> Seq<char>
    decreases codes.len(),
{
    if codes.len() == 0 {
        Seq::empty()
    } else if codes.len() == 1 {
        codes[0].description_spec()
    } else {
        codes[0].description_spec() + "... "@ + joined_descriptions(codes.drop_first())
    }
}

/// "Description (CODE)" items joined by "... " pauses.
pub open spec fn joined_code_details(codes: Seq<WmoCode>) -> Seq<char>
    decreases codes.len(),
{
    if codes.len() == 0 {
        Seq::empty()
    } else if codes.len() == 1 {
        codes[0].description_spec() + " ("@ + codes[0].code_spec() + ")"@
    } else {
        codes[0].description_spec() + " ("@ + codes[0].code_spec() + ")"@ + "... "@
            + joined_code_details(codes.drop_first())
    }
}

/// Every description followed by a "... " pause, as the radio style
/// recites conditions.
pub open spec fn recited_descriptions(codes: Seq<WmoCode>) -> Seq<char>
    decreases codes.len(),
{
    if codes.len() == 0 {
        Seq::empty()
    } else {
        codes[0].description_spec() + "... "@ + recited_descriptions(codes.drop_first())
    }
}

/// The station-name section: the expanded name and a pause, when a name
/// is reported.
pub open spec fn name_section(entries: Seq<(String, String)>, name: Option<String>) -> Seq<char> {
    match name {
        Option::Some(nm) => expanded_text(entries, nm@) + "... "@,
        Option::None => Seq::empty(),
    }
}

/// The conditions section of the speech and brief styles.
pub open spec fn conditions_section(wx_string: Option<String>) -> Seq<char> {
    match wx_string {
        Option::Some(wx) => {
            let codes = parsed_wmo_codes(wx@);
            if codes.len() > 0 {
                "Current conditions... "@ + joined_descriptions(codes) + "..."@
            } else {
                "Clear conditions..."@
            }
        },
        Option::None => "Clear conditions..."@,
    }
}

/// The speech and brief announcement of an observation.
pub open spec fn speech_announcement(m: MetarData, entries: Seq<(String, String)>) -> Seq<char> {
    "Weather for "@ + spaced_out(m.icao_id@) + "... "@ + name_section(entries, m.name) + (match m.temp {
        Option::Some(t) => "Temperature... "@ + signed_decimal_rep(t.fahrenheit as int)
            + " degrees fahrenheit... "@,
        Option::None => Seq::empty(),
    }) + conditions_section(m.wx_string)
}

/// The weather section of the detailed style.
pub open spec fn detailed_weather_section(wx_string: Option<String>) -> Seq<char> {
    match wx_string {
        Option::Some(wx) => {
            let codes = parsed_wmo_codes(wx@);
            "Weather string... "@ + wx@ + "... "@ + (if codes.len() > 0 {
                "Weather codes found... "@ + joined_code_details(codes) + "..."@
            } else {
                "No weather codes found..."@
            })
        },
        Option::None => "Weather... clear or not reported... No weather codes found..."@,
    }
}

/// The detailed announcement of an observation.
pub open spec fn detailed_announcement(m: MetarData, entries: Seq<(String, String)>) -> Seq<char> {
    "Detailed weather report for "@ + spaced_out(m.icao_id@) + "... "@ + name_section(
        entries,
        m.name,
    ) + "Raw METAR... "@ + m.raw_ob@ + "... "@ + (match m.temp {
        Option::Some(t) => "Temperature... "@ + signed_decimal_rep(t.fahrenheit as int)
            + " degrees fahrenheit... "@ + signed_decimal_rep(t.celsius as int)
            + " degrees celsius... "@,
        Option::None => "Temperature... not available... "@,
    }) + detailed_weather_section(m.wx_string)
}

/// The conditions section of the radio style.
pub open spec fn aviation_conditions_section(wx_string: Option<String>) -> Seq<char> {
    match wx_string {
        Option::Some(wx) => {
            let codes = parsed_wmo_codes(wx@);
            if codes.len() > 0 {
                recited_descriptions(codes)
            } else {
                "Clear... "@
            }
        },
        Option::None => "Clear... "@,
    }
}

/// The aviation-radio announcement of an observation.
pub open spec fn aviation_announcement(m: MetarData) -> Seq<char> {
    spaced_out(m.icao_id@) + " weather... "@ + (match m.temp {
        Option::Some(t) => "Temperature "@ + signed_decimal_rep(t.fahrenheit as int)
            + " degrees... "@,
        Option::None => Seq::empty(),
    }) + aviation_conditions_section(m.wx_string) + "End weather..."@
}

/// The announcement text of an observation in the chosen style.
pub open spec fn announcement_spec(
    m: MetarData,
    format: AnnouncementFormat,
    entries: Seq<(String, String)>,
) -> Seq<char> {
    match format {
        AnnouncementFormat::Speech | AnnouncementFormat::Brief => speech_announcement(m, entries),
        AnnouncementFormat::Detailed => detailed_announcement(m, entries),
        AnnouncementFormat::Aviation => aviation_announcement(m),
    }
}

/// Append the descriptions of `codes` joined by "... " pauses.
fn append_joined_descriptions(out: &mut String, codes: &Vec<WmoCode>)
    ensures
        final(out)@ == old(out)@ + joined_descriptions(codes@),
{
    let n = codes.len();
    let mut k: usize = 0;
    proof {
        assert(codes@.skip(0) =~= codes@);
    }
    while k < n
        invariant
            n == codes@.len(),
            0 <= k <= n,
            old(out)@ + joined_descriptions(codes@) == out@ + joined_descriptions(
                codes@.skip(k as int),
            ),
        decreases n - k,
    {
        let ghost pre = out@;
        proof {
            assert(codes@.skip(k as int)[0] == codes@[k as int]);
            assert(codes@.skip(k as int).drop_first() =~= codes@.skip(k + 1));
        }
        out.append(codes[k].description());
        if k + 1 < n {
            out.append("... ");
            proof {
                assert(pre + joined_descriptions(codes@.skip(k as int)) =~= out@
                    + joined_descriptions(codes@.skip(k + 1)));
            }
        } else {
            proof {
                assert(codes@.skip(k + 1) =~= Seq::<WmoCode>::empty());
                assert(pre + joined_descriptions(codes@.skip(k as int)) =~= out@
                    + joined_descriptions(codes@.skip(k + 1)));
            }
        }
        k = k + 1;
    }
    proof {
        assert(codes@.skip(n as int) =~= Seq::<WmoCode>::empty());
        assert(out@ + joined_descriptions(codes@.skip(n as int)) =~= out@);
    }
}

/// Append "Description (CODE)" for each phenomenon, joined by "... ".
fn append_joined_code_details(out: &mut String, codes: &Vec<WmoCode>)
    ensures
        final(out)@ == old(out)@ + joined_code_details(codes@),
{
    let n = codes.len();
    let mut k: usize = 0;
    proof {
        assert(codes@.skip(0) =~= codes@);
    }
    while k < n
        invariant
            n == codes@.len(),
            0 <= k <= n,
            old(out)@ + joined_code_details(codes@) == out@ + joined_code_details(
                codes@.skip(k as int),
            ),
        decreases n - k,
    {
        let ghost pre = out@;
        proof {
            assert(codes@.skip(k as int)[0] == codes@[k as int]);
            assert(codes@.skip(k as int).drop_first() =~= codes@.skip(k + 1));
        }
        out.append(codes[k].description());
        out.append(" (");
        out.append(codes[k].code());
        out.append(")");
        if k + 1 < n {
            out.append("... ");
            proof {
                assert(pre + joined_code_details(codes@.skip(k as int)) =~= out@
                    + joined_code_details(codes@.skip(k + 1)));
            }
        } else {
            proof {
                assert(codes@.skip(k + 1) =~= Seq::<WmoCode>::empty());
                assert(pre + joined_code_details(codes@.skip(k as int)) =~= out@
                    + joined_code_details(codes@.skip(k + 1)));
            }
        }
        k = k + 1;
    }
    proof {
        assert(codes@.skip(n as int) =~= Seq::<WmoCode>::empty());
        assert(out@ + joined_code_details(codes@.skip(n as int)) =~= out@);
    }
}

/// Append every description followed by a "... " pause.
fn append_recited_descriptions(out: &mut String, codes: &Vec<WmoCode>)
    ensures
        final(out)@ == old(out)@ + recited_descriptions(codes@),
{
    let n = codes.len();
    let mut k: usize = 0;
    proof {
        assert(codes@.skip(0) =~= codes@);
    }
    while k < n
        invariant
            n == codes@.len(),
            0 <= k <= n,
            old(out)@ + recited_descriptions(codes@) == out@ + recited_descriptions(
                codes@.skip(k as int),
            ),
        decreases n - k,
    {
        let ghost pre = out@;
        proof {
            assert(codes@.skip(k as int)[0] == codes@[k as int]);
            assert(codes@.skip(k as int).drop_first() =~= codes@.skip(k + 1));
        }
        out.append(codes[k].description());
        out.append("... ");
        proof {
            assert(pre + recited_descriptions(codes@.skip(k as int)) =~= out@
                + recited_descriptions(codes@.skip(k + 1)));
        }
        k = k + 1;
    }
    proof {
        assert(codes@.skip(n as int) =~= Seq::<WmoCode>::empty());
        assert(out@ + recited_descriptions(codes@.skip(n as int)) =~= out@);
    }
}

/// Append the expanded station name and a pause, when one is reported.
fn append_name_section(out: &mut String, name: &Option<String>, abbreviations: &AbbreviationTable)
    ensures
        final(out)@ == old(out)@ + name_section(abbreviations.entries@, *name),
{
    match name {
        Some(nm) => {
            let expanded = expand_abbreviations(nm.as_str(), abbreviations);
            out.append(expanded.as_str());
            out.append("... ");
            assert(out@ =~= old(out)@ + name_section(abbreviations.entries@, *name));
        },
        None => {
            assert(out@ =~= old(out)@ + name_section(abbreviations.entries@, *name));
        },
    }
}

/// Render an observation as announcement text in the chosen style,
/// expanding station-name abbreviations through the given table.
#[verifier::rlimit(50)]
pub fn generate_weather_announcement(
    metar: &MetarData,
    format: &AnnouncementFormat,
    abbreviations: &AbbreviationTable,
) -> (r: String)
    ensures
        r@ == announcement_spec(*metar, *format, abbreviations.entries@),
{
    let ghost entries = abbreviations.entries@;
    match format {
        AnnouncementFormat::Speech | AnnouncementFormat::Brief => {
            let mut a = String::from_str("Weather for ");
            let spelled = spell_out_icao(metar.icao_id.as_str());
            a.append(spelled.as_str());
            a.append("... ");
            append_name_section(&mut a, &metar.name, abbreviations);
            match &metar.temp {
                Some(t) => {
                    a.append("Temperature... ");
                    push_decimal_i32(&mut a, t.fahrenheit);
                    a.append(" degrees fahrenheit... ");
                },
                None => {},
            }
            match &metar.wx_string {
                Some(wx) => {
                    let codes = parse_wmo_codes(wx.as_str());
                    if codes.len() > 0 {
                        a.append("Current conditions... ");
                        append_joined_descriptions(&mut a, &codes);
                        a.append("...");
                    } else {
                        a.append("Clear conditions...");
                    }
                },
                None => {
                    a.append("Clear conditions...");
                },
            }
            assert(a@ =~= speech_announcement(*metar, entries));
            a
        },
        AnnouncementFormat::Detailed => {
            let mut a = String::from_str("Detailed weather report for ");
            let spelled = spell_out_icao(metar.icao_id.as_str());
            a.append(spelled.as_str());
            a.append("... ");
            append_name_section(&mut a, &metar.name, abbreviations);
            a.append("Raw METAR... ");
            a.append(metar.raw_ob.as_str());
            a.append("... ");
            match &metar.temp {
                Some(t) => {
                    a.append("Temperature... ");
                    push_decimal_i32(&mut a, t.fahrenheit);
                    a.append(" degrees fahrenheit... ");
                    push_decimal_i32(&mut a, t.celsius);
                    a.append(" degrees celsius... ");
                },
                None => {
                    a.append("Temperature... not available... ");
                },
            }
            match &metar.wx_string {
                Some(wx) => {
                    a.append("Weather string... ");
                    a.append(wx.as_str());
                    a.append("... ");
                    let codes = parse_wmo_codes(wx.as_str());
                    if codes.len() > 0 {
                        a.append("Weather codes found... ");
                        append_joined_code_details(&mut a, &codes);
                        a.append("...");
                    } else {
                        a.append("No weather codes found...");
                    }
                },
                None => {
                    a.append("Weather... clear or not reported... No weather codes found...");
                },
            }
            assert(a@ =~= detailed_announcement(*metar, entries));
            a
        },
        AnnouncementFormat::Aviation => {
            let mut a = spell_out_icao(metar.icao_id.as_str());
            a.append(" weather... ");
            match &metar.temp {
                Some(t) => {
                    a.append("Temperature ");
                    push_decimal_i32(&mut a, t.fahrenheit);
                    a.append(" degrees... ");
                },
                None => {},
            }
            match &metar.wx_string {
                Some(wx) => {
                    let codes = parse_wmo_codes(wx.as_str());
                    if codes.len() > 0 {
                        append_recited_descriptions(&mut a, &codes);
                    } else {
                        a.append("Clear... ");
                    }
                },
                None => {
                    a.append("Clear... ");
                },
            }
            a.append("End weather...");
            assert(a@ =~= aviation_announcement(*metar));
            a
        },
    }
}

} // verus!
