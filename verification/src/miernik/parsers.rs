//! Readers for what the two families of indicators answer.
//!
//! Each reader takes the answer as text and returns a weight reading or a
//! protocol error. The shapes of the answers are regular expressions; what a
//! search with one of them returns is named by
//! [`captures_at`](crate::pattern::captures_at), and everything from the
//! captured groups on is decided here.

use crate::decimal::decimal_of;
use crate::decimal::Decimal;
use crate::decimal::DecimalView;
use crate::miernik::error::MiernikError;
use crate::miernik::error::MiernikErrorView;
use crate::models::weight::WeightReading;
use crate::models::weight::WeightReadingView;
use crate::pattern::captures_at;
use crate::pattern::search;
use crate::pattern::Group;
use crate::pattern::GroupView;
use crate::text::lowercase_of;
use crate::text::spells;
use crate::text::uppercase_of;
use crate::views::join3;
use crate::views::result_view;
use vstd::prelude::*;

verus! {

/// A command code of eight digits, a sign, a number with a decimal point and
/// a unit, nothing between them.
pub const ECHO_PATTERN: &'static str = r"(\d{8})([+-])(\d+\.\d+)(kg|lb)";

/// A colon, then an optional sign, a number, a unit and a status letter.
pub const FLAGGED_PATTERN: &'static str = r":\s*([+-]?)\s*(\d+\.?\d*)\s*(kg|lb|g)\s*([GNTZ])";

/// A decimal number whose sign may stand apart from its digits.
pub const NUMBER_PATTERN: &'static str = r"([+-]?\s*\d+(?:\.\d+)?)";

/// A run of letters or percent signs.
pub const UNIT_PATTERN: &'static str = r"[A-Za-z%]+";

/// The command code that reads the gross weight.
pub const READ_GROSS_CODE: &'static str = "20050026";

/// The command code that reads the net weight.
pub const READ_NET_CODE: &'static str = "20050025";

/// The unit of a reading that names none.
pub const DEFAULT_UNIT: &'static str = "kg";

/// The text of group `i` of a match, where that group exists and took part.
pub open spec fn group_text(groups: Seq<Option<GroupView>>, i: int) -> Option<Seq<char>> {
    if 0 <= i < groups.len() {
        match groups[i] {
            Some(g) => Some(g.text),
            None => None,
        }
    } else {
        None
    }
}

/// The message of the error for an answer without content.
pub open spec fn empty_response() -> Seq<char> {
    "Empty response from device"@
}

/// The message of the error for a match that lacks a group.
pub open spec fn incomplete_match() -> Seq<char> {
    "Incomplete match in device response"@
}

/// The message of the error for a number that cannot be read; it carries the
/// text that was taken for the number.
pub open spec fn parse_failure(text: Seq<char>) -> Seq<char> {
    "Failed to parse weight '"@ + text + "'"@
}

/// The message of the error for an answer of no known shape.
pub open spec fn unexpected_format(response: Seq<char>) -> Seq<char> {
    "Unexpected response format: '"@ + response + "'"@
}

/// The unit of a reading: `text`, or the default unit where `text` is
/// empty. A reading never has an empty unit.
pub open spec fn unit_or_default(text: Seq<char>) -> Seq<char> {
    if text.len() == 0 {
        DEFAULT_UNIT@
    } else {
        text
    }
}

/// The unit of a reading is never empty.
pub proof fn lemma_unit_or_default(text: Seq<char>)
    ensures
        unit_or_default(text).len() > 0,
        DEFAULT_UNIT@.len() > 0,
{
    reveal_strlit("kg");
}

/// The reading that a match of [`ECHO_PATTERN`] stands for: the number goes
/// to the gross weight where the code is [`READ_GROSS_CODE`] and to the net
/// weight otherwise, the other weight is zero, and the reading is stable.
pub open spec fn echo_reading(groups: Seq<Option<GroupView>>, timestamp: i64) -> Result<
    WeightReadingView,
    MiernikErrorView,
> {
    match (
        group_text(groups, 1),
        group_text(groups, 2),
        group_text(groups, 3),
        group_text(groups, 4),
    ) {
        (Some(code), Some(sign), Some(value), Some(unit)) => match decimal_of(sign + value) {
            Some(weight) => Ok(
                if code == READ_GROSS_CODE@ {
                    WeightReadingView::plain(
                        weight,
                        DecimalView::zero(),
                        unit_or_default(lowercase_of(unit)),
                        true,
                        timestamp,
                    )
                } else {
                    WeightReadingView::plain(
                        DecimalView::zero(),
                        weight,
                        unit_or_default(lowercase_of(unit)),
                        true,
                        timestamp,
                    )
                },
            ),
            None => Err(MiernikErrorView::ProtocolError(parse_failure(sign + value))),
        },
        _ => Err(MiernikErrorView::ProtocolError(incomplete_match())),
    }
}

/// Whether a status letter marks a settled reading: gross, net, and the
/// confirmations of zero and tare.
pub open spec fn settled_status(status: Seq<char>) -> bool {
    status == "G"@ || status == "N"@ || status == "Z"@ || status == "T"@
}

/// The reading that a match of [`FLAGGED_PATTERN`] stands for: the number,
/// negative where the sign is a minus, goes to the net weight where the
/// status letter is `N` and to the gross weight otherwise; the other weight
/// is zero.
pub open spec fn flagged_reading(groups: Seq<Option<GroupView>>, timestamp: i64) -> Result<
    WeightReadingView,
    MiernikErrorView,
> {
    match (
        group_text(groups, 1),
        group_text(groups, 2),
        group_text(groups, 3),
        group_text(groups, 4),
    ) {
        (Some(sign), Some(value), Some(unit), Some(letter)) => match decimal_of(value) {
            Some(number) => {
                let weight = if sign == "-"@ {
                    number.negated()
                } else {
                    number
                };
                let status = uppercase_of(letter);
                Ok(
                    if status == "N"@ {
                        WeightReadingView::plain(
                            DecimalView::zero(),
                            weight,
                            unit_or_default(lowercase_of(unit)),
                            settled_status(status),
                            timestamp,
                        )
                    } else {
                        WeightReadingView::plain(
                            weight,
                            DecimalView::zero(),
                            unit_or_default(lowercase_of(unit)),
                            settled_status(status),
                            timestamp,
                        )
                    },
                )
            },
            None => Err(MiernikErrorView::ProtocolError(parse_failure(value))),
        },
        _ => Err(MiernikErrorView::ProtocolError(incomplete_match())),
    }
}

/// The text of group `i`, where that group exists and took part in the match.
pub fn text_of_group(groups: &Vec<Option<Group>>, i: usize) -> (r: Option<&String>)
    ensures
        match r {
            Some(t) => group_text(groups.deep_view(), i as int) == Some(t@),
            None => group_text(groups.deep_view(), i as int) is None,
        },
{
    if i < groups.len() {
        match &groups[i] {
            Some(g) => Some(&g.text),
            None => None,
        }
    } else {
        None
    }
}

/// The error for a number that cannot be read.
pub fn parse_failure_error(text: &str) -> (e: MiernikError)
    ensures
        e@ == MiernikErrorView::ProtocolError(parse_failure(text@)),
{
    MiernikError::ProtocolError(join3("Failed to parse weight '", text, "'"))
}

/// The error for a match that lacks a group.
pub fn incomplete_match_error() -> (e: MiernikError)
    ensures
        e@ == MiernikErrorView::ProtocolError(incomplete_match()),
{
    MiernikError::ProtocolError("Incomplete match in device response".to_string())
}

/// Reads the number that `text` spells, or fails with the text in the error.
pub fn weight_of_text(text: &str) -> (r: Result<Decimal, MiernikError>)
    ensures
        match decimal_of(text@) {
            Some(d) => r matches Ok(w) && w@ == d && w.wf(),
            None => r matches Err(e) && e@ == MiernikErrorView::ProtocolError(
                parse_failure(text@),
            ),
        },
{
    let chars = crate::text::chars_of(text);
    match Decimal::parse(&chars) {
        Some(d) => Ok(d),
        None => Err(parse_failure_error(text)),
    }
}

/// The unit of a reading: `text`, or the default unit where `text` is
/// empty.
pub fn unit_or(text: String) -> (unit: String)
    ensures
        unit@ == unit_or_default(text@),
        unit@.len() > 0,
{
    proof {
        lemma_unit_or_default(text@);
    }
    if text.as_str().is_empty() {
        DEFAULT_UNIT.to_string()
    } else {
        text
    }
}

/// Turns a match of [`ECHO_PATTERN`] into a reading.
pub fn reading_from_echo(groups: &Vec<Option<Group>>, timestamp: i64) -> (r: Result<
    WeightReading,
    MiernikError,
>)
    ensures
        result_view(r) == echo_reading(groups.deep_view(), timestamp),
        r matches Ok(w) ==> w@.wf(),
{
    let code = text_of_group(groups, 1);
    let sign = text_of_group(groups, 2);
    let value = text_of_group(groups, 3);
    let unit = text_of_group(groups, 4);
    match (code, sign, value, unit) {
        (Some(code), Some(sign), Some(value), Some(unit)) => {
            let number = crate::views::join(sign.as_str(), value.as_str());
            let weight = weight_of_text(number.as_str())?;
            let unit = unit_or(unit.as_str().to_lowercase());
            let code_chars = crate::text::chars_of(code.as_str());
            if crate::text::text_is(&code_chars, READ_GROSS_CODE) {
                Ok(WeightReading::plain(weight, Decimal::zero(), unit, true, timestamp))
            } else {
                Ok(WeightReading::plain(Decimal::zero(), weight, unit, true, timestamp))
            }
        },
        _ => Err(incomplete_match_error()),
    }
}

/// Turns a match of [`FLAGGED_PATTERN`] into a reading.
pub fn reading_from_flagged(groups: &Vec<Option<Group>>, timestamp: i64) -> (r: Result<
    WeightReading,
    MiernikError,
>)
    ensures
        result_view(r) == flagged_reading(groups.deep_view(), timestamp),
        r matches Ok(w) ==> w@.wf(),
{
    let sign = text_of_group(groups, 1);
    let value = text_of_group(groups, 2);
    let unit = text_of_group(groups, 3);
    let letter = text_of_group(groups, 4);
    match (sign, value, unit, letter) {
        (Some(sign), Some(value), Some(unit), Some(letter)) => {
            let number = weight_of_text(value.as_str())?;
            let weight = if spells(sign.as_str(), "-") {
                number.negated()
            } else {
                number
            };
            let unit = unit_or(unit.as_str().to_lowercase());
            let status = letter.as_str().to_uppercase();
            let settled = spells(status.as_str(), "G") || spells(status.as_str(), "N") || spells(
                status.as_str(),
                "Z",
            ) || spells(status.as_str(), "T");
            if spells(status.as_str(), "N") {
                Ok(WeightReading::plain(Decimal::zero(), weight, unit, settled, timestamp))
            } else {
                Ok(WeightReading::plain(weight, Decimal::zero(), unit, settled, timestamp))
            }
        },
        _ => Err(incomplete_match_error()),
    }
}

/// Whether `c` is one of the control characters and spaces that count as a
/// plain space: tab, line feed, vertical tab, form feed, carriage return and
/// the no-break space.
pub open spec fn is_blank(c: char) -> bool {
    c == '\t' || c == '\n' || c == '\x0B' || c == '\x0C' || c == '\r' || c == '\u{00A0}'
}

/// Whether `c` is one of the dashes and minus signs that count as a
/// hyphen-minus.
pub open spec fn is_dash(c: char) -> bool {
    c == '\u{2212}' || c == '\u{2013}' || c == '\u{2014}' || c == '\u{2015}' || c == '\u{2011}'
        || c == '\u{FF0D}'
}

/// `c` with blanks turned into a space and dashes into a hyphen-minus.
pub open spec fn plain_char(c: char) -> char {
    if is_blank(c) {
        ' '
    } else if is_dash(c) {
        '-'
    } else {
        c
    }
}

/// `s` with each character replaced by its plain form.
pub open spec fn plain_text(s: Seq<char>) -> Seq<char> {
    Seq::new(s.len(), |i: int| plain_char(s[i]))
}

/// The part of a cleaned answer in which the number is looked for: what
/// follows the last colon, trimmed, or all of it where there is no colon.
pub open spec fn search_space(cleaned: Seq<char>) -> Seq<char> {
    let colon = crate::text::last_index_of(cleaned, ':');
    if colon >= 0 {
        crate::text::trimmed(cleaned.skip(colon + 1))
    } else {
        cleaned
    }
}

/// The message of the error for the error token of the device.
pub open spec fn device_error() -> Seq<char> {
    "Device returned error 'E'"@
}

/// The unit that a search with [`UNIT_PATTERN`] found, or the default unit
/// where it found none or an empty one.
pub open spec fn unit_of_match(found: Option<Seq<Option<GroupView>>>) -> Seq<char> {
    match found {
        Some(groups) => match group_text(groups, 0) {
            Some(unit) => unit_or_default(unit),
            None => DEFAULT_UNIT@,
        },
        None => DEFAULT_UNIT@,
    }
}

/// The weight and the unit of an answer whose number is written in base
/// sixteen: the run of digits `run` holds 32 bits in two's complement, and
/// the unit is looked for in `rest`, the text behind the run.
pub open spec fn hex_weight(run: Seq<char>, rest: Seq<char>) -> Result<
    (DecimalView, Seq<char>),
    MiernikErrorView,
> {
    if run.len() <= 8 {
        Ok(
            (
                DecimalView::of_int(
                    crate::decimal::twos_complement_32(crate::decimal::hex_value(run)),
                ),
                unit_of_match(captures_at(UNIT_PATTERN@, rest, 0)),
            ),
        )
    } else {
        Err(MiernikErrorView::ProtocolError(parse_failure(run)))
    }
}

/// The weight of a match of [`NUMBER_PATTERN`] and the byte offset at which
/// the match ends: the matched text without its spaces, read as a decimal
/// number.
pub open spec fn number_of_match(
    found: Option<Seq<Option<GroupView>>>,
    response: Seq<char>,
) -> Result<(DecimalView, nat), MiernikErrorView> {
    match found {
        Some(groups) if 0 < groups.len() && groups[0] is Some => {
            let text = crate::text::without(groups[0]->0.text, ' ');
            match decimal_of(text) {
                Some(weight) => Ok((weight, groups[0]->0.end)),
                None => Err(MiernikErrorView::ProtocolError(parse_failure(text))),
            }
        },
        _ => Err(MiernikErrorView::ProtocolError(unexpected_format(response))),
    }
}

/// The weight and the unit that stand in `space`. A run of digits of base
/// sixteen at its front with a letter in it is a number of 32 bits in two's
/// complement. Otherwise the first decimal number in `space` is the weight.
/// The unit is the first run of letters behind the number.
pub open spec fn weight_in(space: Seq<char>, response: Seq<char>) -> Result<
    (DecimalView, Seq<char>),
    MiernikErrorView,
> {
    let run = space.take(crate::decimal::leading_hex(space) as int);
    if crate::decimal::has_hex_letter(run) {
        hex_weight(run, space.skip(run.len() as int))
    } else {
        match number_of_match(captures_at(NUMBER_PATTERN@, space, 0), response) {
            Ok((weight, end)) => Ok(
                (weight, unit_of_match(captures_at(UNIT_PATTERN@, space, end))),
            ),
            Err(e) => Err(e),
        }
    }
}

/// The reading of an answer of free form. The answer is trimmed and made
/// plain. `E` alone is the error token of the device. The reading is stable
/// where the first word is `S`, and always where the weight is zero; gross
/// and net weight are both the one weight found.
pub open spec fn free_form_reading(response: Seq<char>, timestamp: i64) -> Result<
    WeightReadingView,
    MiernikErrorView,
> {
    let cleaned = plain_text(crate::text::trimmed(response));
    if cleaned == "E"@ || response == "E"@ {
        Err(MiernikErrorView::ProtocolError(device_error()))
    } else if crate::text::first_token(cleaned).len() == 0 {
        Err(MiernikErrorView::ProtocolError(empty_response()))
    } else {
        match weight_in(search_space(cleaned), response) {
            Ok((weight, unit)) => Ok(
                WeightReadingView::plain(
                    weight,
                    weight,
                    unit,
                    crate::text::first_token(cleaned) == "S"@ || weight.is_zero(),
                    timestamp,
                ),
            ),
            Err(e) => Err(e),
        }
    }
}

/// The reading of an answer of a Rinstrum indicator. The echo of a command
/// is tried first, then the flagged form behind a colon, then the free form.
pub open spec fn rincmd_reading(response: Seq<char>, timestamp: i64) -> Result<
    WeightReadingView,
    MiernikErrorView,
> {
    if response.len() == 0 {
        Err(MiernikErrorView::ProtocolError(empty_response()))
    } else {
        match captures_at(ECHO_PATTERN@, response, 0) {
            Some(groups) => echo_reading(groups, timestamp),
            None => match captures_at(FLAGGED_PATTERN@, response, 0) {
                Some(groups) => flagged_reading(groups, timestamp),
                None => free_form_reading(response, timestamp),
            },
        }
    }
}

/// The unit that a search found is never empty.
pub proof fn lemma_unit_of_match(found: Option<Seq<Option<GroupView>>>)
    ensures
        unit_of_match(found).len() > 0,
{
    lemma_unit_or_default(Seq::empty());
    if let Some(groups) = found {
        if let Some(unit) = group_text(groups, 0) {
            lemma_unit_or_default(unit);
        }
    }
}

/// A reading of an answer of a Rinstrum indicator never has an empty unit:
/// where the answer names none, the unit is the default one.
pub proof fn lemma_rincmd_unit_not_empty(response: Seq<char>, timestamp: i64)
    ensures
        rincmd_reading(response, timestamp) matches Ok(reading) ==> reading.unit.len() > 0,
{
    if let Ok(reading) = rincmd_reading(response, timestamp) {
        match captures_at(ECHO_PATTERN@, response, 0) {
            Some(groups) => {
                lemma_unit_or_default(lowercase_of(group_text(groups, 4)->0));
            },
            None => match captures_at(FLAGGED_PATTERN@, response, 0) {
                Some(groups) => {
                    lemma_unit_or_default(lowercase_of(group_text(groups, 3)->0));
                },
                None => {
                    let space = search_space(plain_text(crate::text::trimmed(response)));
                    let run = space.take(crate::decimal::leading_hex(space) as int);
                    lemma_unit_of_match(
                        captures_at(UNIT_PATTERN@, space.skip(run.len() as int), 0),
                    );
                    if let Ok((weight, end)) = number_of_match(
                        captures_at(NUMBER_PATTERN@, space, 0),
                        response,
                    ) {
                        lemma_unit_of_match(captures_at(UNIT_PATTERN@, space, end));
                    }
                },
            },
        }
    }
}

/// The plain form of a character.
pub fn plain_char_of(c: char) -> (r: char)
    ensures
        r == plain_char(c),
{
    if c == '\t' || c == '\n' || c == '\x0B' || c == '\x0C' || c == '\r' || c == '\u{00A0}' {
        ' '
    } else if c == '\u{2212}' || c == '\u{2013}' || c == '\u{2014}' || c == '\u{2015}' || c
        == '\u{2011}' || c == '\u{FF0D}' {
        '-'
    } else {
        c
    }
}

/// The characters of `text`, trimmed and made plain.
pub fn cleaned_chars(text: &str) -> (r: Vec<char>)
    ensures
        r@ == plain_text(crate::text::trimmed(text@)),
{
    let trimmed = crate::text::trimmed_chars(text);
    let mut r: Vec<char> = Vec::new();
    let mut i: usize = 0;
    while i < trimmed.len()
        invariant
            i <= trimmed.len(),
            r@ == plain_text(trimmed@).take(i as int),
        decreases trimmed.len() - i,
    {
        r.push(plain_char_of(trimmed[i]));
        proof {
            let all = plain_text(trimmed@);
            assert(all.take(i as int + 1) =~= all.take(i as int).push(all[i as int]));
        }
        i += 1;
    }
    assert(plain_text(trimmed@).take(trimmed.len() as int) =~= plain_text(trimmed@));
    r
}

/// The part of a cleaned answer in which the number is looked for.
pub fn search_space_of(cleaned: &Vec<char>) -> (r: Vec<char>)
    ensures
        r@ == search_space(cleaned@),
{
    match crate::text::find_last(cleaned, ':') {
        Some(colon) => {
            let (a, b) = crate::text::trim_range(cleaned, colon + 1, cleaned.len());
            crate::text::copy_range(cleaned, a, b)
        },
        None => {
            assert(cleaned@.subrange(0, cleaned.len() as int) == cleaned@);
            crate::text::copy_range(cleaned, 0, cleaned.len())
        },
    }
}

/// The unit that a search with [`UNIT_PATTERN`] found, or the default unit.
pub fn unit_from_match(found: &Option<Vec<Option<Group>>>) -> (unit: String)
    ensures
        unit@ == unit_of_match(found.deep_view()),
{
    match found {
        Some(groups) => match text_of_group(groups, 0) {
            Some(unit) => unit_or(unit.clone()),
            None => DEFAULT_UNIT.to_string(),
        },
        None => DEFAULT_UNIT.to_string(),
    }
}

/// The error for an answer of no known shape.
pub fn unexpected_format_error(response: &str) -> (e: MiernikError)
    ensures
        e@ == MiernikErrorView::ProtocolError(unexpected_format(response@)),
{
    MiernikError::ProtocolError(join3("Unexpected response format: '", response, "'"))
}

/// The weight of a match of [`NUMBER_PATTERN`] and the byte offset at which
/// the match ends.
pub fn number_from_match(found: &Option<Vec<Option<Group>>>, response: &str) -> (r: Result<
    (Decimal, usize),
    MiernikError,
>)
    ensures
        match number_of_match(found.deep_view(), response@) {
            Ok((weight, end)) => r matches Ok(p) && p.0@ == weight && p.0.wf() && p.1 == end,
            Err(e) => r matches Err(x) && x@ == e,
        },
        r is Ok ==> found is Some && found->0.len() > 0 && found->0[0] is Some && r->Ok_0.1
            == found->0[0]->0.end,
{
    match found {
        Some(groups) => {
            if groups.len() > 0 {
                match &groups[0] {
                    Some(g) => {
                        let chars = crate::text::chars_of(g.text.as_str());
                        let digits = crate::text::remove_char(&chars, ' ');
                        let text = crate::text::string_of(&digits);
                        match Decimal::parse(&digits) {
                            Some(weight) => Ok((weight, g.end)),
                            None => Err(parse_failure_error(text.as_str())),
                        }
                    },
                    None => Err(unexpected_format_error(response)),
                }
            } else {
                Err(unexpected_format_error(response))
            }
        },
        None => Err(unexpected_format_error(response)),
    }
}

/// The weight of a run of digits of base sixteen, the first `n` characters of
/// `space`, with the unit that `found`, a search for the unit behind the
/// run, came back with.
pub fn weight_from_hex(space: &Vec<char>, n: usize, found: &Option<Vec<Option<Group>>>) -> (r:
    Result<(Decimal, String), MiernikError>)
    requires
        n <= space.len(),
        forall|k: int| 0 <= k < n ==> crate::decimal::is_hex_digit(#[trigger] space@[k]),
    ensures
        match r {
            Ok(p) => n <= 8 && p.0@ == DecimalView::of_int(
                crate::decimal::twos_complement_32(
                    crate::decimal::hex_value(space@.take(n as int)),
                ),
            ) && p.0.wf() && p.1@ == unit_of_match(found.deep_view()),
            Err(e) => n > 8 && e@ == MiernikErrorView::ProtocolError(
                parse_failure(space@.take(n as int)),
            ),
        },
{
    if n <= 8 {
        let bits = crate::decimal::hex_number(space, n);
        let value: i64 = if bits >= 0x8000_0000 {
            bits as i64 - 0x1_0000_0000
        } else {
            bits as i64
        };
        Ok((Decimal::from_i64(value), unit_from_match(found)))
    } else {
        let run = crate::text::string_of_range(space, 0, n);
        assert(space@.subrange(0, n as int) == space@.take(n as int));
        Err(parse_failure_error(run.as_str()))
    }
}

/// Finds the weight and the unit in the search space of an answer.
pub fn find_weight(space: &Vec<char>, response: &str) -> (r: Result<
    (Decimal, String),
    MiernikError,
>)
    ensures
        match weight_in(space@, response@) {
            Ok((weight, unit)) => r matches Ok(p) && p.0@ == weight && p.0.wf() && p.1@ == unit,
            Err(e) => r matches Err(x) && x@ == e,
        },
{
    let (n, letter) = crate::decimal::hex_run(space);
    if letter {
        let rest = crate::text::string_of_range(space, n, space.len());
        assert(space@.subrange(n as int, space.len() as int) == space@.skip(n as int));
        let found = search(UNIT_PATTERN, rest.as_str(), 0);
        weight_from_hex(space, n, &found)
    } else {
        let text = crate::text::string_of(space);
        let number = search(NUMBER_PATTERN, text.as_str(), 0);
        match number_from_match(&number, response) {
            Ok((weight, end)) => {
                let found = search(UNIT_PATTERN, text.as_str(), end);
                Ok((weight, unit_from_match(&found)))
            },
            Err(e) => Err(e),
        }
    }
}

/// Reads an answer of free form.
pub fn reading_from_free_form(response: &str, timestamp: i64) -> (r: Result<
    WeightReading,
    MiernikError,
>)
    ensures
        result_view(r) == free_form_reading(response@, timestamp),
        r matches Ok(w) ==> w@.wf(),
{
    let cleaned = cleaned_chars(response);
    if crate::text::text_is(&cleaned, "E") || spells(response, "E") {
        return Err(MiernikError::ProtocolError("Device returned error 'E'".to_string()));
    }
    let (a, b) = crate::text::first_token_range(&cleaned);
    if a == b {
        return Err(MiernikError::ProtocolError("Empty response from device".to_string()));
    }
    let flagged_stable = crate::text::range_is(&cleaned, a, b, "S");
    let space = search_space_of(&cleaned);
    match find_weight(&space, response) {
        Ok((weight, unit)) => {
            let is_stable = flagged_stable || weight.is_zero();
            let net = weight.copy();
            Ok(WeightReading::plain(weight, net, unit, is_stable, timestamp))
        },
        Err(e) => Err(e),
    }
}

/// Reads an answer of a Rinstrum indicator as of the time `timestamp`.
pub fn rincmd_reading_at(response: &str, timestamp: i64) -> (r: Result<
    WeightReading,
    MiernikError,
>)
    ensures
        result_view(r) == rincmd_reading(response@, timestamp),
        r matches Ok(w) ==> w@.wf() && w.unit@.len() > 0,
{
    proof {
        lemma_rincmd_unit_not_empty(response@, timestamp);
    }
    if response.is_empty() {
        return Err(MiernikError::ProtocolError("Empty response from device".to_string()));
    }
    match search(ECHO_PATTERN, response, 0) {
        Some(groups) => reading_from_echo(&groups, timestamp),
        None => match search(FLAGGED_PATTERN, response, 0) {
            Some(groups) => reading_from_flagged(&groups, timestamp),
            None => reading_from_free_form(response, timestamp),
        },
    }
}

/// Reads an answer of a Rinstrum indicator; the reading carries the time at
/// which it was read.
pub fn parse_rincmd_response(response: &str) -> (r: Result<WeightReading, MiernikError>)
    ensures
        exists|timestamp: i64| result_view(r) == #[trigger] rincmd_reading(response@, timestamp),
        r matches Ok(w) ==> w@.wf() && w.unit@.len() > 0,
{
    let timestamp = crate::clock::now_millis();
    rincmd_reading_at(response, timestamp)
}

/// The whole answer is a number with a decimal point and a unit, the sign
/// perhaps apart from the digits.
pub const STRICT_PATTERN: &'static str = r"^([+-]?\s*\d+\.\d+)\s*(kg|lb|g)$";

/// A decimal number with its sign, if any, next to its digits.
pub const VALUE_PATTERN: &'static str = r"([+-]?\d+(?:\.\d+)?)";

/// The confirmation that a Dini Argeo indicator sends in place of a weight.
pub const CONFIRMATION: &'static str = "OK";

/// The message of the error for an answer of a Dini Argeo indicator without
/// content.
pub open spec fn empty_dini_response() -> Seq<char> {
    "Empty response from Dini Argeo device"@
}

/// The message of the error for an answer of a Dini Argeo indicator in
/// which no number stands.
pub open spec fn no_number(response: Seq<char>) -> Seq<char> {
    "Could not find numeric value in Dini Argeo response: '"@ + response + "'"@
}

/// The weight, the unit and the stability that a match of
/// [`STRICT_PATTERN`] stands for: the number without its spaces, the unit
/// in lowercase, and stable.
pub open spec fn strict_weight(groups: Seq<Option<GroupView>>) -> Result<
    (DecimalView, Seq<char>, bool),
    MiernikErrorView,
> {
    match (group_text(groups, 1), group_text(groups, 2)) {
        (Some(number), Some(unit)) => {
            let text = crate::text::without(number, ' ');
            match decimal_of(text) {
                Some(weight) => Ok((weight, unit_or_default(lowercase_of(unit)), true)),
                None => Err(MiernikErrorView::ProtocolError(parse_failure(text))),
            }
        },
        _ => Err(MiernikErrorView::ProtocolError(incomplete_match())),
    }
}

/// The first of the fields of `text` that commas separate, trimmed and in
/// uppercase.
pub open spec fn first_field(text: Seq<char>) -> Seq<char> {
    uppercase_of(crate::text::trimmed(text.take(crate::text::first_index_of(text, ','))))
}

/// The last of the fields of `text` that commas separate, trimmed.
pub open spec fn last_field(text: Seq<char>) -> Seq<char> {
    crate::text::trimmed(text.skip(crate::text::last_index_of(text, ',') + 1))
}

/// Whether the flags of an answer, its first field, report a settled weight:
/// they start with `S`.
pub open spec fn stable_flags(flags: Seq<char>) -> bool {
    flags.len() > 0 && flags[0] == 'S'
}

/// The weight of a match of [`VALUE_PATTERN`] and the byte offset at which
/// the match ends.
pub open spec fn value_of_match(
    found: Option<Seq<Option<GroupView>>>,
    response: Seq<char>,
) -> Result<(DecimalView, nat), MiernikErrorView> {
    match found {
        Some(groups) if 0 < groups.len() && groups[0] is Some => {
            let text = groups[0]->0.text;
            match decimal_of(text) {
                Some(weight) => Ok((weight, groups[0]->0.end)),
                None => Err(MiernikErrorView::ProtocolError(parse_failure(text))),
            }
        },
        _ => Err(MiernikErrorView::ProtocolError(no_number(response))),
    }
}

/// The weight, the unit and the stability of an answer made of fields that
/// commas separate: the first field holds the flags, the last one the
/// number and, behind it, the unit.
pub open spec fn fields_weight(text: Seq<char>) -> Result<
    (DecimalView, Seq<char>, bool),
    MiernikErrorView,
> {
    let space = last_field(text);
    match value_of_match(captures_at(VALUE_PATTERN@, space, 0), text) {
        Ok((weight, end)) => Ok(
            (
                weight,
                unit_of_match(captures_at(UNIT_PATTERN@, space, end)),
                stable_flags(first_field(text)),
            ),
        ),
        Err(e) => Err(e),
    }
}

/// The weight, the unit and the stability of an answer of a Dini Argeo
/// indicator. The answer is trimmed. The confirmation `OK`, in any case of
/// letters, is a stable zero in kilograms. An answer that is a number and a
/// unit and nothing else is stable. Every other answer is read by its
/// fields.
pub open spec fn dini_weight(response: Seq<char>) -> Result<
    (DecimalView, Seq<char>, bool),
    MiernikErrorView,
> {
    let text = crate::text::trimmed(response);
    if text.len() == 0 {
        Err(MiernikErrorView::ProtocolError(empty_dini_response()))
    } else if uppercase_of(text) == CONFIRMATION@ {
        Ok((DecimalView::zero(), DEFAULT_UNIT@, true))
    } else {
        match captures_at(STRICT_PATTERN@, text, 0) {
            Some(groups) => strict_weight(groups),
            None => fields_weight(text),
        }
    }
}

/// The reading of an answer of a Dini Argeo indicator: gross and net weight
/// are both the one weight of the answer.
pub open spec fn dini_reading(response: Seq<char>, timestamp: i64) -> Result<
    WeightReadingView,
    MiernikErrorView,
> {
    match dini_weight(response) {
        Ok((weight, unit, is_stable)) => Ok(
            WeightReadingView::plain(weight, weight, unit, is_stable, timestamp),
        ),
        Err(e) => Err(e),
    }
}

/// An answer of a Dini Argeo indicator that holds nothing but whitespace,
/// or nothing at all, is refused as empty.
pub proof fn lemma_blank_dini_answer_is_refused(response: Seq<char>, timestamp: i64)
    requires
        forall|k: int| 0 <= k < response.len() ==> crate::text::whitespace(#[trigger] response[k]),
    ensures
        dini_reading(response, timestamp) == Err::<WeightReadingView, MiernikErrorView>(
            MiernikErrorView::ProtocolError(empty_dini_response()),
        ),
{
    crate::text::lemma_trimmed_blank(response);
}

/// A reading of an answer of a Dini Argeo indicator never has an empty
/// unit: where the answer names none, the unit is the default one.
pub proof fn lemma_dini_unit_not_empty(response: Seq<char>, timestamp: i64)
    ensures
        dini_reading(response, timestamp) matches Ok(reading) ==> reading.unit.len() > 0,
        dini_weight(response) matches Ok(found) ==> found.1.len() > 0,
{
    lemma_unit_or_default(Seq::empty());
    let text = crate::text::trimmed(response);
    if let Ok(found) = dini_weight(response) {
        if uppercase_of(text) != CONFIRMATION@ {
            match captures_at(STRICT_PATTERN@, text, 0) {
                Some(groups) => {
                    lemma_unit_or_default(lowercase_of(group_text(groups, 2)->0));
                },
                None => {
                    let space = last_field(text);
                    if let Ok((weight, end)) = value_of_match(
                        captures_at(VALUE_PATTERN@, space, 0),
                        text,
                    ) {
                        lemma_unit_of_match(captures_at(UNIT_PATTERN@, space, end));
                    }
                },
            }
        }
    }
}

/// What an executable function returned for the weight of an answer, with
/// each part replaced by its view.
pub open spec fn weight_view(r: Result<(Decimal, String, bool), MiernikError>) -> Result<
    (DecimalView, Seq<char>, bool),
    MiernikErrorView,
> {
    match r {
        Ok(p) => Ok((p.0@, p.1@, p.2)),
        Err(e) => Err(e@),
    }
}

/// Turns a match of [`STRICT_PATTERN`] into weight, unit and stability.
pub fn weight_from_strict(groups: &Vec<Option<Group>>) -> (r: Result<
    (Decimal, String, bool),
    MiernikError,
>)
    ensures
        weight_view(r) == strict_weight(groups.deep_view()),
        r matches Ok(p) ==> p.0.wf(),
{
    match (text_of_group(groups, 1), text_of_group(groups, 2)) {
        (Some(number), Some(unit)) => {
            let chars = crate::text::chars_of(number.as_str());
            let digits = crate::text::remove_char(&chars, ' ');
            match Decimal::parse(&digits) {
                Some(weight) => Ok((weight, unit_or(unit.as_str().to_lowercase()), true)),
                None => {
                    let text = crate::text::string_of(&digits);
                    Err(parse_failure_error(text.as_str()))
                },
            }
        },
        _ => Err(incomplete_match_error()),
    }
}

/// The weight of a match of [`VALUE_PATTERN`] and the byte offset at which
/// the match ends.
pub fn value_from_match(found: &Option<Vec<Option<Group>>>, response: &str) -> (r: Result<
    (Decimal, usize),
    MiernikError,
>)
    ensures
        match value_of_match(found.deep_view(), response@) {
            Ok((weight, end)) => r matches Ok(p) && p.0@ == weight && p.0.wf() && p.1 == end,
            Err(e) => r matches Err(x) && x@ == e,
        },
        r is Ok ==> found is Some && found->0.len() > 0 && found->0[0] is Some && r->Ok_0.1
            == found->0[0]->0.end,
{
    match found {
        Some(groups) => {
            if groups.len() > 0 {
                match &groups[0] {
                    Some(g) => {
                        let chars = crate::text::chars_of(g.text.as_str());
                        match Decimal::parse(&chars) {
                            Some(weight) => Ok((weight, g.end)),
                            None => Err(parse_failure_error(g.text.as_str())),
                        }
                    },
                    None => Err(no_number_error(response)),
                }
            } else {
                Err(no_number_error(response))
            }
        },
        None => Err(no_number_error(response)),
    }
}

/// The error for an answer in which no number stands.
pub fn no_number_error(response: &str) -> (e: MiernikError)
    ensures
        e@ == MiernikErrorView::ProtocolError(no_number(response@)),
{
    MiernikError::ProtocolError(
        join3("Could not find numeric value in Dini Argeo response: '", response, "'"),
    )
}

/// Whether the first field of `text` starts, once trimmed and in uppercase,
/// with `S`.
pub fn flags_are_stable(text: &Vec<char>) -> (b: bool)
    ensures
        b == stable_flags(first_field(text@)),
{
    let comma = crate::text::find_first(text, ',');
    assert(text@.subrange(0, comma as int) == text@.take(comma as int));
    let (a, b) = crate::text::trim_range(text, 0, comma);
    let field = crate::text::string_of_range(text, a, b);
    let flags = crate::text::chars_of(field.as_str().to_uppercase().as_str());
    flags.len() > 0 && flags[0] == 'S'
}

/// The last field of `text`, trimmed.
pub fn last_field_of(text: &Vec<char>) -> (r: Vec<char>)
    ensures
        r@ == last_field(text@),
{
    let start: usize = match crate::text::find_last(text, ',') {
        Some(comma) => comma + 1,
        None => 0,
    };
    assert(text@.subrange(start as int, text.len() as int) == text@.skip(start as int));
    let (a, b) = crate::text::trim_range(text, start, text.len());
    crate::text::copy_range(text, a, b)
}

/// Reads an answer by its fields.
pub fn weight_from_fields(text: &Vec<char>) -> (r: Result<(Decimal, String, bool), MiernikError>)
    ensures
        weight_view(r) == fields_weight(text@),
        r matches Ok(p) ==> p.0.wf(),
{
    let is_stable = flags_are_stable(text);
    let space = crate::text::string_of(&last_field_of(text));
    let whole = crate::text::string_of(text);
    let found = search(VALUE_PATTERN, space.as_str(), 0);
    match value_from_match(&found, whole.as_str()) {
        Ok((weight, end)) => {
            let unit = search(UNIT_PATTERN, space.as_str(), end);
            Ok((weight, unit_from_match(&unit), is_stable))
        },
        Err(e) => Err(e),
    }
}

/// Reads the weight, the unit and the stability from an answer of a Dini
/// Argeo indicator.
pub fn parse_dini_weight(response: &str) -> (r: Result<(Decimal, String, bool), MiernikError>)
    ensures
        weight_view(r) == dini_weight(response@),
        r matches Ok(p) ==> p.0.wf() && p.1@.len() > 0,
{
    proof {
        lemma_dini_unit_not_empty(response@, 0);
    }
    let text = crate::text::trimmed_chars(response);
    if text.len() == 0 {
        return Err(
            MiernikError::ProtocolError("Empty response from Dini Argeo device".to_string()),
        );
    }
    let trimmed = crate::text::string_of(&text);
    if spells(trimmed.as_str().to_uppercase().as_str(), CONFIRMATION) {
        return Ok((Decimal::zero(), DEFAULT_UNIT.to_string(), true));
    }
    match search(STRICT_PATTERN, trimmed.as_str(), 0) {
        Some(groups) => weight_from_strict(&groups),
        None => weight_from_fields(&text),
    }
}

/// Reads an answer of a Dini Argeo indicator as of the time `timestamp`.
pub fn dini_reading_at(response: &str, timestamp: i64) -> (r: Result<WeightReading, MiernikError>)
    ensures
        result_view(r) == dini_reading(response@, timestamp),
        r matches Ok(w) ==> w@.wf() && w.unit@.len() > 0,
{
    match parse_dini_weight(response) {
        Ok((weight, unit, is_stable)) => {
            let net = weight.copy();
            Ok(WeightReading::plain(weight, net, unit, is_stable, timestamp))
        },
        Err(e) => Err(e),
    }
}

/// Reads an answer of a Dini Argeo indicator; the reading carries the time
/// at which it was read.
pub fn parse_dini_ascii_response(response: &str) -> (r: Result<WeightReading, MiernikError>)
    ensures
        exists|timestamp: i64| result_view(r) == #[trigger] dini_reading(response@, timestamp),
        r matches Ok(w) ==> w@.wf() && w.unit@.len() > 0,
{
    let timestamp = crate::clock::now_millis();
    dini_reading_at(response, timestamp)
}

} // verus!
