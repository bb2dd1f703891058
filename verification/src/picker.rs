//! The list of control devices that an operator chooses from, and the rule
//! by which an answer picks one of them.

use vstd::prelude::*;
use vstd::string::*;

verus! {

/// One control device on offer.
#[derive(Clone, Debug, PartialEq, Eq)]
pub struct DeviceOption {
    /// The first line of the device's description.
    pub primary_name: String,
    /// The later lines of the description, each led in by `" | "`.
    pub secondary_name: Option<String>,
    /// The name by which the device is opened.
    pub tech_info: String,
    /// The number under which the device is listed, from 1.
    pub enumeration_option: u16,
}

/// What separates the lines of a description once they stand on one line.
pub open spec fn separator() -> Seq<char> {
    seq![' ', '|', ' ']
}

/// The text with each line break replaced by the separator.
pub open spec fn spread(text: Seq<char>) -> Seq<char>
    decreases text.len(),
{
    if text.len() == 0 {
        Seq::empty()
    } else if text.last() == '\n' {
        spread(text.drop_last()) + separator()
    } else {
        spread(text.drop_last()).push(text.last())
    }
}

/// `end` is where the first line of `text` ends: at the first line break,
/// or at the end of the text if it has none.
pub open spec fn is_line_end(text: Seq<char>, end: int) -> bool {
    &&& 0 <= end <= text.len()
    &&& forall|k: int| 0 <= k < end ==> text[k] != '\n'
    &&& end < text.len() ==> text[end] == '\n'
}

/// What follows the first line of a description that ends at `end`, on one
/// line: the separator, and the later lines with the separator between
/// them.
pub open spec fn later_lines(text: Seq<char>, end: int) -> Seq<char> {
    if end < text.len() {
        separator() + spread(text.skip(end + 1))
    } else {
        separator()
    }
}

/// Splits a description into its first line and the rest, the rest led in
/// by the separator and with the separator in place of each line break.
pub fn split_description(description: &str) -> (parts: (String, String))
    ensures
        is_line_end(description@, parts.0@.len() as int),
        parts.0@ == description@.take(parts.0@.len() as int),
        parts.1@ == later_lines(description@, parts.0@.len() as int),
{
    let length = description.unicode_len();
    let mut end: usize = 0;
    while end < length && description.get_char(end) != '\n'
        invariant
            end <= length == description@.len(),
            forall|k: int| 0 <= k < end ==> description@[k] != '\n',
        decreases length - end,
    {
        end += 1;
    }
    let primary = String::from_str(description.substring_char(0, end));
    let mut secondary = String::from_str(" | ");
    proof {
        reveal_strlit(" | ");
        assert(secondary@ =~= separator());
        assert(description@.subrange(0, end as int) =~= description@.take(end as int));
    }
    if end < length {
        let start: usize = end + 1;
        let mut at: usize = start;
        while at < length
            invariant
                start <= at <= length == description@.len(),
                secondary@ == separator() + spread(description@.subrange(start as int, at as int)),
            decreases length - at,
        {
            let ghost before = description@.subrange(start as int, at as int);
            let ghost now = description@.subrange(start as int, at + 1);
            proof {
                assert(now.drop_last() =~= before);
                assert(now.last() == description@[at as int]);
            }
            if description.get_char(at) == '\n' {
                proof {
                    reveal_strlit(" | ");
                    assert(" | "@ =~= separator());
                    assert(separator() + spread(before) + separator() =~= separator() + spread(
                        now,
                    ));
                }
                secondary.append(" | ");
            } else {
                let piece = description.substring_char(at, at + 1);
                proof {
                    assert(piece@ =~= seq![description@[at as int]]);
                    assert(separator() + spread(before) + piece@ =~= separator() + spread(now));
                }
                secondary.append(piece);
            }
            at += 1;
        }
        proof {
            assert(description@.subrange(start as int, length as int) =~= description@.skip(
                end + 1,
            ));
        }
    }
    (primary, secondary)
}

impl DeviceOption {
    /// An option made of its parts.
    pub fn new(
        primary_name: String,
        secondary_name: Option<String>,
        tech_info: String,
        enumeration_option: u16,
    ) -> (option: DeviceOption)
        ensures
            option.primary_name == primary_name,
            option.secondary_name == secondary_name,
            option.tech_info == tech_info,
            option.enumeration_option == enumeration_option,
    {
        DeviceOption { primary_name, secondary_name, tech_info, enumeration_option }
    }

    /// The option for a device with the given name and description, not
    /// numbered yet. A device without a description is called `Unknown` and
    /// has no secondary name; one without a name has `Unknown` for its
    /// technical name.
    pub fn from_hint(name: Option<&str>, description: Option<&str>) -> (option: DeviceOption)
        ensures
            option.enumeration_option == 0,
            option.tech_info@ == match name {
                Some(name) => name@,
                None => "Unknown"@,
            },
            match description {
                Some(text) => {
                    &&& is_line_end(text@, option.primary_name@.len() as int)
                    &&& option.primary_name@ == text@.take(option.primary_name@.len() as int)
                    &&& option.secondary_name matches Some(rest)
                    &&& rest@ == later_lines(text@, option.primary_name@.len() as int)
                },
                None => option.primary_name@ == "Unknown"@ && option.secondary_name is None,
            },
    {
        let tech_info = match name {
            Some(name) => String::from_str(name),
            None => String::from_str("Unknown"),
        };
        match description {
            Some(text) => {
                let (primary, rest) = split_description(text);
                DeviceOption::new(primary, Some(rest), tech_info, 0)
            },
            None => DeviceOption::new(String::from_str("Unknown"), None, tech_info, 0),
        }
    }
}

/// The number under which the option at `position` is listed: its
/// position counted from 1, cut to sixteen bits.
pub open spec fn number_at(position: int) -> u16 {
    ((position + 1) % 0x1_0000) as u16
}

/// Numbers the options in the order in which they stand.
pub fn number_options(options: &mut Vec<DeviceOption>)
    ensures
        final(options)@.len() == old(options)@.len(),
        forall|i: int|
            0 <= i < old(options)@.len() ==> {
                &&& (#[trigger] final(options)@[i]).enumeration_option == number_at(i)
                &&& final(options)@[i].primary_name == old(options)@[i].primary_name
                &&& final(options)@[i].secondary_name == old(options)@[i].secondary_name
                &&& final(options)@[i].tech_info == old(options)@[i].tech_info
            },
{
    let count = options.len();
    let mut position: usize = 0;
    while position < count
        invariant
            position <= count == options@.len() == old(options)@.len(),
            forall|i: int|
                0 <= i < count ==> {
                    &&& (#[trigger] options@[i]).primary_name == old(options)@[i].primary_name
                    &&& options@[i].secondary_name == old(options)@[i].secondary_name
                    &&& options@[i].tech_info == old(options)@[i].tech_info
                },
            forall|i: int| 0 <= i < position ==> (#[trigger] options@[i]).enumeration_option == number_at(i),
        decreases count - position,
    {
        let number: u16 = ((position % 0x1_0000 + 1) % 0x1_0000) as u16;
        assert(number == number_at(position as int));
        options[position].enumeration_option = number;
        position += 1;
    }
}

/// The text without the whitespace at its start and at its end, as
/// `str::trim` gives it.
pub uninterp spec fn trimmed(text: Seq<char>) -> Seq<char>;

/// Calls `str::trim`, which removes the whitespace at both ends of the
/// text, whitespace being what Unicode's `White_Space` property says. The
/// result is known by the name `trimmed` only.
#[verifier::external_body]
fn trim(text: &str) -> (result: &str)
    ensures
        result@ == trimmed(text@),
{
    text.trim()
}

/// The value of a decimal digit; `None` for any other character.
pub open spec fn digit_value(c: char) -> Option<nat> {
    if 0x30 <= c as u32 <= 0x39 {
        Some((c as u32 - 0x30) as nat)
    } else {
        None
    }
}

/// The number that a run of decimal digits writes; `None` where the run is
/// empty or holds anything but digits.
pub open spec fn digits_value(digits: Seq<char>) -> Option<nat>
    decreases digits.len(),
{
    if digits.len() == 0 {
        None
    } else if digits.len() == 1 {
        digit_value(digits[0])
    } else {
        match (digits_value(digits.drop_last()), digit_value(digits.last())) {
            (Some(front), Some(last)) => Some(front * 10 + last),
            _ => None,
        }
    }
}

/// The number that a text stands for: decimal digits, after a `+` or not,
/// that write a number of sixteen bits; `None` for any other text.
pub open spec fn number_of(text: Seq<char>) -> Option<u16> {
    let digits = if text.len() > 0 && text[0] == '+' {
        text.drop_first()
    } else {
        text
    };
    match digits_value(digits) {
        Some(value) if value <= u16::MAX => Some(value as u16),
        _ => None,
    }
}

/// Calls `str::parse::<u16>` and drops the error. The standard library
/// reads an optional `+` followed by decimal digits only, and refuses the
/// empty text, any other character and a number that does not fit; the
/// contract states that and is not proved.
#[verifier::external_body]
fn parse_u16(text: &str) -> (number: Option<u16>)
    ensures
        number == number_of(text@),
{
    text.parse::<u16>().ok()
}

/// An option listed under `listed_number` and called `listed_name` answers
/// a query that reads as `number` and, as a name, as `name`.
pub open spec fn answers_spec(
    listed_number: u16,
    listed_name: Seq<char>,
    number: Option<u16>,
    name: Seq<char>,
) -> bool {
    number == Some(listed_number) || listed_name == name
}

/// Whether an option answers a query: the query reads as the number under
/// which the option is listed, or it is the option's name.
pub fn answers(listed_number: u16, listed_name: &str, number: Option<u16>, name: &str) -> (yes: bool)
    ensures
        yes == answers_spec(listed_number, listed_name@, number, name@),
{
    let by_number = match number {
        Some(number) => number == listed_number,
        None => false,
    };
    by_number || String::from_str(listed_name) == String::from_str(name)
}

/// The option answers the query, both taken without the whitespace around
/// them.
pub open spec fn is_chosen(option: DeviceOption, query: Seq<char>) -> bool {
    answers_spec(
        option.enumeration_option,
        trimmed(option.primary_name@),
        number_of(trimmed(query)),
        trimmed(query),
    )
}

/// The position of the first option that the query picks: the first whose
/// number the query reads as, or whose primary name it is. Whitespace
/// around the query and around a name does not count.
pub fn select(options: &Vec<DeviceOption>, query: &str) -> (chosen: Option<usize>)
    ensures
        match chosen {
            Some(position) => {
                &&& position < options@.len()
                &&& is_chosen(options@[position as int], query@)
                &&& forall|j: int| 0 <= j < position ==> !is_chosen(#[trigger] options@[j], query@)
            },
            None => forall|j: int|
                0 <= j < options@.len() ==> !is_chosen(#[trigger] options@[j], query@),
        },
{
    let name = trim(query);
    let number = parse_u16(name);
    let mut position: usize = 0;
    while position < options.len()
        invariant
            position <= options@.len(),
            name@ == trimmed(query@),
            number == number_of(trimmed(query@)),
            forall|j: int| 0 <= j < position ==> !is_chosen(#[trigger] options@[j], query@),
        decreases options@.len() - position,
    {
        let option = &options[position];
        if answers(option.enumeration_option, trim(option.primary_name.as_str()), number, name) {
            return Some(position);
        }
        position += 1;
    }
    None
}

} // verus!
