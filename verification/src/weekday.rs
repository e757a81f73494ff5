//! Days of the week, as the menu's selectors name and read them.

use vstd::prelude::*;

verus! {

/// A day of the week.
#[derive(Clone, Copy, Debug, PartialEq, Eq, Structural, Hash)]
pub enum Weekday {
    Mon,
    Tue,
    Wed,
    Thu,
    Fri,
    Sat,
    Sun,
}

/// The lower-case form of an ASCII capital; any other character is itself.
pub open spec fn ascii_lower(c: char) -> char {
    if 'A' <= c && c <= 'Z' {
        ((c as u8 + 32) as u8) as char
    } else {
        c
    }
}

/// A text with every ASCII capital in lower case.
pub open spec fn ascii_folded(s: Seq<char>) -> Seq<char> {
    Seq::new(s.len(), |i: int| ascii_lower(s[i]))
}

/// The day that a text names: its three-letter or its full English name,
/// in any mix of upper and lower case, and nothing else.
pub open spec fn named_weekday(s: Seq<char>) -> Option<Weekday> {
    let t = ascii_folded(s);
    if t == "mon"@ || t == "monday"@ {
        Some(Weekday::Mon)
    } else if t == "tue"@ || t == "tuesday"@ {
        Some(Weekday::Tue)
    } else if t == "wed"@ || t == "wednesday"@ {
        Some(Weekday::Wed)
    } else if t == "thu"@ || t == "thursday"@ {
        Some(Weekday::Thu)
    } else if t == "fri"@ || t == "friday"@ {
        Some(Weekday::Fri)
    } else if t == "sat"@ || t == "saturday"@ {
        Some(Weekday::Sat)
    } else if t == "sun"@ || t == "sunday"@ {
        Some(Weekday::Sun)
    } else {
        None
    }
}

/// All seven days, Monday first.
pub open spec fn week() -> Seq<Weekday> {
    seq![
        Weekday::Mon,
        Weekday::Tue,
        Weekday::Wed,
        Weekday::Thu,
        Weekday::Fri,
        Weekday::Sat,
        Weekday::Sun,
    ]
}

impl Weekday {
    /// The three-letter name, as a selector carries it.
    pub open spec fn short_name(self) -> Seq<char> {
        match self {
            Weekday::Mon => "Mon"@,
            Weekday::Tue => "Tue"@,
            Weekday::Wed => "Wed"@,
            Weekday::Thu => "Thu"@,
            Weekday::Fri => "Fri"@,
            Weekday::Sat => "Sat"@,
            Weekday::Sun => "Sun"@,
        }
    }

    /// The name shown to the user.
    pub open spec fn full_name(self) -> Seq<char> {
        match self {
            Weekday::Mon => "Monday"@,
            Weekday::Tue => "Tuesday"@,
            Weekday::Wed => "Wednesday"@,
            Weekday::Thu => "Thursday"@,
            Weekday::Fri => "Friday"@,
            Weekday::Sat => "Saturday"@,
            Weekday::Sun => "Sunday"@,
        }
    }

    /// The name shown to the user.
    pub fn label(self) -> (name: &'static str)
        ensures
            name@ == self.full_name(),
    {
        match self {
            Weekday::Mon => "Monday",
            Weekday::Tue => "Tuesday",
            Weekday::Wed => "Wednesday",
            Weekday::Thu => "Thursday",
            Weekday::Fri => "Friday",
            Weekday::Sat => "Saturday",
            Weekday::Sun => "Sunday",
        }
    }

    /// All seven days, Monday first.
    pub fn all() -> (days: Vec<Weekday>)
        ensures
            days@ == week(),
    {
        let mut days: Vec<Weekday> = Vec::new();
        days.push(Weekday::Mon);
        days.push(Weekday::Tue);
        days.push(Weekday::Wed);
        days.push(Weekday::Thu);
        days.push(Weekday::Fri);
        days.push(Weekday::Sat);
        days.push(Weekday::Sun);
        assert(days@ =~= week());
        days
    }

    /// The three-letter name of the day, as a selector carries it.
    pub fn code(self) -> (name: String)
        ensures
            name@ == self.short_name(),
    {
        weekday_to_string(self)
    }

    /// Reads a day from its three-letter or full English name, in any case.
    pub fn parse(s: &str) -> (day: Option<Weekday>)
        ensures
            day == named_weekday(s@),
    {
        match weekday_from_str(s) {
            Ok(day) => Some(day),
            Err(_) => None,
        }
    }
}

/// What `chrono` answers to a text that names no day. Nothing is known of
/// its inside.
#[verifier::external_type_specification]
#[verifier::external_body]
pub struct ExParseWeekdayError(chrono::ParseWeekdayError);

/// Calls `chrono::Weekday`'s `FromStr` (`str::parse`). Taken on trust from
/// chrono, not proved here: it accepts the three-letter and the full English
/// name of a day, ASCII letters compared without regard to case, and turns
/// down every other text.
#[verifier::external_body]
fn weekday_from_str(s: &str) -> (day: Result<Weekday, chrono::ParseWeekdayError>)
    ensures
        match day {
            Ok(d) => named_weekday(s@) == Some(d),
            Err(_) => named_weekday(s@) is None,
        },
{
    match s.parse::<chrono::Weekday>() {
        Ok(chrono::Weekday::Mon) => Ok(Weekday::Mon),
        Ok(chrono::Weekday::Tue) => Ok(Weekday::Tue),
        Ok(chrono::Weekday::Wed) => Ok(Weekday::Wed),
        Ok(chrono::Weekday::Thu) => Ok(Weekday::Thu),
        Ok(chrono::Weekday::Fri) => Ok(Weekday::Fri),
        Ok(chrono::Weekday::Sat) => Ok(Weekday::Sat),
        Ok(chrono::Weekday::Sun) => Ok(Weekday::Sun),
        Err(e) => Err(e),
    }
}

/// Calls `chrono::Weekday`'s `Display` (`to_string`). Taken on trust from
/// chrono, not proved here: it writes the three-letter English name of the
/// day with a capital first letter.
#[verifier::external_body]
fn weekday_to_string(day: Weekday) -> (name: String)
    ensures
        name@ == day.short_name(),
{
    let outside = match day {
        Weekday::Mon => chrono::Weekday::Mon,
        Weekday::Tue => chrono::Weekday::Tue,
        Weekday::Wed => chrono::Weekday::Wed,
        Weekday::Thu => chrono::Weekday::Thu,
        Weekday::Fri => chrono::Weekday::Fri,
        Weekday::Sat => chrono::Weekday::Sat,
        Weekday::Sun => chrono::Weekday::Sun,
    };
    outside.to_string()
}

/// Reading back the three-letter name of a day gives that day: what a
/// selector carries for a day is read as that day.
pub proof fn lemma_short_name_is_read_back(day: Weekday)
    ensures
        named_weekday(day.short_name()) == Some(day),
{
    reveal_strlit("Mon");
    reveal_strlit("Tue");
    reveal_strlit("Wed");
    reveal_strlit("Thu");
    reveal_strlit("Fri");
    reveal_strlit("Sat");
    reveal_strlit("Sun");
    reveal_strlit("mon");
    reveal_strlit("tue");
    reveal_strlit("wed");
    reveal_strlit("thu");
    reveal_strlit("fri");
    reveal_strlit("sat");
    reveal_strlit("sun");
    reveal_strlit("monday");
    reveal_strlit("tuesday");
    reveal_strlit("wednesday");
    reveal_strlit("thursday");
    reveal_strlit("friday");
    reveal_strlit("saturday");
    let t = ascii_folded(day.short_name());
    match day {
        Weekday::Mon => {
            assert(t =~= "mon"@);
        },
        Weekday::Tue => {
            assert(t =~= "tue"@);
            assert(t[0] != "mon"@[0]);
        },
        Weekday::Wed => {
            assert(t =~= "wed"@);
            assert(t[0] != "mon"@[0]);
            assert(t[0] != "tue"@[0]);
        },
        Weekday::Thu => {
            assert(t =~= "thu"@);
            assert(t[0] != "mon"@[0]);
            assert(t[1] != "tue"@[1]);
            assert(t[0] != "wed"@[0]);
        },
        Weekday::Fri => {
            assert(t =~= "fri"@);
            assert(t[0] != "mon"@[0]);
            assert(t[0] != "tue"@[0]);
            assert(t[0] != "wed"@[0]);
            assert(t[0] != "thu"@[0]);
        },
        Weekday::Sat => {
            assert(t =~= "sat"@);
            assert(t[0] != "mon"@[0]);
            assert(t[0] != "tue"@[0]);
            assert(t[0] != "wed"@[0]);
            assert(t[0] != "thu"@[0]);
            assert(t[0] != "fri"@[0]);
        },
        Weekday::Sun => {
            assert(t =~= "sun"@);
            assert(t[0] != "mon"@[0]);
            assert(t[0] != "tue"@[0]);
            assert(t[0] != "wed"@[0]);
            assert(t[0] != "thu"@[0]);
            assert(t[0] != "fri"@[0]);
            assert(t[1] != "sat"@[1]);
        },
    }
}

} // verus!
