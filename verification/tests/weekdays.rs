use ayame::weekday::Weekday;

#[test]
fn parse_reads_short_names() {
    assert_eq!(Weekday::parse("Mon"), Some(Weekday::Mon));
    assert_eq!(Weekday::parse("Tue"), Some(Weekday::Tue));
    assert_eq!(Weekday::parse("Wed"), Some(Weekday::Wed));
    assert_eq!(Weekday::parse("Thu"), Some(Weekday::Thu));
    assert_eq!(Weekday::parse("Fri"), Some(Weekday::Fri));
    assert_eq!(Weekday::parse("Sat"), Some(Weekday::Sat));
    assert_eq!(Weekday::parse("Sun"), Some(Weekday::Sun));
}

#[test]
fn parse_reads_full_names() {
    assert_eq!(Weekday::parse("Monday"), Some(Weekday::Mon));
    assert_eq!(Weekday::parse("Tuesday"), Some(Weekday::Tue));
    assert_eq!(Weekday::parse("Wednesday"), Some(Weekday::Wed));
    assert_eq!(Weekday::parse("Thursday"), Some(Weekday::Thu));
    assert_eq!(Weekday::parse("Friday"), Some(Weekday::Fri));
    assert_eq!(Weekday::parse("Saturday"), Some(Weekday::Sat));
    assert_eq!(Weekday::parse("Sunday"), Some(Weekday::Sun));
}

#[test]
fn parse_ignores_case() {
    assert_eq!(Weekday::parse("mON"), Some(Weekday::Mon));
    assert_eq!(Weekday::parse("wed"), Some(Weekday::Wed));
    assert_eq!(Weekday::parse("WEDNESDAY"), Some(Weekday::Wed));
    assert_eq!(Weekday::parse("sUnDaY"), Some(Weekday::Sun));
}

#[test]
fn parse_turns_down_everything_else() {
    assert_eq!(Weekday::parse(""), None);
    assert_eq!(Weekday::parse("mo"), None);
    assert_eq!(Weekday::parse("thurs"), None);
    assert_eq!(Weekday::parse("any day"), None);
    assert_eq!(Weekday::parse("Mon "), None);
    assert_eq!(Weekday::parse(" Mon"), None);
    assert_eq!(Weekday::parse("Mondays"), None);
    assert_eq!(Weekday::parse("Montag"), None);
    assert_eq!(Weekday::parse("Wednesda"), None);
    assert_eq!(Weekday::parse("620"), None);
    assert_eq!(Weekday::parse("mön"), None);
}

#[test]
fn code_is_the_short_name() {
    assert_eq!(Weekday::Mon.code(), "Mon");
    assert_eq!(Weekday::Tue.code(), "Tue");
    assert_eq!(Weekday::Wed.code(), "Wed");
    assert_eq!(Weekday::Thu.code(), "Thu");
    assert_eq!(Weekday::Fri.code(), "Fri");
    assert_eq!(Weekday::Sat.code(), "Sat");
    assert_eq!(Weekday::Sun.code(), "Sun");
}

#[test]
fn code_of_a_day_is_read_back() {
    for day in Weekday::all() {
        assert_eq!(Weekday::parse(&day.code()), Some(day));
        assert_eq!(Weekday::parse(day.label()), Some(day));
    }
}

#[test]
fn week_starts_on_monday() {
    assert_eq!(
        Weekday::all(),
        vec![
            Weekday::Mon,
            Weekday::Tue,
            Weekday::Wed,
            Weekday::Thu,
            Weekday::Fri,
            Weekday::Sat,
            Weekday::Sun,
        ]
    );
}

#[test]
fn labels_are_full_names() {
    assert_eq!(Weekday::Mon.label(), "Monday");
    assert_eq!(Weekday::Tue.label(), "Tuesday");
    assert_eq!(Weekday::Wed.label(), "Wednesday");
    assert_eq!(Weekday::Thu.label(), "Thursday");
    assert_eq!(Weekday::Fri.label(), "Friday");
    assert_eq!(Weekday::Sat.label(), "Saturday");
    assert_eq!(Weekday::Sun.label(), "Sunday");
}
