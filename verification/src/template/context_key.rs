//! The names under which a resolved message is handed to a template.
//!
//! Besides its name each key has a description, and either an example of
//! its value or, for the keys that show the time of the message, the format
//! in which the time is written.

use vstd::prelude::*;
use vstd::string::*;

verus! {

/// A value that a template can refer to.
#[derive(Clone, Copy, Debug, PartialEq, Eq, Structural)]
pub enum ContextKey {
    /// `channel_name`: The name of the channel the message belongs to.
    ChannelName,
    /// `user_name`: The name of the user who posted the message.
    UserName,
    /// `url`: The Slack URL of the message.
    Url,
    /// `text`: The text of the message, which is the vector of the texts split by the new line.
    Text,
    /// `html`: The text of the message, rendered as HTML.
    Html,
    /// `timestamp`: The timestamp of the message.
    Timestamp,
    /// `iso_date`: Equivalent to '%Y-%m-%d'.
    IsoDate,
    /// `clock`: Equivalent to '%H:%M:%S'.
    Clock,
    /// `year`: A full year, including century. Zero padded to 4 digits.
    Year,
    /// `year_2digit`: A two-digit year. Represents only 1969-2068. Zero padded.
    Year2Digit,
    /// `month`: The full month name.
    Month,
    /// `month_abbrev`: The abbreviated month name,.
    MonthAbbrev,
    /// `month_2digit`: The month. Zero padded.
    Month2Digit,
    /// `day`: The day of the month. Zero-padded.
    Day,
    /// `day_space`: The day of the month. Space padded.
    DaySpace,
    /// `hour24`: The hour in a 24 hour clock. Zero padded.
    Hour24,
    /// `hour12`: The hour in a 12 hour clock. Zero padded.
    Hour12,
    /// `minute`: The minute. Zero padded.
    Minute,
    /// `second`: The second. Zero padded.
    Second,
    /// `ampm`: Whether the time is in the AM or PM, uppercase.
    AmPm,
    /// `ampm_lower`: Whether the time is in the AM or PM, lowercase.
    AmPmLower,
    /// `weekday`: The full weekday.
    Weekday,
    /// `weekday_abbrev`: The abbreviated weekday.
    WeekdayAbbrev,
    /// `tz_iana`: An IANA time zone identifier, or '%z' if one doesn't exist.
    TzIana,
    /// `tz_abbrev`: A time zone abbreviation. Supported when formatting only.
    TzAbbrev,
    /// `offset`: A time zone offset in the format '[+-]HHMM[SS]'.
    Offset,
    /// `offset_colon`: A time zone offset in the format '[+-]HH:MM[:SS]'.
    OffsetColon,
}

impl ContextKey {
    /// The name of the key.
    pub open spec fn name(self) -> Seq<char> {
        match self {
            ContextKey::ChannelName => "channel_name"@,
            ContextKey::UserName => "user_name"@,
            ContextKey::Url => "url"@,
            ContextKey::Text => "text"@,
            ContextKey::Html => "html"@,
            ContextKey::Timestamp => "timestamp"@,
            ContextKey::IsoDate => "iso_date"@,
            ContextKey::Clock => "clock"@,
            ContextKey::Year => "year"@,
            ContextKey::Year2Digit => "year_2digit"@,
            ContextKey::Month => "month"@,
            ContextKey::MonthAbbrev => "month_abbrev"@,
            ContextKey::Month2Digit => "month_2digit"@,
            ContextKey::Day => "day"@,
            ContextKey::DaySpace => "day_space"@,
            ContextKey::Hour24 => "hour24"@,
            ContextKey::Hour12 => "hour12"@,
            ContextKey::Minute => "minute"@,
            ContextKey::Second => "second"@,
            ContextKey::AmPm => "ampm"@,
            ContextKey::AmPmLower => "ampm_lower"@,
            ContextKey::Weekday => "weekday"@,
            ContextKey::WeekdayAbbrev => "weekday_abbrev"@,
            ContextKey::TzIana => "tz_iana"@,
            ContextKey::TzAbbrev => "tz_abbrev"@,
            ContextKey::Offset => "offset"@,
            ContextKey::OffsetColon => "offset_colon"@,
        }
    }

    /// The format in which the key writes the time, for a key that shows the time.
    pub open spec fn time_format(self) -> Option<Seq<char>> {
        match self {
            ContextKey::ChannelName => None,
            ContextKey::UserName => None,
            ContextKey::Url => None,
            ContextKey::Text => None,
            ContextKey::Html => None,
            ContextKey::Timestamp => Some("%Y-%m-%d %H:%M:%S (%Z)"@),
            ContextKey::IsoDate => Some("%F"@),
            ContextKey::Clock => Some("%T"@),
            ContextKey::Year => Some("%Y"@),
            ContextKey::Year2Digit => Some("%y"@),
            ContextKey::Month => Some("%B"@),
            ContextKey::MonthAbbrev => Some("%b"@),
            ContextKey::Month2Digit => Some("%m"@),
            ContextKey::Day => Some("%d"@),
            ContextKey::DaySpace => Some("%e"@),
            ContextKey::Hour24 => Some("%H"@),
            ContextKey::Hour12 => Some("%I"@),
            ContextKey::Minute => Some("%M"@),
            ContextKey::Second => Some("%S"@),
            ContextKey::AmPm => Some("%p"@),
            ContextKey::AmPmLower => Some("%P"@),
            ContextKey::Weekday => Some("%A"@),
            ContextKey::WeekdayAbbrev => Some("%a"@),
            ContextKey::TzIana => Some("%V"@),
            ContextKey::TzAbbrev => Some("%Z"@),
            ContextKey::Offset => Some("%z"@),
            ContextKey::OffsetColon => Some("%:z"@),
        }
    }

    /// What the key stands for.
    pub open spec fn key_description(self) -> Seq<char> {
        match self {
            ContextKey::ChannelName => "The name of the channel the message belongs to."@,
            ContextKey::UserName => "The name of the user who posted the message."@,
            ContextKey::Url => "The Slack URL of the message."@,
            ContextKey::Text => "The text of the message, which is the vector of the texts split by the new line."@,
            ContextKey::Html => "The text of the message, rendered as HTML."@,
            ContextKey::Timestamp => "The timestamp of the message."@,
            ContextKey::IsoDate => "Equivalent to `%Y-%m-%d`."@,
            ContextKey::Clock => "Equivalent to `%H:%M:%S`."@,
            ContextKey::Year => "A full year, including century. Zero padded to 4 digits."@,
            ContextKey::Year2Digit => "A two-digit year. Represents only 1969-2068. Zero padded."@,
            ContextKey::Month => "The full month name."@,
            ContextKey::MonthAbbrev => "The abbreviated month name,."@,
            ContextKey::Month2Digit => "The month. Zero padded."@,
            ContextKey::Day => "The day of the month. Zero-padded."@,
            ContextKey::DaySpace => "The day of the month. Space padded."@,
            ContextKey::Hour24 => "The hour in a 24 hour clock. Zero padded."@,
            ContextKey::Hour12 => "The hour in a 12 hour clock. Zero padded."@,
            ContextKey::Minute => "The minute. Zero padded."@,
            ContextKey::Second => "The second. Zero padded."@,
            ContextKey::AmPm => "Whether the time is in the AM or PM, uppercase."@,
            ContextKey::AmPmLower => "Whether the time is in the AM or PM, lowercase."@,
            ContextKey::Weekday => "The full weekday."@,
            ContextKey::WeekdayAbbrev => "The abbreviated weekday."@,
            ContextKey::TzIana => "An IANA time zone identifier, or `%z` if one doesn't exist."@,
            ContextKey::TzAbbrev => "A time zone abbreviation. Supported when formatting only."@,
            ContextKey::Offset => "A time zone offset in the format `[+-]HHMM[SS]`."@,
            ContextKey::OffsetColon => "A time zone offset in the format `[+-]HH:MM[:SS]`."@,
        }
    }

    /// An example of the value of a key that does not show the time.
    pub open spec fn key_example(self) -> Option<Seq<char>> {
        match self {
            ContextKey::ChannelName => Some("general"@),
            ContextKey::UserName => Some("John Doe"@),
            ContextKey::Url => Some("https://xxx.slack.com/archives/..."@),
            ContextKey::Text => Some("Hello, world!"@),
            ContextKey::Html => Some("<p>Hello, world!</p>"@),
            ContextKey::Timestamp => None,
            ContextKey::IsoDate => None,
            ContextKey::Clock => None,
            ContextKey::Year => None,
            ContextKey::Year2Digit => None,
            ContextKey::Month => None,
            ContextKey::MonthAbbrev => None,
            ContextKey::Month2Digit => None,
            ContextKey::Day => None,
            ContextKey::DaySpace => None,
            ContextKey::Hour24 => None,
            ContextKey::Hour12 => None,
            ContextKey::Minute => None,
            ContextKey::Second => None,
            ContextKey::AmPm => None,
            ContextKey::AmPmLower => None,
            ContextKey::Weekday => None,
            ContextKey::WeekdayAbbrev => None,
            ContextKey::TzIana => None,
            ContextKey::TzAbbrev => None,
            ContextKey::Offset => None,
            ContextKey::OffsetColon => None,
        }
    }

    /// The property `property` of the key: its `format`, `description` or
    /// `example`, where it has one.
    pub open spec fn property(self, property: Seq<char>) -> Option<Seq<char>> {
        if property == "format"@ {
            self.time_format()
        } else if property == "description"@ {
            Some(self.key_description())
        } else if property == "example"@ {
            self.key_example()
        } else {
            None
        }
    }

    /// The name of the key.
    pub fn as_ref(&self) -> (out: &'static str)
        ensures
            out@ == self.name(),
    {
        match self {
            ContextKey::ChannelName => "channel_name",
            ContextKey::UserName => "user_name",
            ContextKey::Url => "url",
            ContextKey::Text => "text",
            ContextKey::Html => "html",
            ContextKey::Timestamp => "timestamp",
            ContextKey::IsoDate => "iso_date",
            ContextKey::Clock => "clock",
            ContextKey::Year => "year",
            ContextKey::Year2Digit => "year_2digit",
            ContextKey::Month => "month",
            ContextKey::MonthAbbrev => "month_abbrev",
            ContextKey::Month2Digit => "month_2digit",
            ContextKey::Day => "day",
            ContextKey::DaySpace => "day_space",
            ContextKey::Hour24 => "hour24",
            ContextKey::Hour12 => "hour12",
            ContextKey::Minute => "minute",
            ContextKey::Second => "second",
            ContextKey::AmPm => "ampm",
            ContextKey::AmPmLower => "ampm_lower",
            ContextKey::Weekday => "weekday",
            ContextKey::WeekdayAbbrev => "weekday_abbrev",
            ContextKey::TzIana => "tz_iana",
            ContextKey::TzAbbrev => "tz_abbrev",
            ContextKey::Offset => "offset",
            ContextKey::OffsetColon => "offset_colon",
        }
    }

    /// The format in which the key writes the time, for a key that shows the time.
    pub fn format(&self) -> (out: Option<&'static str>)
        ensures
            out.deep_view() == self.time_format(),
    {
        match self {
            ContextKey::ChannelName => None,
            ContextKey::UserName => None,
            ContextKey::Url => None,
            ContextKey::Text => None,
            ContextKey::Html => None,
            ContextKey::Timestamp => Some("%Y-%m-%d %H:%M:%S (%Z)"),
            ContextKey::IsoDate => Some("%F"),
            ContextKey::Clock => Some("%T"),
            ContextKey::Year => Some("%Y"),
            ContextKey::Year2Digit => Some("%y"),
            ContextKey::Month => Some("%B"),
            ContextKey::MonthAbbrev => Some("%b"),
            ContextKey::Month2Digit => Some("%m"),
            ContextKey::Day => Some("%d"),
            ContextKey::DaySpace => Some("%e"),
            ContextKey::Hour24 => Some("%H"),
            ContextKey::Hour12 => Some("%I"),
            ContextKey::Minute => Some("%M"),
            ContextKey::Second => Some("%S"),
            ContextKey::AmPm => Some("%p"),
            ContextKey::AmPmLower => Some("%P"),
            ContextKey::Weekday => Some("%A"),
            ContextKey::WeekdayAbbrev => Some("%a"),
            ContextKey::TzIana => Some("%V"),
            ContextKey::TzAbbrev => Some("%Z"),
            ContextKey::Offset => Some("%z"),
            ContextKey::OffsetColon => Some("%:z"),
        }
    }

    /// What the key stands for.
    pub fn description(&self) -> (out: &'static str)
        ensures
            out@ == self.key_description(),
    {
        match self {
            ContextKey::ChannelName => "The name of the channel the message belongs to.",
            ContextKey::UserName => "The name of the user who posted the message.",
            ContextKey::Url => "The Slack URL of the message.",
            ContextKey::Text => "The text of the message, which is the vector of the texts split by the new line.",
            ContextKey::Html => "The text of the message, rendered as HTML.",
            ContextKey::Timestamp => "The timestamp of the message.",
            ContextKey::IsoDate => "Equivalent to `%Y-%m-%d`.",
            ContextKey::Clock => "Equivalent to `%H:%M:%S`.",
            ContextKey::Year => "A full year, including century. Zero padded to 4 digits.",
            ContextKey::Year2Digit => "A two-digit year. Represents only 1969-2068. Zero padded.",
            ContextKey::Month => "The full month name.",
            ContextKey::MonthAbbrev => "The abbreviated month name,.",
            ContextKey::Month2Digit => "The month. Zero padded.",
            ContextKey::Day => "The day of the month. Zero-padded.",
            ContextKey::DaySpace => "The day of the month. Space padded.",
            ContextKey::Hour24 => "The hour in a 24 hour clock. Zero padded.",
            ContextKey::Hour12 => "The hour in a 12 hour clock. Zero padded.",
            ContextKey::Minute => "The minute. Zero padded.",
            ContextKey::Second => "The second. Zero padded.",
            ContextKey::AmPm => "Whether the time is in the AM or PM, uppercase.",
            ContextKey::AmPmLower => "Whether the time is in the AM or PM, lowercase.",
            ContextKey::Weekday => "The full weekday.",
            ContextKey::WeekdayAbbrev => "The abbreviated weekday.",
            ContextKey::TzIana => "An IANA time zone identifier, or `%z` if one doesn't exist.",
            ContextKey::TzAbbrev => "A time zone abbreviation. Supported when formatting only.",
            ContextKey::Offset => "A time zone offset in the format `[+-]HHMM[SS]`.",
            ContextKey::OffsetColon => "A time zone offset in the format `[+-]HH:MM[:SS]`.",
        }
    }

    /// An example of the value of a key that does not show the time.
    pub fn example(&self) -> (out: Option<&'static str>)
        ensures
            out.deep_view() == self.key_example(),
    {
        match self {
            ContextKey::ChannelName => Some("general"),
            ContextKey::UserName => Some("John Doe"),
            ContextKey::Url => Some("https://xxx.slack.com/archives/..."),
            ContextKey::Text => Some("Hello, world!"),
            ContextKey::Html => Some("<p>Hello, world!</p>"),
            ContextKey::Timestamp => None,
            ContextKey::IsoDate => None,
            ContextKey::Clock => None,
            ContextKey::Year => None,
            ContextKey::Year2Digit => None,
            ContextKey::Month => None,
            ContextKey::MonthAbbrev => None,
            ContextKey::Month2Digit => None,
            ContextKey::Day => None,
            ContextKey::DaySpace => None,
            ContextKey::Hour24 => None,
            ContextKey::Hour12 => None,
            ContextKey::Minute => None,
            ContextKey::Second => None,
            ContextKey::AmPm => None,
            ContextKey::AmPmLower => None,
            ContextKey::Weekday => None,
            ContextKey::WeekdayAbbrev => None,
            ContextKey::TzIana => None,
            ContextKey::TzAbbrev => None,
            ContextKey::Offset => None,
            ContextKey::OffsetColon => None,
        }
    }

    /// The property `property` of the key: its `format`, `description` or
    /// `example`, where it has one.
    pub fn get_str(&self, property: &str) -> (out: Option<&'static str>)
        ensures
            out.deep_view() == self.property(property@),
    {
        let wanted = String::from_str(property);
        if wanted == String::from_str("format") {
            self.format()
        } else if wanted == String::from_str("description") {
            Some(self.description())
        } else if wanted == String::from_str("example") {
            self.example()
        } else {
            None
        }
    }

    /// All keys, in the order in which they are documented.
    pub fn variants() -> (all: Vec<ContextKey>)
        ensures
            all@ == Self::all(),
    {
        let mut all: Vec<ContextKey> = Vec::new();
        all.push(ContextKey::ChannelName);
        all.push(ContextKey::UserName);
        all.push(ContextKey::Url);
        all.push(ContextKey::Text);
        all.push(ContextKey::Html);
        all.push(ContextKey::Timestamp);
        all.push(ContextKey::IsoDate);
        all.push(ContextKey::Clock);
        all.push(ContextKey::Year);
        all.push(ContextKey::Year2Digit);
        all.push(ContextKey::Month);
        all.push(ContextKey::MonthAbbrev);
        all.push(ContextKey::Month2Digit);
        all.push(ContextKey::Day);
        all.push(ContextKey::DaySpace);
        all.push(ContextKey::Hour24);
        all.push(ContextKey::Hour12);
        all.push(ContextKey::Minute);
        all.push(ContextKey::Second);
        all.push(ContextKey::AmPm);
        all.push(ContextKey::AmPmLower);
        all.push(ContextKey::Weekday);
        all.push(ContextKey::WeekdayAbbrev);
        all.push(ContextKey::TzIana);
        all.push(ContextKey::TzAbbrev);
        all.push(ContextKey::Offset);
        all.push(ContextKey::OffsetColon);
        assert(all@ =~= Self::all());
        all
    }

    /// All keys, in the order in which they are documented.
    pub open spec fn all() -> Seq<ContextKey> {
        seq![
            ContextKey::ChannelName,
            ContextKey::UserName,
            ContextKey::Url,
            ContextKey::Text,
            ContextKey::Html,
            ContextKey::Timestamp,
            ContextKey::IsoDate,
            ContextKey::Clock,
            ContextKey::Year,
            ContextKey::Year2Digit,
            ContextKey::Month,
            ContextKey::MonthAbbrev,
            ContextKey::Month2Digit,
            ContextKey::Day,
            ContextKey::DaySpace,
            ContextKey::Hour24,
            ContextKey::Hour12,
            ContextKey::Minute,
            ContextKey::Second,
            ContextKey::AmPm,
            ContextKey::AmPmLower,
            ContextKey::Weekday,
            ContextKey::WeekdayAbbrev,
            ContextKey::TzIana,
            ContextKey::TzAbbrev,
            ContextKey::Offset,
            ContextKey::OffsetColon,
        ]
    }

    /// The keys that show the time of the message.
    pub open spec fn clock() -> Seq<ContextKey> {
        seq![
            ContextKey::Timestamp,
            ContextKey::IsoDate,
            ContextKey::Clock,
            ContextKey::Year,
            ContextKey::Year2Digit,
            ContextKey::Month,
            ContextKey::MonthAbbrev,
            ContextKey::Month2Digit,
            ContextKey::Day,
            ContextKey::DaySpace,
            ContextKey::Hour24,
            ContextKey::Hour12,
            ContextKey::Minute,
            ContextKey::Second,
            ContextKey::AmPm,
            ContextKey::AmPmLower,
            ContextKey::Weekday,
            ContextKey::WeekdayAbbrev,
            ContextKey::TzIana,
            ContextKey::TzAbbrev,
            ContextKey::Offset,
            ContextKey::OffsetColon,
        ]
    }

    /// The keys that show the time of the message, in the order in which
    /// they are documented.
    pub fn clock_keys() -> (keys: Vec<ContextKey>)
        ensures
            keys@ == Self::clock(),
            forall|i: int| 0 <= i < keys.len() ==> (#[trigger] keys[i]).time_format() is Some,
    {
        let mut keys: Vec<ContextKey> = Vec::new();
        keys.push(ContextKey::Timestamp);
        keys.push(ContextKey::IsoDate);
        keys.push(ContextKey::Clock);
        keys.push(ContextKey::Year);
        keys.push(ContextKey::Year2Digit);
        keys.push(ContextKey::Month);
        keys.push(ContextKey::MonthAbbrev);
        keys.push(ContextKey::Month2Digit);
        keys.push(ContextKey::Day);
        keys.push(ContextKey::DaySpace);
        keys.push(ContextKey::Hour24);
        keys.push(ContextKey::Hour12);
        keys.push(ContextKey::Minute);
        keys.push(ContextKey::Second);
        keys.push(ContextKey::AmPm);
        keys.push(ContextKey::AmPmLower);
        keys.push(ContextKey::Weekday);
        keys.push(ContextKey::WeekdayAbbrev);
        keys.push(ContextKey::TzIana);
        keys.push(ContextKey::TzAbbrev);
        keys.push(ContextKey::Offset);
        keys.push(ContextKey::OffsetColon);
        assert(keys@ =~= Self::clock());
        keys
    }
}

} // verus!
