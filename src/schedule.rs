use vstd::prelude::*;

verus! {

/// A day of the week, numbered from Monday as 1 to Sunday as 7.
#[derive(Clone, Copy, Debug, PartialEq, Eq, Structural)]
pub enum Weekday {
    Monday,
    Tuesday,
    Wednesday,
    Thursday,
    Friday,
    Saturday,
    Sunday,
}

pub open spec fn weekday_number(d: Weekday) -> int {
    match d {
        Weekday::Monday => 1,
        Weekday::Tuesday => 2,
        Weekday::Wednesday => 3,
        Weekday::Thursday => 4,
        Weekday::Friday => 5,
        Weekday::Saturday => 6,
        Weekday::Sunday => 7,
    }
}

pub open spec fn weekday_of(n: int) -> Option<Weekday> {
    if n == 1 {
        Some(Weekday::Monday)
    } else if n == 2 {
        Some(Weekday::Tuesday)
    } else if n == 3 {
        Some(Weekday::Wednesday)
    } else if n == 4 {
        Some(Weekday::Thursday)
    } else if n == 5 {
        Some(Weekday::Friday)
    } else if n == 6 {
        Some(Weekday::Saturday)
    } else if n == 7 {
        Some(Weekday::Sunday)
    } else {
        None
    }
}

impl Weekday {
    /// The weekday that a stored number names; numbers outside `1..=7` name none.
    pub fn from_number(n: i16) -> (r: Option<Weekday>)
        ensures
            r == weekday_of(n as int),
    {
        match n {
            1 => Some(Weekday::Monday),
            2 => Some(Weekday::Tuesday),
            3 => Some(Weekday::Wednesday),
            4 => Some(Weekday::Thursday),
            5 => Some(Weekday::Friday),
            6 => Some(Weekday::Saturday),
            7 => Some(Weekday::Sunday),
            _ => None,
        }
    }

    /// The number under which this weekday is stored.
    pub fn number_from_monday(&self) -> (r: i16)
        ensures
            r == weekday_number(*self),
    {
        match self {
            Weekday::Monday => 1,
            Weekday::Tuesday => 2,
            Weekday::Wednesday => 3,
            Weekday::Thursday => 4,
            Weekday::Friday => 5,
            Weekday::Saturday => 6,
            Weekday::Sunday => 7,
        }
    }
}

/// Storing a weekday as its number and reading it back gives the same day,
/// and only the numbers `1..=7` name a day.
pub proof fn lemma_weekday_round_trip(d: Weekday, n: int)
    ensures
        weekday_of(weekday_number(d)) == Some(d),
        weekday_of(n) is Some <==> 1 <= n <= 7,
        weekday_of(n) matches Some(e) ==> weekday_number(e) == n,
{
}

} // verus!
