//! The announcement: a fixed text around an album, a date and the group's address.

use crate::album::{Album, AlbumView};
use crate::text::{decimal, render_signed, render_unsigned, signed_decimal};
use vstd::prelude::*;
use vstd::string::StringExecFns;

verus! {

/// A calendar date as plain numbers.
pub struct DateView {
    pub year: int,
    pub month: int,
    pub day: int,
}

/// Whether the month and the day are ones that a calendar has.
pub open spec fn in_range(date: DateView) -> bool {
    1 <= date.month <= 12 && 1 <= date.day <= 31
}

/// A calendar date: a year, a month from 1 to 12, and a day from 1 to 31.
#[derive(Clone, Copy, Debug, PartialEq, Eq)]
pub struct CalendarDate {
    year: i32,
    month: u32,
    day: u32,
}

impl View for CalendarDate {
    type V = DateView;

    closed spec fn view(&self) -> DateView {
        DateView { year: self.year as int, month: self.month as int, day: self.day as int }
    }
}

/// The date as the announcement writes it: month, day and year, with slashes
/// between them and no padding.
pub open spec fn date_text(date: DateView) -> Seq<char> {
    decimal(date.month as nat) + "/"@ + decimal(date.day as nat) + "/"@ + signed_decimal(date.year)
}

/// The announcement of `album` on `date` for the group at `group_url`.
pub open spec fn announcement_text(album: AlbumView, date: DateView, group_url: Seq<char>) -> Seq<
    char,
> {
    "1001albumsgenerator "@ + date_text(date) + "\n\n"@ + album.title + " by "@ + album.artist
        + " ("@ + album.release_year + ")\n\n"@ + album.streaming_link + "\n\nGroup: "@ + group_url
        + "\n"@
}

/// Whether `part` stands in `text`, whole and unbroken.
pub open spec fn holds(text: Seq<char>, part: Seq<char>) -> bool {
    exists|at: int|
        0 <= at && at + part.len() <= text.len() && #[trigger] text.subrange(
            at,
            at + part.len(),
        ) == part
}

proof fn lemma_holds_between(before: Seq<char>, part: Seq<char>, after: Seq<char>)
    ensures
        holds(before + part + after, part),
{
    let text = before + part + after;
    let at = before.len() as int;
    assert(text.subrange(at, at + part.len()) =~= part);
}

/// The announcement holds the date as written and each of the values it is
/// made from, letter for letter.
pub proof fn law_announcement_holds_its_parts(
    album: AlbumView,
    date: DateView,
    group_url: Seq<char>,
)
    ensures
        holds(announcement_text(album, date, group_url), date_text(date)),
        holds(announcement_text(album, date, group_url), album.title),
        holds(announcement_text(album, date, group_url), album.artist),
        holds(announcement_text(album, date, group_url), album.release_year),
        holds(announcement_text(album, date, group_url), album.streaming_link),
        holds(announcement_text(album, date, group_url), group_url),
{
    let text = announcement_text(album, date, group_url);
    let a = "1001albumsgenerator "@;
    let b = "\n\n"@;
    let c = " by "@;
    let d = " ("@;
    let e = ")\n\n"@;
    let f = "\n\nGroup: "@;
    let g = "\n"@;
    let dt = date_text(date);
    let rest1 = b + album.title + c + album.artist + d + album.release_year + e
        + album.streaming_link + f + group_url + g;
    assert(text =~= a + dt + rest1);
    lemma_holds_between(a, dt, rest1);
    let rest2 = c + album.artist + d + album.release_year + e + album.streaming_link + f
        + group_url + g;
    assert(text =~= (a + dt + b) + album.title + rest2);
    lemma_holds_between(a + dt + b, album.title, rest2);
    let rest3 = d + album.release_year + e + album.streaming_link + f + group_url + g;
    assert(text =~= (a + dt + b + album.title + c) + album.artist + rest3);
    lemma_holds_between(a + dt + b + album.title + c, album.artist, rest3);
    let rest4 = e + album.streaming_link + f + group_url + g;
    assert(text =~= (a + dt + b + album.title + c + album.artist + d) + album.release_year
        + rest4);
    lemma_holds_between(
        a + dt + b + album.title + c + album.artist + d,
        album.release_year,
        rest4,
    );
    let rest5 = f + group_url + g;
    assert(text =~= (a + dt + b + album.title + c + album.artist + d + album.release_year + e)
        + album.streaming_link + rest5);
    lemma_holds_between(
        a + dt + b + album.title + c + album.artist + d + album.release_year + e,
        album.streaming_link,
        rest5,
    );
    assert(text =~= (a + dt + b + album.title + c + album.artist + d + album.release_year + e
        + album.streaming_link + f) + group_url + g);
    lemma_holds_between(
        a + dt + b + album.title + c + album.artist + d + album.release_year + e
            + album.streaming_link + f,
        group_url,
        g,
    );
}

impl CalendarDate {
    #[verifier::type_invariant]
    spec fn on_calendar(self) -> bool {
        in_range(self@)
    }

    /// The date of the given year, month and day, unless the month is outside
    /// 1 to 12 or the day outside 1 to 31.
    pub fn new(year: i32, month: u32, day: u32) -> (date: Option<CalendarDate>)
        ensures
            date is Some <==> 1 <= month <= 12 && 1 <= day <= 31,
            date matches Some(made) ==> made@ == (DateView {
                year: year as int,
                month: month as int,
                day: day as int,
            }),
    {
        if 1 <= month && month <= 12 && 1 <= day && day <= 31 {
            Some(CalendarDate { year, month, day })
        } else {
            None
        }
    }

    /// The year.
    pub fn year(&self) -> (year: i32)
        ensures
            year == self@.year,
    {
        self.year
    }

    /// The month, from 1 to 12.
    pub fn month(&self) -> (month: u32)
        ensures
            month == self@.month,
            in_range(self@),
    {
        proof {
            use_type_invariant(self);
        }
        self.month
    }

    /// The day of the month, from 1 to 31.
    pub fn day(&self) -> (day: u32)
        ensures
            day == self@.day,
            in_range(self@),
    {
        proof {
            use_type_invariant(self);
        }
        self.day
    }

    /// The date as the announcement writes it.
    pub fn render(&self) -> (text: String)
        ensures
            text@ == date_text(self@),
    {
        let mut text = render_unsigned(self.month as u64);
        text.append("/");
        text.append(render_unsigned(self.day as u64).as_str());
        text.append("/");
        text.append(render_signed(self.year).as_str());
        text
    }
}

/// Calls `chrono::Local::now` and reads the year, the month and the day of
/// what it gives, through `chrono::Datelike`. Assumed, of every date that the
/// clock can give: the month lies from 1 to 12 and the day from 1 to 31.
#[verifier::external_body]
fn local_date() -> (parts: (i32, u32, u32))
    ensures
        1 <= parts.1 <= 12,
        1 <= parts.2 <= 31,
{
    let now = chrono::Local::now();
    (chrono::Datelike::year(&now), chrono::Datelike::month(&now), chrono::Datelike::day(&now))
}

/// Today's date, by the local clock.
pub fn today() -> (date: CalendarDate)
    ensures
        in_range(date@),
{
    let (year, month, day) = local_date();
    CalendarDate { year, month, day }
}

/// Writes the announcement of `album` on `date` for the group at `group_url`.
pub fn announcement(album: &Album, date: CalendarDate, group_url: &str) -> (text: String)
    ensures
        text@ == announcement_text(album@, date@, group_url@),
{
    let mut text = String::from_str("1001albumsgenerator ");
    text.append(date.render().as_str());
    text.append("\n\n");
    text.append(album.title());
    text.append(" by ");
    text.append(album.artist());
    text.append(" (");
    text.append(album.release_year());
    text.append(")\n\n");
    text.append(album.streaming_link());
    text.append("\n\nGroup: ");
    text.append(group_url);
    text.append("\n");
    text
}

/// Writes today's announcement of `album` for the group at `generator_group_url`.
pub fn get_message(album: &Album, generator_group_url: &str) -> (text: String)
    ensures
        exists|date: DateView|
            in_range(date) && text@ == #[trigger] announcement_text(
                album@,
                date,
                generator_group_url@,
            ),
{
    announcement(album, today(), generator_group_url)
}

} // verus!
