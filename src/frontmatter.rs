use vstd::prelude::*;

verus! {

/// The metadata block that heads a new garden page.
///
/// Its entries are fixed placeholders rather than values taken from the
/// loaded `Config` (the author, for one, is not drawn from its authors); this
/// looks unfinished rather than chosen, and callers should not rely on it.
#[derive(Debug, Clone, PartialEq)]
pub struct Frontmatter {
    pub draft: bool,
    pub title: String,
    pub path: String,
    pub date: String,
    pub author: String,
    pub description: String,
    pub categories: Vec<String>,
    pub keywords: Vec<String>,
    pub garden: String,
    pub image: String,
}

/// The heading that follows the front matter on a new page.
pub const FIRST_HEADING: &'static str = "## First sub Title";

impl Frontmatter {
    /// The draft's fixed placeholder entries: every field but the date. None
    /// of them comes from the loaded configuration.
    pub open spec fn is_draft_template(self) -> bool {
        &&& self.draft
        &&& self.title@ == "This is a String"@
        &&& self.path@ == "/garden/{{slug}}"@
        &&& self.author@ == "talves"@
        &&& self.description@ == "This is just the description"@
        &&& self.categories@.len() == 1
        &&& self.categories@[0]@ == "draft"@
        &&& self.keywords@.len() == 2
        &&& self.keywords@[0]@ == "new"@
        &&& self.keywords@[1]@ == "garden"@
        &&& self.garden@ == "sprout"@
        &&& self.image@ == "/images/social/{{slug}}.png"@
    }

    /// The draft front matter, dated `date`.
    pub fn draft_dated(date: String) -> (r: Frontmatter)
        ensures
            r.is_draft_template(),
            r.date@ == date@,
    {
        let mut categories: Vec<String> = Vec::new();
        categories.push(String::from_str("draft"));
        let mut keywords: Vec<String> = Vec::new();
        keywords.push(String::from_str("new"));
        keywords.push(String::from_str("garden"));
        Frontmatter {
            draft: true,
            title: String::from_str("This is a String"),
            path: String::from_str("/garden/{{slug}}"),
            date,
            author: String::from_str("talves"),
            description: String::from_str("This is just the description"),
            categories,
            keywords,
            garden: String::from_str("sprout"),
            image: String::from_str("/images/social/{{slug}}.png"),
        }
    }

    /// The draft front matter, dated now, in UTC.
    pub fn draft_now() -> (r: Frontmatter)
        ensures
            r.is_draft_template(),
            is_utc_time_text(r.date@),
    {
        Frontmatter::draft_dated(current_time_text())
    }
}

pub open spec fn all_digits(t: Seq<char>, from: int, to: int) -> bool {
    forall|i: int| from <= i < to ==> '0' <= #[trigger] t[i] <= '9'
}

/// A date from the start of `t` up to `end`: the year (four digits, or a sign
/// and at least four digits), `-`, two digits of month, `-`, two of day.
pub open spec fn is_date_text(t: Seq<char>, end: int) -> bool {
    &&& 10 <= end <= t.len()
    &&& t[end - 6] == '-' && all_digits(t, end - 5, end - 3)
    &&& t[end - 3] == '-' && all_digits(t, end - 2, end)
    &&& (end == 10 && all_digits(t, 0, 4)) || (end >= 11 && (t[0] == '+' || t[0] == '-') && all_digits(
        t,
        1,
        end - 6,
    ))
}

/// A time of day from `start` up to `end`: `HH:MM:SS`, then optionally `.`
/// and three, six or nine digits of fraction.
pub open spec fn is_clock_text(t: Seq<char>, start: int, end: int) -> bool {
    &&& 0 <= start && start + 8 <= end <= t.len()
    &&& all_digits(t, start, start + 2) && t[start + 2] == ':'
    &&& all_digits(t, start + 3, start + 5) && t[start + 5] == ':'
    &&& all_digits(t, start + 6, start + 8)
    &&& end - start == 8 || ((end - start == 12 || end - start == 15 || end - start == 18) && t[start + 8]
        == '.' && all_digits(t, start + 9, end))
}

/// A date, a space, a time of day `clock_len` characters long, and ` UTC`.
pub open spec fn is_utc_time_text_of_len(t: Seq<char>, clock_len: int) -> bool {
    let n = t.len() as int;
    let date_end = n - 4 - clock_len - 1;
    &&& n >= 4 && t.subrange(n - 4, n) == " UTC"@
    &&& is_date_text(t, date_end)
    &&& t[date_end] == ' '
    &&& is_clock_text(t, date_end + 1, n - 4)
}

/// Text in the shape in which chrono writes a UTC date and time, such as
/// `2024-01-02 03:04:05.678 UTC`.
pub open spec fn is_utc_time_text(t: Seq<char>) -> bool {
    ||| is_utc_time_text_of_len(t, 8)
    ||| is_utc_time_text_of_len(t, 12)
    ||| is_utc_time_text_of_len(t, 15)
    ||| is_utc_time_text_of_len(t, 18)
}

/// Relies on chrono's `From<SystemTime>` for `DateTime<Utc>`, which also
/// takes clocks that read before 1970, and on the `Display` of
/// chrono::DateTime: the `Display` of NaiveDate (the year as four digits, or
/// signed when outside 0 to 9999, then `-MM-DD`), a space, the `Display` of
/// NaiveTime (`HH:MM:SS`, with `.` and three, six or nine digits when the
/// fraction is not zero), a space, and `UTC`. The time itself is not known.
#[verifier::external_body]
fn current_time_text() -> (r: String)
    ensures
        is_utc_time_text(r@),
{
    chrono::DateTime::<chrono::Utc>::from(std::time::SystemTime::now()).to_string()
}

/// The opening of a new page: the serialized front matter between two `---`
/// lines, a blank line, and the first heading.
pub fn render_page(front_matter: &str) -> (r: String)
    ensures
        r@ == "---\n"@ + front_matter@ + "---\n\n"@ + FIRST_HEADING@,
{
    let mut page = String::from_str("---\n");
    page.append(front_matter);
    page.append("---\n\n");
    page.append(FIRST_HEADING);
    page
}

} // verus!
