use vstd::prelude::*;
use crate::text::{decimal, decimal_string, digit_spec};

verus! {

/// An answer: a title and its text.
#[derive(Debug)]
pub struct Post {
    pub title: String,
    pub content: String,
}

impl View for Post {
    type V = (Seq<char>, Seq<char>);

    open spec fn view(&self) -> (Seq<char>, Seq<char>) {
        (self.title@, self.content@)
    }
}

impl Post {
    pub fn new(title: String, content: String) -> (r: Post)
        ensures
            r@ == (title@, content@),
    {
        Post { title, content }
    }

    /// A copy of this post.
    pub fn duplicate(&self) -> (r: Post)
        ensures
            r@ == self@,
    {
        Post { title: self.title.clone(), content: self.content.clone() }
    }
}

/// How `bytesize` writes a number of bytes (`ByteSize::b(n)` displayed).
pub uninterp spec fn byte_size_text(n: u64) -> Seq<char>;

/// Two decimal digits for `n` (`n < 100`), with a leading zero, as `%H` and
/// `%M` write them.
pub open spec fn two_digits(n: int) -> Seq<char> {
    seq![digit_spec((n / 10) as nat), digit_spec((n % 10) as nat)]
}

/// The hour and minute of the UTC time `ts` seconds after the Epoch, written
/// in the format `%H hours and %M minutes`.
pub open spec fn clock_text(ts: int) -> Seq<char> {
    two_digits((ts % 86400) / 3600) + " hours and "@ + two_digits((ts % 3600) / 60) + " minutes"@
}

/// `bytesize::ByteSize::b(n)` displayed. Claims only that the result is the
/// crate's, named `byte_size_text`; the unit and rounding it picks are left
/// unsaid.
#[verifier::external_body]
fn byte_size_string(n: u64) -> (r: String)
    ensures
        r@ == byte_size_text(n),
{
    bytesize::ByteSize::b(n).to_string()
}

/// `time_format::format_common_utc(ts, DateFormat::Custom("%H hours and %M
/// minutes"))`, its error turned into `None`: the C library's `gmtime_r`
/// breaks the timestamp down, and `strftime` writes the hour and minute as
/// two digits each. Which timestamps `gmtime_r` refuses is the C library's
/// and the machine's, so that is left unsaid; where it gives a text, the
/// text is stated.
#[verifier::external_body]
fn hours_minutes_string(ts: i64) -> (r: Option<String>)
    ensures
        r matches Some(t) ==> t@ == clock_text(ts as int),
{
    time_format::format_common_utc(ts, time_format::DateFormat::Custom("%H hours and %M minutes")).ok()
}

/// What the server answers to a post it got from a signed-in account.
#[derive(Debug, PartialEq, Eq)]
pub enum PublishingResult {
    Published,
    PostTooLarge { max_post_size: u64, max_title_size: u64 },
    Timeout { time_remaining: u64 },
}

/// The text shown for the wait before publishing again, where the time
/// could not be written.
pub open spec fn unknown_wait_text() -> Seq<char> {
    "and I don't know how long 'cause I couldn't parse the time"@
}

/// The message for a refusal to publish before `time_remaining` has passed,
/// given the text shown for the wait.
pub open spec fn timeout_text(wait: Seq<char>) -> Seq<char> {
    "You need to wait "@ + wait + " until you can publish another post\n"@
}

/// The message for a refusal to publish yet, given the wait as written from
/// the time left (`None` where it could not be written).
pub fn timeout_message(wait: Option<String>) -> (r: String)
    ensures
        r@ == timeout_text(
            match wait {
                Some(t) => t@,
                None => unknown_wait_text(),
            },
        ),
{
    proof {
        reveal_strlit("You need to wait ");
        reveal_strlit(" until you can publish another post\n");
        reveal_strlit("and I don't know how long 'cause I couldn't parse the time");
    }
    let mut m = String::from_str("You need to wait ");
    match wait {
        Some(t) => m.append(t.as_str()),
        None => m.append("and I don't know how long 'cause I couldn't parse the time"),
    }
    m.append(" until you can publish another post\n");
    m
}

impl PublishingResult {
    /// The message shown for this answer.
    pub fn message(&self) -> (r: String)
        ensures
            !(self is Timeout) ==> r@ == match self {
                PublishingResult::Published => "The post was published successfully"@,
                PublishingResult::PostTooLarge { max_post_size, max_title_size } =>
                    "The server rejected your post because part of it was too large;\nMake sure:\n    - The content is within "@
                        + byte_size_text(*max_post_size) + "\n    - The title is within "@ + decimal(
                        *max_title_size as nat,
                    ) + " characters\n"@,
                PublishingResult::Timeout { .. } => Seq::empty(),
            },
            self matches PublishingResult::Timeout { time_remaining } ==> {
                ||| r@ == timeout_text(clock_text((time_remaining as i64) as int))
                ||| r@ == timeout_text(unknown_wait_text())
            },
    {
        match self {
            PublishingResult::Published => String::from_str("The post was published successfully"),
            PublishingResult::PostTooLarge { max_post_size, max_title_size } => {
                let mut m = String::from_str(
                    "The server rejected your post because part of it was too large;\nMake sure:\n    - The content is within ",
                );
                let b = byte_size_string(*max_post_size);
                m.append(b.as_str());
                m.append("\n    - The title is within ");
                let d = decimal_string(*max_title_size);
                m.append(d.as_str());
                m.append(" characters\n");
                m
            },
            PublishingResult::Timeout { time_remaining } => {
                let ts = *time_remaining as i64;
                timeout_message(hours_minutes_string(ts))
            },
        }
    }
}

/// The server's refusal of a post whose content is too large.
#[derive(Debug, PartialEq, Eq)]
pub struct PostSizeExceptionError {
    pub max_post_size: u64,
}

impl PostSizeExceptionError {
    /// The message shown for this refusal.
    pub fn message(&self) -> (r: String)
        ensures
            r@ == "The server rejected your post because part of it was too large;\nMake sure:\n    - The content is within "@
                + byte_size_text(self.max_post_size) + "\n"@,
    {
        let mut m = String::from_str(
            "The server rejected your post because part of it was too large;\nMake sure:\n    - The content is within ",
        );
        let b = byte_size_string(self.max_post_size);
        m.append(b.as_str());
        m.append("\n");
        m
    }
}

/// The head of a post being written: its title.
#[derive(Debug)]
pub struct DraftHeader {
    pub title: String,
}

/// A post as shown on its own: the title, an empty line, the text, and a
/// line break.
pub open spec fn post_page(p: (Seq<char>, Seq<char>)) -> Seq<char> {
    p.0 + seq!['\n', '\n'] + p.1 + seq!['\n']
}

impl Post {
    /// The post as printed on its own.
    pub fn page(&self) -> (r: String)
        ensures
            r@ == post_page(self@),
    {
        proof {
            reveal_strlit("\n\n");
            reveal_strlit("\n");
        }
        let mut s = self.title.clone();
        s.append("\n\n");
        s.append(self.content.as_str());
        s.append("\n");
        s
    }
}

} // verus!
