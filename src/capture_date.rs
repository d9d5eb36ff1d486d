//! The capture date of a photo, read from the metadata tool's output.
use vstd::prelude::*;
use crate::error::{ImportError, ToolOutcome};
use crate::fingerprint::digit_chars;
use crate::text::{chars_of, string_of};

verus! {

/// A calendar date as the metadata tool wrote it; the values are not checked
/// against the calendar.
#[derive(Debug, Clone, Copy, PartialEq, Eq)]
pub struct CaptureDate {
    pub year: u16,
    pub month: u8,
    pub day: u8,
}

impl CaptureDate {
    /// Each part fits its number of digits.
    pub open spec fn wf(self) -> bool {
        self.year <= 9999 && self.month <= 99 && self.day <= 99
    }
}

pub open spec fn is_digit(c: char) -> bool {
    48 <= c as u32 <= 57
}

pub open spec fn digit_value(c: char) -> int {
    c as u32 - 48
}

/// `s` holds a date of the shape `DDDD:DD:DD` at `i`.
pub open spec fn is_date_at(s: Seq<char>, i: int) -> bool {
    &&& 0 <= i
    &&& i + 10 <= s.len()
    &&& is_digit(s[i]) && is_digit(s[i + 1]) && is_digit(s[i + 2]) && is_digit(s[i + 3])
    &&& s[i + 4] == ':'
    &&& is_digit(s[i + 5]) && is_digit(s[i + 6])
    &&& s[i + 7] == ':'
    &&& is_digit(s[i + 8]) && is_digit(s[i + 9])
}

/// The leftmost date in `s` starts at `i`.
pub open spec fn is_first_date_at(s: Seq<char>, i: int) -> bool {
    is_date_at(s, i) && forall|j: int| 0 <= j < i ==> !is_date_at(s, j)
}

pub open spec fn has_date(s: Seq<char>) -> bool {
    exists|i: int| is_date_at(s, i)
}

/// Where the leftmost date of `s` starts, where there is one.
pub open spec fn first_date_index(s: Seq<char>) -> int {
    choose|i: int| is_first_date_at(s, i)
}

/// The leftmost date of `s`, where there is one.
pub open spec fn parsed_date(s: Seq<char>) -> CaptureDate {
    date_read_at(s, first_date_index(s))
}

proof fn lemma_first_date_unique(s: Seq<char>, i: int)
    requires
        is_first_date_at(s, i),
    ensures
        first_date_index(s) == i,
{
    let k = first_date_index(s);
    assert(is_first_date_at(s, k));
    if k < i {
        assert(!is_date_at(s, k));
    } else if i < k {
        assert(!is_date_at(s, i));
    }
}

/// The date read from the ten characters at `i`.
pub open spec fn date_read_at(s: Seq<char>, i: int) -> CaptureDate {
    CaptureDate {
        year: (1000 * digit_value(s[i]) + 100 * digit_value(s[i + 1]) + 10 * digit_value(s[i + 2])
            + digit_value(s[i + 3])) as u16,
        month: (10 * digit_value(s[i + 5]) + digit_value(s[i + 6])) as u8,
        day: (10 * digit_value(s[i + 8]) + digit_value(s[i + 9])) as u8,
    }
}

pub open spec fn two_digits(n: int) -> Seq<char> {
    seq![digit_chars()[(n / 10) % 10], digit_chars()[n % 10]]
}

pub open spec fn four_digits(n: int) -> Seq<char> {
    seq![
        digit_chars()[(n / 1000) % 10],
        digit_chars()[(n / 100) % 10],
        digit_chars()[(n / 10) % 10],
        digit_chars()[n % 10],
    ]
}

/// The folder name of a date: `YYYY-MM-DD`, zero-padded.
pub open spec fn folder_name_of(d: CaptureDate) -> Seq<char> {
    four_digits(d.year as int) + seq!['-'] + two_digits(d.month as int) + seq!['-'] + two_digits(d.day as int)
}

fn is_digit_char(c: char) -> (r: bool)
    ensures
        r == is_digit(c),
{
    let v = c as u32;
    48 <= v && v <= 57
}

fn date_at(s: &Vec<char>, i: usize) -> (r: bool)
    requires
        i + 10 <= s.len(),
    ensures
        r == is_date_at(s@, i as int),
{
    is_digit_char(s[i]) && is_digit_char(s[i + 1]) && is_digit_char(s[i + 2]) && is_digit_char(s[i + 3])
        && s[i + 4] == ':' && is_digit_char(s[i + 5]) && is_digit_char(s[i + 6]) && s[i + 7] == ':'
        && is_digit_char(s[i + 8]) && is_digit_char(s[i + 9])
}

fn digit_at(s: &Vec<char>, i: usize) -> (r: u16)
    requires
        i < s.len(),
        is_digit(s@[i as int]),
    ensures
        r as int == digit_value(s@[i as int]),
        r <= 9,
{
    (s[i] as u32 - 48) as u16
}

/// The leftmost date of the shape `DDDD:DD:DD` in a text, if there is one.
pub fn find_capture_date(text: &str) -> (r: Option<CaptureDate>)
    ensures
        r is None <==> !has_date(text@),
        r matches Some(d) ==> d.wf() && d == parsed_date(text@),
{
    let s = chars_of(text);
    let mut i: usize = 0;
    while s.len() >= 10 && i <= s.len() - 10
        invariant
            s@ == text@,
            i <= s.len(),
            forall|j: int| 0 <= j < i ==> !is_date_at(s@, j),
        decreases s.len() - i,
    {
        if date_at(&s, i) {
            let year = 1000 * digit_at(&s, i) + 100 * digit_at(&s, i + 1) + 10 * digit_at(&s, i + 2) + digit_at(&s, i + 3);
            let month = (10 * digit_at(&s, i + 5) + digit_at(&s, i + 6)) as u8;
            let day = (10 * digit_at(&s, i + 8) + digit_at(&s, i + 9)) as u8;
            let d = CaptureDate { year, month, day };
            assert(is_first_date_at(text@, i as int));
            proof {
                lemma_first_date_unique(text@, i as int);
            }
            return Some(d);
        }
        i += 1;
    }
    assert(forall|j: int| !is_date_at(text@, j));
    None
}

/// The capture date from a run of the metadata tool: a tool that could not be
/// started or that failed gives `ToolInvocationFailed` with its diagnostic text,
/// and output without a date gives `DateNotFound`.
pub fn resolve_date(outcome: &ToolOutcome) -> (r: Result<CaptureDate, ImportError>)
    ensures
        match *outcome {
            ToolOutcome::NotStarted(m) => r matches Err(ImportError::ToolInvocationFailed(e)) && e@ == m@,
            ToolOutcome::Exited { success, stdout, stderr } => if !success {
                r matches Err(ImportError::ToolInvocationFailed(e)) && e@ == stderr@
            } else if !has_date(stdout@) {
                r == Err::<CaptureDate, ImportError>(ImportError::DateNotFound)
            } else {
                r == Ok::<CaptureDate, ImportError>(parsed_date(stdout@)) && parsed_date(stdout@).wf()
            },
        },
{
    match outcome {
        ToolOutcome::NotStarted(m) => Err(ImportError::ToolInvocationFailed(m.clone())),
        ToolOutcome::Exited { success, stdout, stderr } => {
            if !*success {
                Err(ImportError::ToolInvocationFailed(stderr.clone()))
            } else {
                match find_capture_date(stdout.as_str()) {
                    Some(d) => Ok(d),
                    None => Err(ImportError::DateNotFound),
                }
            }
        },
    }
}

/// The arguments that ask the metadata tool for a file's original capture
/// timestamp, in short form.
pub fn date_tool_args(path: &str) -> (r: Vec<String>)
    ensures
        r@.len() == 3,
        r@[0]@ == "-DateTimeOriginal"@,
        r@[1]@ == "-s3"@,
        r@[2]@ == path@,
{
    let mut r: Vec<String> = Vec::new();
    r.push(String::from_str("-DateTimeOriginal"));
    r.push(String::from_str("-s3"));
    r.push(String::from_str(path));
    r
}

impl CaptureDate {
    /// The name of the folder that holds the files of this date.
    pub fn folder_name(&self) -> (r: String)
        requires
            self.wf(),
        ensures
            r@ == folder_name_of(*self),
    {
        let digits: Vec<char> = vec!['0', '1', '2', '3', '4', '5', '6', '7', '8', '9'];
        assert(digits@ =~= digit_chars());
        let y = self.year as usize;
        let m = self.month as usize;
        let d = self.day as usize;
        let v: Vec<char> = vec![
            digits[(y / 1000) % 10], digits[(y / 100) % 10], digits[(y / 10) % 10], digits[y % 10],
            '-', digits[(m / 10) % 10], digits[m % 10],
            '-', digits[(d / 10) % 10], digits[d % 10],
        ];
        assert(v@ =~= folder_name_of(*self));
        string_of(v.as_slice())
    }
}

} // verus!
