//! Rendering of object summaries as aligned text rows: the key
//! left-aligned in a 40-character field, the last-modified time
//! right-aligned in a 20-character field, and the size right-aligned in a
//! 10-character field followed by " bytes". Absent fields degrade to the
//! documented placeholders; nothing is ever truncated.

use vstd::prelude::*;
use vstd::string::StrSliceExecFns;
use vstd::string::StringExecFns;
use crate::numtext::signed_dec_of;
use crate::numtext::i64_dec;
use crate::summary::ObjectSummary;

verus! {

/// `n` spaces.
pub open spec fn spaces(n: nat) -> Seq<char>
    decreases n,
{
    if n == 0 {
        Seq::empty()
    } else {
        spaces((n - 1) as nat).push(' ')
    }
}

/// `s` right-aligned in a field of `w` characters: spaces first, then the
/// text whole. Text longer than the field merely widens it.
pub open spec fn pad_left_spec(s: Seq<char>, w: nat) -> Seq<char> {
    if s.len() >= w {
        s
    } else {
        spaces((w - s.len()) as nat) + s
    }
}

/// `s` left-aligned in a field of `w` characters: the text whole, then
/// spaces. Text longer than the field merely widens it.
pub open spec fn pad_right_spec(s: Seq<char>, w: nat) -> Seq<char> {
    if s.len() >= w {
        s
    } else {
        s + spaces((w - s.len()) as nat)
    }
}

/// A run of `n` spaces has length `n`.
pub proof fn lemma_spaces_len(n: nat)
    ensures
        spaces(n).len() == n,
    decreases n,
{
    if n > 0 {
        lemma_spaces_len((n - 1) as nat);
    }
}

fn make_spaces(n: usize) -> (r: String)
    ensures
        r@ == spaces(n as nat),
{
    let mut r = String::new();
    let mut i: usize = 0;
    while i < n
        invariant
            i <= n,
            r@ =~= spaces(i as nat),
        decreases n - i,
    {
        r.append(" ");
        i = i + 1;
        proof {
            reveal_strlit(" ");
            assert(r@ =~= spaces(i as nat));
        }
    }
    r
}

/// Right-aligns `s` in a field of `width` characters.
pub fn pad_left(s: &str, width: usize) -> (r: String)
    ensures
        r@ == pad_left_spec(s@, width as nat),
{
    let n = s.unicode_len();
    if n >= width {
        s.to_owned()
    } else {
        proof {
            lemma_spaces_len((width - n) as nat);
        }
        let mut r = make_spaces(width - n);
        r.append(s);
        r
    }
}

/// Left-aligns `s` in a field of `width` characters.
pub fn pad_right(s: &str, width: usize) -> (r: String)
    ensures
        r@ == pad_right_spec(s@, width as nat),
{
    let n = s.unicode_len();
    if n >= width {
        s.to_owned()
    } else {
        proof {
            lemma_spaces_len((width - n) as nat);
        }
        let mut r = s.to_owned();
        let pad = make_spaces(width - n);
        r.append(pad.as_str());
        r
    }
}

/// An absent text field renders as the placeholder "unknown".
pub open spec fn or_unknown(t: Option<Seq<char>>) -> Seq<char> {
    match t {
        Some(s) => s,
        None => "unknown"@,
    }
}

/// An absent size renders as 0.
pub open spec fn size_or_zero(s: Option<i64>) -> int {
    match s {
        Some(n) => n as int,
        None => 0,
    }
}

/// One rendered row: key, last-modified text and size, with their field
/// widths, separators and the " bytes" suffix.
pub open spec fn line_of(key: Option<Seq<char>>, time: Option<Seq<char>>, size: Option<i64>) -> Seq<
    char,
> {
    pad_right_spec(or_unknown(key), 40) + " | "@ + pad_left_spec(or_unknown(time), 20) + " | "@
        + pad_left_spec(signed_dec_of(size_or_zero(size)), 10) + " bytes"@
}

/// Renders one row from the key, an already formatted last-modified text,
/// and the size. Total: absent fields fall back to the documented
/// placeholders, and no input is rejected.
pub fn render_line(key: &Option<String>, time_text: &Option<String>, size: Option<i64>) -> (r:
    String)
    ensures
        r@ == line_of(opt_string_view(key), opt_string_view(time_text), size),
{
    let key_text: &str = match key {
        Some(k) => k.as_str(),
        None => "unknown",
    };
    let time_str: &str = match time_text {
        Some(t) => t.as_str(),
        None => "unknown",
    };
    let size_val: i64 = match size {
        Some(n) => n,
        None => 0,
    };
    let mut r = pad_right(key_text, 40);
    r.append(" | ");
    let time_field = pad_left(time_str, 20);
    r.append(time_field.as_str());
    r.append(" | ");
    let size_digits = i64_dec(size_val);
    let size_field = pad_left(size_digits.as_str(), 10);
    r.append(size_field.as_str());
    r.append(" bytes");
    proof {
        assert(r@ =~= line_of(opt_string_view(key), opt_string_view(time_text), size));
    }
    r
}

/// The text of an optional string.
pub open spec fn opt_string_view(s: &Option<String>) -> Option<Seq<char>> {
    match s {
        Some(t) => Some(t@),
        None => None,
    }
}

/// The combined date-and-time text of a moment given as seconds since the
/// epoch, or nothing where the moment lies outside the representable
/// calendar range. The outcome depends on the seconds alone.
pub uninterp spec fn datetime_text_of(secs: int) -> Option<Seq<char>>;

/// Relies on aws_sdk_s3::primitives::DateTime::fmt with the combined
/// date-and-time format, on a value built by DateTime::from_secs: the
/// rendering is a pure function of the epoch seconds, and it fails, with
/// None here, exactly for the moments its calendar range cannot
/// represent.
#[verifier::external_body]
fn format_epoch_seconds(secs: i64) -> (r: Option<String>)
    ensures
        opt_string_view(&r) == datetime_text_of(secs as int),
{
    aws_sdk_s3::primitives::DateTime::from_secs(secs)
        .fmt(aws_sdk_s3::primitives::DateTimeFormat::DateTime)
        .ok()
}

/// The text of the last-modified field before padding: the timestamp's
/// date-and-time text, absent where the timestamp is absent or cannot be
/// represented, in which case the row shows the placeholder.
pub open spec fn time_text_of(last_modified: Option<i64>) -> Option<Seq<char>> {
    match last_modified {
        None => None,
        Some(s) => datetime_text_of(s as int),
    }
}

/// The one row that a summary renders as: a function of the summary
/// alone, so rendering is total and two renderings of one summary are the
/// same row.
pub open spec fn line_for(o: ObjectSummary) -> Seq<char> {
    line_of(o.key_view(), time_text_of(o.last_modified), o.size)
}

/// Renders the row for one object summary.
pub fn format_object(o: &ObjectSummary) -> (r: String)
    ensures
        r@ == line_for(*o),
{
    let time_text: Option<String> = match o.last_modified {
        Some(secs) => format_epoch_seconds(secs),
        None => None,
    };
    render_line(&o.key, &time_text, o.size)
}

/// Renders one row per object summary, in order.
pub fn present_lines(objects: &Vec<ObjectSummary>) -> (r: Vec<String>)
    ensures
        r.len() == objects.len(),
        forall|i: int| 0 <= i < r.len() ==> #[trigger] r[i]@ == line_for(objects[i]),
{
    let mut r: Vec<String> = Vec::new();
    let mut i: usize = 0;
    while i < objects.len()
        invariant
            i <= objects.len(),
            r.len() == i,
            forall|j: int| 0 <= j < i ==> #[trigger] r[j]@ == line_for(objects[j]),
        decreases objects.len() - i,
    {
        let line = format_object(&objects[i]);
        r.push(line);
        i = i + 1;
    }
    r
}

/// A right-aligned field is never truncated: it is at least as wide as
/// its text and as its nominal width, and it ends with the text whole.
pub proof fn lemma_pad_left_whole(s: Seq<char>, w: nat)
    ensures
        pad_left_spec(s, w).len() >= s.len(),
        pad_left_spec(s, w).len() >= w,
        pad_left_spec(s, w).subrange(
            pad_left_spec(s, w).len() - s.len(),
            pad_left_spec(s, w).len() as int,
        ) =~= s,
{
    lemma_spaces_len((w - s.len()) as nat);
}

/// A left-aligned field is never truncated: it is at least as wide as its
/// text and as its nominal width, and it begins with the text whole.
pub proof fn lemma_pad_right_whole(s: Seq<char>, w: nat)
    ensures
        pad_right_spec(s, w).len() >= s.len(),
        pad_right_spec(s, w).len() >= w,
        pad_right_spec(s, w).subrange(0, s.len() as int) =~= s,
{
    lemma_spaces_len((w - s.len()) as nat);
}

/// A rendered row never truncates its fields: the key text stands whole
/// at the start of the row, and the time text stands whole before the
/// second separator, however long either is.
pub proof fn lemma_line_not_truncated(key: Option<Seq<char>>, time: Option<Seq<char>>, size: Option<
    i64,
>)
    ensures
        line_of(key, time, size).subrange(0, or_unknown(key).len() as int) =~= or_unknown(key),
        ({
            let key_field = pad_right_spec(or_unknown(key), 40);
            let time_end = key_field.len() + 3 + pad_left_spec(or_unknown(time), 20).len();
            line_of(key, time, size).subrange(
                time_end - or_unknown(time).len(),
                time_end as int,
            ) =~= or_unknown(time)
        }),
{
    lemma_pad_right_whole(or_unknown(key), 40);
    lemma_pad_left_whole(or_unknown(time), 20);
    reveal_strlit(" | ");
}

} // verus!
