//! The file names of migrations: versioned ones carry a timestamp, repeatable
//! ones the name of the object.

use vstd::prelude::*;
use vstd::string::*;

use crate::config::Config;
use crate::text::{
    digit, ends_with, is_digit, trim_end_matches, uppercase, without_trailing, zero_padded,
    zero_padded_holds_digits,
};
use crate::timestamp::{Timestamp, TimestampView};

verus! {

/// The version prefix with the timestamp to the second.
pub const SECONDS_FORMAT: &'static str = "V%Y_%m_%d_%H_%M_%S__";

/// The version prefix with the timestamp to the millisecond.
pub const MILLISECONDS_FORMAT: &'static str = "V%Y_%m_%d_%H_%M_%S%.3f__";

/// The extension of a migration file.
pub const EXTENSION: &'static str = ".sql";

/// The prefix of a repeatable migration.
pub const REPEATABLE_PREFIX: &'static str = "R__";

/// The year in a version: four digits for the years 0 to 9999, a sign and at
/// least four digits for all others.
pub open spec fn year_text(year: int) -> Seq<char> {
    if 0 <= year <= 9999 {
        zero_padded(year as nat, 4)
    } else if year < 0 {
        seq!['-'] + zero_padded((-year) as nat, 4)
    } else {
        seq!['+'] + zero_padded(year as nat, 4)
    }
}

/// The version up to the second: `V`, then year, month, day, hour, minute
/// and second with underscores between them. A leap second reads 60.
pub open spec fn seconds_stamp(at: TimestampView) -> Seq<char> {
    seq!['V'] + year_text(at.year) + seq!['_'] + zero_padded(at.month as nat, 2) + seq!['_']
        + zero_padded(at.day as nat, 2) + seq!['_'] + zero_padded(at.hour as nat, 2) + seq!['_']
        + zero_padded(at.minute as nat, 2) + seq!['_'] + zero_padded(
        (at.second + at.nanosecond / 1_000_000_000) as nat,
        2,
    )
}

/// The fraction of the second: a point and the milliseconds in three digits.
pub open spec fn millis_fraction(at: TimestampView) -> Seq<char> {
    seq!['.'] + zero_padded((at.nanosecond / 1_000_000 % 1000) as nat, 3)
}

/// The two underscores between a version and the description.
pub open spec fn separator() -> Seq<char> {
    seq!['_', '_']
}

/// The version prefix of a file name, up to and including the separator.
pub open spec fn version_stamp(at: TimestampView, with_millis: bool) -> Seq<char> {
    if with_millis {
        seconds_stamp(at) + millis_fraction(at) + separator()
    } else {
        seconds_stamp(at) + separator()
    }
}

/// The base name without any `.sql` at its end.
pub open spec fn stem(basename: Seq<char>) -> Seq<char> {
    without_trailing(basename, EXTENSION@)
}

/// The file name of a versioned migration.
pub open spec fn versioned_name(with_millis: bool, at: TimestampView, basename: Seq<char>) -> Seq<
    char,
> {
    version_stamp(at, with_millis) + stem(basename) + EXTENSION@
}

/// The file name of the repeatable migration with this base name.
pub open spec fn repeatable_name(basename: Seq<char>) -> Seq<char> {
    REPEATABLE_PREFIX@ + basename + EXTENSION@
}

/// The base name of the migrations of an object: its name in upper case.
pub open spec fn object_basename(object_name: Seq<char>) -> Seq<char> {
    uppercase(object_name)
}

/// Formats the timestamp with `chrono::DateTime::<Utc>::format`, for one of
/// the two version formats. The contract states what chrono writes for the
/// items of these formats: `%Y` as `year_text`, `%m`, `%d`, `%H`, `%M` and
/// `%S` in two digits, `%.3f` as a point and three digits, and the other
/// characters as they stand.
#[verifier::external_body]
fn format_version(at: &Timestamp, format: &str) -> (stamp: String)
    requires
        at@.valid(),
        format@ == SECONDS_FORMAT@ || format@ == MILLISECONDS_FORMAT@,
    ensures
        format@ == SECONDS_FORMAT@ ==> stamp@ == version_stamp(at@, false),
        format@ == MILLISECONDS_FORMAT@ ==> stamp@ == version_stamp(at@, true),
{
    let date = chrono::NaiveDate::from_ymd_opt(at.year(), at.month(), at.day()).unwrap();
    let time = date.and_hms_nano_opt(at.hour(), at.minute(), at.second(), at.nanosecond()).unwrap();
    time.and_utc().format(format).to_string()
}

/// The file name of a versioned migration: `V`, the timestamp, two
/// underscores, the base name and `.sql`. A base name that already ends in
/// `.sql` does not get the extension twice. With millisecond precision the
/// timestamp carries a fraction of three digits.
pub fn get_versioned_filename_impl(config: &Config, timestamp: Timestamp, basename: &str) -> (name:
    String)
    ensures
        name@ == versioned_name(config.use_millisecond_precision, timestamp@, basename@),
{
    proof {
        use_type_invariant(&timestamp);
        reveal_strlit(".sql");
        reveal_strlit("V%Y_%m_%d_%H_%M_%S__");
        reveal_strlit("V%Y_%m_%d_%H_%M_%S%.3f__");
    }
    let mut name = if config.use_millisecond_precision {
        format_version(&timestamp, MILLISECONDS_FORMAT)
    } else {
        format_version(&timestamp, SECONDS_FORMAT)
    };
    name.append(trim_end_matches(basename, EXTENSION));
    name.append(EXTENSION);
    name
}

/// The file name of a repeatable migration: `R__`, the base name and
/// `.sql`.
pub fn repeatable_filename(basename: &str) -> (name: String)
    ensures
        name@ == repeatable_name(basename@),
{
    let mut name = REPEATABLE_PREFIX.to_owned();
    name.append(basename);
    name.append(EXTENSION);
    name
}

/// What is left of a text when a suffix is removed from its end as often as
/// it stands there does not end with that suffix.
pub proof fn without_trailing_is_final(text: Seq<char>, suffix: Seq<char>)
    requires
        suffix.len() > 0,
    ensures
        !ends_with(without_trailing(text, suffix), suffix),
    decreases text.len(),
{
    if ends_with(text, suffix) {
        without_trailing_is_final(text.subrange(0, text.len() - suffix.len()), suffix);
    }
}

/// A base name with and without `.sql` at its end gives the same file name.
pub proof fn extension_is_added_once(with_millis: bool, at: TimestampView, basename: Seq<char>)
    ensures
        versioned_name(with_millis, at, basename + EXTENSION@) == versioned_name(
            with_millis,
            at,
            basename,
        ),
        stem(stem(basename)) == stem(basename),
{
    reveal_strlit(".sql");
    let longer = basename + EXTENSION@;
    assert(longer.subrange(longer.len() - EXTENSION@.len(), longer.len() as int) =~= EXTENSION@);
    assert(longer.subrange(0, longer.len() - EXTENSION@.len()) =~= basename);
    without_trailing_is_final(basename, EXTENSION@);
}

/// The millisecond flag only adds the fraction of the second: both names
/// start with the version to the second and end with the separator, the
/// base name and the extension.
pub proof fn millisecond_flag_adds_the_fraction(at: TimestampView, basename: Seq<char>)
    ensures
        versioned_name(false, at, basename) == seconds_stamp(at) + (separator() + stem(basename)
            + EXTENSION@),
        versioned_name(true, at, basename) == seconds_stamp(at) + millis_fraction(at) + (
        separator() + stem(basename) + EXTENSION@),
{
}

/// Whether a text holds no point.
pub open spec fn has_no_point(text: Seq<char>) -> bool {
    forall|i: int| 0 <= i < text.len() ==> (#[trigger] text[i]) != '.'
}

/// Two texts without a point make one without a point.
proof fn joined_has_no_point(front: Seq<char>, back: Seq<char>)
    requires
        has_no_point(front),
        has_no_point(back),
    ensures
        has_no_point(front + back),
{
}

/// A numeral holds no point.
proof fn numeral_has_no_point(n: nat, width: nat)
    ensures
        has_no_point(zero_padded(n, width)),
{
    zero_padded_holds_digits(n, width);
    let numeral = zero_padded(n, width);
    assert forall|i: int| 0 <= i < numeral.len() implies (#[trigger] numeral[i]) != '.' by {
        let d = choose|d: nat| d < 10 && numeral[i] == digit(d);
        assert(digit(d) != '.');
    }
}

/// A version stays without a point when an underscore and a field of two
/// digits are added to it.
proof fn field_has_no_point(front: Seq<char>, n: nat)
    requires
        has_no_point(front),
    ensures
        has_no_point(front + seq!['_'] + zero_padded(n, 2)),
{
    numeral_has_no_point(n, 2);
    joined_has_no_point(front, seq!['_']);
    joined_has_no_point(front + seq!['_'], zero_padded(n, 2));
}

/// The year of a version holds no point.
proof fn year_has_no_point(year: int)
    ensures
        has_no_point(seq!['V'] + year_text(year)),
{
    if 0 <= year <= 9999 {
        numeral_has_no_point(year as nat, 4);
    } else if year < 0 {
        numeral_has_no_point((-year) as nat, 4);
        joined_has_no_point(seq!['-'], zero_padded((-year) as nat, 4));
    } else {
        numeral_has_no_point(year as nat, 4);
        joined_has_no_point(seq!['+'], zero_padded(year as nat, 4));
    }
    joined_has_no_point(seq!['V'], year_text(year));
}

/// To the second, the version of a file name holds no point: the first
/// point of such a name, if it has one, belongs to the base name or the
/// extension.
pub proof fn seconds_version_has_no_point(at: TimestampView)
    ensures
        has_no_point(version_stamp(at, false)),
{
    let year = seq!['V'] + year_text(at.year);
    let month = year + seq!['_'] + zero_padded(at.month as nat, 2);
    let day = month + seq!['_'] + zero_padded(at.day as nat, 2);
    let hour = day + seq!['_'] + zero_padded(at.hour as nat, 2);
    let minute = hour + seq!['_'] + zero_padded(at.minute as nat, 2);
    let second = minute + seq!['_'] + zero_padded(
        (at.second + at.nanosecond / 1_000_000_000) as nat,
        2,
    );
    year_has_no_point(at.year);
    field_has_no_point(year, at.month as nat);
    field_has_no_point(month, at.day as nat);
    field_has_no_point(day, at.hour as nat);
    field_has_no_point(hour, at.minute as nat);
    field_has_no_point(minute, (at.second + at.nanosecond / 1_000_000_000) as nat);
    joined_has_no_point(second, separator());
}

/// No file name ends in a doubled extension.
pub proof fn no_double_extension(with_millis: bool, at: TimestampView, basename: Seq<char>)
    ensures
        !ends_with(versioned_name(with_millis, at, basename), EXTENSION@ + EXTENSION@),
{
    reveal_strlit(".sql");
    let extension = EXTENSION@;
    assert(extension =~= seq!['.', 's', 'q', 'l']);
    let name = versioned_name(with_millis, at, basename);
    let stamp = version_stamp(at, with_millis);
    let front = stamp + stem(basename);
    without_trailing_is_final(basename, extension);
    if ends_with(name, extension + extension) {
        let doubled = extension + extension;
        let tail = name.subrange(name.len() - 8, name.len() as int);
        assert forall|k: int| 0 <= k < 4 implies front[front.len() - 4 + k] == extension[k] by {
            assert(tail[k] == doubled[k]);
        }
        if stem(basename).len() >= 4 {
            assert(stem(basename).subrange(stem(basename).len() - 4, stem(basename).len() as int)
                =~= extension);
        } else {
            assert(front[front.len() - 1 - stem(basename).len()] == '_');
        }
    }
}

} // verus!
