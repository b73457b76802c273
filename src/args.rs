//! Checks on command-line values: that a file argument names a regular
//! file, and that a port argument is a 16-bit unsigned number.
use vstd::prelude::*;
use crate::text::join_str;

verus! {

/// Relies on `std::path::Path::exists`: whether something is at the path.
/// What it returns depends on the file system at the time of the call.
#[verifier::external_body]
fn path_exists(file: &str) -> (r: bool) {
    std::path::Path::new(file).exists()
}

/// Relies on `std::path::Path::is_file`: whether a regular file is at the
/// path. What it returns depends on the file system at the time of the call.
#[verifier::external_body]
fn path_is_file(file: &str) -> (r: bool) {
    std::path::Path::new(file).is_file()
}

/// The message for a path at which nothing exists.
pub open spec fn missing_message(file: Seq<char>) -> Seq<char> {
    "File '"@ + file + "' does not exist"@
}

/// The message for a path that is not a regular file.
pub open spec fn not_a_file_message(file: Seq<char>) -> Seq<char> {
    "'"@ + file + "' is not a file"@
}

/// The verdict on `file`, given whether something exists there and whether
/// it is a regular file.
pub fn file_verdict(file: &str, exists: bool, is_file: bool) -> (r: Result<(), String>)
    ensures
        !exists ==> (r matches Err(m) && m@ == missing_message(file@)),
        exists && !is_file ==> (r matches Err(m) && m@ == not_a_file_message(file@)),
        exists && is_file ==> r == Ok::<(), String>(()),
{
    if !exists {
        let m = join_str("File '", file);
        return Err(join_str(m.as_str(), "' does not exist"));
    }
    if !is_file {
        let m = join_str("'", file);
        return Err(join_str(m.as_str(), "' is not a file"));
    }
    Ok(())
}

/// Checks that `file` names an existing regular file, as a validator of
/// command-line values.
pub fn file_exists(file: String) -> (r: Result<(), String>)
    ensures
        r is Ok || (r matches Err(m) && (m@ == missing_message(file@) || m@ == not_a_file_message(file@))),
{
    let exists = path_exists(file.as_str());
    let is_file = if exists {
        path_is_file(file.as_str())
    } else {
        false
    };
    file_verdict(file.as_str(), exists, is_file)
}

/// The number that the decimal digits `d` spell.
pub open spec fn digits_value(d: Seq<char>) -> nat
    decreases d.len(),
{
    if d.len() == 0 {
        0
    } else {
        digits_value(d.drop_last()) * 10 + ((d.last() as int) - ('0' as int)) as nat
    }
}

/// `d` is one or more ASCII decimal digits.
pub open spec fn is_digits(d: Seq<char>) -> bool {
    d.len() > 0 && forall|i: int| 0 <= i < d.len() ==> '0' <= #[trigger] d[i] <= '9'
}

/// The digits of an unsigned decimal, without its optional leading `+`.
pub open spec fn unsigned_digits(s: Seq<char>) -> Seq<char> {
    if s.len() > 0 && s[0] == '+' {
        s.drop_first()
    } else {
        s
    }
}

/// `s` is the decimal text of a `u16`: an optional `+`, then digits whose
/// value is at most 65535.
pub open spec fn is_u16_text(s: Seq<char>) -> bool {
    is_digits(unsigned_digits(s)) && digits_value(unsigned_digits(s)) <= u16::MAX
}

/// The first position of `d` at which a parse of its digits from the left
/// stops: a character that is not a decimal digit, or a digit that takes the
/// value read so far past `u16::MAX`.
pub open spec fn first_stop(d: Seq<char>, i: int) -> Option<int>
    decreases d.len() - i,
{
    if i < 0 || i >= d.len() {
        None
    } else if !('0' <= d[i] <= '9') || digits_value(d.take(i + 1)) > u16::MAX {
        Some(i)
    } else {
        first_stop(d, i + 1)
    }
}

/// The reason a `u16` parse of `s` fails with, as `ParseIntError` writes it:
/// an empty text; a sign alone or a character that is not a digit, where it
/// stops the parse first; or a value too large, where that comes first.
pub open spec fn u16_error_text(s: Seq<char>) -> Seq<char> {
    if s.len() == 0 {
        "cannot parse integer from empty string"@
    } else {
        let d = unsigned_digits(s);
        match first_stop(d, 0) {
            Some(i) => if '0' <= d[i] <= '9' {
                "number too large to fit in target type"@
            } else {
                "invalid digit found in string"@
            },
            None => "invalid digit found in string"@,
        }
    }
}

/// Relies on `u16`'s `FromStr` (`str::parse::<u16>`), which accepts exactly an
/// optional `+` followed by decimal digits of a value that fits, reads the
/// digits from the left and fails at the first one that is not a digit or
/// overflows; and on `ParseIntError`'s `to_string` for the text of that
/// failure (`Empty`, `InvalidDigit` or `PosOverflow`).
#[verifier::external_body]
fn parse_u16(s: &str) -> (r: Result<u16, String>)
    ensures
        r is Ok == is_u16_text(s@),
        r matches Ok(n) ==> n as nat == digits_value(unsigned_digits(s@)),
        r matches Err(m) ==> m@ == u16_error_text(s@),
{
    s.parse::<u16>().map_err(|e| e.to_string())
}

/// Checks that `num` is a port number, as a validator of command-line values:
/// the error holds the parser's reason.
pub fn is_number(num: String) -> (r: Result<(), String>)
    ensures
        r is Ok == is_u16_text(num@),
        r matches Err(m) ==> m@ == u16_error_text(num@),
{
    match parse_u16(num.as_str()) {
        Ok(_) => Ok(()),
        Err(e) => Err(e),
    }
}

} // verus!
