//! Finding the entry point of a package from the device's answer to a
//! default-activity query.
use vstd::prelude::*;
use vstd::string::*;
use crate::error::AndroidError;

verus! {

/// A character of the Unicode White_Space property, which is what
/// `char::is_whitespace` tests.
pub open spec fn is_white_space(c: char) -> bool {
    let u = c as u32;
    (0x9 <= u <= 0xd) || u == 0x20 || u == 0x85 || u == 0xa0 || u == 0x1680 || (0x2000 <= u
        <= 0x200a) || u == 0x2028 || u == 0x2029 || u == 0x202f || u == 0x205f || u == 0x3000
}

/// `s` without its trailing whitespace: the longest prefix of `s` that does
/// not end in a White_Space character.
pub open spec fn trimmed_end(s: Seq<char>) -> Seq<char>
    decreases s.len(),
{
    if s.len() > 0 && is_white_space(s.last()) {
        trimmed_end(s.drop_last())
    } else {
        s
    }
}

/// Index of the first `/` in `s` at or after `from`, or the length of `s`.
pub open spec fn next_slash(s: Seq<char>, from: int) -> int
    decreases s.len() - from,
{
    if from < 0 || from >= s.len() {
        s.len() as int
    } else if s[from] == '/' {
        from
    } else {
        next_slash(s, from + 1)
    }
}

/// The activity named by a `package/activity` line: the text between the
/// first `/` and the next one (or the end). None where the line has no `/`.
pub open spec fn activity_of(line: Seq<char>) -> Option<Seq<char>> {
    let i = next_slash(line, 0);
    if i == line.len() {
        None
    } else {
        Some(line.subrange(i + 1, next_slash(line, i + 1)))
    }
}

proof fn lemma_next_slash_bounds(s: Seq<char>, from: int)
    requires
        0 <= from <= s.len(),
    ensures
        from <= next_slash(s, from) <= s.len(),
        next_slash(s, from) < s.len() ==> s[next_slash(s, from)] == '/',
    decreases s.len() - from,
{
    if from < s.len() && s[from] != '/' {
        lemma_next_slash_bounds(s, from + 1);
    }
}

/// Index of the first `/` in `s` at or after `from`, or the length of `s`.
fn find_slash(s: &str, from: usize) -> (r: usize)
    requires
        from <= s@.len(),
    ensures
        r == next_slash(s@, from as int),
{
    let n = s.unicode_len();
    let mut i: usize = from;
    while i < n && s.get_char(i) != '/'
        invariant
            from <= i <= n,
            n == s@.len(),
            next_slash(s@, i as int) == next_slash(s@, from as int),
        decreases n - i,
    {
        i += 1;
    }
    i
}

/// Relies on str::trim_end: the result is `s` with every trailing
/// character that has the White_Space property cut off.
#[verifier::external_body]
fn trim_end(s: &str) -> (r: &str)
    ensures
        r@ == trimmed_end(s@),
{
    s.trim_end()
}

/// The activity that a trimmed answer line names for `package`.
pub fn activity_from_line(package: &str, line: &str) -> (r: Result<String, AndroidError>)
    ensures
        match activity_of(line@) {
            None => r matches Err(AndroidError::ActivityNotFound(p)) && p@ == package@,
            Some(a) => r matches Ok(s) && s@ == a,
        },
{
    let n = line.unicode_len();
    let i = find_slash(line, 0);
    if i == n {
        return Err(AndroidError::ActivityNotFound(String::from_str(package)));
    }
    proof {
        lemma_next_slash_bounds(line@, 0);
    }
    let j = find_slash(line, i + 1);
    proof {
        lemma_next_slash_bounds(line@, i + 1);
    }
    Ok(String::from_str(line.substring_char(i + 1, j)))
}

/// The activity that the device's answer `response` names for `package`,
/// after trailing whitespace is cut off.
pub fn resolve_activity(package: &str, response: &str) -> (r: Result<String, AndroidError>)
    ensures
        match activity_of(trimmed_end(response@)) {
            None => r matches Err(AndroidError::ActivityNotFound(p)) && p@ == package@,
            Some(a) => r matches Ok(s) && s@ == a,
        },
{
    activity_from_line(package, trim_end(response))
}

} // verus!
