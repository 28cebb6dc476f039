use vstd::prelude::*;
use vstd::string::*;

verus! {

/// The characters of the Unicode property White_Space, which `str::trim`
/// and `str::trim_start` remove: tab to carriage return, space, next line,
/// no-break space, ogham space mark, the spaces from en quad to hair space,
/// line and paragraph separators, narrow no-break space, medium mathematical
/// space and ideographic space.
pub open spec fn is_white_space(c: char) -> bool {
    let u = c as u32;
    ||| 0x9 <= u <= 0xd
    ||| u == 0x20
    ||| u == 0x85
    ||| u == 0xa0
    ||| u == 0x1680
    ||| 0x2000 <= u <= 0x200a
    ||| u == 0x2028
    ||| u == 0x2029
    ||| u == 0x202f
    ||| u == 0x205f
    ||| u == 0x3000
}

/// A text without its leading whitespace.
pub open spec fn trim_start_of(s: Seq<char>) -> Seq<char>
    decreases s.len(),
{
    if s.len() > 0 && is_white_space(s[0]) {
        trim_start_of(s.drop_first())
    } else {
        s
    }
}

/// A text without its trailing whitespace.
pub open spec fn trim_end_of(s: Seq<char>) -> Seq<char>
    decreases s.len(),
{
    if s.len() > 0 && is_white_space(s.last()) {
        trim_end_of(s.drop_last())
    } else {
        s
    }
}

/// A text without its leading and trailing whitespace.
pub open spec fn trim_of(s: Seq<char>) -> Seq<char> {
    trim_end_of(trim_start_of(s))
}

/// Relies on `str::trim`: leading and trailing White_Space removed.
#[verifier::external_body]
pub(crate) fn trimmed(s: &str) -> (r: String)
    ensures
        r@ == trim_of(s@),
{
    s.trim().to_string()
}

/// Relies on `str::trim_start`: leading White_Space removed.
#[verifier::external_body]
fn trimmed_start(s: &str) -> (r: String)
    ensures
        r@ == trim_start_of(s@),
{
    s.trim_start().to_string()
}

/// The prefix of a directory change: `cd` and a space.
pub open spec fn cd_prefix() -> Seq<char> {
    seq!['c', 'd', ' ']
}

/// The directory a command asks to change to, when it has the form
/// `cd <dir>` (after leading whitespace): `<dir>` without surrounding
/// whitespace.
pub open spec fn cd_target(command: Seq<char>) -> Option<Seq<char>> {
    let s = trim_start_of(command);
    if s.len() >= 3 && s.subrange(0, 3) == cd_prefix() {
        Some(trim_of(s.subrange(3, s.len() as int)))
    } else {
        None
    }
}

/// The target of a directory change, if `command` is one.
pub fn directory_target(command: &str) -> (r: Option<String>)
    ensures
        r.is_some() == cd_target(command@).is_some(),
        r.is_some() ==> r.unwrap()@ == cd_target(command@).unwrap(),
{
    let s = trimmed_start(command);
    let n = s.as_str().unicode_len();
    if n >= 3 && s.as_str().get_char(0) == 'c' && s.as_str().get_char(1) == 'd'
        && s.as_str().get_char(2) == ' ' {
        assert(s@.subrange(0, 3) =~= cd_prefix());
        let rest = s.as_str().substring_char(3, n);
        Some(trimmed(rest))
    } else {
        assert(n >= 3 ==> s@.subrange(0, 3)[0] == s@[0] && s@.subrange(0, 3)[1] == s@[1]
            && s@.subrange(0, 3)[2] == s@[2]);
        None
    }
}

} // verus!
