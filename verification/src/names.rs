//! The names that the bus takes.
//!
//! A message names a sender, an interface, a member and an object path, and
//! the bus takes a text as one of these only where it has the right form.
//! The forms are those of the bus's own rules for names.

use vstd::prelude::*;
use crate::value::characters;

verus! {

/// Whether a character is an ASCII letter.
pub open spec fn is_letter(c: char) -> bool {
    ('a' <= c && c <= 'z') || ('A' <= c && c <= 'Z')
}

/// Whether a character is an ASCII digit.
pub open spec fn is_digit(c: char) -> bool {
    '0' <= c && c <= '9'
}

/// Whether a character may stand in an element of a name: an ASCII letter,
/// an ASCII digit or an underscore, and a hyphen where `hyphen` allows it.
pub open spec fn is_name_char(c: char, hyphen: bool) -> bool {
    is_letter(c) || is_digit(c) || c == '_' || (hyphen && c == '-')
}

/// Whether a text is made of two or more elements with one dot between each
/// two: it neither begins nor ends with a dot, holds a dot but no two in a
/// row, and holds name characters besides. Where `digit_first` does not allow
/// it, no element begins with a digit.
pub open spec fn is_dotted(name: Seq<char>, hyphen: bool, digit_first: bool) -> bool {
    &&& name.len() >= 1
    &&& name[0] != '.'
    &&& name.last() != '.'
    &&& digit_first || !is_digit(name[0])
    &&& exists|i: int| 0 <= i < name.len() && #[trigger] name[i] == '.'
    &&& forall|i: int|
        0 <= i < name.len() ==> (#[trigger] name[i]) == '.' || is_name_char(name[i], hyphen)
    &&& forall|i: int|
        0 <= i < name.len() - 1 && (#[trigger] name[i]) == '.' ==> name[i + 1] != '.' && (
        digit_first || !is_digit(name[i + 1]))
}

/// Whether a text is the name of an interface: at most 255 characters in
/// two or more elements of letters, digits and underscores, none of which
/// begins with a digit.
pub open spec fn is_interface_name(name: Seq<char>) -> bool {
    name.len() <= 255 && is_dotted(name, false, false)
}

/// Whether a text is a well-known bus name: as the name of an interface,
/// with hyphens allowed as well.
pub open spec fn is_well_known_name(name: Seq<char>) -> bool {
    name.len() <= 255 && is_dotted(name, true, false)
}

/// Whether a text is the unique name of a connection: at most 255
/// characters, a colon and then two or more elements of letters, digits,
/// underscores and hyphens.
pub open spec fn is_unique_name(name: Seq<char>) -> bool {
    1 <= name.len() <= 255 && name[0] == ':' && is_dotted(name.skip(1), true, true)
}

/// Whether a text is the name of a sender: a unique or a well-known name.
pub open spec fn is_bus_name(name: Seq<char>) -> bool {
    is_unique_name(name) || is_well_known_name(name)
}

/// Whether a text is the name of a member: 1 to 255 letters, digits and
/// underscores, the first of which is no digit.
pub open spec fn is_member_name(name: Seq<char>) -> bool {
    &&& 1 <= name.len() <= 255
    &&& !is_digit(name[0])
    &&& forall|i: int| 0 <= i < name.len() ==> is_name_char(#[trigger] name[i], false)
}

/// Whether a text is an object path: a slash, and then elements of letters,
/// digits and underscores with one slash between each two. It holds no two
/// slashes in a row and, but for the path of one slash, ends with none.
pub open spec fn is_object_path(path: Seq<char>) -> bool {
    &&& path.len() >= 1
    &&& path[0] == '/'
    &&& path.len() > 1 ==> path.last() != '/'
    &&& forall|i: int|
        0 <= i < path.len() ==> (#[trigger] path[i]) == '/' || is_name_char(path[i], false)
    &&& forall|i: int| 0 <= i < path.len() - 1 && (#[trigger] path[i]) == '/' ==> path[i + 1] != '/'
}

/// Whether a character may stand in an element of a name.
pub fn name_char(c: char, hyphen: bool) -> (fits: bool)
    ensures
        fits == is_name_char(c, hyphen),
{
    ('a' <= c && c <= 'z') || ('A' <= c && c <= 'Z') || ('0' <= c && c <= '9') || c == '_' || (
    hyphen && c == '-')
}

/// Whether the characters from `from` on are made of two or more elements
/// with one dot between each two.
fn dotted(chars: &Vec<char>, from: usize, hyphen: bool, digit_first: bool) -> (fits: bool)
    requires
        from <= chars@.len(),
    ensures
        fits == is_dotted(chars@.skip(from as int), hyphen, digit_first),
{
    let ghost name = chars@.skip(from as int);
    let length = chars.len();
    if from == length {
        return false;
    }
    let mut dots = false;
    let mut after_dot = true;
    let mut at: usize = from;
    while at < length
        invariant
            from <= at <= length,
            length == chars@.len(),
            name == chars@.skip(from as int),
            dots == exists|i: int| 0 <= i < at - from && #[trigger] name[i] == '.',
            after_dot == (at == from || name[at - from - 1] == '.'),
            at > from ==> name[0] != '.' && (digit_first || !is_digit(name[0])),
            forall|i: int|
                0 <= i < at - from ==> (#[trigger] name[i]) == '.' || is_name_char(name[i], hyphen),
            forall|i: int|
                0 <= i < at - from - 1 && (#[trigger] name[i]) == '.' ==> name[i + 1] != '.' && (
                digit_first || !is_digit(name[i + 1])),
        decreases length - at,
    {
        let c = chars[at];
        assert(c == name[at - from]);
        if c == '.' {
            if after_dot {
                return false;
            }
            dots = true;
            after_dot = true;
        } else {
            if !name_char(c, hyphen) {
                return false;
            }
            if after_dot && !digit_first && '0' <= c && c <= '9' {
                return false;
            }
            after_dot = false;
        }
        at += 1;
    }
    assert(name.last() == name[length - from - 1]);
    dots && !after_dot
}

/// Whether a text is the name of an interface.
pub fn valid_interface_name(name: &str) -> (valid: bool)
    ensures
        valid == is_interface_name(name@),
{
    let chars = characters(name);
    assert(chars@.skip(0) =~= chars@);
    chars.len() <= 255 && dotted(&chars, 0, false, false)
}

/// Whether a text is the name of a sender.
pub fn valid_bus_name(name: &str) -> (valid: bool)
    ensures
        valid == is_bus_name(name@),
{
    let chars = characters(name);
    assert(chars@.skip(0) =~= chars@);
    if chars.len() > 255 {
        return false;
    }
    if chars.len() >= 1 && chars[0] == ':' && dotted(&chars, 1, true, true) {
        return true;
    }
    dotted(&chars, 0, true, false)
}

/// Whether a text is the name of a member.
pub fn valid_member_name(name: &str) -> (valid: bool)
    ensures
        valid == is_member_name(name@),
{
    let chars = characters(name);
    let length = chars.len();
    if length < 1 || length > 255 {
        return false;
    }
    if '0' <= chars[0] && chars[0] <= '9' {
        return false;
    }
    let mut at: usize = 0;
    while at < length
        invariant
            at <= length,
            length == chars@.len(),
            chars@ == name@,
            forall|i: int| 0 <= i < at ==> is_name_char(#[trigger] chars@[i], false),
        decreases length - at,
    {
        if !name_char(chars[at], false) {
            assert(!is_name_char(name@[at as int], false));
            return false;
        }
        at += 1;
    }
    true
}

/// Whether a text is an object path.
pub fn valid_object_path(path: &str) -> (valid: bool)
    ensures
        valid == is_object_path(path@),
{
    let chars = characters(path);
    let length = chars.len();
    if length < 1 || chars[0] != '/' {
        return false;
    }
    let mut at: usize = 1;
    while at < length
        invariant
            1 <= at <= length,
            length == chars@.len(),
            chars@ == path@,
            chars@[0] == '/',
            forall|i: int|
                0 <= i < at ==> (#[trigger] chars@[i]) == '/' || is_name_char(chars@[i], false),
            forall|i: int| 0 <= i < at - 1 && (#[trigger] chars@[i]) == '/' ==> chars@[i + 1] != '/',
        decreases length - at,
    {
        let c = chars[at];
        if c == '/' {
            if chars[at - 1] == '/' {
                assert(path@[at - 1] == '/' && path@[at - 1 + 1] == '/');
                return false;
            }
        } else if !name_char(c, false) {
            assert(path@[at as int] != '/' && !is_name_char(path@[at as int], false));
            return false;
        }
        at += 1;
    }
    length == 1 || chars[length - 1] != '/'
}

} // verus!
