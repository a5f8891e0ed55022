//! Unix permissions.

use vstd::prelude::*;

verus! {

/// What one class of users may do.
#[derive(Clone, Copy, Debug, PartialEq, Eq, Structural)]
pub struct UnixPexClass {
    pub read: bool,
    pub write: bool,
    pub execute: bool,
}

/// The number 1 for `true` and 0 for `false`, times a weight.
pub open spec fn weight(set: bool, of: int) -> int {
    if set {
        of
    } else {
        0
    }
}

impl UnixPexClass {
    /// The octal digit of a class.
    pub open spec fn digit(self) -> int {
        weight(self.read, 4) + weight(self.write, 2) + weight(self.execute, 1)
    }

    /// The class for the low three bits of a number.
    pub open spec fn of_bits(bits: int) -> UnixPexClass {
        UnixPexClass {
            read: bits / 4 % 2 == 1,
            write: bits / 2 % 2 == 1,
            execute: bits % 2 == 1,
        }
    }

    /// A class with the given permissions.
    pub fn new(read: bool, write: bool, execute: bool) -> (r: UnixPexClass)
        ensures
            r == (UnixPexClass { read, write, execute }),
    {
        UnixPexClass { read, write, execute }
    }

    /// The octal digit of a class.
    pub fn as_byte(&self) -> (r: u8)
        ensures
            r == self.digit(),
            r <= 7,
    {
        let read: u8 = if self.read {
            4
        } else {
            0
        };
        let write: u8 = if self.write {
            2
        } else {
            0
        };
        let execute: u8 = if self.execute {
            1
        } else {
            0
        };
        read + write + execute
    }
}

impl From<u8> for UnixPexClass {
    fn from(bits: u8) -> (r: UnixPexClass) {
        UnixPexClass {
            read: bits / 4 % 2 == 1,
            write: bits / 2 % 2 == 1,
            execute: bits % 2 == 1,
        }
    }
}

impl vstd::std_specs::convert::FromSpecImpl<u8> for UnixPexClass {
    open spec fn obeys_from_spec() -> bool {
        true
    }

    open spec fn from_spec(bits: u8) -> UnixPexClass {
        UnixPexClass::of_bits(bits as int)
    }
}

/// What the owner, the group and all others may do.
#[derive(Clone, Copy, Debug, PartialEq, Eq, Structural)]
pub struct UnixPex {
    pub user: UnixPexClass,
    pub group: UnixPexClass,
    pub others: UnixPexClass,
}

impl UnixPex {
    /// The number whose three octal digits are the three classes.
    pub open spec fn mode(self) -> int {
        self.user.digit() * 64 + self.group.digit() * 8 + self.others.digit()
    }

    /// The permissions in the low nine bits of a number.
    pub open spec fn of_mode(mode: int) -> UnixPex {
        UnixPex {
            user: UnixPexClass::of_bits(mode / 64 % 8),
            group: UnixPexClass::of_bits(mode / 8 % 8),
            others: UnixPexClass::of_bits(mode % 8),
        }
    }

    /// Permissions made of three classes.
    pub fn new(user: UnixPexClass, group: UnixPexClass, others: UnixPexClass) -> (r: UnixPex)
        ensures
            r == (UnixPex { user, group, others }),
    {
        UnixPex { user, group, others }
    }
}

impl From<u32> for UnixPex {
    fn from(mode: u32) -> (r: UnixPex) {
        UnixPex {
            user: UnixPexClass::from((mode / 64 % 8) as u8),
            group: UnixPexClass::from((mode / 8 % 8) as u8),
            others: UnixPexClass::from((mode % 8) as u8),
        }
    }
}

impl vstd::std_specs::convert::FromSpecImpl<u32> for UnixPex {
    open spec fn obeys_from_spec() -> bool {
        true
    }

    open spec fn from_spec(mode: u32) -> UnixPex {
        UnixPex::of_mode(mode as int)
    }
}

impl From<UnixPex> for u32 {
    fn from(pex: UnixPex) -> (r: u32) {
        pex.user.as_byte() as u32 * 64 + pex.group.as_byte() as u32 * 8 + pex.others.as_byte() as u32
    }
}

impl vstd::std_specs::convert::FromSpecImpl<UnixPex> for u32 {
    open spec fn obeys_from_spec() -> bool {
        true
    }

    open spec fn from_spec(pex: UnixPex) -> u32 {
        pex.mode() as u32
    }
}

/// The class that three letters of a listing show: each but `-` grants a permission.
pub open spec fn shown_class(letters: Seq<char>, from: int) -> UnixPexClass {
    UnixPexClass {
        read: letters[from] != '-',
        write: letters[from + 1] != '-',
        execute: letters[from + 2] != '-',
    }
}

/// The permissions that nine letters of a listing show.
pub open spec fn shown_pex(letters: Seq<char>) -> UnixPex {
    UnixPex {
        user: shown_class(letters, 0),
        group: shown_class(letters, 3),
        others: shown_class(letters, 6),
    }
}

/// The octal digit that three letters of a listing show.
fn shown_digit(letters: &Vec<char>, from: usize) -> (r: u8)
    requires
        from + 3 <= letters.len(),
    ensures
        r == shown_class(letters@, from as int).digit(),
        r <= 7,
{
    let mut count: u8 = 0;
    if letters[from] != '-' {
        count = count + 4;
    }
    if letters[from + 1] != '-' {
        count = count + 2;
    }
    if letters[from + 2] != '-' {
        count = count + 1;
    }
    count
}

/// A class is the one for its own digit.
pub proof fn lemma_class_of_digit(class: UnixPexClass)
    ensures
        UnixPexClass::of_bits(class.digit()) == class,
        0 <= class.digit() <= 7,
{
}

/// The permissions that nine letters of a listing show.
pub fn read_pex(letters: &Vec<char>) -> (r: UnixPex)
    requires
        letters.len() >= 9,
    ensures
        r == shown_pex(letters@),
{
    proof {
        lemma_class_of_digit(shown_class(letters@, 0));
        lemma_class_of_digit(shown_class(letters@, 3));
        lemma_class_of_digit(shown_class(letters@, 6));
    }
    UnixPex::new(
        UnixPexClass::from(shown_digit(letters, 0)),
        UnixPexClass::from(shown_digit(letters, 3)),
        UnixPexClass::from(shown_digit(letters, 6)),
    )
}

/// Permissions come back from their number.
pub proof fn law_mode_gives_back_permissions(pex: UnixPex)
    ensures
        0 <= pex.mode() <= 0o777,
        UnixPex::of_mode(pex.mode()) == pex,
{
    lemma_class_of_digit(pex.user);
    lemma_class_of_digit(pex.group);
    lemma_class_of_digit(pex.others);
    lemma_octal_digits(pex.user.digit(), pex.group.digit(), pex.others.digit());
}

/// Three octal digits come back from the number that they make.
proof fn lemma_octal_digits(a: int, b: int, c: int)
    requires
        0 <= a <= 7,
        0 <= b <= 7,
        0 <= c <= 7,
    ensures
        (a * 64 + b * 8 + c) / 64 % 8 == a,
        (a * 64 + b * 8 + c) / 8 % 8 == b,
        (a * 64 + b * 8 + c) % 8 == c,
{
}

/// A number of nine bits comes back from the permissions that it stands for.
pub proof fn law_permissions_give_back_mode(mode: int)
    requires
        0 <= mode <= 0o777,
    ensures
        UnixPex::of_mode(mode).mode() == mode,
{
    lemma_digit_of_bits(mode / 64 % 8);
    lemma_digit_of_bits(mode / 8 % 8);
    lemma_digit_of_bits(mode % 8);
}

/// A digit comes back from the class that it stands for.
proof fn lemma_digit_of_bits(bits: int)
    requires
        0 <= bits <= 7,
    ensures
        UnixPexClass::of_bits(bits).digit() == bits,
{
}

/// The number 1 where a permission is granted and 0 where it is not.
pub open spec fn bit(set: bool) -> int {
    if set {
        1
    } else {
        0
    }
}

/// The number of permissions has one bit for each of them: from the highest, what the owner,
/// the group and all others may read, write and execute.
pub proof fn law_mode_has_a_bit_for_each_permission(pex: UnixPex)
    ensures
        pex.mode() == 256 * bit(pex.user.read) + 128 * bit(pex.user.write) + 64 * bit(
            pex.user.execute,
        ) + 32 * bit(pex.group.read) + 16 * bit(pex.group.write) + 8 * bit(pex.group.execute) + 4
            * bit(pex.others.read) + 2 * bit(pex.others.write) + bit(pex.others.execute),
{
}

/// Different permissions have different numbers.
pub proof fn law_modes_differ(a: UnixPex, b: UnixPex)
    requires
        a.mode() == b.mode(),
    ensures
        a == b,
{
    law_mode_gives_back_permissions(a);
    law_mode_gives_back_permissions(b);
}

/// Each of the nine letters of a listing grants one permission, unless it is a dash.
pub proof fn law_each_letter_shows_one_permission(letters: Seq<char>)
    ensures
        shown_pex(letters).mode() == 256 * bit(letters[0] != '-') + 128 * bit(letters[1] != '-')
            + 64 * bit(letters[2] != '-') + 32 * bit(letters[3] != '-') + 16 * bit(
            letters[4] != '-',
        ) + 8 * bit(letters[5] != '-') + 4 * bit(letters[6] != '-') + 2 * bit(letters[7] != '-')
            + bit(letters[8] != '-'),
{
    law_mode_has_a_bit_for_each_permission(shown_pex(letters));
}

/// A digit has one bit for each permission of its class.
pub proof fn law_digit_has_a_bit_for_each_permission(class: UnixPexClass)
    ensures
        class.digit() == 4 * bit(class.read) + 2 * bit(class.write) + bit(class.execute),
{
}

/// Only the low nine bits of a number are permissions, and only the low three those of a
/// class: what is above them changes nothing.
pub proof fn law_only_the_low_bits_are_permissions(mode: int, bits: int, high: int)
    ensures
        UnixPex::of_mode(mode + 512 * high) == UnixPex::of_mode(mode),
        UnixPexClass::of_bits(bits + 8 * high) == UnixPexClass::of_bits(bits),
{
    lemma_high_part(mode, high);
    lemma_high_part_of_class(bits, high);
}

proof fn lemma_high_part_of_class(bits: int, high: int)
    ensures
        (bits + 8 * high) / 4 % 2 == bits / 4 % 2,
        (bits + 8 * high) / 2 % 2 == bits / 2 % 2,
        (bits + 8 * high) % 2 == bits % 2,
{
    assert((bits + 8 * high) / 4 == bits / 4 + 2 * high);
    assert((bits + 8 * high) / 2 == bits / 2 + 4 * high);
    assert((bits / 4 + 2 * high) % 2 == bits / 4 % 2);
    assert((bits / 2 + 4 * high) % 2 == bits / 2 % 2);
}

proof fn lemma_high_part(mode: int, high: int)
    ensures
        (mode + 512 * high) / 64 % 8 == mode / 64 % 8,
        (mode + 512 * high) / 8 % 8 == mode / 8 % 8,
        (mode + 512 * high) % 8 == mode % 8,
{
    assert((mode + 512 * high) / 64 == mode / 64 + 8 * high);
    assert((mode + 512 * high) / 8 == mode / 8 + 64 * high);
    assert((mode / 64 + 8 * high) % 8 == mode / 64 % 8);
    assert((mode / 8 + 64 * high) % 8 == mode / 8 % 8);
}

} // verus!
