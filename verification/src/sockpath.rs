//! Names for ephemeral sockets.
use crate::path::{directory_prefix, join, joined, SEPARATOR};
use nanorand::rand::chacha::ChaCha20;
use nanorand::rand::Rng;
use vstd::arithmetic::div_mod::{lemma_div_denominator, lemma_fundamental_div_mod};
use vstd::arithmetic::power::{lemma_pow0, lemma_pow1, lemma_pow_adds, lemma_pow_positive, pow};
use vstd::prelude::*;

verus! {

/// The bytes of a text all of whose characters are ASCII.
pub open spec fn ascii(text: Seq<char>) -> Seq<u8> {
    text.map_values(|c: char| c as u8)
}

/// The character that stands for `value` in base sixteen, lower case.
pub open spec fn hex_digit(value: int) -> u8 {
    if value < 10 {
        (48 + value) as u8
    } else {
        (87 + value) as u8
    }
}

/// The digit of `number` at `position` in base sixteen, where position 0 is the last digit.
pub open spec fn digit_at(number: int, position: nat) -> int {
    number / pow(16, position) % 16
}

/// `number` in base sixteen, padded with zeros to sixteen digits.
pub open spec fn hex16(number: u64) -> Seq<u8> {
    Seq::new(16, |i: int| hex_digit(digit_at(number as int, (15 - i) as nat)))
}

/// The file name of the ephemeral socket with the given number.
pub open spec fn ephemeral_name(number: u64) -> Seq<u8> {
    ascii("temp-"@) + hex16(number) + ascii(".sock"@)
}

/// The path of the ephemeral socket with the given number, in the directory `temp_dir`.
pub open spec fn ephemeral_path(temp_dir: Seq<u8>, number: u64) -> Seq<u8> {
    joined(temp_dir, ephemeral_name(number))
}

/// Write one digit of base sixteen.
fn write_digit(value: u64) -> (digit: u8)
    requires
        value < 16,
    ensures
        digit == hex_digit(value as int),
{
    if value < 10 {
        48 + value as u8
    } else {
        87 + value as u8
    }
}

proof fn lemma_shift(number: int, position: nat)
    requires
        number >= 0,
    ensures
        number / pow(16, position) / 16 == number / pow(16, position + 1),
        pow(16, position) > 0,
{
    lemma_pow_positive(16, position);
    lemma_pow_adds(16, position, 1);
    lemma_pow1(16);
    lemma_div_denominator(number, pow(16, position), 16);
}

/// Write `number` with sixteen digits of base sixteen.
fn write_hex16(number: u64) -> (text: Vec<u8>)
    ensures
        text@ == hex16(number),
{
    let mut text: Vec<u8> = vec![48u8; 16];
    let mut rest: u64 = number;
    let mut done: usize = 0;
    proof {
        lemma_pow0(16);
    }
    while done < 16
        invariant
            done <= 16,
            text@.len() == 16,
            rest == number as int / pow(16, done as nat),
            forall|i: int| 16 - done <= i < 16 ==> text@[i] == #[trigger] hex16(number)[i],
        decreases 16 - done,
    {
        proof {
            lemma_shift(number as int, done as nat);
        }
        let digit: u8 = write_digit(rest % 16);
        assert(hex16(number)[15 - done] == digit);
        text.set(15 - done, digit);
        rest = rest / 16;
        done = done + 1;
    }
    assert(text@ =~= hex16(number));
    text
}

/// Path of the ephemeral socket numbered `number`: `$temp_dir/temp-XXXXXXXXXXXXXXXX.sock`, where
/// the sixteen `X` are the number's digits in base sixteen.
pub fn numbered_sockpath(temp_dir: &[u8], number: u64) -> (path: Vec<u8>)
    ensures
        path@ == ephemeral_path(temp_dir@, number),
{
    let mut name: Vec<u8> = Vec::new();
    proof {
        reveal_strlit("temp-");
        reveal_strlit(".sock");
    }
    let prefix = "temp-".as_bytes();
    let suffix = ".sock".as_bytes();
    assert("temp-".is_ascii() && ".sock".is_ascii());
    assert(prefix@ =~= ascii("temp-"@));
    assert(suffix@ =~= ascii(".sock"@));
    let digits = write_hex16(number);
    name.extend_from_slice(prefix);
    name.extend_from_slice(digits.as_slice());
    name.extend_from_slice(suffix);
    assert(name@ =~= ephemeral_name(number));
    join(temp_dir, name.as_slice())
}

/// Draw a number with `nanorand`: a `ChaCha20` generator seeded from the system's entropy
/// generates one `u64`. Nothing is claimed of the number.
#[verifier::external_body]
pub(crate) fn random_number() -> u64 {
    ChaCha20::new().generate::<u64>()
}

/// Whether `number` can come of a draw. This is known of a number only after it was drawn.
pub closed spec fn is_drawn(number: u64) -> bool {
    call_ensures(random_number, (), number)
}

/// The numbers that can come of a draw are those that a call of [`random_number`] can return.
pub(crate) proof fn law_drawn_numbers_come_from_the_generator(number: u64)
    ensures
        is_drawn(number) <==> call_ensures(random_number, (), number),
{
}

/// Obtain a random path in the directory `temp_dir`, of the form
/// `$temp_dir/temp-XXXXXXXXXXXXXXXX.sock` (16 xs), where the xs are replaced by characters from
/// `0-9a-f`: the digits of a number that was drawn for it.
pub fn get_random_sockpath(temp_dir: &[u8]) -> (path: Vec<u8>)
    ensures
        exists|number: u64|
            #[trigger] is_drawn(number) && path@ == ephemeral_path(temp_dir@, number),
{
    let number: u64 = random_number();
    assert(is_drawn(number));
    numbered_sockpath(temp_dir, number)
}

/// Whether `byte` is one of `0-9a-f`.
pub open spec fn is_hex_digit(byte: u8) -> bool {
    48 <= byte <= 57 || 97 <= byte <= 102
}

/// An ephemeral socket's name is `temp-`, sixteen characters from `0-9a-f`, then `.sock`; it names
/// a file of the directory it is joined to.
pub proof fn law_ephemeral_path_form(temp_dir: Seq<u8>, number: u64)
    ensures
        ephemeral_path(temp_dir, number) == directory_prefix(temp_dir) + ascii("temp-"@) + hex16(
            number,
        ) + ascii(".sock"@),
        hex16(number).len() == 16,
        forall|i: int| 0 <= i < 16 ==> is_hex_digit(#[trigger] hex16(number)[i]),
        !ephemeral_name(number).contains(SEPARATOR),
{
    reveal_strlit("temp-");
    reveal_strlit(".sock");
    let name = ephemeral_name(number);
    assert forall|i: int| 0 <= i < name.len() implies name[i] != SEPARATOR by {
        if 5 <= i < 21 {
            assert(name[i] == hex16(number)[i - 5]);
        }
    }
    assert(name[0] == ascii("temp-"@)[0]);
    assert(ephemeral_path(temp_dir, number) =~= directory_prefix(temp_dir) + ascii("temp-"@)
        + hex16(number) + ascii(".sock"@));
}

proof fn lemma_digits_determine_number(one: u64, other: u64, position: nat)
    requires
        hex16(one) == hex16(other),
        position <= 16,
    ensures
        one as int / pow(16, position) == other as int / pow(16, position),
    decreases 16 - position,
{
    if position == 16 {
        assert(pow(16, 16) == 0x1_0000_0000_0000_0000) by {
            lemma_pow_adds(16, 8, 8);
            assert(pow(16, 8) == 0x1_0000_0000) by {
                reveal(pow);
                reveal_with_fuel(pow, 9);
            }
        }
    } else {
        lemma_digits_determine_number(one, other, position + 1);
        lemma_shift(one as int, position);
        lemma_shift(other as int, position);
        let i = 15 - position;
        assert(hex16(one)[i] == hex_digit(digit_at(one as int, position)));
        assert(hex16(other)[i] == hex_digit(digit_at(other as int, position)));
        assert(digit_at(one as int, position) == digit_at(other as int, position));
        lemma_fundamental_div_mod(one as int / pow(16, position), 16);
        lemma_fundamental_div_mod(other as int / pow(16, position), 16);
    }
}

/// Two numbers name one ephemeral socket of a directory only if they are the same number.
pub proof fn law_ephemeral_paths_are_distinct(temp_dir: Seq<u8>, one: u64, other: u64)
    ensures
        ephemeral_path(temp_dir, one) == ephemeral_path(temp_dir, other) <==> one == other,
{
    if ephemeral_path(temp_dir, one) == ephemeral_path(temp_dir, other) {
        law_ephemeral_path_form(temp_dir, one);
        law_ephemeral_path_form(temp_dir, other);
        let start: int = (directory_prefix(temp_dir).len() + ascii("temp-"@).len()) as int;
        let path = ephemeral_path(temp_dir, one);
        assert(hex16(one) =~= path.subrange(start, start + 16));
        assert(hex16(other) =~= path.subrange(start, start + 16));
        lemma_digits_determine_number(one, other, 0);
        lemma_pow0(16);
    }
}

/// An ephemeral path, byte by byte: the directory, a separator if that is neither empty nor ends in
/// one, `temp-`, the sixteen digits of the number in base sixteen, the most significant first, and
/// `.sock`.
pub proof fn law_ephemeral_path_bytes(temp_dir: Seq<u8>, number: u64)
    ensures
        ({
            let path = ephemeral_path(temp_dir, number);
            let start = path.len() - 26;
            &&& path.take(temp_dir.len() as int) == temp_dir
            &&& if temp_dir.len() > 0 && temp_dir.last() != 47 {
                start == temp_dir.len() + 1 && path[temp_dir.len() as int] == 47
            } else {
                start == temp_dir.len()
            }
            &&& path.subrange(start, start + 5) == seq![116u8, 101u8, 109u8, 112u8, 45u8]
            &&& path.skip(start + 21) == seq![46u8, 115u8, 111u8, 99u8, 107u8]
            &&& forall|i: int|
                0 <= i < 16 ==> ({
                    let digit = number as int / pow(16, (15 - i) as nat) % 16;
                    #[trigger] path[start + 5 + i] == if digit < 10 {
                        48 + digit
                    } else {
                        87 + digit
                    }
                })
        }),
{
    reveal_strlit("temp-");
    reveal_strlit(".sock");
    law_ephemeral_path_form(temp_dir, number);
    let path = ephemeral_path(temp_dir, number);
    let prefix = directory_prefix(temp_dir);
    let start = path.len() - 26;
    assert(ascii("temp-"@) =~= seq![116u8, 101u8, 109u8, 112u8, 45u8]);
    assert(ascii(".sock"@) =~= seq![46u8, 115u8, 111u8, 99u8, 107u8]);
    assert(start == prefix.len());
    assert(path.take(temp_dir.len() as int) =~= temp_dir);
    assert(path.subrange(start, start + 5) =~= ascii("temp-"@));
    assert(path.skip(start + 21) =~= ascii(".sock"@));
    assert forall|i: int| 0 <= i < 16 implies ({
        let digit = number as int / pow(16, (15 - i) as nat) % 16;
        #[trigger] path[start + 5 + i] == if digit < 10 {
            48 + digit
        } else {
            87 + digit
        }
    }) by {
        assert(path[start + 5 + i] == hex16(number)[i]);
    }
}

} // verus!
