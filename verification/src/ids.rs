//! Identifiers carried through the hub.
//!
//! Domain records are addressed by 128-bit identifiers. The transport
//! layer validates and decodes their wire form; here they are plain
//! numbers, rendered back to the canonical lowercase hyphenated text when
//! a response body has to name one.

use vstd::prelude::*;
use crate::strings::push_char;

verus! {

/// A 128-bit record identifier, as the plain number its wire form decodes
/// to.
#[derive(Clone, Copy, PartialEq, Eq, Structural, Debug)]
pub struct Uuid {
    pub value: u128,
}

/// The lowercase hex digit for a value below 16.
pub open spec fn spec_hex_char(d: u128) -> char {
    if d == 0 {
        '0'
    } else if d == 1 {
        '1'
    } else if d == 2 {
        '2'
    } else if d == 3 {
        '3'
    } else if d == 4 {
        '4'
    } else if d == 5 {
        '5'
    } else if d == 6 {
        '6'
    } else if d == 7 {
        '7'
    } else if d == 8 {
        '8'
    } else if d == 9 {
        '9'
    } else if d == 10 {
        'a'
    } else if d == 11 {
        'b'
    } else if d == 12 {
        'c'
    } else if d == 13 {
        'd'
    } else if d == 14 {
        'e'
    } else {
        'f'
    }
}

/// The last `n` hex digits of `v`, most significant first.
pub open spec fn spec_hex_digits(v: u128, n: nat) -> Seq<char>
    decreases n,
{
    if n == 0 {
        Seq::empty()
    } else {
        spec_hex_digits(v / 16, (n - 1) as nat).push(spec_hex_char(v % 16))
    }
}

/// A value rendered in `n` digits occupies exactly `n` characters.
pub proof fn lemma_hex_digits_len(v: u128, n: nat)
    ensures
        spec_hex_digits(v, n).len() == n,
    decreases n,
{
    if n > 0 {
        lemma_hex_digits_len(v / 16, (n - 1) as nat);
    }
}

/// The canonical text of an identifier: 32 lowercase hex digits in groups
/// of 8, 4, 4, 4 and 12, separated by hyphens.
pub open spec fn spec_uuid_text(v: u128) -> Seq<char> {
    let d = spec_hex_digits(v, 32);
    d.subrange(0, 8) + seq!['-'] + d.subrange(8, 12) + seq!['-'] + d.subrange(12, 16)
        + seq!['-'] + d.subrange(16, 20) + seq!['-'] + d.subrange(20, 32)
}

pub(crate) fn hex_char(d: u128) -> (c: char)
    requires
        d < 16,
    ensures
        c == spec_hex_char(d),
{
    match d {
        0 => '0',
        1 => '1',
        2 => '2',
        3 => '3',
        4 => '4',
        5 => '5',
        6 => '6',
        7 => '7',
        8 => '8',
        9 => '9',
        10 => 'a',
        11 => 'b',
        12 => 'c',
        13 => 'd',
        14 => 'e',
        _ => 'f',
    }
}

impl Uuid {
    /// Renders the canonical hyphenated text of this identifier.
    pub fn hyphenated(&self) -> (s: String)
        ensures
            s@ == spec_uuid_text(self.value),
    {
        let ghost all = spec_hex_digits(self.value, 32);

        // Extract the 32 hex digits, least significant first.
        let mut rev: Vec<char> = Vec::new();
        let mut rest: u128 = self.value;
        let mut k: usize = 0;
        while k < 32
            invariant
                k <= 32,
                all == spec_hex_digits(rest, (32 - k) as nat) + rev@.reverse(),
                rev@.len() == k,
            decreases 32 - k,
        {
            let ghost rev_before = rev@;
            let ghost rest_before = rest;
            rev.push(hex_char(rest % 16));
            rest = rest / 16;
            k += 1;
            proof {
                assert(rev@.reverse() =~= seq![spec_hex_char(rest_before % 16)]
                    + rev_before.reverse());
                assert(spec_hex_digits(rest_before, (32 - (k - 1)) as nat) == spec_hex_digits(
                    rest,
                    (32 - k) as nat,
                ).push(spec_hex_char(rest_before % 16)));
                assert(spec_hex_digits(rest, (32 - k) as nat).push(
                    spec_hex_char(rest_before % 16),
                ) + rev_before.reverse() =~= spec_hex_digits(rest, (32 - k) as nat) + (seq![
                    spec_hex_char(rest_before % 16),
                ] + rev_before.reverse()));
            }
        }
        proof {
            lemma_hex_digits_len(self.value, 32);
            assert(all =~= rev@.reverse());
            assert(forall|i: int| 0 <= i < 32 ==> all[i] == rev@[31 - i]);
        }

        // Write the digits out, most significant first, with the four
        // hyphens of the canonical form.
        let mut s = String::new();
        let mut i: usize = 0;
        while i < 32
            invariant
                i <= 32,
                rev@.len() == 32,
                all == spec_hex_digits(self.value, 32),
                all.len() == 32,
                forall|j: int| 0 <= j < 32 ==> all[j] == rev@[31 - j],
                s@ == spec_uuid_written(self.value, i as nat),
            decreases 32 - i,
        {
            if i == 8 || i == 12 || i == 16 || i == 20 {
                push_char(&mut s, '-');
            }
            push_char(&mut s, rev[31 - i]);
            i += 1;
            proof {
                assert(s@ =~= spec_uuid_written(self.value, i as nat));
            }
        }
        proof {
            reveal_with_fuel(spec_uuid_written, 33);
            assert(spec_uuid_written(self.value, 32) =~= spec_uuid_text(self.value));
        }
        s
    }
}

/// The prefix of the canonical text that covers the first `n` digits and
/// every hyphen that precedes them.
pub open spec fn spec_uuid_written(v: u128, n: nat) -> Seq<char>
    decreases n,
{
    if n == 0 {
        Seq::empty()
    } else {
        let with_digit = spec_uuid_written(v, (n - 1) as nat).push(
            spec_hex_digits(v, 32)[n - 1],
        );
        if n - 1 == 8 || n - 1 == 12 || n - 1 == 16 || n - 1 == 20 {
            spec_uuid_written(v, (n - 1) as nat).push('-').push(spec_hex_digits(v, 32)[n - 1])
        } else {
            with_digit
        }
    }
}

} // verus!
