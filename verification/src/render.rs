//! Verified text rendering: hexadecimal and decimal digits, the hyphenated
//! form of a domain identifier, and the failure messages of the gateway.

use vstd::prelude::*;
use vstd::string::StringExecFns;

use crate::schema::DomainUuid;

verus! {

/// The lowercase hexadecimal digit character for a value below 16.
pub open spec fn spec_hex_char(n: u8) -> char
    recommends
        n < 16,
{
    if n == 0 {
        '0'
    } else if n == 1 {
        '1'
    } else if n == 2 {
        '2'
    } else if n == 3 {
        '3'
    } else if n == 4 {
        '4'
    } else if n == 5 {
        '5'
    } else if n == 6 {
        '6'
    } else if n == 7 {
        '7'
    } else if n == 8 {
        '8'
    } else if n == 9 {
        '9'
    } else if n == 10 {
        'a'
    } else if n == 11 {
        'b'
    } else if n == 12 {
        'c'
    } else if n == 13 {
        'd'
    } else if n == 14 {
        'e'
    } else {
        'f'
    }
}

/// The two lowercase hexadecimal digits of one byte.
pub open spec fn spec_hex_pair(b: u8) -> Seq<char> {
    seq![spec_hex_char(b / 16), spec_hex_char(b % 16)]
}

/// The lowercase hexadecimal rendering of a byte sequence, two digits per
/// byte.
pub open spec fn spec_hex(bytes: Seq<u8>) -> Seq<char>
    decreases bytes.len(),
{
    if bytes.len() == 0 {
        Seq::empty()
    } else {
        spec_hex(bytes.drop_last()) + spec_hex_pair(bytes.last())
    }
}

/// The hexadecimal rendering of a byte sequence is two characters per byte.
pub proof fn lemma_spec_hex_len(bytes: Seq<u8>)
    ensures
        spec_hex(bytes).len() == 2 * bytes.len(),
    decreases bytes.len(),
{
    if bytes.len() > 0 {
        lemma_spec_hex_len(bytes.drop_last());
    }
}

/// The decimal rendering of a natural number, without leading zeros.
pub open spec fn spec_dec(n: nat) -> Seq<char>
    decreases n,
{
    if n < 10 {
        seq![spec_hex_char(n as u8)]
    } else {
        spec_dec(n / 10) + seq![spec_hex_char((n % 10) as u8)]
    }
}

/// The hyphenated lowercase rendering of a 16-byte identifier: five
/// hexadecimal groups of 8, 4, 4, 4 and 12 digits.
pub open spec fn spec_uuid_str(b: Seq<u8>) -> Seq<char>
    recommends
        b.len() == 16,
{
    spec_hex(b.subrange(0, 4)) + "-"@ + spec_hex(b.subrange(4, 6)) + "-"@ + spec_hex(
        b.subrange(6, 8),
    ) + "-"@ + spec_hex(b.subrange(8, 10)) + "-"@ + spec_hex(b.subrange(10, 16))
}

/// The hyphenated rendering of a 16-byte identifier has 36 characters.
pub proof fn lemma_spec_uuid_str_len(b: Seq<u8>)
    requires
        b.len() == 16,
    ensures
        spec_uuid_str(b).len() == 36,
{
    reveal_strlit("-");
    lemma_spec_hex_len(b.subrange(0, 4));
    lemma_spec_hex_len(b.subrange(4, 6));
    lemma_spec_hex_len(b.subrange(6, 8));
    lemma_spec_hex_len(b.subrange(8, 10));
    lemma_spec_hex_len(b.subrange(10, 16));
}

/// One lowercase hexadecimal digit as a string slice.
fn hex_digit_str(n: u8) -> (r: &'static str)
    requires
        n < 16,
    ensures
        r@ == seq![spec_hex_char(n)],
{
    match n {
        0 => {
            proof {
                reveal_strlit("0");
                assert("0"@ =~= seq![spec_hex_char(n)]);
            }
            "0"
        },
        1 => {
            proof {
                reveal_strlit("1");
                assert("1"@ =~= seq![spec_hex_char(n)]);
            }
            "1"
        },
        2 => {
            proof {
                reveal_strlit("2");
                assert("2"@ =~= seq![spec_hex_char(n)]);
            }
            "2"
        },
        3 => {
            proof {
                reveal_strlit("3");
                assert("3"@ =~= seq![spec_hex_char(n)]);
            }
            "3"
        },
        4 => {
            proof {
                reveal_strlit("4");
                assert("4"@ =~= seq![spec_hex_char(n)]);
            }
            "4"
        },
        5 => {
            proof {
                reveal_strlit("5");
                assert("5"@ =~= seq![spec_hex_char(n)]);
            }
            "5"
        },
        6 => {
            proof {
                reveal_strlit("6");
                assert("6"@ =~= seq![spec_hex_char(n)]);
            }
            "6"
        },
        7 => {
            proof {
                reveal_strlit("7");
                assert("7"@ =~= seq![spec_hex_char(n)]);
            }
            "7"
        },
        8 => {
            proof {
                reveal_strlit("8");
                assert("8"@ =~= seq![spec_hex_char(n)]);
            }
            "8"
        },
        9 => {
            proof {
                reveal_strlit("9");
                assert("9"@ =~= seq![spec_hex_char(n)]);
            }
            "9"
        },
        10 => {
            proof {
                reveal_strlit("a");
                assert("a"@ =~= seq![spec_hex_char(n)]);
            }
            "a"
        },
        11 => {
            proof {
                reveal_strlit("b");
                assert("b"@ =~= seq![spec_hex_char(n)]);
            }
            "b"
        },
        12 => {
            proof {
                reveal_strlit("c");
                assert("c"@ =~= seq![spec_hex_char(n)]);
            }
            "c"
        },
        13 => {
            proof {
                reveal_strlit("d");
                assert("d"@ =~= seq![spec_hex_char(n)]);
            }
            "d"
        },
        14 => {
            proof {
                reveal_strlit("e");
                assert("e"@ =~= seq![spec_hex_char(n)]);
            }
            "e"
        },
        _ => {
            proof {
                reveal_strlit("f");
                assert("f"@ =~= seq![spec_hex_char(n)]);
            }
            "f"
        },
    }
}

/// Appends the two hexadecimal digits of one byte.
fn push_hex_byte(out: &mut String, b: u8)
    ensures
        final(out)@ == old(out)@ + spec_hex_pair(b),
{
    out.append(hex_digit_str(b / 16));
    out.append(hex_digit_str(b % 16));
    proof {
        assert(final(out)@ =~= old(out)@ + spec_hex_pair(b));
    }
}

/// Appends the hexadecimal rendering of `bytes[lo..hi]`.
fn push_hex_range(out: &mut String, bytes: &Vec<u8>, lo: usize, hi: usize)
    requires
        lo <= hi <= bytes@.len(),
    ensures
        final(out)@ == old(out)@ + spec_hex(bytes@.subrange(lo as int, hi as int)),
{
    let mut j: usize = lo;
    while j < hi
        invariant
            lo <= j <= hi <= bytes@.len(),
            out@ == old(out)@ + spec_hex(bytes@.subrange(lo as int, j as int)),
        decreases hi - j,
    {
        push_hex_byte(out, bytes[j]);
        proof {
            let pre = bytes@.subrange(lo as int, j as int);
            let post = bytes@.subrange(lo as int, j + 1 as int);
            assert(post.drop_last() =~= pre);
            assert(post.last() == bytes@[j as int]);
            assert(out@ =~= old(out)@ + spec_hex(post));
        }
        j += 1;
    }
    proof {
        assert(bytes@.subrange(lo as int, j as int) =~= bytes@.subrange(lo as int, hi as int));
    }
}

/// Appends the decimal rendering of `n`.
fn push_dec(out: &mut String, n: u32)
    ensures
        final(out)@ == old(out)@ + spec_dec(n as nat),
    decreases n,
{
    if n >= 10 {
        push_dec(out, n / 10);
    }
    out.append(hex_digit_str((n % 10) as u8));
    proof {
        assert(final(out)@ =~= old(out)@ + spec_dec(n as nat));
    }
}

/// The decimal rendering of a number as a string.
pub fn dec_string(n: u32) -> (r: String)
    ensures
        r@ == spec_dec(n as nat),
{
    let mut out = String::new();
    push_dec(&mut out, n);
    proof {
        assert(out@ =~= spec_dec(n as nat));
    }
    out
}

/// The hyphenated lowercase rendering of a domain identifier, the form in
/// which identifiers appear in messages.
pub fn uuid_string(uuid: &DomainUuid) -> (r: String)
    requires
        uuid.wf(),
    ensures
        r@ == spec_uuid_str(uuid@),
{
    let bytes = uuid.bytes();
    let mut out = String::new();
    push_hex_range(&mut out, bytes, 0, 4);
    out.append("-");
    push_hex_range(&mut out, bytes, 4, 6);
    out.append("-");
    push_hex_range(&mut out, bytes, 6, 8);
    out.append("-");
    push_hex_range(&mut out, bytes, 8, 10);
    out.append("-");
    push_hex_range(&mut out, bytes, 10, 16);
    proof {
        assert(out@ =~= spec_uuid_str(uuid@));
    }
    out
}

/// The structured failure message for a lookup of an unknown identifier.
pub open spec fn spec_not_found_message(u: Seq<u8>) -> Seq<char> {
    "domain with UUID '"@ + spec_uuid_str(u) + "' not found"@
}

/// Builds the not-found failure message for an identifier.
pub fn not_found_message(uuid: &DomainUuid) -> (r: String)
    requires
        uuid.wf(),
    ensures
        r@ == spec_not_found_message(uuid@),
{
    let mut out = String::from_str("domain with UUID '");
    let us = uuid_string(uuid);
    out.append(us.as_str());
    out.append("' not found");
    proof {
        assert(out@ =~= spec_not_found_message(uuid@));
    }
    out
}

/// The failure message for a native call that reported success with a
/// non-zero advisory code, naming the native operation and the code.
pub open spec fn spec_nonzero_message(op: Seq<char>, code: nat) -> Seq<char> {
    op + " returned a non-0 response: "@ + spec_dec(code)
}

/// Builds the non-zero-response failure message.
pub fn nonzero_message(op: &str, code: u32) -> (r: String)
    ensures
        r@ == spec_nonzero_message(op@, code as nat),
{
    let mut out = String::from_str(op);
    out.append(" returned a non-0 response: ");
    push_dec(&mut out, code);
    proof {
        assert(out@ =~= spec_nonzero_message(op@, code as nat));
    }
    out
}

/// Law: the not-found message names the identifier: for every 16-byte
/// identifier, the hyphenated rendering of the identifier occurs verbatim
/// inside the message, at the position after the fixed prefix.
pub proof fn lemma_not_found_message_contains_uuid(u: Seq<u8>)
    requires
        u.len() == 16,
    ensures
        spec_not_found_message(u).len() == 65,
        spec_not_found_message(u).subrange(18, 54) == spec_uuid_str(u),
{
    reveal_strlit("domain with UUID '");
    reveal_strlit("' not found");
    lemma_spec_uuid_str_len(u);
    assert(spec_not_found_message(u).subrange(18, 54) =~= spec_uuid_str(u));
}

} // verus!
