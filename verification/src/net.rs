//! Addresses as text.

use vstd::prelude::*;

use crate::text::{dec, digit_char, join, lemma_join_push};

verus! {

/// Why an address could not be written.
#[derive(Debug, Clone, Copy, PartialEq, Eq, Structural)]
pub enum AddrError {
    /// A part of an IPv4 address has a digit above nine.
    InvalidIpv4Digit,
    /// Half a byte of an Ethernet address is no hexadecimal digit.
    InvalidEthByte,
}

/// The four parts of an IPv4 address, first part first.
pub open spec fn ipv4_parts(raw: u32) -> Seq<Seq<char>> {
    seq![
        dec((raw / 0x100_0000) as nat),
        dec((raw / 0x1_0000 % 256) as nat),
        dec((raw / 0x100 % 256) as nat),
        dec((raw % 256) as nat),
    ]
}

/// An IPv4 address in dotted decimal: four numbers without leading zeros,
/// every one of them present.
pub open spec fn ipv4_text(raw: u32) -> Seq<char> {
    join(ipv4_parts(raw), '.')
}

/// Appends a number below one thousand in decimal, without leading zeros.
/// Larger numbers have no digit for their hundreds.
fn push_part(addr: &mut String, input: u32) -> (r: Result<(), AddrError>)
    ensures
        r is Ok <==> input < 1000,
        r is Ok ==> final(addr)@ == old(addr)@ + dec(input as nat),
        r matches Err(e) ==> e == AddrError::InvalidIpv4Digit,
{
    let number = input;
    let mut push = false;
    let mut rest = number;
    let ghost before = addr@;
    let mut i: usize = 0;
    while i < 3
        invariant
            i <= 3,
            number == input,
            number < 1000 || i == 0,
            i == 0 ==> rest == number && !push && addr@ == before,
            i == 1 ==> rest == number % 100 && push == (number >= 100) && addr@ == before + if number
                >= 100 {
                seq![digit_char(number as int / 100)]
            } else {
                Seq::empty()
            },
            i == 2 ==> rest == number % 10 && push == (number >= 10) && addr@ == before + if number
                >= 10 {
                dec((number / 10) as nat)
            } else {
                Seq::empty()
            },
            i == 3 ==> addr@ == before + dec(number as nat),
        decreases 3 - i,
    {
        let ord: u32 = if i == 0 {
            100
        } else if i == 1 {
            10
        } else {
            1
        };
        let current = rest / ord;
        rest = rest % ord;

        // Do not push leading 0s but always push the last number in case
        // all we got was 0s.
        if push || current != 0 || ord == 1 {
            push = true;
            match char::from_digit(current, 10) {
                Some(digit) => addr.push(digit),
                None => {
                    return Err(AddrError::InvalidIpv4Digit);
                },
            }
        }
        proof {
            reveal_with_fuel(dec, 3);
            if i == 1 {
                assert(addr@ =~= before + if number >= 10 {
                    dec((number / 10) as nat)
                } else {
                    Seq::empty()
                });
            }
            if i == 2 {
                assert(addr@ =~= before + dec(number as nat));
            }
        }
        i += 1;
    }
    Ok(())
}

/// Parses an IPv4 address into a String.
pub fn parse_ipv4_addr(raw: u32) -> (r: Result<String, AddrError>)
    ensures
        r is Ok,
        r matches Ok(addr) ==> addr@ == ipv4_text(raw),
{
    let a: u32 = raw >> 24;
    let b: u32 = (raw >> 16) & 0xff;
    let c: u32 = (raw >> 8) & 0xff;
    let d: u32 = raw & 0xff;
    assert(a == raw / 0x100_0000 && a < 256) by (bit_vector)
        requires
            a == raw >> 24,
    ;
    assert(b == raw / 0x1_0000 % 256) by (bit_vector)
        requires
            b == (raw >> 16) & 0xff,
    ;
    assert(c == raw / 0x100 % 256) by (bit_vector)
        requires
            c == (raw >> 8) & 0xff,
    ;
    assert(d == raw % 256) by (bit_vector)
        requires
            d == raw & 0xff,
    ;

    let mut addr = String::new();
    match push_part(&mut addr, a) {
        Ok(()) => {},
        Err(e) => {
            return Err(e);
        },
    }
    addr.push('.');
    match push_part(&mut addr, b) {
        Ok(()) => {},
        Err(e) => {
            return Err(e);
        },
    }
    addr.push('.');
    match push_part(&mut addr, c) {
        Ok(()) => {},
        Err(e) => {
            return Err(e);
        },
    }
    addr.push('.');
    match push_part(&mut addr, d) {
        Ok(()) => {},
        Err(e) => {
            return Err(e);
        },
    }
    proof {
        let parts = ipv4_parts(raw);
        let one = Seq::<Seq<char>>::empty().push(parts[0]);
        let two = one.push(parts[1]);
        let three = two.push(parts[2]);
        let four = three.push(parts[3]);
        lemma_join_push(Seq::empty(), '.', parts[0]);
        lemma_join_push(one, '.', parts[1]);
        lemma_join_push(two, '.', parts[2]);
        lemma_join_push(three, '.', parts[3]);
        assert(four =~= parts);
        assert(addr@ =~= join(four, '.'));
    }
    Ok(addr)
}

/// The two hexadecimal digits of a byte, in lower case.
pub open spec fn hex_pair(byte: u8) -> Seq<char> {
    seq![digit_char(byte as int / 16), digit_char(byte as int % 16)]
}

/// An Ethernet address as text: the hexadecimal pairs of its bytes with
/// colons between them.
pub open spec fn eth_text(raw: Seq<u8>) -> Seq<char> {
    join(raw.map_values(|byte: u8| hex_pair(byte)), ':')
}

/// Parses an Ethernet address into a String.
pub fn parse_eth_addr(raw: &[u8; 6]) -> (r: Result<String, AddrError>)
    ensures
        r is Ok,
        r matches Ok(addr) ==> addr@ == eth_text(raw@),
{
    let mut addr = String::new();
    let mut i: usize = 0;
    while i < 6
        invariant
            i <= 6,
            raw@.len() == 6,
            addr@ == join(raw@.take(i as int).map_values(|byte: u8| hex_pair(byte)), ':') + if 0
                < i < 6 {
                seq![':']
            } else {
                Seq::empty()
            },
        decreases 6 - i,
    {
        let group = raw[i];
        let high: u8 = group >> 4;
        let low: u8 = group & 0xf;
        assert(high == group / 16 && low == group % 16) by (bit_vector)
            requires
                high == group >> 4,
                low == group & 0xf,
        ;
        let ghost before = raw@.take(i as int).map_values(|byte: u8| hex_pair(byte));
        match char::from_digit(high as u32, 16) {
            Some(digit) => addr.push(digit),
            None => {
                return Err(AddrError::InvalidEthByte);
            },
        }
        match char::from_digit(low as u32, 16) {
            Some(digit) => addr.push(digit),
            None => {
                return Err(AddrError::InvalidEthByte);
            },
        }
        if i < 5 {
            addr.push(':');
        }
        proof {
            lemma_join_push(before, ':', hex_pair(group));
            assert(raw@.take(i + 1).map_values(|byte: u8| hex_pair(byte)) =~= before.push(
                hex_pair(group),
            ));
            assert(addr@ =~= join(before.push(hex_pair(group)), ':') + if i < 5 {
                seq![':']
            } else {
                Seq::empty()
            });
        }
        i += 1;
    }
    assert(raw@.take(6) =~= raw@);
    Ok(addr)
}

} // verus!
