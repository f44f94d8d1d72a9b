//! A verified hexadecimal codec over ASCII bytes, for seed and payload
//! arguments and for displaying binary results.

use vstd::prelude::*;

use crate::Error;

verus! {

/// The value of one ASCII hex digit, upper or lower case.
pub open spec fn spec_hex_val(c: u8) -> Option<u8> {
    if 48 <= c <= 57 {
        Some((c - 48) as u8)
    } else if 97 <= c <= 102 {
        Some((c - 87) as u8)
    } else if 65 <= c <= 70 {
        Some((c - 55) as u8)
    } else {
        None
    }
}

/// The lowercase ASCII digit of a value below sixteen.
pub open spec fn spec_hex_digit(v: u8) -> u8 {
    if v < 10 {
        (48 + v) as u8
    } else {
        (87 + v) as u8
    }
}

/// The lowercase hex encoding of a byte sequence, two digits per byte.
pub open spec fn spec_hex_encode(data: Seq<u8>) -> Seq<u8>
    decreases data.len(),
{
    if data.len() == 0 {
        seq![]
    } else {
        seq![
            spec_hex_digit((data.first() / 16) as u8),
            spec_hex_digit((data.first() % 16) as u8),
        ] + spec_hex_encode(data.drop_first())
    }
}

/// What a hex string decodes to: one byte per digit pair, rejecting an odd
/// length or a non-digit.
pub open spec fn spec_hex_decode(s: Seq<u8>) -> Option<Seq<u8>>
    decreases s.len(),
{
    if s.len() == 0 {
        Some(seq![])
    } else if s.len() == 1 {
        None
    } else {
        match (spec_hex_val(s[0]), spec_hex_val(s[1])) {
            (Some(h), Some(l)) => match spec_hex_decode(s.skip(2)) {
                Some(rest) => Some(seq![(h * 16 + l) as u8] + rest),
                None => None,
            },
            _ => None,
        }
    }
}

/// Encode bytes as lowercase hex digits.
pub fn hex_encode(data: &Vec<u8>) -> (r: Vec<u8>)
    ensures
        r@ == spec_hex_encode(data@),
        r@.len() == 2 * data@.len(),
{
    let mut r: Vec<u8> = Vec::new();
    let mut i: usize = 0;
    proof {
        assert(data@.skip(0) == data@);
    }
    while i < data.len()
        invariant
            i <= data@.len(),
            r@.len() == 2 * i,
            spec_hex_encode(data@) == r@ + spec_hex_encode(data@.skip(i as int)),
        decreases data@.len() - i,
    {
        let b = data[i];
        let hi = b / 16;
        let lo = b % 16;
        r.push(if hi < 10 {
            48 + hi
        } else {
            87 + hi
        });
        r.push(if lo < 10 {
            48 + lo
        } else {
            87 + lo
        });
        proof {
            let tail = data@.skip(i as int);
            assert(tail.first() == data@[i as int]);
            assert(tail.drop_first() =~= data@.skip(i + 1));
            assert(spec_hex_encode(data@) =~= r@ + spec_hex_encode(data@.skip(i + 1)));
        }
        i += 1;
    }
    proof {
        assert(data@.skip(data@.len() as int) =~= Seq::<u8>::empty());
        assert(r@ =~= spec_hex_encode(data@));
    }
    r
}

/// Decode a hex string given as ASCII bytes. An odd number of digits or a
/// non-digit byte is an input error.
pub fn hex_decode(s: &Vec<u8>) -> (r: Result<Vec<u8>, Error>)
    ensures
        r matches Ok(d) ==> spec_hex_decode(s@) == Some(d@),
        r is Err <==> spec_hex_decode(s@) is None,
        r matches Err(e) ==> e == Error::InvalidHex,
{
    if s.len() % 2 != 0 {
        proof {
            lemma_hex_decode_odd(s@);
        }
        return Err(Error::InvalidHex);
    }
    let mut out: Vec<u8> = Vec::new();
    let mut i: usize = 0;
    proof {
        assert(s@.skip(0) == s@);
    }
    while i < s.len()
        invariant
            i <= s@.len(),
            i % 2 == 0,
            s@.len() % 2 == 0,
            out@.len() == i / 2,
            spec_hex_decode(s@) == match spec_hex_decode(s@.skip(i as int)) {
                Some(rest) => Some(out@ + rest),
                None => None::<Seq<u8>>,
            },
        decreases s@.len() - i,
    {
        let c0 = s[i];
        let c1 = s[i + 1];
        let h = match hex_val(c0) {
            Some(v) => v,
            None => {
                return Err(Error::InvalidHex);
            },
        };
        let l = match hex_val(c1) {
            Some(v) => v,
            None => {
                return Err(Error::InvalidHex);
            },
        };
        out.push(h * 16 + l);
        proof {
            let tail = s@.skip(i as int);
            assert(tail[0] == s@[i as int] && tail[1] == s@[i + 1]);
            assert(tail.skip(2) =~= s@.skip(i + 2));
            assert(spec_hex_decode(s@) == match spec_hex_decode(s@.skip(i + 2)) {
                Some(rest) => Some(out@ + rest),
                None => None::<Seq<u8>>,
            });
        }
        i += 2;
    }
    proof {
        assert(s@.skip(s@.len() as int) =~= Seq::<u8>::empty());
        assert(out@ + Seq::<u8>::empty() =~= out@);
    }
    Ok(out)
}

/// The value of one ASCII hex digit.
fn hex_val(c: u8) -> (r: Option<u8>)
    ensures
        r == spec_hex_val(c),
{
    if 48 <= c && c <= 57 {
        Some(c - 48)
    } else if 97 <= c && c <= 102 {
        Some(c - 87)
    } else if 65 <= c && c <= 70 {
        Some(c - 55)
    } else {
        None
    }
}

/// A hex string of odd length decodes to nothing.
proof fn lemma_hex_decode_odd(s: Seq<u8>)
    requires
        s.len() % 2 == 1,
    ensures
        spec_hex_decode(s) is None,
    decreases s.len(),
{
    if s.len() > 1 {
        lemma_hex_decode_odd(s.skip(2));
    }
}

/// Round trip: decoding inverts encoding on every byte sequence.
pub proof fn lemma_hex_roundtrip(data: Seq<u8>)
    ensures
        spec_hex_decode(spec_hex_encode(data)) == Some(data),
    decreases data.len(),
{
    if data.len() == 0 {
    } else {
        lemma_hex_roundtrip(data.drop_first());
        let b = data.first();
        let e = spec_hex_encode(data);
        assert(e[0] == spec_hex_digit((b / 16) as u8) && e[1] == spec_hex_digit((b % 16) as u8));
        assert(spec_hex_val(spec_hex_digit((b / 16) as u8)) == Some((b / 16) as u8));
        assert(spec_hex_val(spec_hex_digit((b % 16) as u8)) == Some((b % 16) as u8));
        assert(e.skip(2) =~= spec_hex_encode(data.drop_first()));
        assert((b / 16) * 16 + (b % 16) == b) by (nonlinear_arith);
        assert(seq![b] + data.drop_first() =~= data);
    }
}

} // verus!
