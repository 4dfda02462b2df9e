//! Human-readable size formatting: two-decimal fixed point in KB, MB or GB,
//! the unit chosen by magnitude, rounding to the nearest hundredth with
//! ties to even.

use vstd::prelude::*;
use vstd::arithmetic::div_mod::lemma_fundamental_div_mod;
use vstd::arithmetic::mul::lemma_mul_inequality;
use crate::text::spec_dec;
use crate::text::u64_to_dec;
use vstd::string::StringExecFns;

verus! {

/// One mebibyte; sizes below it are shown in KB.
pub const MB_BYTES: u64 = 1048576;

/// Sizes from one thousand mebibytes on are shown in GB.
pub const GB_SHOW_BYTES: u64 = 1048576000;

/// One kibibyte.
pub const KB_BYTES: u64 = 1024;

/// One gibibyte.
pub const GB_BYTES: u64 = 1073741824;

/// `num/den` in hundredths, rounded to nearest with ties to even.
pub open spec fn spec_round_hundredths(num: int, den: int) -> int
    recommends
        den > 0,
{
    let q = num * 100 / den;
    let r = num * 100 % den;
    if 2 * r > den {
        q + 1
    } else if 2 * r < den {
        q
    } else if q % 2 == 0 {
        q
    } else {
        q + 1
    }
}

/// A fraction of hundredths, always two digits.
pub open spec fn spec_two_digits(frac: int) -> Seq<char>
    recommends
        0 <= frac < 100,
{
    if frac < 10 {
        "0"@ + spec_dec(frac)
    } else {
        spec_dec(frac)
    }
}

/// A count of hundredths written with two decimals: `12.05` for 1205.
pub open spec fn spec_fixed2(h: int) -> Seq<char>
    recommends
        h >= 0,
{
    spec_dec(h / 100) + "."@ + spec_two_digits(h % 100)
}

/// What `format_size` renders: KB below one MB, MB below a thousand MB,
/// GB beyond, each with two decimals and the unit name.
pub open spec fn spec_format_size(bytes: int) -> Seq<char> {
    if bytes < MB_BYTES {
        spec_fixed2(spec_round_hundredths(bytes, KB_BYTES as int)) + " KB"@
    } else if bytes < GB_SHOW_BYTES {
        spec_fixed2(spec_round_hundredths(bytes, MB_BYTES as int)) + " MB"@
    } else {
        spec_fixed2(spec_round_hundredths(bytes, GB_BYTES as int)) + " GB"@
    }
}

fn round_hundredths(bytes: u64, den: u64) -> (r: u64)
    requires
        den >= 1024,
    ensures
        r == spec_round_hundredths(bytes as int, den as int),
{
    let scaled: u128 = (bytes as u128) * 100;
    let d: u128 = den as u128;
    let q: u128 = scaled / d;
    let rem: u128 = scaled % d;
    proof {
        lemma_fundamental_div_mod(scaled as int, d as int);
        lemma_mul_inequality(1024, d as int, q as int);
        assert(1024 * (q as int) <= (d as int) * (q as int));
        assert(q < 0x2000_0000_0000_0000);
    }
    let up = if 2 * rem > d {
        true
    } else if 2 * rem < d {
        false
    } else {
        q % 2 == 1
    };
    if up {
        (q + 1) as u64
    } else {
        q as u64
    }
}

fn fixed2(h: u64) -> (r: String)
    ensures
        r@ == spec_fixed2(h as int),
{
    let whole = u64_to_dec(h / 100);
    let frac = h % 100;
    let frac_part = if frac < 10 {
        String::from_str("0").concat(u64_to_dec(frac).as_str())
    } else {
        u64_to_dec(frac)
    };
    let r = whole.concat(".").concat(frac_part.as_str());
    proof {
        assert(r@ =~= spec_fixed2(h as int));
    }
    r
}

/// Render a byte count for people: two decimals and a unit, KB under one
/// MB, MB under a thousand MB, GB from there on.
pub fn format_size(bytes: u64) -> (r: String)
    ensures
        r@ == spec_format_size(bytes as int),
{
    if bytes < MB_BYTES {
        fixed2(round_hundredths(bytes, KB_BYTES)).concat(" KB")
    } else if bytes < GB_SHOW_BYTES {
        fixed2(round_hundredths(bytes, MB_BYTES)).concat(" MB")
    } else {
        fixed2(round_hundredths(bytes, GB_BYTES)).concat(" GB")
    }
}

} // verus!
