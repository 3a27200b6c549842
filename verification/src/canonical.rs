//! Canonical display form of a struct identity: the key handed to the
//! admissibility oracle. The form is
//! `0x<address hex, leading zeros trimmed>::<module name>::<struct name>`,
//! with `0x0` for the all-zero address.

use vstd::prelude::*;
use vstd::string::*;
use crate::types::StructIdentity;

verus! {

/// The hexadecimal digit character for a nibble value.
pub open spec fn spec_hex_char(n: u8) -> char {
    if n == 0 {
        '0'
    } else if n == 1 {
        '1'
    } else if n == 2 {
        '2'
    } else if n == 3 {
        '3'
    } else if n == 4 {
        '4'
    } else if n == 5 {
        '5'
    } else if n == 6 {
        '6'
    } else if n == 7 {
        '7'
    } else if n == 8 {
        '8'
    } else if n == 9 {
        '9'
    } else if n == 10 {
        'a'
    } else if n == 11 {
        'b'
    } else if n == 12 {
        'c'
    } else if n == 13 {
        'd'
    } else if n == 14 {
        'e'
    } else {
        'f'
    }
}

/// Full hexadecimal rendering of a byte sequence: two digits per byte, high
/// nibble first.
pub open spec fn spec_hex(bytes: Seq<u8>) -> Seq<char> {
    Seq::new(
        2 * bytes.len(),
        |i: int|
            if i % 2 == 0 {
                spec_hex_char(bytes[i / 2] / 16)
            } else {
                spec_hex_char(bytes[i / 2] % 16)
            },
    )
}

/// Drops every leading `'0'` character.
pub open spec fn spec_trim_zeros(s: Seq<char>) -> Seq<char>
    decreases s.len(),
{
    if s.len() > 0 && s[0] == '0' {
        spec_trim_zeros(s.subrange(1, s.len() as int))
    } else {
        s
    }
}

/// Short hexadecimal form of an address: leading zeros trimmed, a single
/// `'0'` when every digit is zero.
pub open spec fn spec_short_hex(bytes: Seq<u8>) -> Seq<char> {
    if spec_trim_zeros(spec_hex(bytes)).len() == 0 {
        seq!['0']
    } else {
        spec_trim_zeros(spec_hex(bytes))
    }
}

/// The canonical fully-qualified name of a struct identity.
pub open spec fn spec_canonical_name(id: StructIdentity) -> Seq<char> {
    seq!['0', 'x'] + spec_short_hex(id.module.address@) + seq![':', ':'] + id.module.name@
        + seq![':', ':'] + id.name@
}

/// Trimming a sequence whose first `k` characters are `'0'` and whose `k`-th
/// character (if any) is not keeps exactly the suffix from `k` on.
proof fn lemma_trim_is_suffix(s: Seq<char>, k: int)
    requires
        0 <= k <= s.len(),
        forall|j: int| 0 <= j < k ==> s[j] == '0',
        k < s.len() ==> s[k] != '0',
    ensures
        spec_trim_zeros(s) == s.subrange(k, s.len() as int),
    decreases k,
{
    if k == 0 {
        assert(s.subrange(0, s.len() as int) =~= s);
    } else {
        let t = s.subrange(1, s.len() as int);
        lemma_trim_is_suffix(t, k - 1);
        assert(t.subrange(k - 1, t.len() as int) =~= s.subrange(k, s.len() as int));
    }
}

/// A one-character string slice holding the hexadecimal digit of a nibble.
fn hex_digit_str(n: u8) -> (r: &'static str)
    requires
        n < 16,
    ensures
        r@ == seq![spec_hex_char(n)],
{
    let r: &'static str = if n == 0 {
        "0"
    } else if n == 1 {
        "1"
    } else if n == 2 {
        "2"
    } else if n == 3 {
        "3"
    } else if n == 4 {
        "4"
    } else if n == 5 {
        "5"
    } else if n == 6 {
        "6"
    } else if n == 7 {
        "7"
    } else if n == 8 {
        "8"
    } else if n == 9 {
        "9"
    } else if n == 10 {
        "a"
    } else if n == 11 {
        "b"
    } else if n == 12 {
        "c"
    } else if n == 13 {
        "d"
    } else if n == 14 {
        "e"
    } else {
        "f"
    };
    proof {
        reveal_strlit("0");
        reveal_strlit("1");
        reveal_strlit("2");
        reveal_strlit("3");
        reveal_strlit("4");
        reveal_strlit("5");
        reveal_strlit("6");
        reveal_strlit("7");
        reveal_strlit("8");
        reveal_strlit("9");
        reveal_strlit("a");
        reveal_strlit("b");
        reveal_strlit("c");
        reveal_strlit("d");
        reveal_strlit("e");
        reveal_strlit("f");
        assert(r@ =~= seq![spec_hex_char(n)]);
    }
    r
}

/// Renders an address in its short hexadecimal form, matching
/// `spec_short_hex`.
pub fn short_hex(bytes: &Vec<u8>) -> (r: String)
    ensures
        r@ == spec_short_hex(bytes@),
{
    let n = bytes.len();
    // Find the first byte that is not zero; everything before it renders as
    // `'0'` digits only.
    let mut p: usize = 0;
    while p < n && bytes[p] == 0
        invariant
            n == bytes@.len(),
            0 <= p <= n,
            forall|j: int| 0 <= j < p ==> bytes@[j] == 0u8,
        decreases n - p,
    {
        p += 1;
    }
    proof {
        assert forall|j: int| 0 <= j < 2 * p implies spec_hex(bytes@)[j] == '0' by {
            assert(bytes@[j / 2] == 0u8);
        }
    }
    if p == n {
        // Every digit is zero: the short form is a single `'0'`.
        proof {
            lemma_trim_is_suffix(spec_hex(bytes@), 2 * (n as int));
            assert(spec_trim_zeros(spec_hex(bytes@)).len() == 0);
        }
        let r = String::from_str("0");
        proof {
            reveal_strlit("0");
            assert(r@ =~= spec_short_hex(bytes@));
        }
        return r;
    }
    let b = bytes[p];
    let hi: u8 = b / 16;
    let lo: u8 = b % 16;
    proof {
        assert(hi < 16 && lo < 16 && b == 16 * hi + lo) by (nonlinear_arith)
            requires
                hi == b / 16,
                lo == b % 16,
                b < 256,
        ;
    }
    // The first nonzero digit sits at nibble position `f`.
    let ghost f: int = if hi != 0 {
        2 * (p as int)
    } else {
        2 * (p as int) + 1
    };
    let mut out = String::new();
    if hi != 0 {
        out.append(hex_digit_str(hi));
    }
    out.append(hex_digit_str(lo));
    proof {
        assert(out@ =~= spec_hex(bytes@).subrange(f, 2 * (p as int) + 2));
    }
    let mut i: usize = p + 1;
    while i < n
        invariant
            n == bytes@.len(),
            p < i <= n,
            0 <= f < 2 * (p as int) + 2,
            out@ == spec_hex(bytes@).subrange(f, 2 * (i as int)),
        decreases n - i,
    {
        let b2 = bytes[i];
        let hi2: u8 = b2 / 16;
        let lo2: u8 = b2 % 16;
        proof {
            assert(hi2 < 16 && lo2 < 16) by (nonlinear_arith)
                requires
                    hi2 == b2 / 16,
                    lo2 == b2 % 16,
                    b2 < 256,
            ;
        }
        out.append(hex_digit_str(hi2));
        out.append(hex_digit_str(lo2));
        proof {
            assert(out@ =~= spec_hex(bytes@).subrange(f, 2 * (i as int) + 2));
        }
        i += 1;
    }
    proof {
        assert(forall|j: int| 0 <= j < f ==> spec_hex(bytes@)[j] == '0');
        assert(spec_hex(bytes@)[f] != '0');
        lemma_trim_is_suffix(spec_hex(bytes@), f);
    }
    out
}

/// Renders the canonical fully-qualified name of a struct identity, the
/// exact key the admissibility oracle is queried with.
pub fn canonical_name(id: &StructIdentity) -> (r: String)
    ensures
        r@ == spec_canonical_name(*id),
{
    let mut out = String::from_str("0x");
    proof {
        reveal_strlit("0x");
        assert(out@ =~= seq!['0', 'x']);
    }
    let hex = short_hex(&id.module.address);
    out.append(hex.as_str());
    out.append("::");
    out.append(id.module.name.as_str());
    out.append("::");
    out.append(id.name.as_str());
    proof {
        reveal_strlit("::");
        assert("::"@ =~= seq![':', ':']);
        assert(out@ =~= spec_canonical_name(*id));
    }
    out
}

} // verus!
