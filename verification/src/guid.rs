//! Class identifiers of the text service and their registry spelling.
use vstd::prelude::*;
use crate::text::{hex_char, hex_fixed, push_char, push_hex};

verus! {

/// A 128-bit class identifier, laid out as Windows lays out a `GUID`.
#[derive(Clone, Copy)]
pub struct Guid {
    pub data1: u32,
    pub data2: u16,
    pub data3: u16,
    pub data4: [u8; 8],
}

/// Byte `i` (0 = most significant) of the low 64 bits of `u`.
pub open spec fn low_byte_be(u: u128, i: int) -> u8 {
    ((u >> ((8 * (7 - i)) as u128)) & 0xff) as u8
}

/// The identifier whose 128-bit big-endian reading is `u`.
pub open spec fn guid_from_u128(u: u128) -> (u32, u16, u16, Seq<u8>) {
    (
        (u >> 96u128) as u32,
        ((u >> 80u128) & 0xffff) as u16,
        ((u >> 64u128) & 0xffff) as u16,
        Seq::new(8, |i: int| low_byte_be(u, i)),
    )
}

impl Guid {
    /// The fields of the identifier as plain values.
    pub open spec fn parts(self) -> (u32, u16, u16, Seq<u8>) {
        (self.data1, self.data2, self.data3, self.data4@)
    }

    /// Builds an identifier from its 128-bit value, most significant part first.
    pub fn from_u128(u: u128) -> (g: Guid)
        ensures
            g.parts() == guid_from_u128(u),
    {
        let lo: u64 = u as u64;
        let g = Guid {
            data1: (u >> 96u128) as u32,
            data2: ((u >> 80u128) & 0xffff) as u16,
            data3: ((u >> 64u128) & 0xffff) as u16,
            data4: [
                (lo >> 56u64) as u8,
                (lo >> 48u64) as u8,
                (lo >> 40u64) as u8,
                (lo >> 32u64) as u8,
                (lo >> 24u64) as u8,
                (lo >> 16u64) as u8,
                (lo >> 8u64) as u8,
                lo as u8,
            ],
        };
        proof {
            assert((lo >> 56u64) as u8 == ((u >> 56u128) & 0xff) as u8) by (bit_vector)
                requires lo == u as u64;
            assert((lo >> 48u64) as u8 == ((u >> 48u128) & 0xff) as u8) by (bit_vector)
                requires lo == u as u64;
            assert((lo >> 40u64) as u8 == ((u >> 40u128) & 0xff) as u8) by (bit_vector)
                requires lo == u as u64;
            assert((lo >> 32u64) as u8 == ((u >> 32u128) & 0xff) as u8) by (bit_vector)
                requires lo == u as u64;
            assert((lo >> 24u64) as u8 == ((u >> 24u128) & 0xff) as u8) by (bit_vector)
                requires lo == u as u64;
            assert((lo >> 16u64) as u8 == ((u >> 16u128) & 0xff) as u8) by (bit_vector)
                requires lo == u as u64;
            assert((lo >> 8u64) as u8 == ((u >> 8u128) & 0xff) as u8) by (bit_vector)
                requires lo == u as u64;
            assert(lo as u8 == ((u >> 0u128) & 0xff) as u8) by (bit_vector)
                requires lo == u as u64;
            assert(g.data4@ =~= Seq::new(8, |i: int| low_byte_be(u, i)));
        }
        g
    }

    /// Whether two identifiers are the same.
    pub fn same_as(&self, other: &Guid) -> (r: bool)
        ensures
            r == (self.parts() == other.parts()),
    {
        let mut i: usize = 0;
        let mut same = self.data1 == other.data1 && self.data2 == other.data2
            && self.data3 == other.data3;
        while i < 8
            invariant
                0 <= i <= 8,
                same == (self.data1 == other.data1 && self.data2 == other.data2
                    && self.data3 == other.data3
                    && forall|j: int| 0 <= j < i ==> self.data4[j] == other.data4[j]),
            decreases 8 - i,
        {
            same = same && self.data4[i] == other.data4[i];
            i = i + 1;
        }
        proof {
            if same {
                assert(self.data4@ =~= other.data4@);
            }
        }
        same
    }
}

/// The class identifier of the Lexi text service.
pub fn clsid_lexi_ime() -> (g: Guid)
    ensures
        g.parts() == guid_from_u128(0x12340001_0000_0000_C000_000000000046u128),
{
    Guid::from_u128(0x12340001_0000_0000_C000_000000000046u128)
}

/// The identifier of the Lexi language profile.
pub fn guid_lexi_profile() -> (g: Guid)
    ensures
        g.parts() == guid_from_u128(0x12340001_0000_0000_C000_000000000047u128),
{
    Guid::from_u128(0x12340001_0000_0000_C000_000000000047u128)
}

/// The registry spelling of an identifier: upper-case hexadecimal in the
/// groups 8-4-4-4-12, between braces.
pub open spec fn guid_text(p: (u32, u16, u16, Seq<u8>)) -> Seq<char> {
    seq!['{'] + hex_fixed(p.0 as nat, 8) + seq!['-'] + hex_fixed(p.1 as nat, 4) + seq!['-']
        + hex_fixed(p.2 as nat, 4) + seq!['-'] + hex_fixed(p.3[0] as nat, 2) + hex_fixed(
        p.3[1] as nat,
        2,
    ) + seq!['-'] + hex_fixed(p.3[2] as nat, 2) + hex_fixed(p.3[3] as nat, 2) + hex_fixed(
        p.3[4] as nat,
        2,
    ) + hex_fixed(p.3[5] as nat, 2) + hex_fixed(p.3[6] as nat, 2) + hex_fixed(p.3[7] as nat, 2)
        + seq!['}']
}

/// Renders an identifier as the registry spells it, e.g.
/// `{12340001-0000-0000-C000-000000000046}`.
pub fn clsid_to_string(clsid: &Guid) -> (r: String)
    ensures
        r@ == guid_text(clsid.parts()),
{
    let mut s = String::new();
    push_char(&mut s, '{');
    push_hex(&mut s, clsid.data1 as u64, 8);
    push_char(&mut s, '-');
    push_hex(&mut s, clsid.data2 as u64, 4);
    push_char(&mut s, '-');
    push_hex(&mut s, clsid.data3 as u64, 4);
    push_char(&mut s, '-');
    push_hex(&mut s, clsid.data4[0] as u64, 2);
    push_hex(&mut s, clsid.data4[1] as u64, 2);
    push_char(&mut s, '-');
    let mut i: usize = 2;
    while i < 8
        invariant
            2 <= i <= 8,
            s@ == seq!['{'] + hex_fixed(clsid.data1 as nat, 8) + seq!['-'] + hex_fixed(
                clsid.data2 as nat,
                4,
            ) + seq!['-'] + hex_fixed(clsid.data3 as nat, 4) + seq!['-'] + hex_fixed(
                clsid.data4[0] as nat,
                2,
            ) + hex_fixed(clsid.data4[1] as nat, 2) + seq!['-'] + tail_hex(clsid.data4@, i as int),
        decreases 8 - i,
    {
        let ghost before = s@;
        push_hex(&mut s, clsid.data4[i] as u64, 2);
        assert(tail_hex(clsid.data4@, i + 1) =~= tail_hex(clsid.data4@, i as int) + hex_fixed(
            clsid.data4@[i as int] as nat,
            2,
        ));
        i = i + 1;
    }
    push_char(&mut s, '}');
    proof {
        let d = clsid.data4@;
        assert(tail_hex(d, 8) =~= hex_fixed(d[2] as nat, 2) + hex_fixed(d[3] as nat, 2)
            + hex_fixed(d[4] as nat, 2) + hex_fixed(d[5] as nat, 2) + hex_fixed(d[6] as nat, 2)
            + hex_fixed(d[7] as nat, 2)) by {
            reveal_with_fuel(tail_hex, 7);
        }
        assert(s@ =~= guid_text(clsid.parts()));
    }
    s
}

/// The hexadecimal digits of bytes `2..end` of the last group.
pub open spec fn tail_hex(d: Seq<u8>, end: int) -> Seq<char>
    decreases end,
{
    if end <= 2 {
        seq![]
    } else {
        tail_hex(d, end - 1) + hex_fixed(d[end - 1] as nat, 2)
    }
}


/// 16 to the power `n`.
pub open spec fn pow16(n: nat) -> nat
    decreases n,
{
    if n == 0 {
        1
    } else {
        16 * pow16((n - 1) as nat)
    }
}

/// Whether a character is an upper-case hexadecimal digit.
pub open spec fn is_upper_hex(c: char) -> bool {
    (48 <= (c as int) && (c as int) <= 57) || (65 <= (c as int) && (c as int) <= 70)
}

/// The 128-bit value of an identifier: `data1`, `data2`, `data3` and the
/// eight bytes of `data4`, most significant first.
pub open spec fn guid_value(p: (u32, u16, u16, Seq<u8>)) -> nat {
    let d = p.3;
    let v1: nat = p.0 as nat * 65536 + p.1 as nat;
    let v2: nat = v1 * 65536 + p.2 as nat;
    let v3: nat = v2 * 256 + d[0] as nat;
    let v4: nat = v3 * 256 + d[1] as nat;
    let v5: nat = v4 * 256 + d[2] as nat;
    let v6: nat = v5 * 256 + d[3] as nat;
    let v7: nat = v6 * 256 + d[4] as nat;
    let v8: nat = v7 * 256 + d[5] as nat;
    let v9: nat = v8 * 256 + d[6] as nat;
    v9 * 256 + d[7] as nat
}

/// The 32 hexadecimal digits of an identifier's registry spelling, without
/// its braces and dashes.
pub open spec fn guid_digits(p: (u32, u16, u16, Seq<u8>)) -> Seq<char> {
    hex_fixed(p.0 as nat, 8) + hex_fixed(p.1 as nat, 4) + hex_fixed(p.2 as nat, 4) + hex_fixed(
        p.3[0] as nat,
        2,
    ) + hex_fixed(p.3[1] as nat, 2) + hex_fixed(p.3[2] as nat, 2) + hex_fixed(p.3[3] as nat, 2)
        + hex_fixed(p.3[4] as nat, 2) + hex_fixed(p.3[5] as nat, 2) + hex_fixed(p.3[6] as nat, 2)
        + hex_fixed(p.3[7] as nat, 2)
}

proof fn lemma_hex_fixed_digits(v: nat, w: nat)
    ensures
        hex_fixed(v, w).len() == w,
        forall|k: int| 0 <= k < w ==> is_upper_hex(#[trigger] hex_fixed(v, w)[k]),
    decreases w,
{
    if w > 0 {
        lemma_hex_fixed_digits(v / 16, (w - 1) as nat);
        let d = (v % 16) as int;
        assert(is_upper_hex(hex_char(d)));
        let h = hex_fixed(v, w);
        assert forall|k: int| 0 <= k < w implies is_upper_hex(#[trigger] h[k]) by {
            if k < w - 1 {
                assert(h[k] == hex_fixed(v / 16, (w - 1) as nat)[k]);
            }
        }
    }
}

proof fn lemma_hex_fixed_split(a: nat, b: nat, w1: nat, w2: nat)
    requires
        b < pow16(w2),
    ensures
        hex_fixed(a * pow16(w2) + b, w1 + w2) == hex_fixed(a, w1) + hex_fixed(b, w2),
    decreases w2,
{
    if w2 == 0 {
        assert(hex_fixed(a, w1) + hex_fixed(b, 0) =~= hex_fixed(a, w1));
    } else {
        let q = pow16((w2 - 1) as nat);
        let x: nat = a * q;
        assert(a * pow16(w2) == 16 * x) by (nonlinear_arith)
            requires
                pow16(w2) == 16 * q,
                x == a * q,
        ;
        let v: nat = 16 * x + b;
        assert(v / 16 == x + b / 16 && v % 16 == b % 16) by (nonlinear_arith)
            requires
                v == 16 * x + b,
        ;
        assert(b / 16 < q) by (nonlinear_arith)
            requires
                b < 16 * q,
        ;
        lemma_hex_fixed_split(a, b / 16, w1, (w2 - 1) as nat);
        assert(hex_fixed(a, w1) + hex_fixed(b, w2) =~= (hex_fixed(a, w1) + hex_fixed(
            b / 16,
            (w2 - 1) as nat,
        )).push(hex_char((b % 16) as int)));
    }
}

/// The registry spelling of any identifier has the fixed shape of a class
/// identifier: 38 characters, braces at both ends, dashes at positions 9,
/// 14, 19 and 24 and upper-case hexadecimal digits everywhere else; read
/// without braces and dashes, its digits are the identifier's 128-bit value
/// in hexadecimal, zero-padded to 32 digits.
pub proof fn lemma_guid_text_shape(p: (u32, u16, u16, Seq<u8>))
    requires
        p.3.len() == 8,
    ensures
        guid_text(p).len() == 38,
        guid_text(p)[0] == '{',
        guid_text(p)[37] == '}',
        guid_text(p)[9] == '-',
        guid_text(p)[14] == '-',
        guid_text(p)[19] == '-',
        guid_text(p)[24] == '-',
        forall|k: int|
            0 <= k < 38 && k != 0 && k != 9 && k != 14 && k != 19 && k != 24 && k != 37
                ==> is_upper_hex(#[trigger] guid_text(p)[k]),
        guid_text(p) == seq!['{'] + guid_digits(p).subrange(0, 8) + seq!['-'] + guid_digits(
            p,
        ).subrange(8, 12) + seq!['-'] + guid_digits(p).subrange(12, 16) + seq!['-'] + guid_digits(
            p,
        ).subrange(16, 20) + seq!['-'] + guid_digits(p).subrange(20, 32) + seq!['}'],
        guid_digits(p) == hex_fixed(guid_value(p), 32),
{
    let d = p.3;
    let h0 = hex_fixed(p.0 as nat, 8);
    let h1 = hex_fixed(p.1 as nat, 4);
    let h2 = hex_fixed(p.2 as nat, 4);
    let e0 = hex_fixed(d[0] as nat, 2);
    let e1 = hex_fixed(d[1] as nat, 2);
    let e2 = hex_fixed(d[2] as nat, 2);
    let e3 = hex_fixed(d[3] as nat, 2);
    let e4 = hex_fixed(d[4] as nat, 2);
    let e5 = hex_fixed(d[5] as nat, 2);
    let e6 = hex_fixed(d[6] as nat, 2);
    let e7 = hex_fixed(d[7] as nat, 2);
    lemma_hex_fixed_digits(p.0 as nat, 8);
    lemma_hex_fixed_digits(p.1 as nat, 4);
    lemma_hex_fixed_digits(p.2 as nat, 4);
    lemma_hex_fixed_digits(d[0] as nat, 2);
    lemma_hex_fixed_digits(d[1] as nat, 2);
    lemma_hex_fixed_digits(d[2] as nat, 2);
    lemma_hex_fixed_digits(d[3] as nat, 2);
    lemma_hex_fixed_digits(d[4] as nat, 2);
    lemma_hex_fixed_digits(d[5] as nat, 2);
    lemma_hex_fixed_digits(d[6] as nat, 2);
    lemma_hex_fixed_digits(d[7] as nat, 2);
    let g = guid_digits(p);
    let t = guid_text(p);
    assert(g =~= h0 + h1 + h2 + e0 + e1 + e2 + e3 + e4 + e5 + e6 + e7);
    assert(t =~= seq!['{'] + g.subrange(0, 8) + seq!['-'] + g.subrange(8, 12) + seq!['-']
        + g.subrange(12, 16) + seq!['-'] + g.subrange(16, 20) + seq!['-'] + g.subrange(20, 32)
        + seq!['}']);
    assert forall|k: int| 0 <= k < 32 implies is_upper_hex(#[trigger] g[k]) by {
        if k < 8 {
            assert(g[k] == h0[k]);
        } else if k < 12 {
            assert(g[k] == h1[k - 8]);
        } else if k < 16 {
            assert(g[k] == h2[k - 12]);
        } else if k < 18 {
            assert(g[k] == e0[k - 16]);
        } else if k < 20 {
            assert(g[k] == e1[k - 18]);
        } else if k < 22 {
            assert(g[k] == e2[k - 20]);
        } else if k < 24 {
            assert(g[k] == e3[k - 22]);
        } else if k < 26 {
            assert(g[k] == e4[k - 24]);
        } else if k < 28 {
            assert(g[k] == e5[k - 26]);
        } else if k < 30 {
            assert(g[k] == e6[k - 28]);
        } else {
            assert(g[k] == e7[k - 30]);
        }
    }
    assert forall|k: int|
        0 <= k < 38 && k != 0 && k != 9 && k != 14 && k != 19 && k != 24 && k != 37 implies is_upper_hex(
        #[trigger] t[k],
    ) by {
        if k < 9 {
            assert(t[k] == g[k - 1]);
        } else if k < 14 {
            assert(t[k] == g[k - 2]);
        } else if k < 19 {
            assert(t[k] == g[k - 3]);
        } else if k < 24 {
            assert(t[k] == g[k - 4]);
        } else {
            assert(t[k] == g[k - 5]);
        }
    }
    // The digits, joined piece by piece, are the digits of the value.
    assert(pow16(2) == 256 && pow16(4) == 65536) by {
        reveal_with_fuel(pow16, 5);
    }
    let v1: nat = p.0 as nat * 65536 + p.1 as nat;
    lemma_hex_fixed_split(p.0 as nat, p.1 as nat, 8, 4);
    let v2: nat = v1 * 65536 + p.2 as nat;
    lemma_hex_fixed_split(v1, p.2 as nat, 12, 4);
    let v3: nat = v2 * 256 + d[0] as nat;
    lemma_hex_fixed_split(v2, d[0] as nat, 16, 2);
    let v4: nat = v3 * 256 + d[1] as nat;
    lemma_hex_fixed_split(v3, d[1] as nat, 18, 2);
    let v5: nat = v4 * 256 + d[2] as nat;
    lemma_hex_fixed_split(v4, d[2] as nat, 20, 2);
    let v6: nat = v5 * 256 + d[3] as nat;
    lemma_hex_fixed_split(v5, d[3] as nat, 22, 2);
    let v7: nat = v6 * 256 + d[4] as nat;
    lemma_hex_fixed_split(v6, d[4] as nat, 24, 2);
    let v8: nat = v7 * 256 + d[5] as nat;
    lemma_hex_fixed_split(v7, d[5] as nat, 26, 2);
    let v9: nat = v8 * 256 + d[6] as nat;
    lemma_hex_fixed_split(v8, d[6] as nat, 28, 2);
    lemma_hex_fixed_split(v9, d[7] as nat, 30, 2);
    assert(g =~= hex_fixed(guid_value(p), 32));
}


proof fn lemma_word_steps(u: u128)
    by (bit_vector)
    ensures
        (u >> 96u128) * 65536 + ((u >> 80u128) & 0xffff) == u >> 80u128,
        (u >> 80u128) * 65536 + ((u >> 64u128) & 0xffff) == u >> 64u128,
        ((u >> 96u128) as u32) as u128 == u >> 96u128,
        (((u >> 80u128) & 0xffff) as u16) as u128 == (u >> 80u128) & 0xffff,
        (((u >> 64u128) & 0xffff) as u16) as u128 == (u >> 64u128) & 0xffff,
{
}

proof fn lemma_byte_step(u: u128, s: u128)
    by (bit_vector)
    requires
        8 <= s <= 64,
    ensures
        (u >> s) * 256 + ((u >> ((s - 8) as u128)) & 0xff) == u >> ((s - 8) as u128),
        (((u >> ((s - 8) as u128)) & 0xff) as u8) as u128 == (u >> ((s - 8) as u128)) & 0xff,
{
}

/// The identifier built from a 128-bit value has that value: reading its
/// fields back, most significant first, gives the value again.
pub proof fn lemma_guid_value_from_u128(u: u128)
    ensures
        guid_value(guid_from_u128(u)) == u,
{
    let p = guid_from_u128(u);
    let d = p.3;
    lemma_word_steps(u);
    lemma_byte_step(u, 64);
    lemma_byte_step(u, 56);
    lemma_byte_step(u, 48);
    lemma_byte_step(u, 40);
    lemma_byte_step(u, 32);
    lemma_byte_step(u, 24);
    lemma_byte_step(u, 16);
    lemma_byte_step(u, 8);
    assert(d[0] == low_byte_be(u, 0) && d[7] == low_byte_be(u, 7));
    assert(d[1] == low_byte_be(u, 1) && d[2] == low_byte_be(u, 2) && d[3] == low_byte_be(u, 3));
    assert(d[4] == low_byte_be(u, 4) && d[5] == low_byte_be(u, 5) && d[6] == low_byte_be(u, 6));
    assert(u >> 0u128 == u) by (bit_vector);
}

} // verus!
