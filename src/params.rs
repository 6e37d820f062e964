use vstd::prelude::*;

verus! {

/// The tunable settings of a new pool.
#[derive(Clone, Copy, Debug, PartialEq, Eq)]
pub struct CustomizableParams {
    /// Trading fee numerator.
    pub trade_fee_numerator: u32,
    /// When the pool starts trading, if set.
    pub activation_point: Option<u64>,
    /// Whether the pool supports an alpha vault.
    pub has_alpha_vault: bool,
    /// How the activation point is read: by slot or by timestamp.
    pub activation_type: u8,
    /// Reserved bytes, kept as they are.
    pub padding: [u8; 90],
}

/// Little-endian bytes of a `u32`.
pub open spec fn u32_le(x: u32) -> Seq<u8> {
    seq![
        (x & 0xff) as u8,
        ((x >> 8u32) & 0xff) as u8,
        ((x >> 16u32) & 0xff) as u8,
        ((x >> 24u32) & 0xff) as u8,
    ]
}

/// Little-endian bytes of a `u64`.
pub open spec fn u64_le(x: u64) -> Seq<u8> {
    seq![
        (x & 0xff) as u8,
        ((x >> 8u64) & 0xff) as u8,
        ((x >> 16u64) & 0xff) as u8,
        ((x >> 24u64) & 0xff) as u8,
        ((x >> 32u64) & 0xff) as u8,
        ((x >> 40u64) & 0xff) as u8,
        ((x >> 48u64) & 0xff) as u8,
        ((x >> 56u64) & 0xff) as u8,
    ]
}

pub open spec fn bool_byte(b: bool) -> u8 {
    if b {
        1
    } else {
        0
    }
}

/// An optional `u64`: a presence byte, then the value if present.
pub open spec fn option_u64_bytes(o: Option<u64>) -> Seq<u8> {
    match o {
        None => seq![0u8],
        Some(x) => seq![1u8] + u64_le(x),
    }
}

/// The wire form of the settings: fee numerator, optional activation point,
/// alpha-vault flag, activation type, then the reserved bytes.
pub open spec fn params_bytes(p: CustomizableParams) -> Seq<u8> {
    u32_le(p.trade_fee_numerator) + option_u64_bytes(p.activation_point) + seq![
        bool_byte(p.has_alpha_vault),
        p.activation_type,
    ] + p.padding@
}

proof fn lemma_u32_le_injective(x: u32, y: u32)
    requires
        u32_le(x) == u32_le(y),
    ensures
        x == y,
{
    assert(u32_le(x)[0] == u32_le(y)[0] && u32_le(x)[1] == u32_le(y)[1] && u32_le(x)[2] == u32_le(
        y,
    )[2] && u32_le(x)[3] == u32_le(y)[3]);
    assert(x == y) by (bit_vector)
        requires
            (x & 0xff) as u8 == (y & 0xff) as u8,
            ((x >> 8u32) & 0xff) as u8 == ((y >> 8u32) & 0xff) as u8,
            ((x >> 16u32) & 0xff) as u8 == ((y >> 16u32) & 0xff) as u8,
            ((x >> 24u32) & 0xff) as u8 == ((y >> 24u32) & 0xff) as u8,
    ;
}

proof fn lemma_u64_le_injective(x: u64, y: u64)
    requires
        u64_le(x) == u64_le(y),
    ensures
        x == y,
{
    assert(forall|i: int| 0 <= i < 8 ==> u64_le(x)[i] == u64_le(y)[i]);
    assert(u64_le(x)[0] == u64_le(y)[0] && u64_le(x)[1] == u64_le(y)[1] && u64_le(x)[2] == u64_le(
        y,
    )[2] && u64_le(x)[3] == u64_le(y)[3] && u64_le(x)[4] == u64_le(y)[4] && u64_le(x)[5]
        == u64_le(y)[5] && u64_le(x)[6] == u64_le(y)[6] && u64_le(x)[7] == u64_le(y)[7]);
    assert(x == y) by (bit_vector)
        requires
            (x & 0xff) as u8 == (y & 0xff) as u8,
            ((x >> 8u64) & 0xff) as u8 == ((y >> 8u64) & 0xff) as u8,
            ((x >> 16u64) & 0xff) as u8 == ((y >> 16u64) & 0xff) as u8,
            ((x >> 24u64) & 0xff) as u8 == ((y >> 24u64) & 0xff) as u8,
            ((x >> 32u64) & 0xff) as u8 == ((y >> 32u64) & 0xff) as u8,
            ((x >> 40u64) & 0xff) as u8 == ((y >> 40u64) & 0xff) as u8,
            ((x >> 48u64) & 0xff) as u8 == ((y >> 48u64) & 0xff) as u8,
            ((x >> 56u64) & 0xff) as u8 == ((y >> 56u64) & 0xff) as u8,
    ;
}

/// Distinct settings have distinct wire forms.
pub proof fn lemma_params_bytes_injective(p: CustomizableParams, q: CustomizableParams)
    requires
        params_bytes(p) == params_bytes(q),
    ensures
        p == q,
{
    broadcast use vstd::array::axiom_array_ext_equal;

    let bp = params_bytes(p);
    let bq = params_bytes(q);
    assert(bp.subrange(0, 4) =~= u32_le(p.trade_fee_numerator));
    assert(bq.subrange(0, 4) =~= u32_le(q.trade_fee_numerator));
    lemma_u32_le_injective(p.trade_fee_numerator, q.trade_fee_numerator);
    assert(bp[4] == option_u64_bytes(p.activation_point)[0]);
    assert(bq[4] == option_u64_bytes(q.activation_point)[0]);
    let n = bp.len() as int;
    assert(p.padding@ =~= bp.subrange(n - 90, n));
    assert(q.padding@ =~= bq.subrange(n - 90, n));
    assert(p.padding =~= q.padding);
    assert(bp[n - 92] == bool_byte(p.has_alpha_vault));
    assert(bq[n - 92] == bool_byte(q.has_alpha_vault));
    assert(bp[n - 91] == p.activation_type);
    assert(bq[n - 91] == q.activation_type);
    match (p.activation_point, q.activation_point) {
        (Some(x), Some(y)) => {
            assert(bp.subrange(5, 13) =~= u64_le(x));
            assert(bq.subrange(5, 13) =~= u64_le(y));
            lemma_u64_le_injective(x, y);
        },
        _ => {},
    }
}

fn u64_from_le(b: &Vec<u8>, at: usize) -> (r: u64)
    requires
        at + 8 <= b.len(),
    ensures
        u64_le(r) == b@.subrange(at as int, at + 8),
{
    let (b0, b1, b2, b3) = (b[at], b[at + 1], b[at + 2], b[at + 3]);
    let (b4, b5, b6, b7) = (b[at + 4], b[at + 5], b[at + 6], b[at + 7]);
    let r = (b0 as u64) | ((b1 as u64) << 8u64) | ((b2 as u64) << 16u64) | ((b3 as u64) << 24u64)
        | ((b4 as u64) << 32u64) | ((b5 as u64) << 40u64) | ((b6 as u64) << 48u64) | ((b7 as u64)
        << 56u64);
    assert((r & 0xff) as u8 == b0 && ((r >> 8u64) & 0xff) as u8 == b1 && ((r >> 16u64) & 0xff) as u8
        == b2 && ((r >> 24u64) & 0xff) as u8 == b3 && ((r >> 32u64) & 0xff) as u8 == b4 && ((r
        >> 40u64) & 0xff) as u8 == b5 && ((r >> 48u64) & 0xff) as u8 == b6 && ((r >> 56u64) & 0xff) as u8
        == b7) by (bit_vector)
        requires
            r == (b0 as u64) | ((b1 as u64) << 8u64) | ((b2 as u64) << 16u64) | ((b3 as u64)
                << 24u64) | ((b4 as u64) << 32u64) | ((b5 as u64) << 40u64) | ((b6 as u64) << 48u64)
                | ((b7 as u64) << 56u64),
    ;
    assert(u64_le(r) =~= b@.subrange(at as int, at + 8));
    r
}

fn u32_from_le(b0: u8, b1: u8, b2: u8, b3: u8) -> (r: u32)
    ensures
        u32_le(r) == seq![b0, b1, b2, b3],
{
    let r = (b0 as u32) | ((b1 as u32) << 8u32) | ((b2 as u32) << 16u32) | ((b3 as u32) << 24u32);
    assert((r & 0xff) as u8 == b0 && ((r >> 8u32) & 0xff) as u8 == b1 && ((r >> 16u32) & 0xff) as u8
        == b2 && ((r >> 24u32) & 0xff) as u8 == b3) by (bit_vector)
        requires
            r == (b0 as u32) | ((b1 as u32) << 8u32) | ((b2 as u32) << 16u32) | ((b3 as u32)
                << 24u32),
    ;
    assert(u32_le(r) =~= seq![b0, b1, b2, b3]);
    r
}

proof fn lemma_params_bytes_shape(p: CustomizableParams)
    ensures
        params_bytes(p).len() == if p.activation_point is Some {
            105int
        } else {
            97int
        },
        params_bytes(p)[4] == if p.activation_point is Some {
            1u8
        } else {
            0u8
        },
        params_bytes(p)[params_bytes(p).len() - 92] <= 1,
{
}

impl CustomizableParams {
    /// The wire form of the settings.
    pub fn encode(&self) -> (r: Vec<u8>)
        ensures
            r@ == params_bytes(*self),
    {
        let x = self.trade_fee_numerator;
        let mut r: Vec<u8> = Vec::new();
        r.push((x & 0xff) as u8);
        r.push(((x >> 8u32) & 0xff) as u8);
        r.push(((x >> 16u32) & 0xff) as u8);
        r.push(((x >> 24u32) & 0xff) as u8);
        match self.activation_point {
            None => r.push(0u8),
            Some(y) => {
                r.push(1u8);
                r.push((y & 0xff) as u8);
                r.push(((y >> 8u64) & 0xff) as u8);
                r.push(((y >> 16u64) & 0xff) as u8);
                r.push(((y >> 24u64) & 0xff) as u8);
                r.push(((y >> 32u64) & 0xff) as u8);
                r.push(((y >> 40u64) & 0xff) as u8);
                r.push(((y >> 48u64) & 0xff) as u8);
                r.push(((y >> 56u64) & 0xff) as u8);
            },
        }
        r.push(if self.has_alpha_vault {
            1u8
        } else {
            0u8
        });
        r.push(self.activation_type);
        let ghost head = r@;
        assert(head =~= u32_le(x) + option_u64_bytes(self.activation_point) + seq![
            bool_byte(self.has_alpha_vault),
            self.activation_type,
        ]);
        let mut i: usize = 0;
        while i < 90
            invariant
                0 <= i <= 90,
                r@ == head + self.padding@.subrange(0, i as int),
            decreases 90 - i,
        {
            r.push(self.padding[i]);
            i = i + 1;
            assert(r@ =~= head + self.padding@.subrange(0, i as int));
        }
        assert(self.padding@.subrange(0, 90) =~= self.padding@);
        r
    }

    /// Reads settings from their wire form; `None` unless the bytes are
    /// exactly the wire form of some settings.
    pub fn decode(bytes: &Vec<u8>) -> (r: Option<CustomizableParams>)
        ensures
            r matches Some(p) ==> params_bytes(p) == bytes@,
            forall|p: CustomizableParams| params_bytes(p) == bytes@ ==> r == Some(p),
    {
        let n = bytes.len();
        if n < 97 {
            proof {
                assert forall|p: CustomizableParams| params_bytes(p) != bytes@ by {
                    lemma_params_bytes_shape(p);
                }
            }
            return None;
        }
        let tag = bytes[4];
        let point: Option<u64>;
        let rest: usize;
        if tag == 0 {
            point = None;
            rest = 5;
        } else if tag == 1 && n >= 105 {
            point = Some(u64_from_le(bytes, 5));
            rest = 13;
        } else {
            proof {
                assert forall|p: CustomizableParams| params_bytes(p) != bytes@ by {
                    lemma_params_bytes_shape(p);
                }
            }
            return None;
        }
        if n != rest + 92 || bytes[rest] > 1 {
            proof {
                assert forall|p: CustomizableParams| params_bytes(p) != bytes@ by {
                    lemma_params_bytes_shape(p);
                }
            }
            return None;
        }
        let has_alpha_vault = bytes[rest] == 1;
        let activation_type = bytes[rest + 1];
        let start: usize = rest + 2;
        let mut padding = [0u8; 90];
        let mut i: usize = 0;
        while i < 90
            invariant
                0 <= i <= 90,
                n == bytes@.len(),
                n == rest + 92,
                start == rest + 2,
                forall|j: int| 0 <= j < i ==> padding@[j] == bytes@[start + j],
            decreases 90 - i,
        {
            padding[i] = bytes[start + i];
            i = i + 1;
        }
        let trade_fee_numerator = u32_from_le(bytes[0], bytes[1], bytes[2], bytes[3]);
        let p = CustomizableParams {
            trade_fee_numerator,
            activation_point: point,
            has_alpha_vault,
            activation_type,
            padding,
        };
        proof {
            assert(bytes@.subrange(0, 4) =~= seq![bytes@[0], bytes@[1], bytes@[2], bytes@[3]]);
            assert(bytes@.subrange(rest + 2, n as int) =~= padding@);
            assert(option_u64_bytes(point) =~= bytes@.subrange(4, rest as int));
            assert(bytes@ =~= bytes@.subrange(0, 4) + bytes@.subrange(4, rest as int) + seq![
                bytes@[rest as int],
                bytes@[rest + 1],
            ] + bytes@.subrange(rest + 2, n as int));
            assert(params_bytes(p) =~= bytes@);
            assert forall|q: CustomizableParams| params_bytes(q) == bytes@ implies Some(p) == Some(
                q,
            ) by {
                lemma_params_bytes_injective(p, q);
            }
        }
        Some(p)
    }
}

} // verus!
