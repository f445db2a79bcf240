use vstd::prelude::*;

verus! {

/// The locally persisted record of the last manifest version counter that a
/// sync applied successfully.
pub struct ManifestState {
    pub manifest_version: u32,
}

/// The decimal digits of `n`, most significant first, as ASCII bytes.
pub open spec fn spec_decimal(n: nat) -> Seq<u8>
    decreases n,
{
    if n < 10 {
        seq![(48 + n) as u8]
    } else {
        spec_decimal(n / 10).push((48 + n % 10) as u8)
    }
}

pub open spec fn spec_all_digits(s: Seq<u8>) -> bool {
    forall|i: int| 0 <= i < s.len() ==> 48 <= #[trigger] s[i] <= 57
}

/// The number that a digit string denotes.
pub open spec fn spec_digits_value(s: Seq<u8>) -> nat
    decreases s.len(),
{
    if s.len() == 0 {
        0
    } else {
        spec_digits_value(s.drop_last()) * 10 + (s.last() - 48) as nat
    }
}

/// What a digit string parses to as a `u32`: every byte must be a digit and
/// the value must fit.
pub open spec fn spec_parse_digits(s: Seq<u8>) -> Option<u32> {
    if s.len() == 0 || !spec_all_digits(s) {
        None
    } else if spec_digits_value(s) >= 0x1_0000_0000 {
        None
    } else {
        Some(spec_digits_value(s) as u32)
    }
}

pub proof fn lemma_decimal_all_digits(n: nat)
    ensures
        spec_decimal(n).len() >= 1,
        spec_all_digits(spec_decimal(n)),
    decreases n,
{
    if n >= 10 {
        lemma_decimal_all_digits(n / 10);
    }
}

pub proof fn lemma_decimal_value(n: nat)
    ensures
        spec_digits_value(spec_decimal(n)) == n,
    decreases n,
{
    if n < 10 {
        let s = spec_decimal(n);
        assert(s.drop_last() =~= Seq::<u8>::empty());
        assert(spec_digits_value(s.drop_last()) == 0);
        assert(s.last() == (48 + n) as u8);
        assert((s.last() - 48) as nat == n);
        assert(spec_digits_value(s) == n);
    } else {
        lemma_decimal_value(n / 10);
        let s = spec_decimal(n);
        assert(s.drop_last() =~= spec_decimal(n / 10));
        vstd::arithmetic::div_mod::lemma_fundamental_div_mod(n as int, 10);
        assert(s.last() == (48 + n % 10) as u8);
        assert((s.last() - 48) as nat == n % 10);
        assert(spec_digits_value(s) == spec_digits_value(spec_decimal(n / 10)) * 10 + n % 10);
        assert(n / 10 * 10 + n % 10 == n);
    }
}

/// A digit string's value only grows as digits are appended: the value of a
/// prefix never exceeds the value of the whole.
pub proof fn lemma_digits_value_prefix(s: Seq<u8>, i: int)
    requires
        0 <= i <= s.len(),
        spec_all_digits(s),
    ensures
        spec_digits_value(s.take(i)) <= spec_digits_value(s),
    decreases s.len() - i,
{
    if i < s.len() {
        lemma_digits_value_prefix(s, i + 1);
        let t = s.take(i + 1);
        assert(t.drop_last() =~= s.take(i));
        assert(spec_digits_value(s.take(i)) <= spec_digits_value(s.take(i)) * 10 + (t.last()
            - 48) as nat) by (nonlinear_arith);
    } else {
        assert(s.take(i) =~= s);
    }
}

/// Parses the digit run `s[start..end)` as a `u32`.
pub fn parse_u32_digits(s: &Vec<u8>, start: usize, end: usize) -> (r: Option<u32>)
    requires
        start <= end <= s@.len(),
    ensures
        r == spec_parse_digits(s@.subrange(start as int, end as int)),
{
    let ghost whole = s@.subrange(start as int, end as int);
    if start == end {
        return None;
    }
    let mut acc: u64 = 0;
    let mut i = start;
    while i < end
        invariant
            start <= i <= end <= s@.len(),
            end > start,
            whole == s@.subrange(start as int, end as int),
            spec_all_digits(whole.take(i - start)),
            acc == spec_digits_value(whole.take(i - start)),
            acc <= 0xffff_ffff,
        decreases end - i,
    {
        let b = s[i];
        if b < 48 || b > 57 {
            proof {
                assert(whole[i - start] == b);
            }
            return None;
        }
        acc = acc * 10 + ((b - 48) as u64);
        proof {
            assert(whole.take(i + 1 - start).drop_last() =~= whole.take(i - start));
            assert(whole.take(i + 1 - start).last() == b);
        }
        i = i + 1;
        if acc > 0xffff_ffff {
            proof {
                assert(whole.take(i - start) =~= whole.take(i - start));
                if spec_all_digits(whole) {
                    lemma_digits_value_prefix(whole, i - start);
                }
            }
            return None;
        }
    }
    proof {
        assert(whole.take(end - start) =~= whole);
    }
    Some(acc as u32)
}

/// The byte text `{"manifest_version":` that opens the state file.
pub open spec fn spec_state_prefix() -> Seq<u8> {
    seq![
        123u8,
        34u8,
        109u8,
        97u8,
        110u8,
        105u8,
        102u8,
        101u8,
        115u8,
        116u8,
        95u8,
        118u8,
        101u8,
        114u8,
        115u8,
        105u8,
        111u8,
        110u8,
        34u8,
        58u8,
    ]
}

/// The canonical byte form of the state file for counter `v`:
/// `{"manifest_version":<decimal v>}`.
pub open spec fn spec_state_bytes(v: u32) -> Seq<u8> {
    spec_state_prefix() + spec_decimal(v as nat) + seq![125u8]
}

/// What a state file's bytes decode to: the canonical shape, with any digit
/// run for the counter, or nothing.
pub open spec fn spec_parse_state(s: Seq<u8>) -> Option<u32> {
    if s.len() < 22 {
        None
    } else if s.subrange(0, 20) != spec_state_prefix() {
        None
    } else if s.last() != 125 {
        None
    } else {
        spec_parse_digits(s.subrange(20, s.len() - 1))
    }
}

impl ManifestState {
    /// Serializes the state to the canonical file bytes.
    pub fn encode(&self) -> (r: Vec<u8>)
        ensures
            r@ == spec_state_bytes(self.manifest_version),
    {
        let mut r: Vec<u8> = Vec::new();
        r.push(123);
        r.push(34);
        r.push(109);
        r.push(97);
        r.push(110);
        r.push(105);
        r.push(102);
        r.push(101);
        r.push(115);
        r.push(116);
        r.push(95);
        r.push(118);
        r.push(101);
        r.push(114);
        r.push(115);
        r.push(105);
        r.push(111);
        r.push(110);
        r.push(34);
        r.push(58);
        proof {
            assert(r@ =~= spec_state_prefix());
        }
        push_decimal(&mut r, self.manifest_version);
        r.push(125);
        proof {
            assert(r@ =~= spec_state_bytes(self.manifest_version));
        }
        r
    }

    /// Decodes a state file's bytes; an absent file counts as a fresh store
    /// holding counter 0.
    pub fn decode(content: Option<&Vec<u8>>) -> (r: Option<ManifestState>)
        ensures
            content is None ==> (r matches Some(st) && st.manifest_version == 0),
            content matches Some(bytes) ==> match spec_parse_state(bytes@) {
                Some(v) => r matches Some(st) && st.manifest_version == v,
                None => r is None,
            },
    {
        let bytes = match content {
            None => {
                return Some(ManifestState { manifest_version: 0 });
            },
            Some(b) => b,
        };
        let n = bytes.len();
        if n < 22 {
            return None;
        }
        let mut i: usize = 0;
        while i < 20
            invariant
                i <= 20,
                content == Some(bytes),
                n == bytes@.len(),
                n >= 22,
                forall|j: int| 0 <= j < i ==> bytes@[j] == spec_state_prefix()[j],
            decreases 20 - i,
        {
            proof {
                lemma_state_prefix_bytes(i as int);
            }
            if bytes[i] != state_prefix_byte(i) {
                proof {
                    assert(bytes@.subrange(0, 20)[i as int] != spec_state_prefix()[i as int]);
                }
                return None;
            }
            i = i + 1;
        }
        proof {
            assert(bytes@.subrange(0, 20) =~= spec_state_prefix());
        }
        if bytes[n - 1] != 125 {
            return None;
        }
        match parse_u32_digits(bytes, 20, n - 1) {
            Some(v) => Some(ManifestState { manifest_version: v }),
            None => None,
        }
    }
}

/// The `i`th byte of the state file's opening text.
pub fn state_prefix_byte(i: usize) -> (r: u8)
    requires
        i < 20,
    ensures
        r == spec_state_prefix()[i as int],
{
    let table: [u8; 20] = [
        123,
        34,
        109,
        97,
        110,
        105,
        102,
        101,
        115,
        116,
        95,
        118,
        101,
        114,
        115,
        105,
        111,
        110,
        34,
        58,
    ];
    let r = table[i];
    proof {
        lemma_state_prefix_bytes(i as int);
        assert(table@[i as int] == spec_state_prefix()[i as int]);
    }
    r
}

proof fn lemma_state_prefix_bytes(i: int)
    requires
        0 <= i < 20,
    ensures
        spec_state_prefix()[i] == seq![
            123u8,
            34u8,
            109u8,
            97u8,
            110u8,
            105u8,
            102u8,
            101u8,
            115u8,
            116u8,
            95u8,
            118u8,
            101u8,
            114u8,
            115u8,
            105u8,
            111u8,
            110u8,
            34u8,
            58u8,
        ][i],
{
}

/// Appends the decimal digits of `n` to `out`.
pub fn push_decimal(out: &mut Vec<u8>, n: u32)
    ensures
        final(out)@ == old(out)@ + spec_decimal(n as nat),
    decreases n,
{
    if n < 10 {
        out.push(48 + n as u8);
        proof {
            assert(out@ =~= old(out)@ + spec_decimal(n as nat));
        }
    } else {
        push_decimal(out, n / 10);
        out.push(48 + (n % 10) as u8);
        proof {
            assert(out@ =~= old(out)@ + spec_decimal(n as nat));
        }
    }
}

/// Encoding then decoding a counter gives the counter back.
pub proof fn lemma_state_round_trip(v: u32)
    ensures
        spec_parse_state(spec_state_bytes(v)) == Some(v),
{
    let s = spec_state_bytes(v);
    lemma_decimal_all_digits(v as nat);
    lemma_decimal_value(v as nat);
    assert(s.subrange(0, 20) =~= spec_state_prefix());
    assert(s.last() == 125);
    assert(s.subrange(20, s.len() - 1) =~= spec_decimal(v as nat));
}

} // verus!
